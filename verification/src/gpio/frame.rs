//! How a buffer read from the link is cut into packets.
//!
//! One read may hold several packets, one behind the other. The buffer is walked from
//! header to header; it is refused if it ends inside a packet.

use crate::gpio::packet::byte;
use crate::gpio::packet::DecodeError;
use crate::gpio::packet::HEADER_SIZE;
use crate::outside::bytes_take;
use vstd::prelude::*;

verus! {

/// A packet: a header, and as many bytes behind it as its length byte says.
pub open spec fn is_packet(bytes: Seq<u8>) -> bool {
    bytes.len() >= HEADER_SIZE && bytes.len() - HEADER_SIZE == bytes[1]
}

/// The packets of a buffer, in the order in which they stand in it.
pub open spec fn spec_split(input: Seq<u8>) -> Result<Seq<Seq<u8>>, DecodeError>
    decreases input.len(),
{
    if input.len() == 0 {
        Ok(Seq::empty())
    } else if input.len() < HEADER_SIZE || input.len() - HEADER_SIZE < input[1] {
        Err(DecodeError::Eof)
    } else {
        let size = HEADER_SIZE + input[1];
        match spec_split(input.skip(size)) {
            Ok(packets) => Ok(seq![input.take(size)] + packets),
            Err(e) => Err(e),
        }
    }
}

/// The packets that were cut off a buffer, followed by those of the rest of it.
pub open spec fn followed_by(
    packets: Seq<Seq<u8>>,
    rest: Result<Seq<Seq<u8>>, DecodeError>,
) -> Result<Seq<Seq<u8>>, DecodeError> {
    match rest {
        Ok(more) => Ok(packets + more),
        Err(e) => Err(e),
    }
}

/// The packets as sequences of bytes.
pub open spec fn views(packets: Seq<Vec<u8>>) -> Seq<Seq<u8>> {
    packets.map_values(|packet: Vec<u8>| packet@)
}

/// Cuts a buffer into its packets.
pub fn split(input: &[u8]) -> (r: Result<Vec<Vec<u8>>, DecodeError>)
    ensures
        match r {
            Ok(packets) => spec_split(input@) == Ok::<_, DecodeError>(views(packets@)),
            Err(e) => spec_split(input@) == Err::<Seq<Seq<u8>>, _>(e),
        },
{
    let mut packets: Vec<Vec<u8>> = Vec::new();
    let mut remaining = input;

    while remaining.len() > 0
        invariant
            spec_split(input@) == followed_by(views(packets@), spec_split(remaining@)),
        decreases remaining@.len(),
    {
        let ghost before = remaining@;
        let ghost cut = views(packets@);
        let (rest, cmd) = byte(remaining)?;
        let (rest, len) = byte(rest)?;
        let (rest, payload) = match bytes_take(rest, len) {
            Ok(read) => read,
            Err(_) => {
                return Err(DecodeError::Eof);
            },
        };
        let mut packet: Vec<u8> = Vec::new();
        packet.push(cmd);
        packet.push(len);
        packet.extend_from_slice(payload);
        proof {
            let size = HEADER_SIZE + len;
            assert(packet@ =~= before.take(size));
            assert(rest@ =~= before.skip(size));
            assert(views(packets@.push(packet)) =~= cut + seq![before.take(size)]);
            assert(cut + (seq![before.take(size)] + spec_split(rest@).unwrap()) =~= (cut
                + seq![before.take(size)]) + spec_split(rest@).unwrap());
        }
        packets.push(packet);
        remaining = rest;
    }
    proof {
        assert(views(packets@) + Seq::<Seq<u8>>::empty() =~= views(packets@));
    }
    Ok(packets)
}

/// The bytes of packets that stand one behind the other.
pub open spec fn concat(packets: Seq<Seq<u8>>) -> Seq<u8>
    decreases packets.len(),
{
    if packets.len() == 0 {
        Seq::empty()
    } else {
        packets[0] + concat(packets.skip(1))
    }
}

/// A packet in front of a buffer is the first packet of the whole.
pub proof fn lemma_split_first(packet: Seq<u8>, rest: Seq<u8>)
    requires
        is_packet(packet),
    ensures
        spec_split(packet + rest) == followed_by(seq![packet], spec_split(rest)),
{
    let input = packet + rest;
    let size = HEADER_SIZE + input[1];
    assert(input[1] == packet[1]);
    assert(input.take(size) =~= packet);
    assert(input.skip(size) =~= rest);
}

/// Cutting undoes joining: packets that are written one behind the other are cut
/// apart again as they were.
pub proof fn lemma_split_concat(packets: Seq<Seq<u8>>)
    requires
        forall|i: int| 0 <= i < packets.len() ==> is_packet(#[trigger] packets[i]),
    ensures
        spec_split(concat(packets)) == Ok::<_, DecodeError>(packets),
    decreases packets.len(),
{
    if packets.len() == 0 {
        assert(packets =~= Seq::empty());
    } else {
        let tail = packets.skip(1);
        assert forall|i: int| 0 <= i < tail.len() implies is_packet(#[trigger] tail[i]) by {
            assert(tail[i] == packets[i + 1]);
        }
        lemma_split_concat(tail);
        lemma_split_first(packets[0], concat(tail));
        assert(seq![packets[0]] + tail =~= packets);
    }
}

/// Three packets in one buffer come out as those three, in their order.
pub proof fn lemma_split_three(a: Seq<u8>, b: Seq<u8>, c: Seq<u8>)
    requires
        is_packet(a),
        is_packet(b),
        is_packet(c),
    ensures
        spec_split(a + b + c) == Ok::<_, DecodeError>(seq![a, b, c]),
{
    let packets = seq![a, b, c];
    lemma_split_concat(packets);
    reveal_with_fuel(concat, 4);
    assert(packets.skip(1) =~= seq![b, c]);
    assert(packets.skip(1).skip(1) =~= seq![c]);
    assert(packets.skip(1).skip(1).skip(1) =~= Seq::<Seq<u8>>::empty());
    assert(concat(packets) =~= a + b + c);
}

/// What comes out of a buffer are packets, and joined again they are the buffer.
pub proof fn lemma_split_packets(input: Seq<u8>)
    ensures
        spec_split(input) matches Ok(packets) ==> concat(packets) == input && forall|i: int|
            0 <= i < packets.len() ==> is_packet(#[trigger] packets[i]),
    decreases input.len(),
{
    if input.len() == 0 {
    } else if input.len() < HEADER_SIZE || input.len() - HEADER_SIZE < input[1] {
    } else {
        let size = HEADER_SIZE + input[1];
        lemma_split_packets(input.skip(size));
        if let Ok(more) = spec_split(input.skip(size)) {
            let packets = seq![input.take(size)] + more;
            assert(packets.skip(1) =~= more);
            assert(packets[0] == input.take(size));
            assert(input.take(size) + input.skip(size) =~= input);
            assert forall|i: int| 0 <= i < packets.len() implies is_packet(
                #[trigger] packets[i],
            ) by {
                if i > 0 {
                    assert(packets[i] == more[i - 1]);
                }
            }
        }
    }
}

} // verus!
