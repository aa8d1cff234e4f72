use cpc_gpio_bridge::gpio::command::GetChipLabel;
use cpc_gpio_bridge::gpio::command::GetGpioCount;
use cpc_gpio_bridge::gpio::command::GetGpioName;
use cpc_gpio_bridge::gpio::command::GetGpioValue;
use cpc_gpio_bridge::gpio::command::GetUniqueId;
use cpc_gpio_bridge::gpio::command::GetVersion;
use cpc_gpio_bridge::gpio::command::HostPacket;
use cpc_gpio_bridge::gpio::command::Serializer;
use cpc_gpio_bridge::gpio::command::SetGpioConfig;
use cpc_gpio_bridge::gpio::command::SetGpioDirection;
use cpc_gpio_bridge::gpio::command::SetGpioValue;
use cpc_gpio_bridge::gpio::frame::split;
use cpc_gpio_bridge::gpio::packet::deserialize_headers;
use cpc_gpio_bridge::gpio::packet::text;
use cpc_gpio_bridge::gpio::packet::try_deserialize_cmd;
use cpc_gpio_bridge::gpio::packet::ChipLabelIs;
use cpc_gpio_bridge::gpio::packet::DecodeError;
use cpc_gpio_bridge::gpio::packet::GpioConfig;
use cpc_gpio_bridge::gpio::packet::GpioCountIs;
use cpc_gpio_bridge::gpio::packet::GpioDirection;
use cpc_gpio_bridge::gpio::packet::GpioNameIs;
use cpc_gpio_bridge::gpio::packet::GpioValue;
use cpc_gpio_bridge::gpio::packet::GpioValueIs;
use cpc_gpio_bridge::gpio::packet::Header;
use cpc_gpio_bridge::gpio::packet::HostCmd;
use cpc_gpio_bridge::gpio::packet::HostHeader;
use cpc_gpio_bridge::gpio::packet::SecondaryCmd;
use cpc_gpio_bridge::gpio::packet::SecondaryHeader;
use cpc_gpio_bridge::gpio::packet::Status;
use cpc_gpio_bridge::gpio::packet::StatusIs;
use cpc_gpio_bridge::gpio::packet::TryFromPrimitiveError;
use cpc_gpio_bridge::gpio::packet::UniqueIdIs;
use cpc_gpio_bridge::gpio::packet::UnsupportedCmdIs;
use cpc_gpio_bridge::gpio::packet::VersionIs;
use cpc_gpio_bridge::utils::Version;

#[test]
fn host_commands_have_their_codes() {
    assert_eq!(HostCmd::GetVersion.code(), 0);
    assert_eq!(HostCmd::GetUniqueId.code(), 1);
    assert_eq!(HostCmd::GetChipLabel.code(), 2);
    assert_eq!(HostCmd::GetGpioCount.code(), 3);
    assert_eq!(HostCmd::GetGpioName.code(), 4);
    assert_eq!(HostCmd::GetGpioValue.code(), 5);
    assert_eq!(HostCmd::SetGpioValue.code(), 6);
    assert_eq!(HostCmd::SetGpioConfig.code(), 7);
    assert_eq!(HostCmd::SetGpioDirection.code(), 8);
    assert_eq!(HostCmd::UnknownCmd.code(), 127);
    for number in 0..=255u8 {
        match HostCmd::try_from(number) {
            Ok(cmd) => assert_eq!(cmd.code(), number),
            Err(e) => {
                assert!(number > 8 && number != 127);
                assert_eq!(e, TryFromPrimitiveError { number });
            }
        }
    }
}

#[test]
fn secondary_commands_have_their_codes() {
    assert_eq!(SecondaryCmd::VersionIs.code(), 128);
    assert_eq!(SecondaryCmd::StatusIs.code(), 129);
    assert_eq!(SecondaryCmd::UniqueIdIs.code(), 130);
    assert_eq!(SecondaryCmd::ChipLabelIs.code(), 131);
    assert_eq!(SecondaryCmd::GpioCountIs.code(), 132);
    assert_eq!(SecondaryCmd::GpioNameIs.code(), 133);
    assert_eq!(SecondaryCmd::GpioValueIs.code(), 134);
    assert_eq!(SecondaryCmd::UnsupportedCmdIs.code(), 255);
    for number in 0..=255u8 {
        match SecondaryCmd::try_from(number) {
            Ok(cmd) => assert_eq!(cmd.code(), number),
            Err(e) => {
                assert!(number < 128 || (number > 134 && number != 255));
                assert_eq!(e.number, number);
            }
        }
    }
}

#[test]
fn status_has_its_codes() {
    assert_eq!(Status::Success.code(), 0);
    assert_eq!(Status::NotSupported.code(), 1);
    assert_eq!(Status::InvalidPin.code(), 2);
    assert_eq!(Status::Unknown.code(), 255);
    assert_eq!(Status::try_from(0), Ok(Status::Success));
    assert_eq!(Status::try_from(1), Ok(Status::NotSupported));
    assert_eq!(Status::try_from(2), Ok(Status::InvalidPin));
    assert_eq!(Status::try_from(255), Ok(Status::Unknown));
    assert_eq!(Status::try_from(3), Err(TryFromPrimitiveError { number: 3 }));
    assert_eq!(Status::Success.name(), "Ok");
    assert_eq!(Status::NotSupported.name(), "NotSupported");
    assert_eq!(Status::InvalidPin.name(), "InvalidPin");
    assert_eq!(Status::Unknown.name(), "Unknown");
}

#[test]
fn pin_values_have_their_codes() {
    assert_eq!(GpioValue::Low.code(), 0);
    assert_eq!(GpioValue::High.code(), 1);
    assert_eq!(GpioValue::try_from(0), Ok(GpioValue::Low));
    assert_eq!(GpioValue::try_from(1), Ok(GpioValue::High));
    assert_eq!(GpioValue::try_from(2), Err(TryFromPrimitiveError { number: 2 }));

    assert_eq!(GpioDirection::Output.code(), 0);
    assert_eq!(GpioDirection::Input.code(), 1);
    assert_eq!(GpioDirection::Disabled.code(), 2);
    assert_eq!(GpioDirection::try_from(2), Ok(GpioDirection::Disabled));
    assert_eq!(GpioDirection::try_from(3), Err(TryFromPrimitiveError { number: 3 }));

    assert_eq!(GpioConfig::BiasDisable.code(), 0);
    assert_eq!(GpioConfig::BiasPullDown.code(), 1);
    assert_eq!(GpioConfig::BiasPullUp.code(), 2);
    assert_eq!(GpioConfig::DriveOpenDrain.code(), 3);
    assert_eq!(GpioConfig::DriveOpenSource.code(), 4);
    assert_eq!(GpioConfig::DrivePushPull.code(), 5);
    for number in 0..=5u8 {
        assert_eq!(GpioConfig::try_from(number).unwrap().code(), number);
    }
    assert_eq!(GpioConfig::try_from(6), Err(TryFromPrimitiveError { number: 6 }));
}

#[test]
fn header_len_is_what_follows_the_header() {
    assert_eq!(Header::<HostCmd>::len(2), 0);
    assert_eq!(Header::<HostCmd>::len(5), 3);
    assert_eq!(Header::<HostCmd>::len(257), 255);
    let header = Header::new(HostCmd::GetGpioName, 2);
    assert_eq!(header.cmd, HostCmd::GetGpioName);
    assert_eq!(header.len, 2);
}

#[test]
fn host_header_advances_the_counter() {
    let mut seq = 0u8;
    assert_eq!(HostHeader::new(&mut seq).seq, 1);
    assert_eq!(seq, 1);
    let mut seq = 255u8;
    assert_eq!(HostHeader::new(&mut seq).seq, 0);
    assert_eq!(seq, 0);
    assert_eq!(SecondaryHeader::new(9).seq, 9);
}

#[test]
fn get_version_is_two_bytes() {
    assert_eq!(GetVersion::new().serialize(), vec![0x00, 0x00]);
}

#[test]
fn sequenced_requests_carry_the_next_number() {
    let mut seq = 0u8;
    assert_eq!(GetUniqueId::new(&mut seq).serialize(), vec![0x01, 0x01, 0x01]);
    assert_eq!(GetChipLabel::new(&mut seq).serialize(), vec![0x02, 0x01, 0x02]);
    assert_eq!(GetGpioCount::new(&mut seq).serialize(), vec![0x03, 0x01, 0x03]);
    assert_eq!(GetGpioName::new(&mut seq, 7).serialize(), vec![0x04, 0x02, 0x04, 0x07]);
    assert_eq!(GetGpioValue::new(&mut seq, 9).serialize(), vec![0x05, 0x02, 0x05, 0x09]);
    assert_eq!(
        SetGpioValue::new(&mut seq, 3, GpioValue::High).serialize(),
        vec![0x06, 0x03, 0x06, 0x03, 0x01]
    );
    assert_eq!(
        SetGpioConfig::new(&mut seq, 4, GpioConfig::DrivePushPull).serialize(),
        vec![0x07, 0x03, 0x07, 0x04, 0x05]
    );
    assert_eq!(
        SetGpioDirection::new(&mut seq, 5, GpioDirection::Disabled).serialize(),
        vec![0x08, 0x03, 0x08, 0x05, 0x02]
    );
    assert_eq!(seq, 8);
}

fn every_request() -> Vec<HostPacket> {
    let mut seq = 41u8;
    vec![
        HostPacket::GetVersion(GetVersion::new()),
        HostPacket::GetUniqueId(GetUniqueId::new(&mut seq)),
        HostPacket::GetChipLabel(GetChipLabel::new(&mut seq)),
        HostPacket::GetGpioCount(GetGpioCount::new(&mut seq)),
        HostPacket::GetGpioName(GetGpioName::new(&mut seq, 15)),
        HostPacket::GetGpioValue(GetGpioValue::new(&mut seq, 0)),
        HostPacket::SetGpioValue(SetGpioValue::new(&mut seq, 1, GpioValue::Low)),
        HostPacket::SetGpioValue(SetGpioValue::new(&mut seq, 1, GpioValue::High)),
        HostPacket::SetGpioConfig(SetGpioConfig::new(&mut seq, 2, GpioConfig::BiasPullUp)),
        HostPacket::SetGpioDirection(SetGpioDirection::new(&mut seq, 3, GpioDirection::Input)),
    ]
}

#[test]
fn requests_are_read_back_as_written() {
    for request in every_request() {
        let bytes = request.serialize();
        assert_eq!(HostPacket::deserialize(&bytes), Ok(request));
    }
}

#[test]
fn requests_are_packets() {
    for request in every_request() {
        let bytes = request.serialize();
        assert!(bytes[0] < 128);
        assert_eq!(bytes[1] as usize, bytes.len() - 2);
        assert_eq!(split(&bytes), Ok(vec![bytes.clone()]));
    }
}

#[test]
fn malformed_requests_are_refused() {
    assert_eq!(HostPacket::deserialize(&[]), Err(DecodeError::Eof));
    assert_eq!(HostPacket::deserialize(&[0x04]), Err(DecodeError::Eof));
    assert_eq!(HostPacket::deserialize(&[0x04, 0x02, 0x01]), Err(DecodeError::Length));
    assert_eq!(HostPacket::deserialize(&[0x04, 0x01, 0x01]), Err(DecodeError::Eof));
    assert_eq!(HostPacket::deserialize(&[0x01, 0x00]), Err(DecodeError::Eof));
    assert_eq!(HostPacket::deserialize(&[0x06, 0x02, 0x01, 0x03]), Err(DecodeError::Eof));
    assert_eq!(
        HostPacket::deserialize(&[0x06, 0x03, 0x01, 0x03, 0x02]),
        Err(DecodeError::TryFromPrimitive(2))
    );
    assert_eq!(
        HostPacket::deserialize(&[0x07, 0x03, 0x01, 0x03, 0x06]),
        Err(DecodeError::TryFromPrimitive(6))
    );
    assert_eq!(
        HostPacket::deserialize(&[0x08, 0x03, 0x01, 0x03, 0x03]),
        Err(DecodeError::TryFromPrimitive(3))
    );
    assert_eq!(HostPacket::deserialize(&[0x7f, 0x00]), Err(DecodeError::TryFromPrimitive(0x7f)));
    assert_eq!(HostPacket::deserialize(&[0x09, 0x00]), Err(DecodeError::TryFromPrimitive(0x09)));
}

#[test]
fn version_is_decodes() {
    let reply = VersionIs::deserialize(&[0x80, 0x03, 1, 0, 0]).unwrap();
    assert_eq!(reply.version, Version { major: 1, minor: 0, patch: 0 });
    assert_eq!(reply.header.cmd, SecondaryCmd::VersionIs);
    assert_eq!(reply.header.len, 3);
    let reply = VersionIs::deserialize(&[0x80, 0x04, 2, 5, 9, 0xff]).unwrap();
    assert_eq!(reply.version, Version { major: 2, minor: 5, patch: 9 });
}

#[test]
fn replies_must_be_as_long_as_they_say() {
    assert_eq!(VersionIs::deserialize(&[0x80, 0x03, 1, 0]), Err(DecodeError::Length));
    assert_eq!(VersionIs::deserialize(&[0x80, 0x03, 1, 0, 0, 0]), Err(DecodeError::Length));
    assert_eq!(StatusIs::deserialize(&[0x81, 0x03, 1, 0]), Err(DecodeError::Length));
    assert_eq!(GpioCountIs::deserialize(&[0x84, 0x01, 1, 16]), Err(DecodeError::Length));
    assert_eq!(GpioValueIs::deserialize(&[0x86, 0x02, 1]), Err(DecodeError::Length));
    assert_eq!(
        UniqueIdIs::deserialize(&[0x82, 0x09, 1, 2, 3, 4, 5, 6, 7, 8]),
        Err(DecodeError::Length)
    );
    assert_eq!(GpioNameIs::deserialize(&[0x85, 0x05, 1, b'a', 0]), Err(DecodeError::Length));
    assert_eq!(ChipLabelIs::deserialize(&[0x83, 0x01, 1, b'a', 0]), Err(DecodeError::Length));
    assert_eq!(UnsupportedCmdIs::deserialize(&[0xff, 0x00, 4]), Err(DecodeError::Length));
}

#[test]
fn replies_must_hold_their_fields() {
    assert_eq!(VersionIs::deserialize(&[]), Err(DecodeError::Eof));
    assert_eq!(VersionIs::deserialize(&[0x80]), Err(DecodeError::Eof));
    assert_eq!(VersionIs::deserialize(&[0x80, 0x02, 1, 0]), Err(DecodeError::Eof));
    assert_eq!(StatusIs::deserialize(&[0x81, 0x00]), Err(DecodeError::Eof));
    assert_eq!(StatusIs::deserialize(&[0x81, 0x01, 1]), Err(DecodeError::Eof));
    assert_eq!(GpioCountIs::deserialize(&[0x84, 0x01, 1]), Err(DecodeError::Eof));
    assert_eq!(GpioValueIs::deserialize(&[0x86, 0x01, 1]), Err(DecodeError::Eof));
    assert_eq!(
        UniqueIdIs::deserialize(&[0x82, 0x08, 1, 2, 3, 4, 5, 6, 7, 8]),
        Err(DecodeError::Eof)
    );
    assert_eq!(GpioNameIs::deserialize(&[0x85, 0x00]), Err(DecodeError::Eof));
    assert_eq!(ChipLabelIs::deserialize(&[0x83, 0x00]), Err(DecodeError::Eof));
    assert_eq!(UnsupportedCmdIs::deserialize(&[0xff, 0x00]), Err(DecodeError::Eof));
}

#[test]
fn unique_id_is_little_endian() {
    let reply = UniqueIdIs::deserialize(&[
        0x82, 0x09, 0x01, 0x11, 0x22, 0x33, 0x44, 0x55, 0x66, 0x77, 0x88,
    ])
    .unwrap();
    assert_eq!(reply.unique_id, 0x8877665544332211);
    assert_eq!(reply.secondary_header.seq, 1);
    assert_eq!(reply.header.cmd, SecondaryCmd::UniqueIdIs);
}

#[test]
fn status_is_decodes_every_byte() {
    let reply = StatusIs::deserialize(&[0x81, 0x02, 7, 0]).unwrap();
    assert_eq!(reply.status, Status::Success);
    assert_eq!(reply.secondary_header.seq, 7);
    assert_eq!(StatusIs::deserialize(&[0x81, 0x02, 7, 1]).unwrap().status, Status::NotSupported);
    assert_eq!(StatusIs::deserialize(&[0x81, 0x02, 7, 2]).unwrap().status, Status::InvalidPin);
    assert_eq!(StatusIs::deserialize(&[0x81, 0x02, 7, 255]).unwrap().status, Status::Unknown);
    assert_eq!(StatusIs::deserialize(&[0x81, 0x02, 7, 77]).unwrap().status, Status::Unknown);
}

#[test]
fn gpio_count_is_decodes() {
    let reply = GpioCountIs::deserialize(&[0x84, 0x02, 3, 16]).unwrap();
    assert_eq!(reply.count, 16);
    assert_eq!(reply.secondary_header.seq, 3);
}

#[test]
fn gpio_value_is_keeps_a_bad_level_inside() {
    let reply = GpioValueIs::deserialize(&[0x86, 0x02, 3, 1]).unwrap();
    assert_eq!(reply.value, Ok(GpioValue::High));
    let reply = GpioValueIs::deserialize(&[0x86, 0x02, 3, 0]).unwrap();
    assert_eq!(reply.value, Ok(GpioValue::Low));
    let reply = GpioValueIs::deserialize(&[0x86, 0x02, 3, 9]).unwrap();
    assert_eq!(reply.value, Err(TryFromPrimitiveError { number: 9 }));
    assert_eq!(reply.secondary_header.seq, 3);
}

#[test]
fn unsupported_cmd_is_decodes() {
    let reply = UnsupportedCmdIs::deserialize(&[0xff, 0x01, 0x04]).unwrap();
    assert_eq!(reply.unsupported_cmd, HostCmd::GetGpioName);
    let reply = UnsupportedCmdIs::deserialize(&[0xff, 0x01, 0x50]).unwrap();
    assert_eq!(reply.unsupported_cmd, HostCmd::UnknownCmd);
}

#[test]
fn names_end_with_a_nul() {
    let reply = GpioNameIs::deserialize(&[0x85, 0x04, 2, b'P', b'A', 0]).unwrap();
    assert_eq!(reply.name, Ok(String::from("PA")));
    assert_eq!(reply.secondary_header.seq, 2);
    let reply = ChipLabelIs::deserialize(&[0x83, 0x05, 2, b'e', b'f', b'r', 0]).unwrap();
    assert_eq!(reply.chip_label, Ok(String::from("efr")));
    let reply = ChipLabelIs::deserialize(&[0x83, 0x02, 2, 0]).unwrap();
    assert_eq!(reply.chip_label, Ok(String::new()));
}

#[test]
fn a_name_without_nul_is_an_error_inside_the_reply() {
    let reply = GpioNameIs::deserialize(&[0x85, 0x03, 2, b'P', b'A']).unwrap();
    assert_eq!(reply.name, Err(DecodeError::NotNulTerminated));
    let reply = GpioNameIs::deserialize(&[0x85, 0x01, 2]).unwrap();
    assert_eq!(reply.name, Err(DecodeError::NotNulTerminated));
    let reply = ChipLabelIs::deserialize(&[0x83, 0x04, 2, b'a', 0, b'b']).unwrap();
    assert_eq!(reply.chip_label, Err(DecodeError::InteriorNul));
    let reply = ChipLabelIs::deserialize(&[0x83, 0x05, 2, b'a', 0, b'b', 0]).unwrap();
    assert_eq!(reply.chip_label, Err(DecodeError::InteriorNul));
    let reply = GpioNameIs::deserialize(&[0x85, 0x03, 2, 0xff, 0]).unwrap();
    assert_eq!(reply.name, Err(DecodeError::Utf8));
}

#[test]
fn text_reads_utf8() {
    assert_eq!(text(b"gpio\0"), Ok(String::from("gpio")));
    assert_eq!(text(&[0xc3, 0xa9, 0]), Ok(String::from("\u{e9}")));
    assert_eq!(text(&[0xc3, 0]), Err(DecodeError::Utf8));
    assert_eq!(text(&[]), Err(DecodeError::NotNulTerminated));
    assert_eq!(text(b"gpio"), Err(DecodeError::NotNulTerminated));
    assert_eq!(text(b"g\0pio"), Err(DecodeError::InteriorNul));
}

#[test]
fn headers_are_read_without_the_payload() {
    let (remaining, (header, secondary_header)) =
        deserialize_headers(&[0x86, 0x02, 9, 1]).unwrap();
    assert_eq!(remaining, &[1]);
    assert_eq!(header.cmd, SecondaryCmd::GpioValueIs);
    assert_eq!(header.len, 2);
    assert_eq!(secondary_header.seq, 9);
    let (_, (header, _)) = deserialize_headers(&[0x10, 0x00, 9]).unwrap();
    assert_eq!(header.cmd, SecondaryCmd::UnsupportedCmdIs);
    assert_eq!(deserialize_headers(&[0x86, 0x02]).err(), Some(DecodeError::Eof));
    assert_eq!(deserialize_headers(&[]).err(), Some(DecodeError::Eof));
}

#[test]
fn the_command_of_a_reply_must_be_known() {
    assert_eq!(try_deserialize_cmd(&[0x80, 0x03, 1, 0, 0]), Ok(SecondaryCmd::VersionIs));
    assert_eq!(try_deserialize_cmd(&[0xff]), Ok(SecondaryCmd::UnsupportedCmdIs));
    assert_eq!(try_deserialize_cmd(&[0x05, 0x00]), Err(DecodeError::TryFromPrimitive(5)));
    assert_eq!(try_deserialize_cmd(&[]), Err(DecodeError::Eof));
}

#[test]
fn split_cuts_three_packets_apart() {
    let a = vec![0x80, 0x03, 1, 0, 0];
    let b = vec![0x81, 0x02, 4, 0];
    let c = vec![0xff, 0x00];
    let buffer = [a.clone(), b.clone(), c.clone()].concat();
    assert_eq!(split(&buffer), Ok(vec![a, b, c]));
}

#[test]
fn split_of_nothing_is_nothing() {
    assert_eq!(split(&[]), Ok(vec![]));
}

#[test]
fn split_refuses_a_buffer_that_ends_inside_a_packet() {
    assert_eq!(split(&[0x80]), Err(DecodeError::Eof));
    assert_eq!(split(&[0x80, 0x03, 1, 0]), Err(DecodeError::Eof));
    assert_eq!(split(&[0x81, 0x02, 4, 0, 0x80, 0x03, 1]), Err(DecodeError::Eof));
}

#[test]
fn split_takes_the_longest_packet() {
    let mut packet = vec![0x85, 255];
    packet.extend(std::iter::repeat(b'x').take(255));
    let mut buffer = packet.clone();
    buffer.extend_from_slice(&[0x81, 0x02, 1, 0]);
    assert_eq!(split(&buffer), Ok(vec![packet, vec![0x81, 0x02, 1, 0]]));
}
