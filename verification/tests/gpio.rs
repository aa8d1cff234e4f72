use cpc_gpio_bridge::gpio::dispatch;
use cpc_gpio_bridge::gpio::mock::Mock;
use cpc_gpio_bridge::gpio::packet::DecodeError;
use cpc_gpio_bridge::gpio::packet::GpioConfig;
use cpc_gpio_bridge::gpio::packet::GpioDirection;
use cpc_gpio_bridge::gpio::packet::GpioValue;
use cpc_gpio_bridge::gpio::packet::HostCmd;
use cpc_gpio_bridge::gpio::packet::SecondaryCmd;
use cpc_gpio_bridge::gpio::packet::Status;
use cpc_gpio_bridge::gpio::packet::TryFromPrimitiveError;
use cpc_gpio_bridge::gpio::read;
use cpc_gpio_bridge::gpio::retry;
use cpc_gpio_bridge::gpio::route;
use cpc_gpio_bridge::gpio::version;
use cpc_gpio_bridge::gpio::Error;
use cpc_gpio_bridge::gpio::Handle;
use cpc_gpio_bridge::gpio::InitError;
use cpc_gpio_bridge::gpio::InitStep;
use cpc_gpio_bridge::gpio::Mismatch;
use cpc_gpio_bridge::gpio::ReadEvent;
use cpc_gpio_bridge::gpio::ReadStep;
use cpc_gpio_bridge::gpio::RecoverableError;
use cpc_gpio_bridge::gpio::Request;
use cpc_gpio_bridge::gpio::Routed;
use cpc_gpio_bridge::gpio::UnrecoverableError;
use cpc_gpio_bridge::gpio::CPC_INIT_RETRY_INTERVAL_MS;
use cpc_gpio_bridge::gpio::CPC_INIT_TIMEOUT_MS;
use cpc_gpio_bridge::gpio::READ_TIMEOUT_MS;
use cpc_gpio_bridge::utils::Version;

fn timeout(elapsed: u128) -> ReadStep {
    ReadStep::Failed(Error::Recoverable(RecoverableError::Timeout(elapsed)))
}

#[test]
fn the_bridge_speaks_version_one() {
    assert_eq!(version(), Version { major: 1, minor: 0, patch: 0 });
    assert_eq!(READ_TIMEOUT_MS, 2000);
}

#[test]
fn handshake_asks_for_the_version_first() {
    let mut handle = Handle::new();
    assert_eq!(handle.init_step(), InitStep::Version);
    assert!(!handle.initialized());
    let request = handle.init_request().unwrap();
    assert_eq!(request, Request { packet: vec![0x00, 0x00], expected_seq: None });
    assert_eq!(handle.last_seq(), 0);
    let reply = vec![0x80, 0x03, 1, 0, 0];
    let step = read(request.expected_seq, 0, ReadEvent::Packet(reply.clone()));
    assert_eq!(step, ReadStep::Done(reply.clone()));
    assert_eq!(handle.init_reply(&reply), Ok(()));
    assert_eq!(handle.init_step(), InitStep::UniqueId);
}

#[test]
fn handshake_refuses_another_major_version() {
    let mut handle = Handle::new();
    assert_eq!(
        handle.init_reply(&[0x80, 0x03, 2, 0, 0]),
        Err(InitError::Version(Version { major: 2, minor: 0, patch: 0 }))
    );
    assert_eq!(handle.init_step(), InitStep::Version);
    assert_eq!(handle.init_reply(&[0x80, 0x03, 1, 9, 9]), Ok(()));
    assert_eq!(handle.init_step(), InitStep::UniqueId);
}

#[test]
fn unique_id_is_stored() {
    let mut handle = Handle::new();
    assert_eq!(handle.init_reply(&[0x80, 0x03, 1, 0, 0]), Ok(()));
    let request = handle.init_request().unwrap();
    assert_eq!(request, Request { packet: vec![0x01, 0x01, 0x01], expected_seq: Some(1) });
    let reply = vec![0x82, 0x09, 0x01, 0x11, 0x22, 0x33, 0x44, 0x55, 0x66, 0x77, 0x88];
    assert_eq!(
        read(request.expected_seq, 3, ReadEvent::Packet(reply.clone())),
        ReadStep::Done(reply.clone())
    );
    assert_eq!(handle.init_reply(&reply), Ok(()));
    assert_eq!(handle.chip().unique_id, 0x8877665544332211);
    assert_eq!(handle.init_step(), InitStep::ChipLabel);
}

#[test]
fn the_identifier_for_every_chip_is_refused() {
    let mut handle = Handle::new();
    assert_eq!(handle.init_reply(&[0x80, 0x03, 1, 0, 0]), Ok(()));
    assert_eq!(
        handle.init_reply(&[0x82, 0x09, 0x01, 0, 0, 0, 0, 0, 0, 0, 0]),
        Err(InitError::UniqueId)
    );
    assert_eq!(handle.init_step(), InitStep::UniqueId);
    assert_eq!(handle.chip().unique_id, 0);
}

fn bring_up(mock: &mut Mock) -> (Handle, Vec<Vec<u8>>) {
    let mut handle = Handle::new();
    let mut written = vec![];
    while let Some(request) = handle.init_request() {
        written.push(request.packet.clone());
        mock.write(&request.packet).unwrap();
        let buffer = mock.read().unwrap();
        let mut routed = dispatch(&buffer).unwrap();
        assert_eq!(routed.len(), 1);
        let packet = match routed.remove(0) {
            Routed::Reply(packet) => packet,
            other => panic!("{:?}", other),
        };
        let reply = match read(request.expected_seq, 0, ReadEvent::Packet(packet)) {
            ReadStep::Done(reply) => reply,
            other => panic!("{:?}", other),
        };
        handle.init_reply(&reply).unwrap();
    }
    (handle, written)
}

#[test]
fn a_chip_is_brought_up_in_order() {
    let mut mock = Mock::new("7").unwrap();
    let (handle, written) = bring_up(&mut mock);
    assert!(handle.initialized());
    assert_eq!(handle.init_step(), InitStep::Done);
    assert_eq!(handle.chip().unique_id, 7);
    assert_eq!(handle.chip().label, "mock-7-label");
    assert_eq!(handle.chip().gpio_names.len(), 16);
    for pin in 0..16 {
        assert_eq!(handle.chip().gpio_names[pin], format!("mock-7-gpio-{}", pin));
    }
    assert_eq!(written.len(), 4 + 16 + 16);
    assert_eq!(written[0], vec![0x00, 0x00]);
    assert_eq!(written[1], vec![0x01, 0x01, 1]);
    assert_eq!(written[2], vec![0x02, 0x01, 2]);
    assert_eq!(written[3], vec![0x03, 0x01, 3]);
    for pin in 0..16u8 {
        assert_eq!(written[4 + pin as usize], vec![0x04, 0x02, 4 + pin, pin]);
        assert_eq!(written[20 + pin as usize], vec![0x08, 0x03, 20 + pin, pin, 0x02]);
    }
    assert_eq!(handle.last_seq(), 35);
}

#[test]
fn bringing_up_disables_every_pin() {
    let mut mock = Mock::new("7").unwrap();
    mock.write(&[0x06, 0x03, 1, 5, 1]).unwrap();
    assert_eq!(mock.read(), Ok(vec![0x81, 0x02, 1, 0]));
    let (mut handle, _) = bring_up(&mut mock);
    let request = handle.get_gpio_value(5);
    mock.write(&request.packet).unwrap();
    assert_eq!(mock.read(), Ok(vec![0x86, 0x02, 36, 0]));
}

#[test]
fn a_chip_without_pins_is_known_after_the_count() {
    let mut handle = Handle::new();
    assert_eq!(handle.init_reply(&[0x80, 0x03, 1, 0, 0]), Ok(()));
    assert_eq!(handle.init_reply(&[0x82, 0x09, 1, 9, 0, 0, 0, 0, 0, 0, 0]), Ok(()));
    assert_eq!(handle.init_reply(&[0x83, 0x03, 2, b'x', 0]), Ok(()));
    assert_eq!(handle.init_step(), InitStep::GpioCount);
    assert_eq!(handle.init_reply(&[0x84, 0x02, 3, 0]), Ok(()));
    assert_eq!(handle.init_step(), InitStep::Done);
    assert!(handle.initialized());
    assert!(handle.init_request().is_none());
    assert_eq!(handle.chip().label, "x");
    assert!(handle.chip().gpio_names.is_empty());
}

#[test]
fn a_name_without_nul_fails_the_operation() {
    let mut handle = Handle::new();
    assert_eq!(handle.init_reply(&[0x80, 0x03, 1, 0, 0]), Ok(()));
    assert_eq!(handle.init_reply(&[0x82, 0x09, 1, 9, 0, 0, 0, 0, 0, 0, 0]), Ok(()));
    assert_eq!(handle.init_reply(&[0x83, 0x03, 2, b'x', 0]), Ok(()));
    assert_eq!(handle.init_reply(&[0x84, 0x02, 3, 2]), Ok(()));
    assert_eq!(handle.init_step(), InitStep::GpioName(0));
    assert_eq!(
        handle.init_reply(&[0x85, 0x03, 4, b'P', b'A']),
        Err(InitError::Deserialization(DecodeError::NotNulTerminated))
    );
    assert_eq!(handle.init_step(), InitStep::GpioName(0));
    assert!(handle.chip().gpio_names.is_empty());
    assert_eq!(handle.init_reply(&[0x85, 0x04, 4, b'P', b'A', 0]), Ok(()));
    assert_eq!(handle.init_step(), InitStep::GpioName(1));
    assert_eq!(handle.init_reply(&[0x85, 0x04, 5, b'P', b'B', 0]), Ok(()));
    assert_eq!(handle.init_step(), InitStep::GpioDirection(0));
    assert_eq!(handle.init_reply(&[0x81, 0x02, 6, 0]), Ok(()));
    assert_eq!(handle.init_step(), InitStep::GpioDirection(1));
    assert_eq!(handle.init_reply(&[0x81, 0x02, 7, 0]), Ok(()));
    assert_eq!(handle.init_step(), InitStep::Done);
    assert_eq!(handle.chip().gpio_names, vec![String::from("PA"), String::from("PB")]);
}

#[test]
fn a_label_that_cannot_be_read_fails_the_operation() {
    let mut handle = Handle::new();
    assert_eq!(handle.init_reply(&[0x80, 0x03, 1, 0, 0]), Ok(()));
    assert_eq!(handle.init_reply(&[0x82, 0x09, 1, 9, 0, 0, 0, 0, 0, 0, 0]), Ok(()));
    assert_eq!(
        handle.init_reply(&[0x83, 0x02, 2, b'x']),
        Err(InitError::Deserialization(DecodeError::NotNulTerminated))
    );
    assert_eq!(
        handle.init_reply(&[0x83, 0x02, 2]),
        Err(InitError::Deserialization(DecodeError::Length))
    );
    assert_eq!(handle.init_step(), InitStep::ChipLabel);
}

#[test]
fn requests_carry_consecutive_numbers() {
    let mut handle = Handle::new();
    for n in 1..=20u8 {
        let request = handle.get_gpio_value(2);
        assert_eq!(request.packet, vec![HostCmd::GetGpioValue.code(), 2, n, 2]);
        assert_eq!(request.expected_seq, Some(n));
        assert_eq!(handle.last_seq(), n);
    }
}

#[test]
fn the_sequence_wraps_after_255() {
    let mut handle = Handle::new();
    let mut mock = Mock::new("3").unwrap();
    for n in 1..=257u32 {
        let request = handle.set_gpio_value(1, GpioValue::High);
        let expected = (n % 256) as u8;
        assert_eq!(request.expected_seq, Some(expected));
        mock.write(&request.packet).unwrap();
        let reply = mock.read().unwrap();
        assert_eq!(
            read(request.expected_seq, 0, ReadEvent::Packet(reply.clone())),
            ReadStep::Done(reply)
        );
    }
    assert_eq!(handle.last_seq(), 1);
}

#[test]
fn the_version_request_leaves_the_counter_alone() {
    let handle = Handle::new();
    let request = handle.get_gpio_version();
    assert_eq!(request, Request { packet: vec![0, 0], expected_seq: None });
    assert_eq!(handle.last_seq(), 0);
}

#[test]
fn every_request_has_its_bytes() {
    let mut handle = Handle::new();
    assert_eq!(handle.get_unique_id().packet, vec![1, 1, 1]);
    assert_eq!(handle.get_chip_label().packet, vec![2, 1, 2]);
    assert_eq!(handle.get_gpio_count().packet, vec![3, 1, 3]);
    assert_eq!(handle.get_gpio_name(9).packet, vec![4, 2, 4, 9]);
    assert_eq!(handle.get_gpio_value(8).packet, vec![5, 2, 5, 8]);
    assert_eq!(handle.set_gpio_value(3, GpioValue::High).packet, vec![6, 3, 6, 3, 1]);
    assert_eq!(handle.set_gpio_config(3, GpioConfig::BiasPullUp).packet, vec![7, 3, 7, 3, 2]);
    let request = handle.set_gpio_direction(3, GpioDirection::Input);
    assert_eq!(request.packet, vec![8, 3, 8, 3, 1]);
    assert_eq!(request.expected_seq, Some(8));
}

#[test]
fn a_reply_to_another_request_is_passed_over() {
    let first = vec![0x86, 0x02, 4, 1];
    let second = vec![0x86, 0x02, 5, 0];
    let step = read(Some(5), 120, ReadEvent::Packet(first));
    assert_eq!(
        step,
        ReadStep::Wait {
            timeout: 1880,
            mismatch: Some(Mismatch { cmd: SecondaryCmd::GpioValueIs, expected: 5, received: 4 }),
        }
    );
    let step = read(Some(5), 300, ReadEvent::Packet(second.clone()));
    assert_eq!(step, ReadStep::Done(second));
}

#[test]
fn only_replies_to_other_requests_end_in_a_timeout() {
    let mut elapsed = 0u128;
    let mut waits = 0;
    let end = loop {
        let step = read(Some(9), elapsed, ReadEvent::Packet(vec![0x81, 0x02, 8, 0]));
        match step {
            ReadStep::Wait { timeout, mismatch } => {
                assert_eq!(timeout, READ_TIMEOUT_MS - elapsed);
                assert_eq!(mismatch.unwrap().received, 8);
                waits += 1;
                elapsed += 500;
            }
            other => break other,
        }
    };
    assert_eq!(waits, 4);
    assert_eq!(end, timeout(2000));
}

#[test]
fn a_wait_that_brings_nothing_uses_up_the_time() {
    assert_eq!(
        read(Some(1), 1999, ReadEvent::Timeout),
        ReadStep::Wait { timeout: 1, mismatch: None }
    );
    assert_eq!(read(Some(1), 2000, ReadEvent::Timeout), timeout(2000));
    assert_eq!(read(Some(1), 2345, ReadEvent::Timeout), timeout(2345));
    assert_eq!(read(None, 2000, ReadEvent::Timeout), timeout(2000));
    assert_eq!(
        read(None, 0, ReadEvent::Timeout),
        ReadStep::Wait { timeout: 2000, mismatch: None }
    );
}

#[test]
fn a_status_other_than_success_fails_the_request() {
    assert_eq!(
        read(Some(6), 0, ReadEvent::Packet(vec![0x81, 0x02, 6, 1])),
        ReadStep::Failed(Error::Recoverable(RecoverableError::Packet(Status::NotSupported)))
    );
    assert_eq!(
        read(Some(6), 0, ReadEvent::Packet(vec![0x81, 0x02, 6, 2])),
        ReadStep::Failed(Error::Recoverable(RecoverableError::Packet(Status::InvalidPin)))
    );
    assert_eq!(
        read(Some(6), 0, ReadEvent::Packet(vec![0x81, 0x02, 6, 99])),
        ReadStep::Failed(Error::Recoverable(RecoverableError::Packet(Status::Unknown)))
    );
    assert_eq!(
        read(Some(6), 0, ReadEvent::Packet(vec![0x81, 0x02, 6, 0])),
        ReadStep::Done(vec![0x81, 0x02, 6, 0])
    );
}

#[test]
fn a_reply_that_cannot_be_read_fails_the_request() {
    assert_eq!(
        read(Some(6), 0, ReadEvent::Packet(vec![0x81, 0x02])),
        ReadStep::Failed(Error::Recoverable(RecoverableError::Deserialization(DecodeError::Eof)))
    );
    assert_eq!(
        read(Some(6), 0, ReadEvent::Packet(vec![0x81, 0x01, 6])),
        ReadStep::Failed(Error::Recoverable(RecoverableError::Deserialization(DecodeError::Eof)))
    );
    assert_eq!(
        read(Some(6), 0, ReadEvent::Packet(vec![0x81, 0x03, 6, 0])),
        ReadStep::Failed(Error::Recoverable(RecoverableError::Deserialization(
            DecodeError::Length
        )))
    );
}

#[test]
fn a_request_without_number_takes_what_comes() {
    assert_eq!(
        read(None, 5000, ReadEvent::Packet(vec![0x80, 0x03, 1, 0, 0])),
        ReadStep::Done(vec![0x80, 0x03, 1, 0, 0])
    );
    assert_eq!(read(None, 0, ReadEvent::Packet(vec![])), ReadStep::Done(vec![]));
}

#[test]
fn a_queue_without_writer_ends_the_bridge() {
    let step = read(Some(1), 0, ReadEvent::Disconnected);
    assert!(matches!(
        step,
        ReadStep::Failed(Error::Unrecoverable(UnrecoverableError::Anyhow(_)))
    ));
}

#[test]
fn the_reply_to_get_gpio_value_is_read() {
    let reply = Handle::gpio_value(&[0x86, 0x02, 1, 1]).unwrap();
    assert_eq!(reply.value, Ok(GpioValue::High));
    let reply = Handle::gpio_value(&[0x86, 0x02, 1, 7]).unwrap();
    assert_eq!(reply.value, Err(TryFromPrimitiveError { number: 7 }));
    assert_eq!(
        Handle::gpio_value(&[0x86, 0x02, 1]),
        Err(Error::Recoverable(RecoverableError::Deserialization(DecodeError::Length)))
    );
}

#[test]
fn replies_go_onto_the_queue() {
    for cmd in [0x80u8, 0x81, 0x82, 0x83, 0x84, 0x85, 0x86] {
        let packet = vec![cmd, 0x01, 0x00];
        assert_eq!(route(packet.clone()), Routed::Reply(packet));
    }
}

#[test]
fn refusals_and_strangers_are_dropped() {
    let refusal = vec![0xff, 0x01, 0x04];
    match route(refusal.clone()) {
        Routed::Unsupported(packet, Ok(reply)) => {
            assert_eq!(packet, refusal);
            assert_eq!(reply.unsupported_cmd, HostCmd::GetGpioName);
        }
        other => panic!("{:?}", other),
    }
    assert_eq!(route(vec![0xff, 0x01]), Routed::Unsupported(vec![0xff, 0x01], Err(DecodeError::Length)));
    assert_eq!(
        route(vec![0x42, 0x00]),
        Routed::Unknown(vec![0x42, 0x00], DecodeError::TryFromPrimitive(0x42))
    );
    assert_eq!(route(vec![]), Routed::Unknown(vec![], DecodeError::Eof));
}

#[test]
fn a_buffer_is_cut_and_sorted() {
    let buffer = [0x81, 0x02, 1, 0, 0xff, 0x01, 0x05, 0x10, 0x00, 0x86, 0x02, 2, 1];
    let routed = dispatch(&buffer).unwrap();
    assert_eq!(routed.len(), 4);
    assert_eq!(routed[0], Routed::Reply(vec![0x81, 0x02, 1, 0]));
    assert!(matches!(routed[1], Routed::Unsupported(_, Ok(_))));
    assert_eq!(routed[2], Routed::Unknown(vec![0x10, 0x00], DecodeError::TryFromPrimitive(0x10)));
    assert_eq!(routed[3], Routed::Reply(vec![0x86, 0x02, 2, 1]));
    assert_eq!(dispatch(&[0x81, 0x02, 1]), Err(DecodeError::Eof));
    assert_eq!(dispatch(&[]), Ok(vec![]));
}

#[test]
fn the_transport_is_tried_again_until_the_time_is_up() {
    assert_eq!(CPC_INIT_TIMEOUT_MS, 2000);
    assert_eq!(CPC_INIT_RETRY_INTERVAL_MS, 100);
    assert_eq!(retry(0), Some(100));
    assert_eq!(retry(1999), Some(100));
    assert_eq!(retry(2000), None);
    assert_eq!(retry(5000), None);
}
