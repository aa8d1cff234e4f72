use cpc_gpio_bridge::driver::filter_packet;
use cpc_gpio_bridge::driver::packet::Attribute;
use cpc_gpio_bridge::driver::packet::Command;
use cpc_gpio_bridge::driver::packet::Exit;
use cpc_gpio_bridge::driver::packet::GetGpioValue;
use cpc_gpio_bridge::driver::packet::GpioConfig;
use cpc_gpio_bridge::driver::packet::GpioDirection;
use cpc_gpio_bridge::driver::packet::GpioValue;
use cpc_gpio_bridge::driver::packet::Kind;
use cpc_gpio_bridge::driver::packet::Packet;
use cpc_gpio_bridge::driver::packet::SetGpioConfig;
use cpc_gpio_bridge::driver::packet::SetGpioDirection;
use cpc_gpio_bridge::driver::packet::SetGpioValue;
use cpc_gpio_bridge::driver::packet::Status;
use cpc_gpio_bridge::driver::packet::TryFromPrimitiveError;
use cpc_gpio_bridge::driver::version;
use cpc_gpio_bridge::driver::Attr;
use cpc_gpio_bridge::driver::AttrError;
use cpc_gpio_bridge::driver::Handle;
use cpc_gpio_bridge::driver::HandshakeError;
use cpc_gpio_bridge::driver::Message;
use cpc_gpio_bridge::driver::Next;
use cpc_gpio_bridge::driver::ParseError;
use cpc_gpio_bridge::driver::Payload;
use cpc_gpio_bridge::driver::Phase;
use cpc_gpio_bridge::driver::GENL_API_VERSION;
use cpc_gpio_bridge::driver::GENL_FAMILY_NAME;
use cpc_gpio_bridge::driver::GENL_MULTICAST_FAMILY_NAME;
use cpc_gpio_bridge::driver::GENL_MULTICAST_UID_ALL;
use cpc_gpio_bridge::utils::ProcessExit;
use cpc_gpio_bridge::utils::Version;

const SELF: u64 = 0xb0b;
const OTHER: u64 = 0xa11ce;

fn attr(kind: Attribute, payload: Payload) -> Attr {
    Attr { kind, payload }
}

fn message(cmd: Command, destination: u64, mut attrs: Vec<Attr>) -> Message {
    let mut all = vec![attr(Attribute::UniqueId, Payload::U64(destination))];
    all.append(&mut attrs);
    Message { cmd, version: 1, attrs: all }
}

fn pin(pin: u32) -> Attr {
    attr(Attribute::GpioPin, Payload::U32(pin))
}

fn text(kind: Attribute, text: &str) -> Attr {
    attr(kind, Payload::Text(String::from(text)))
}

#[test]
fn the_family_has_its_names() {
    assert_eq!(GENL_FAMILY_NAME, "CPC_GPIO_GENL");
    assert_eq!(GENL_MULTICAST_FAMILY_NAME, "CPC_GPIO_GENL_M");
    assert_eq!(GENL_API_VERSION, 1);
    assert_eq!(GENL_MULTICAST_UID_ALL, 0);
    assert_eq!(version(), Version { major: 1, minor: 0, patch: 0 });
}

#[test]
fn commands_have_their_codes() {
    let all = [
        Command::Unspec,
        Command::Exit,
        Command::Init,
        Command::Deinit,
        Command::GetGpioValue,
        Command::SetGpioValue,
        Command::SetGpioConfig,
        Command::SetGpioDirection,
    ];
    for (number, cmd) in all.iter().enumerate() {
        assert_eq!(cmd.code() as usize, number);
        assert_eq!(Command::from_code(number as u8), *cmd);
    }
    assert_eq!(Command::from_code(8), Command::UnrecognizedConst(8));
    assert_eq!(Command::UnrecognizedConst(200).code(), 200);
}

#[test]
fn attributes_have_their_codes_and_kinds() {
    let all = [
        (Attribute::Unspec, Kind::Opaque),
        (Attribute::Status, Kind::U32),
        (Attribute::Message, Kind::Text),
        (Attribute::VersionMajor, Kind::U8),
        (Attribute::VersionMinor, Kind::U8),
        (Attribute::VersionPatch, Kind::U8),
        (Attribute::UniqueId, Kind::U64),
        (Attribute::ChipLabel, Kind::Text),
        (Attribute::GpioCount, Kind::U32),
        (Attribute::GpioNames, Kind::Texts),
        (Attribute::GpioPin, Kind::U32),
        (Attribute::GpioValue, Kind::U32),
        (Attribute::GpioConfig, Kind::U32),
        (Attribute::GpioDirection, Kind::U32),
    ];
    for (number, (attribute, kind)) in all.iter().enumerate() {
        assert_eq!(attribute.code() as usize, number);
        assert_eq!(Attribute::from_code(number as u16), *attribute);
        assert_eq!(attribute.kind(), *kind);
    }
    assert_eq!(Attribute::from_code(14), Attribute::UnrecognizedConst(14));
    assert_eq!(Attribute::UnrecognizedConst(14).code(), 14);
    assert_eq!(Attribute::UnrecognizedConst(14).kind(), Kind::Opaque);
}

#[test]
fn driver_values_have_their_codes() {
    assert_eq!(Status::Success.code(), 0);
    assert_eq!(Status::NotSupported.code(), 1);
    assert_eq!(Status::BrokenPipe.code(), 2);
    assert_eq!(Status::ProtocolError.code(), 3);
    assert_eq!(Status::Unknown.code(), u32::MAX);
    for status in [
        Status::Success,
        Status::NotSupported,
        Status::BrokenPipe,
        Status::ProtocolError,
        Status::Unknown,
    ] {
        assert_eq!(Status::try_from(status.code()), Ok(status));
    }
    assert_eq!(Status::try_from(4), Err(TryFromPrimitiveError { number: 4 }));

    assert_eq!(GpioValue::try_from(0), Ok(GpioValue::Low));
    assert_eq!(GpioValue::try_from(1), Ok(GpioValue::High));
    assert_eq!(GpioValue::try_from(2), Err(TryFromPrimitiveError { number: 2 }));
    assert_eq!(GpioValue::High.code(), 1);

    assert_eq!(GpioDirection::try_from(0), Ok(GpioDirection::Output));
    assert_eq!(GpioDirection::try_from(1), Ok(GpioDirection::Input));
    assert_eq!(GpioDirection::try_from(2), Ok(GpioDirection::Disabled));
    assert_eq!(GpioDirection::try_from(3), Err(TryFromPrimitiveError { number: 3 }));
    assert_eq!(GpioDirection::Disabled.code(), 2);

    let configs = [
        (1, GpioConfig::BiasDisable),
        (3, GpioConfig::BiasPullDown),
        (5, GpioConfig::BiasPullUp),
        (6, GpioConfig::DriveOpenDrain),
        (7, GpioConfig::DriveOpenSource),
        (8, GpioConfig::DrivePushPull),
    ];
    for (number, config) in configs {
        assert_eq!(GpioConfig::try_from(number), Ok(config));
        assert_eq!(config.code(), number);
    }
    for number in [0, 2, 4, 9] {
        assert_eq!(GpioConfig::try_from(number), Err(TryFromPrimitiveError { number }));
    }
}

#[test]
fn attributes_are_found_by_kind() {
    let packet = Message {
        cmd: Command::Deinit,
        version: 1,
        attrs: vec![
            attr(Attribute::VersionMajor, Payload::U8(1)),
            attr(Attribute::Status, Payload::U32(5)),
            attr(Attribute::Status, Payload::U32(6)),
            attr(Attribute::UniqueId, Payload::U64(77)),
            text(Attribute::Message, "bye"),
            attr(Attribute::GpioPin, Payload::Malformed),
        ],
    };
    assert_eq!(packet.get_u8(Attribute::VersionMajor), Ok(1));
    assert_eq!(packet.get_u32(Attribute::Status), Ok(5));
    assert_eq!(packet.get_u64(Attribute::UniqueId), Ok(77));
    assert_eq!(packet.get_string(Attribute::Message), Ok(String::from("bye")));
    assert_eq!(packet.find(Attribute::Status), Some(&Payload::U32(5)));
    assert_eq!(packet.find(Attribute::GpioValue), None);
    assert_eq!(
        packet.get_u32(Attribute::GpioValue),
        Err(AttrError::Missing(Attribute::GpioValue))
    );
    assert_eq!(packet.get_u32(Attribute::GpioPin), Err(AttrError::Malformed(Attribute::GpioPin)));
    assert_eq!(
        packet.get_u8(Attribute::UniqueId),
        Err(AttrError::Malformed(Attribute::UniqueId))
    );
    assert_eq!(packet.get_u64(Attribute::Status), Err(AttrError::Malformed(Attribute::Status)));
    assert_eq!(
        packet.get_string(Attribute::Status),
        Err(AttrError::Malformed(Attribute::Status))
    );
    assert_eq!(
        packet.get_u8(Attribute::VersionMinor),
        Err(AttrError::Missing(Attribute::VersionMinor))
    );
}

#[test]
fn only_messages_for_others_are_filtered() {
    assert_eq!(filter_packet(SELF, &message(Command::GetGpioValue, SELF, vec![pin(1)])), Ok(false));
    assert_eq!(filter_packet(SELF, &message(Command::Exit, 0, vec![])), Ok(false));
    assert_eq!(filter_packet(SELF, &message(Command::SetGpioValue, 0, vec![])), Ok(false));
    assert_eq!(filter_packet(SELF, &message(Command::GetGpioValue, OTHER, vec![pin(1)])), Ok(true));
    let unaddressed = Message { cmd: Command::Exit, version: 1, attrs: vec![] };
    assert_eq!(
        filter_packet(SELF, &unaddressed),
        Err(AttrError::Missing(Attribute::UniqueId))
    );
}

#[test]
fn a_broadcast_exit_is_accepted() {
    let handle = Handle::new(SELF);
    let packet = message(Command::Exit, 0, vec![text(Attribute::Message, "driver unloaded")]);
    assert_eq!(
        handle.parse(&packet),
        Ok(Packet::Exit(Exit { message: String::from("driver unloaded") }))
    );
}

#[test]
fn any_other_broadcast_is_unknown() {
    let handle = Handle::new(SELF);
    let value = attr(Attribute::GpioValue, Payload::U32(1));
    let cases = vec![
        message(Command::GetGpioValue, 0, vec![pin(1)]),
        message(Command::SetGpioValue, 0, vec![pin(1), value]),
        message(Command::SetGpioConfig, 0, vec![pin(1)]),
        message(Command::SetGpioDirection, 0, vec![pin(1)]),
        message(Command::Init, 0, vec![]),
        message(Command::Deinit, 0, vec![]),
        message(Command::Unspec, 0, vec![]),
        message(Command::UnrecognizedConst(9), 0, vec![]),
    ];
    for packet in cases {
        assert_eq!(handle.parse(&packet), Err(ParseError::UnknownCommand(packet.cmd)));
    }
}

#[test]
fn a_message_for_this_bridge_is_read_by_its_command() {
    let handle = Handle::new(SELF);
    assert_eq!(
        handle.parse(&message(Command::GetGpioValue, SELF, vec![pin(4)])),
        Ok(Packet::GetGpioValue(GetGpioValue { pin: 4 }))
    );
    assert_eq!(
        handle.parse(&message(
            Command::SetGpioValue,
            SELF,
            vec![pin(3), attr(Attribute::GpioValue, Payload::U32(1))]
        )),
        Ok(Packet::SetGpioValue(SetGpioValue { pin: 3, value: GpioValue::High }))
    );
    assert_eq!(
        handle.parse(&message(
            Command::SetGpioConfig,
            SELF,
            vec![pin(2), attr(Attribute::GpioConfig, Payload::U32(6))]
        )),
        Ok(Packet::SetGpioConfig(SetGpioConfig { pin: 2, config: GpioConfig::DriveOpenDrain }))
    );
    assert_eq!(
        handle.parse(&message(
            Command::SetGpioDirection,
            SELF,
            vec![pin(300), attr(Attribute::GpioDirection, Payload::U32(2))]
        )),
        Ok(Packet::SetGpioDirection(SetGpioDirection {
            pin: 300,
            direction: GpioDirection::Disabled
        }))
    );
    assert_eq!(
        handle.parse(&message(Command::Exit, SELF, vec![text(Attribute::Message, "bye")])),
        Ok(Packet::Exit(Exit { message: String::from("bye") }))
    );
}

#[test]
fn a_message_for_this_bridge_must_be_complete() {
    let handle = Handle::new(SELF);
    assert_eq!(
        handle.parse(&message(Command::GetGpioValue, SELF, vec![])),
        Err(ParseError::Attribute(AttrError::Missing(Attribute::GpioPin)))
    );
    assert_eq!(
        handle.parse(&message(Command::SetGpioValue, SELF, vec![pin(1)])),
        Err(ParseError::Attribute(AttrError::Missing(Attribute::GpioValue)))
    );
    assert_eq!(
        handle.parse(&message(
            Command::SetGpioValue,
            SELF,
            vec![pin(1), attr(Attribute::GpioValue, Payload::U32(2))]
        )),
        Err(ParseError::TryFromPrimitive(TryFromPrimitiveError { number: 2 }))
    );
    assert_eq!(
        handle.parse(&message(
            Command::SetGpioConfig,
            SELF,
            vec![pin(1), attr(Attribute::GpioConfig, Payload::U32(2))]
        )),
        Err(ParseError::TryFromPrimitive(TryFromPrimitiveError { number: 2 }))
    );
    assert_eq!(
        handle.parse(&message(
            Command::SetGpioDirection,
            SELF,
            vec![pin(1), attr(Attribute::GpioDirection, Payload::Malformed)]
        )),
        Err(ParseError::Attribute(AttrError::Malformed(Attribute::GpioDirection)))
    );
    assert_eq!(
        handle.parse(&message(Command::Exit, SELF, vec![])),
        Err(ParseError::Attribute(AttrError::Missing(Attribute::Message)))
    );
    assert_eq!(
        handle.parse(&message(Command::Init, SELF, vec![])),
        Err(ParseError::UnknownCommand(Command::Init))
    );
    let unaddressed = Message { cmd: Command::GetGpioValue, version: 1, attrs: vec![pin(1)] };
    assert_eq!(
        handle.parse(&unaddressed),
        Err(ParseError::Attribute(AttrError::Missing(Attribute::UniqueId)))
    );
}

#[test]
fn a_message_for_another_bridge_is_discarded() {
    let bridge_b = Handle::new(SELF);
    let value = attr(Attribute::GpioValue, Payload::U32(1));
    let cases = vec![
        message(Command::GetGpioValue, OTHER, vec![pin(1)]),
        message(Command::SetGpioValue, OTHER, vec![pin(1), value]),
        message(Command::Exit, OTHER, vec![text(Attribute::Message, "bye")]),
        message(Command::GetGpioValue, OTHER, vec![]),
        message(Command::Init, OTHER, vec![]),
    ];
    for packet in cases {
        assert_eq!(bridge_b.parse(&packet), Ok(Packet::Discard));
        assert_eq!(filter_packet(SELF, &packet), Ok(true));
    }
    let bridge_a = Handle::new(OTHER);
    assert_eq!(
        bridge_a.parse(&message(Command::GetGpioValue, OTHER, vec![pin(1)])),
        Ok(Packet::GetGpioValue(GetGpioValue { pin: 1 }))
    );
}

fn reply(cmd: Command, pin: u32, status: u32) -> Message {
    Message {
        cmd,
        version: 1,
        attrs: vec![
            attr(Attribute::UniqueId, Payload::U64(SELF)),
            attr(Attribute::GpioPin, Payload::U32(pin)),
            attr(Attribute::Status, Payload::U32(status)),
        ],
    }
}

#[test]
fn replies_name_the_chip_the_pin_and_the_status() {
    let handle = Handle::new(SELF);
    assert_eq!(
        handle.set_gpio_value_reply(3, Some(Status::NotSupported)),
        Some(reply(Command::SetGpioValue, 3, 1))
    );
    assert_eq!(
        handle.set_gpio_config_reply(4, Some(Status::ProtocolError)),
        Some(reply(Command::SetGpioConfig, 4, 3))
    );
    assert_eq!(
        handle.set_gpio_direction_reply(5, Some(Status::Unknown)),
        Some(reply(Command::SetGpioDirection, 5, u32::MAX))
    );
    assert_eq!(
        handle.get_gpio_value_reply(6, None, Some(Status::BrokenPipe)),
        Some(reply(Command::GetGpioValue, 6, 2))
    );
    let mut with_value = reply(Command::GetGpioValue, 7, 0);
    with_value.attrs.push(attr(Attribute::GpioValue, Payload::U32(1)));
    assert_eq!(handle.get_gpio_value_reply(7, Some(1), Some(Status::Success)), Some(with_value));
}

#[test]
fn without_a_status_there_is_no_reply() {
    let handle = Handle::new(SELF);
    assert_eq!(handle.get_gpio_value_reply(1, Some(1), None), None);
    assert_eq!(handle.set_gpio_value_reply(1, None), None);
    assert_eq!(handle.set_gpio_config_reply(1, None), None);
    assert_eq!(handle.set_gpio_direction_reply(1, None), None);
}

#[test]
fn deinit_names_the_chip() {
    assert_eq!(
        Handle::new(SELF).deinit(),
        Message {
            cmd: Command::Deinit,
            version: 1,
            attrs: vec![attr(Attribute::UniqueId, Payload::U64(SELF))],
        }
    );
}

fn names() -> Vec<String> {
    vec![String::from("PA0"), String::from("PA1")]
}

#[test]
fn init_names_the_chip_and_its_pins() {
    assert_eq!(
        Handle::new(SELF).init("efr32", &names()),
        Ok(Message {
            cmd: Command::Init,
            version: 1,
            attrs: vec![
                attr(Attribute::UniqueId, Payload::U64(SELF)),
                attr(Attribute::GpioCount, Payload::U32(2)),
                attr(Attribute::GpioNames, Payload::Texts(names())),
                text(Attribute::ChipLabel, "efr32"),
            ],
        })
    );
}

#[test]
fn init_refuses_the_identifier_for_every_bridge() {
    assert_eq!(Handle::new(0).init("efr32", &names()), Err(HandshakeError::UniqueId));
    assert_eq!(Handle::new(0).init("efr32", &vec![]), Err(HandshakeError::UniqueId));
}

#[test]
fn init_refuses_a_chip_without_pins() {
    assert_eq!(Handle::new(SELF).init("efr32", &vec![]), Err(HandshakeError::GpioCount(0)));
}

fn deinit_reply(genl: u8, major: u8, status: u32) -> Message {
    Message {
        cmd: Command::Deinit,
        version: genl,
        attrs: vec![
            attr(Attribute::VersionMajor, Payload::U8(major)),
            attr(Attribute::VersionMinor, Payload::U8(2)),
            attr(Attribute::VersionPatch, Payload::U8(3)),
            attr(Attribute::Status, Payload::U32(status)),
        ],
    }
}

#[test]
fn the_reply_to_deinit_is_held_against_this_side() {
    assert_eq!(Handle::check_deinit(&deinit_reply(1, 1, 0)), Ok(()));
    assert_eq!(Handle::check_deinit(&deinit_reply(2, 1, 0)), Err(HandshakeError::GenlVersion(2)));
    assert_eq!(
        Handle::check_deinit(&deinit_reply(1, 2, 0)),
        Err(HandshakeError::Version(Version { major: 2, minor: 2, patch: 3 }))
    );
    assert_eq!(Handle::check_deinit(&deinit_reply(1, 1, 19)), Err(HandshakeError::Os(19)));
    assert_eq!(Handle::check_deinit(&deinit_reply(0, 9, 19)), Err(HandshakeError::GenlVersion(0)));
    assert_eq!(
        Handle::check_deinit(&deinit_reply(1, 9, 19)),
        Err(HandshakeError::Version(Version { major: 9, minor: 2, patch: 3 }))
    );
    let mut reply = deinit_reply(1, 1, 0);
    reply.attrs.remove(1);
    assert_eq!(
        Handle::check_deinit(&reply),
        Err(HandshakeError::Attribute(AttrError::Missing(Attribute::VersionMinor)))
    );
    let mut reply = deinit_reply(1, 1, 0);
    reply.attrs.remove(3);
    assert_eq!(
        Handle::check_deinit(&reply),
        Err(HandshakeError::Attribute(AttrError::Missing(Attribute::Status)))
    );
}

#[test]
fn the_reply_to_init_must_be_success() {
    let ok = Message {
        cmd: Command::Init,
        version: 1,
        attrs: vec![attr(Attribute::Status, Payload::U32(0))],
    };
    assert_eq!(Handle::check_init(&ok), Ok(()));
    let busy = Message {
        cmd: Command::Init,
        version: 1,
        attrs: vec![attr(Attribute::Status, Payload::U32(16))],
    };
    assert_eq!(Handle::check_init(&busy), Err(HandshakeError::Os(16)));
    let empty = Message { cmd: Command::Init, version: 1, attrs: vec![] };
    assert_eq!(
        Handle::check_init(&empty),
        Err(HandshakeError::Attribute(AttrError::Missing(Attribute::Status)))
    );
}

#[test]
fn the_handshake_registers_the_chip() {
    let handle = Handle::new(SELF);
    let next = handle.handshake(Phase::Deinit, false, "efr32", &names(), &deinit_reply(1, 1, 0));
    assert_eq!(next, Ok(Next::Init(handle.init("efr32", &names()).unwrap())));
    let ok = Message {
        cmd: Command::Init,
        version: 1,
        attrs: vec![attr(Attribute::Status, Payload::U32(0))],
    };
    assert_eq!(handle.handshake(Phase::Init, false, "efr32", &names(), &ok), Ok(Next::Ready));
}

#[test]
fn deinit_mode_ends_cleanly_without_init() {
    let handle = Handle::new(2827);
    let next = handle.handshake(Phase::Deinit, true, "efr32", &names(), &deinit_reply(1, 1, 0));
    assert_eq!(
        next,
        Ok(Next::Exit(ProcessExit::Context(String::from(
            "Deinitialized Kernel Driver (UID: 2827)"
        ))))
    );
    let next = Handle::new(0).handshake(Phase::Deinit, true, "", &vec![], &deinit_reply(1, 1, 0));
    assert!(matches!(next, Ok(Next::Exit(_))));
}

#[test]
fn the_handshake_fails_with_the_reply() {
    let handle = Handle::new(SELF);
    for deinit_and_exit in [false, true] {
        assert_eq!(
            handle.handshake(
                Phase::Deinit,
                deinit_and_exit,
                "efr32",
                &names(),
                &deinit_reply(1, 3, 0)
            ),
            Err(HandshakeError::Version(Version { major: 3, minor: 2, patch: 3 }))
        );
        assert_eq!(
            handle.handshake(
                Phase::Deinit,
                deinit_and_exit,
                "efr32",
                &names(),
                &deinit_reply(1, 1, 2)
            ),
            Err(HandshakeError::Os(2))
        );
    }
    assert_eq!(
        handle.handshake(Phase::Deinit, false, "efr32", &vec![], &deinit_reply(1, 1, 0)),
        Err(HandshakeError::GpioCount(0))
    );
    assert_eq!(
        Handle::new(0).handshake(Phase::Deinit, false, "efr32", &names(), &deinit_reply(1, 1, 0)),
        Err(HandshakeError::UniqueId)
    );
    let busy = Message {
        cmd: Command::Init,
        version: 1,
        attrs: vec![attr(Attribute::Status, Payload::U32(16))],
    };
    assert_eq!(
        handle.handshake(Phase::Init, false, "efr32", &names(), &busy),
        Err(HandshakeError::Os(16))
    );
}
