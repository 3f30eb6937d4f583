use apocalypse::create_address_instruction;
use apocalypse::extinguish_instruction;
use apocalypse::message_instruction;
use apocalypse::register_demon_instruction;
use apocalypse::stats_instruction;
use apocalypse::vanquish_and_ignore_instruction;
use apocalypse::vanquish_and_ignore_with_timeout_instruction;
use apocalypse::vanquish_instruction;
use apocalypse::vanquish_with_timeout_instruction;
use apocalypse::Demon;
use apocalypse::Error;
use apocalypse::HellInstruction;
use apocalypse::Location;

struct UnitBot;

impl Demon for UnitBot {
    type Input = ();
    type Output = ();

    fn handle(&mut self, _message: ()) {}
}

#[test]
fn locations_compare_by_address() {
    let a: Location<UnitBot> = Location::new(3);
    let b: Location<UnitBot> = Location::new(3);
    let c: Location<UnitBot> = Location::new(4);
    assert_eq!(a.address(), 3);
    assert!(a == b);
    assert!(a != c);
    let d = a.clone();
    assert!(d == a);
    assert_eq!(d.address(), 3);
}

#[test]
fn diagnostic_identifiers_default_to_empty() {
    let bot = UnitBot;
    assert_eq!(bot.id(), "");
    assert_eq!(<UnitBot as Demon>::multiple_id(), "");
}

#[test]
fn error_descriptions() {
    assert_eq!(
        Error::TokioSend(String::from("hell channel error")).description(),
        "hell channel error"
    );
    assert_eq!(Error::RecvError(String::from("receiving on an empty and disconnected channel")).description(),
        "receiving on an empty and disconnected channel");
    assert_eq!(Error::IO(String::from("connection reset")).description(), "connection reset");
    assert_eq!(
        Error::WrongType.description(),
        "a correct opaque-value to `Input` or `Output` conversion failed... contact this library's developer"
    );
    assert_eq!(Error::WrongReplicas.description(), "the minimum number of replicas needs to be 1");
    assert_eq!(Error::InvalidLocation.description(), "the location is no longer valid");
    assert_eq!(
        Error::OccupiedAddress.description(),
        "the location for this demon is already taken"
    );
    assert_eq!(
        Error::DemonCommunication.description(),
        "message to the demon could not be delivered"
    );
}

#[test]
fn gate_operations_build_their_instructions() {
    assert!(matches!(create_address_instruction(), HellInstruction::CreateAddress));
    assert!(matches!(
        register_demon_instruction(7),
        HellInstruction::RegisterDemon { address: 7 }
    ));
    assert!(matches!(
        message_instruction(7, 99, false),
        HellInstruction::Message { address: 7, ticket: 99, ignore: false }
    ));
    assert!(matches!(
        message_instruction(7, 99, true),
        HellInstruction::Message { address: 7, ticket: 99, ignore: true }
    ));
    assert!(matches!(
        vanquish_instruction(7),
        HellInstruction::RemoveDemon { address: 7, ignore: false, force: None }
    ));
    assert!(matches!(
        vanquish_with_timeout_instruction(7, Some(50)),
        HellInstruction::RemoveDemon { address: 7, ignore: false, force: Some(Some(50)) }
    ));
    assert!(matches!(
        vanquish_with_timeout_instruction(7, None),
        HellInstruction::RemoveDemon { address: 7, ignore: false, force: Some(None) }
    ));
    assert!(matches!(
        vanquish_and_ignore_instruction(7),
        HellInstruction::RemoveDemon { address: 7, ignore: true, force: None }
    ));
    assert!(matches!(
        vanquish_and_ignore_with_timeout_instruction(7, Some(50)),
        HellInstruction::RemoveDemon { address: 7, ignore: true, force: Some(Some(50)) }
    ));
    assert!(matches!(extinguish_instruction(true), HellInstruction::Extinguish { wait: true }));
    assert!(matches!(extinguish_instruction(false), HellInstruction::Extinguish { wait: false }));
    assert!(matches!(stats_instruction(), HellInstruction::Stats));
}
