use truinlag::commands::{BroadcastAction, ClientCommand, EngineAction, EngineCommand, ResponseAction, ResponsePackage};
use truinlag::distributor::{CommandIds, Delivery, Distributor};

fn response(id: u64) -> ClientCommand {
    ClientCommand::Response(ResponsePackage { action: ResponseAction::Period(id as usize), id })
}

#[test]
fn commands_are_numbered_in_order() {
    let mut ids = CommandIds::new();
    let a = ids.package(EngineCommand { session: None, action: EngineAction::GetState });
    let b = ids.package(EngineCommand { session: Some(2), action: EngineAction::Start });
    assert_eq!((a.id, b.id), (0, 1));
    assert_eq!(b.command.session, Some(2));
    let mut last = CommandIds { next: u64::MAX };
    assert_eq!(last.package(EngineCommand { session: None, action: EngineAction::GetState }).id, u64::MAX);
    assert_eq!(last.next, 0);
}

#[test]
fn a_response_after_its_sender_is_delivered() {
    let mut d: Distributor<&str> = Distributor::new();
    assert!(matches!(d.on_waiting(7, "seven"), Delivery::Keep));
    assert!(matches!(d.on_waiting(8, "eight"), Delivery::Keep));
    match d.on_message(response(8)) {
        Delivery::Deliver { to, action: ResponseAction::Period(8) } => assert_eq!(to, "eight"),
        _ => panic!("expected a delivery"),
    }
    assert_eq!(d.waiting.len(), 1);
    assert_eq!(d.waiting[0].id, 7);
}

#[test]
fn a_response_before_its_sender_waits_for_it() {
    let mut d: Distributor<u32> = Distributor::new();
    assert!(matches!(d.on_message(response(3)), Delivery::Keep));
    assert_eq!(d.early.len(), 1);
    match d.on_waiting(3, 33) {
        Delivery::Deliver { to, action: ResponseAction::Period(3) } => assert_eq!(to, 33),
        _ => panic!("expected a delivery"),
    }
    assert!(d.early.is_empty());
    assert!(d.waiting.is_empty());
}

#[test]
fn broadcasts_are_forwarded() {
    let mut d: Distributor<u32> = Distributor::new();
    d.on_waiting(1, 10);
    assert!(matches!(d.on_message(ClientCommand::Broadcast(BroadcastAction::Ended)), Delivery::Forward(BroadcastAction::Ended)));
    assert_eq!(d.waiting.len(), 1);
}
