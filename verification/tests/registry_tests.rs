use runciv::event::WsMessage;
use runciv::registry::{remove_connection, Reaction, Registry, WsManagerMessage};

const ALICE: u128 = 0x0a11ce;
const BOB: u128 = 0xb0b;
const CAROL: u128 = 0xca201;

fn count(registry: &mut Registry) -> u64 {
    match registry.process(WsManagerMessage::RetrieveWsCount) {
        Reaction::ReplyCount(n) => n,
        other => panic!("unexpected reaction {:?}", other),
    }
}

fn online(registry: &mut Registry, account: u128) -> bool {
    match registry.process(WsManagerMessage::RetrieveOnlineState(account)) {
        Reaction::ReplyOnlineState(b) => b,
        other => panic!("unexpected reaction {:?}", other),
    }
}

#[test]
fn new_registry_has_nobody_online() {
    let mut registry = Registry::new();
    assert!(!registry.is_online(ALICE));
    assert_eq!(registry.count(), 0);
    assert_eq!(count(&mut registry), 0);
    assert_eq!(registry.connections(ALICE), Vec::<u64>::new());
}

#[test]
fn open_makes_the_account_online_and_starts_a_sender() {
    let mut registry = Registry::new();
    let reaction = registry.process(WsManagerMessage::OpenedSocket(ALICE, 7));
    assert_eq!(reaction, Reaction::StartSender { account: ALICE, connection: 7 });
    assert!(online(&mut registry, ALICE));
    assert!(!online(&mut registry, BOB));
    assert_eq!(registry.connections(ALICE), vec![7]);
}

#[test]
fn two_opens_are_both_listed_and_close_terminates_both() {
    let mut registry = Registry::new();
    registry.process(WsManagerMessage::OpenedSocket(ALICE, 1));
    registry.process(WsManagerMessage::OpenedSocket(ALICE, 2));
    assert_eq!(registry.connections(ALICE), vec![1, 2]);
    assert_eq!(count(&mut registry), 2);

    let reaction = registry.process(WsManagerMessage::CloseSocket(ALICE));
    assert_eq!(
        reaction,
        Reaction::Deliver { connections: vec![1, 2], event: WsMessage::ServerQuitSocket }
    );
    assert!(!online(&mut registry, ALICE));
    assert_eq!(count(&mut registry), 0);
}

#[test]
fn close_of_an_offline_account_terminates_nothing() {
    let mut registry = Registry::new();
    registry.process(WsManagerMessage::OpenedSocket(BOB, 3));
    let reaction = registry.process(WsManagerMessage::CloseSocket(ALICE));
    assert_eq!(
        reaction,
        Reaction::Deliver { connections: vec![], event: WsMessage::ServerQuitSocket }
    );
    assert!(online(&mut registry, BOB));
    assert_eq!(count(&mut registry), 1);
}

#[test]
fn send_to_offline_account_delivers_nothing() {
    let mut registry = Registry::new();
    let event = WsMessage::LobbyClosed { lobby_uuid: 99 };
    let reaction = registry.process(WsManagerMessage::SendMessage(ALICE, event.clone()));
    assert_eq!(reaction, Reaction::Deliver { connections: vec![], event });
    assert!(!online(&mut registry, ALICE));
    assert_eq!(count(&mut registry), 0);
}

#[test]
fn send_reaches_every_connection_of_the_account_in_order() {
    let mut registry = Registry::new();
    registry.process(WsManagerMessage::OpenedSocket(ALICE, 5));
    registry.process(WsManagerMessage::OpenedSocket(BOB, 6));
    registry.process(WsManagerMessage::OpenedSocket(ALICE, 4));
    let event = WsMessage::GameStarted {
        game_uuid: 1,
        game_chat_uuid: 2,
        lobby_uuid: 3,
        lobby_chat_uuid: 4,
    };
    let reaction = registry.process(WsManagerMessage::SendMessage(ALICE, event.clone()));
    assert_eq!(reaction, Reaction::Deliver { connections: vec![5, 4], event });
    assert_eq!(registry.connections(ALICE), vec![5, 4]);
}

#[test]
fn count_is_the_sum_of_all_list_lengths() {
    let mut registry = Registry::new();
    registry.process(WsManagerMessage::OpenedSocket(ALICE, 1));
    registry.process(WsManagerMessage::OpenedSocket(ALICE, 2));
    registry.process(WsManagerMessage::OpenedSocket(BOB, 3));
    registry.process(WsManagerMessage::OpenedSocket(CAROL, 4));
    registry.process(WsManagerMessage::OpenedSocket(CAROL, 5));
    registry.process(WsManagerMessage::OpenedSocket(CAROL, 6));
    let sum = registry.connections(ALICE).len()
        + registry.connections(BOB).len()
        + registry.connections(CAROL).len();
    assert_eq!(sum, 6);
    assert_eq!(count(&mut registry), 6);
    registry.process(WsManagerMessage::WebsocketClosed(CAROL, 5));
    assert_eq!(count(&mut registry), 5);
    registry.process(WsManagerMessage::CloseSocket(ALICE));
    assert_eq!(count(&mut registry), 3);
}

#[test]
fn lost_connection_leaves_the_others_of_the_account() {
    let mut registry = Registry::new();
    registry.process(WsManagerMessage::OpenedSocket(ALICE, 1));
    registry.process(WsManagerMessage::OpenedSocket(ALICE, 2));
    let reaction = registry.process(WsManagerMessage::WebsocketClosed(ALICE, 1));
    assert_eq!(reaction, Reaction::StartCleanup { account: ALICE });
    assert!(online(&mut registry, ALICE));
    assert_eq!(registry.connections(ALICE), vec![2]);
    registry.process(WsManagerMessage::WebsocketClosed(ALICE, 2));
    assert!(!online(&mut registry, ALICE));
    assert_eq!(count(&mut registry), 0);
}

#[test]
fn presence_is_false_at_once_after_the_last_connection_is_lost() {
    let mut registry = Registry::new();
    registry.process(WsManagerMessage::OpenedSocket(ALICE, 1));
    registry.process(WsManagerMessage::OpenedSocket(BOB, 2));
    let reaction = registry.process(WsManagerMessage::WebsocketClosed(ALICE, 1));
    assert_eq!(reaction, Reaction::StartCleanup { account: ALICE });
    assert!(!online(&mut registry, ALICE));
    assert!(online(&mut registry, BOB));
}

#[test]
fn disconnect_twice_changes_nothing_the_second_time() {
    let mut registry = Registry::new();
    registry.process(WsManagerMessage::OpenedSocket(BOB, 9));
    registry.process(WsManagerMessage::OpenedSocket(ALICE, 1));
    registry.process(WsManagerMessage::WebsocketClosed(ALICE, 1));
    let again = registry.process(WsManagerMessage::WebsocketClosed(ALICE, 1));
    assert_eq!(again, Reaction::StartCleanup { account: ALICE });
    assert!(!online(&mut registry, ALICE));
    assert_eq!(registry.connections(BOB), vec![9]);
    assert_eq!(count(&mut registry), 1);
}

#[test]
fn disconnect_of_an_unlisted_connection_is_a_no_op() {
    let mut registry = Registry::new();
    registry.process(WsManagerMessage::OpenedSocket(ALICE, 1));
    registry.process(WsManagerMessage::WebsocketClosed(ALICE, 42));
    registry.process(WsManagerMessage::WebsocketClosed(BOB, 1));
    assert_eq!(registry.connections(ALICE), vec![1]);
    assert!(!online(&mut registry, BOB));
    assert_eq!(count(&mut registry), 1);
}

#[test]
fn bulk_query_answers_in_the_order_asked() {
    let mut registry = Registry::new();
    registry.process(WsManagerMessage::OpenedSocket(ALICE, 1));
    registry.process(WsManagerMessage::OpenedSocket(CAROL, 2));
    let reaction =
        registry.process(WsManagerMessage::RetrieveOnlineStates(vec![BOB, ALICE, CAROL, BOB, ALICE]));
    assert_eq!(reaction, Reaction::ReplyOnlineStates(vec![false, true, true, false, true]));
    let empty = registry.process(WsManagerMessage::RetrieveOnlineStates(vec![]));
    assert_eq!(empty, Reaction::ReplyOnlineStates(vec![]));
    assert_eq!(registry.online_states(&vec![CAROL, BOB]), vec![true, false]);
}

#[test]
fn presence_follows_a_history_of_commands() {
    let mut registry = Registry::new();
    let history = vec![
        WsManagerMessage::OpenedSocket(ALICE, 1),
        WsManagerMessage::OpenedSocket(BOB, 2),
        WsManagerMessage::CloseSocket(ALICE),
        WsManagerMessage::OpenedSocket(ALICE, 3),
        WsManagerMessage::WebsocketClosed(BOB, 2),
        WsManagerMessage::OpenedSocket(CAROL, 4),
        WsManagerMessage::WebsocketClosed(CAROL, 5),
    ];
    for command in history {
        registry.process(command);
    }
    // connection 3 of ALICE and connection 4 of CAROL were never ended
    assert!(registry.is_online(ALICE));
    assert!(!registry.is_online(BOB));
    assert!(registry.is_online(CAROL));
    assert_eq!(registry.connections(ALICE), vec![3]);
    assert_eq!(registry.count(), 2);
}

#[test]
fn try_process_processes_what_fits() {
    let mut registry = Registry::new();
    let reaction = registry.try_process(WsManagerMessage::OpenedSocket(ALICE, 1));
    assert_eq!(reaction, Some(Reaction::StartSender { account: ALICE, connection: 1 }));
    let reaction = registry.try_process(WsManagerMessage::RetrieveWsCount);
    assert_eq!(reaction, Some(Reaction::ReplyCount(1)));
}

#[test]
fn direct_methods_agree_with_commands() {
    let mut registry = Registry::new();
    registry.open(ALICE, 1);
    registry.open(ALICE, 2);
    registry.open(ALICE, 1);
    assert_eq!(registry.connections(ALICE), vec![1, 2, 1]);
    registry.disconnect(ALICE, 1);
    assert_eq!(registry.connections(ALICE), vec![2]);
    assert_eq!(registry.count(), 1);
    assert_eq!(registry.close(ALICE), vec![2]);
    assert_eq!(registry.close(ALICE), Vec::<u64>::new());
    assert_eq!(registry.count(), 0);
}

#[test]
fn remove_connection_keeps_the_order_of_the_rest() {
    assert_eq!(remove_connection(&vec![4, 1, 4, 2, 3, 4], 4), vec![1, 2, 3]);
    assert_eq!(remove_connection(&vec![1, 2], 9), vec![1, 2]);
    assert_eq!(remove_connection(&vec![], 9), Vec::<u64>::new());
}
