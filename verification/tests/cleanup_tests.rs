use runciv::chat::ChatMessage;
use runciv::cleanup::{other_members, plan_cleanup, LobbySnapshot, Notification, Removal};
use runciv::event::{AccountResponse, FriendshipEvent, WsMessage};
use runciv::registry::{Reaction, Registry, WsManagerMessage};
use std::cmp::Ordering;

const A: u128 = 0xa;
const B: u128 = 0xb;
const C: u128 = 0xc;
const D: u128 = 0xd;
const LOBBY: u128 = 0x10bb1;
const CHAT: u128 = 0xc4a7;

fn account(uuid: u128, name: &str) -> AccountResponse {
    AccountResponse {
        uuid,
        username: String::from(name),
        display_name: format!("{} the player", name),
    }
}

#[test]
fn owner_lost_closes_the_lobby_and_informs_the_members() {
    let a = account(A, "a");
    let lobby = LobbySnapshot { uuid: LOBBY, chat_room: CHAT, owner: A, members: vec![B, C] };

    let mut registry = Registry::new();
    registry.process(WsManagerMessage::OpenedSocket(A, 1));
    registry.process(WsManagerMessage::OpenedSocket(B, 2));
    registry.process(WsManagerMessage::OpenedSocket(C, 3));
    let reaction = registry.process(WsManagerMessage::WebsocketClosed(A, 1));
    assert_eq!(reaction, Reaction::StartCleanup { account: A });
    // presence is gone before any cleanup has run
    assert!(!registry.is_online(A));

    let plan = plan_cleanup(&a, &Some(lobby), &vec![]);
    assert_eq!(plan.removals, vec![Removal::ChatRoom(CHAT), Removal::Lobby(LOBBY)]);
    assert_eq!(
        plan.notifications,
        vec![
            Notification { recipient: B, event: WsMessage::LobbyClosed { lobby_uuid: LOBBY } },
            Notification { recipient: C, event: WsMessage::LobbyClosed { lobby_uuid: LOBBY } },
        ]
    );

    let mut delivered = Vec::new();
    for note in plan.released(true) {
        delivered.push(registry.process(WsManagerMessage::SendMessage(note.recipient, note.event)));
    }
    assert_eq!(
        delivered,
        vec![
            Reaction::Deliver {
                connections: vec![2],
                event: WsMessage::LobbyClosed { lobby_uuid: LOBBY }
            },
            Reaction::Deliver {
                connections: vec![3],
                event: WsMessage::LobbyClosed { lobby_uuid: LOBBY }
            },
        ]
    );
}

#[test]
fn member_lost_leaves_the_lobby_and_informs_owner_and_members() {
    let b = account(B, "b");
    let lobby = LobbySnapshot { uuid: LOBBY, chat_room: CHAT, owner: A, members: vec![B, C] };
    let plan = plan_cleanup(&b, &None, &vec![lobby]);
    // the lobby itself is not deleted
    assert_eq!(
        plan.removals,
        vec![
            Removal::ChatRoomMember { chat_room: CHAT, member: B },
            Removal::LobbyAccount { lobby: LOBBY, player: B },
        ]
    );
    let left = WsMessage::LobbyLeave { lobby_uuid: LOBBY, player: b.clone() };
    assert_eq!(
        plan.notifications,
        vec![
            Notification { recipient: A, event: left.clone() },
            Notification { recipient: C, event: left },
        ]
    );
}

#[test]
fn owned_and_joined_lobbies_are_handled_in_one_plan() {
    let d = account(D, "d");
    let owned = LobbySnapshot { uuid: 1, chat_room: 11, owner: D, members: vec![A, D, B] };
    let first = LobbySnapshot { uuid: 2, chat_room: 22, owner: A, members: vec![D] };
    let second = LobbySnapshot { uuid: 3, chat_room: 33, owner: B, members: vec![C, D, A] };
    let plan = plan_cleanup(&d, &Some(owned), &vec![first, second]);
    assert_eq!(
        plan.removals,
        vec![
            Removal::ChatRoom(11),
            Removal::Lobby(1),
            Removal::ChatRoomMember { chat_room: 22, member: D },
            Removal::LobbyAccount { lobby: 2, player: D },
            Removal::ChatRoomMember { chat_room: 33, member: D },
            Removal::LobbyAccount { lobby: 3, player: D },
        ]
    );
    let closed = WsMessage::LobbyClosed { lobby_uuid: 1 };
    let left2 = WsMessage::LobbyLeave { lobby_uuid: 2, player: d.clone() };
    let left3 = WsMessage::LobbyLeave { lobby_uuid: 3, player: d.clone() };
    assert_eq!(
        plan.notifications,
        vec![
            Notification { recipient: A, event: closed.clone() },
            Notification { recipient: B, event: closed },
            Notification { recipient: A, event: left2 },
            Notification { recipient: B, event: left3.clone() },
            Notification { recipient: C, event: left3.clone() },
            Notification { recipient: A, event: left3 },
        ]
    );
}

#[test]
fn nothing_stored_means_nothing_to_clean() {
    let a = account(A, "a");
    let plan = plan_cleanup(&a, &None, &vec![]);
    assert_eq!(plan.removals, vec![]);
    assert_eq!(plan.notifications, vec![]);
}

#[test]
fn repeated_disconnect_repeats_no_cleanup() {
    let b = account(B, "b");
    let mut registry = Registry::new();
    registry.process(WsManagerMessage::OpenedSocket(B, 1));
    let lobby = LobbySnapshot { uuid: LOBBY, chat_room: CHAT, owner: A, members: vec![B] };

    assert_eq!(
        registry.process(WsManagerMessage::WebsocketClosed(B, 1)),
        Reaction::StartCleanup { account: B }
    );
    let first = plan_cleanup(&b, &None, &vec![lobby]);
    assert_eq!(first.removals.len(), 2);
    assert_eq!(first.notifications.len(), 1);

    // the rows are gone, so the second cleanup finds nothing
    assert_eq!(
        registry.process(WsManagerMessage::WebsocketClosed(B, 1)),
        Reaction::StartCleanup { account: B }
    );
    let second = plan_cleanup(&b, &None, &vec![]);
    assert_eq!(second.removals, vec![]);
    assert_eq!(second.notifications, vec![]);
    assert!(!registry.is_online(B));
    assert_eq!(registry.count(), 0);
}

#[test]
fn failed_transaction_releases_no_notification() {
    let a = account(A, "a");
    let lobby = LobbySnapshot { uuid: LOBBY, chat_room: CHAT, owner: A, members: vec![B, C] };
    let plan = plan_cleanup(&a, &Some(lobby), &vec![]);
    assert_eq!(plan.clone().released(true).len(), 2);
    assert_eq!(plan.released(false), vec![]);
}

#[test]
fn other_members_drops_every_occurrence() {
    assert_eq!(other_members(&vec![A, B, A, C], A), vec![B, C]);
    assert_eq!(other_members(&vec![B, C], A), vec![B, C]);
    assert_eq!(other_members(&vec![A], A), Vec::<u128>::new());
}

#[test]
fn events_carry_their_wire_tags() {
    let who = account(A, "a");
    assert_eq!(WsMessage::ServerQuitSocket.tag(), None);
    assert!(WsMessage::ServerQuitSocket.is_terminate());
    assert!(!WsMessage::InvalidMessage.is_terminate());
    assert_eq!(WsMessage::InvalidMessage.tag(), Some("invalidMessage"));
    assert_eq!(WsMessage::LobbyClosed { lobby_uuid: 1 }.tag(), Some("lobbyClosed"));
    assert_eq!(
        WsMessage::LobbyLeave { lobby_uuid: 1, player: who.clone() }.tag(),
        Some("lobbyLeave")
    );
    assert_eq!(WsMessage::LobbyJoin { lobby_uuid: 1, player: who.clone() }.tag(), Some("lobbyJoin"));
    assert_eq!(WsMessage::LobbyKick { lobby_uuid: 1, player: who.clone() }.tag(), Some("lobbyKick"));
    assert_eq!(WsMessage::AccountUpdated { account: who.clone() }.tag(), Some("accountUpdated"));
    assert_eq!(
        WsMessage::FriendshipChanged { friend: who.clone(), event: FriendshipEvent::Deleted }.tag(),
        Some("friendshipChanged")
    );
    assert_eq!(
        WsMessage::IncomingFriendRequest { from: who }.tag(),
        Some("incomingFriendRequest")
    );
    assert_eq!(
        WsMessage::ClientDisconnected { game_uuid: 1, client_uuid: 2 }.tag(),
        Some("clientDisconnected")
    );
    assert_eq!(FriendshipEvent::Accepted.name(), "accepted");
    assert_eq!(FriendshipEvent::Rejected.name(), "rejected");
    assert_eq!(FriendshipEvent::Deleted.name(), "deleted");
}

#[test]
fn chat_messages_are_equal_by_identifier_and_ordered_by_time() {
    let message = |uuid: u128, text: &str, created_at: i64| ChatMessage {
        uuid,
        sender: account(A, "a"),
        message: String::from(text),
        created_at,
    };
    let first = message(1, "hello", 1_000);
    let edited = message(1, "hello there", 2_000);
    let second = message(2, "hello", 1_000);
    assert!(first == edited);
    assert!(first != second);
    assert_eq!(first.partial_cmp(&edited), Some(Ordering::Less));
    assert_eq!(edited.partial_cmp(&first), Some(Ordering::Greater));
    assert_eq!(first.partial_cmp(&second), Some(Ordering::Equal));
    assert!(first < edited);
    assert!(edited > second);
    let event = WsMessage::IncomingChatMessage { chat_uuid: 5, message: first };
    assert_eq!(event.tag(), Some("incomingChatMessage"));
}
