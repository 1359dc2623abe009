//! The events that travel to connected clients.

use crate::chat::ChatMessage;
use vstd::prelude::*;

verus! {

/// All events that can happen in a friendship.
#[derive(Clone, Copy, Debug, PartialEq, Eq, Structural)]
pub enum FriendshipEvent {
    /// A friendship request was accepted.
    Accepted,
    /// A friendship request was rejected.
    Rejected,
    /// A friendship was deleted.
    Deleted,
}

/// The public data of an account, as it is embedded in events.
#[derive(Clone, Debug, PartialEq, Eq)]
pub struct AccountResponse {
    /// Identifier of the account.
    pub uuid: u128,
    /// Login name of the account.
    pub username: String,
    /// Name shown to other players.
    pub display_name: String,
}

/// An event for one client.
///
/// Every variant but [`WsMessage::ServerQuitSocket`] is put on the wire as a
/// tagged envelope; the sentinel never leaves the process.
#[derive(Clone, Debug, PartialEq, Eq)]
pub enum WsMessage {
    /// Sentinel that asks a sender to close its connection.
    ServerQuitSocket,
    /// Answer to an inbound message that could not be accepted.
    InvalidMessage,
    /// A new game has started.
    GameStarted {
        /// Identifier of the game.
        game_uuid: u128,
        /// Chat room of the game.
        game_chat_uuid: u128,
        /// The lobby the game originated from.
        lobby_uuid: u128,
        /// The chat room of that lobby.
        lobby_chat_uuid: u128,
    },
    /// The data of a game changed.
    UpdateGameData {
        /// Identifier of the game.
        game_uuid: u128,
        /// Data of the game.
        game_data: String,
        /// Counter that identifies this state of the game.
        game_data_id: u64,
    },
    /// A client of a game lost its connection.
    ClientDisconnected {
        /// Identifier of the game.
        game_uuid: u128,
        /// The client that disconnected.
        client_uuid: u128,
    },
    /// A client of a game is connected again.
    ClientReconnected {
        /// Identifier of the game.
        game_uuid: u128,
        /// The client that reconnected.
        client_uuid: u128,
    },
    /// A new chat message.
    IncomingChatMessage {
        /// The chat the message belongs to.
        chat_uuid: u128,
        /// The new message.
        message: ChatMessage,
    },
    /// An invite to a lobby.
    IncomingInvite {
        /// Identifier of the invite.
        invite_uuid: u128,
        /// The account that sent the invite.
        from: AccountResponse,
        /// The lobby to join.
        lobby_uuid: u128,
    },
    /// A friend request.
    IncomingFriendRequest {
        /// The account that sent the request.
        from: AccountResponse,
    },
    /// A friendship was modified.
    FriendshipChanged {
        /// The friend that changed the friendship.
        friend: AccountResponse,
        /// What happened.
        event: FriendshipEvent,
    },
    /// A player joined a lobby.
    LobbyJoin {
        /// The lobby that was joined.
        lobby_uuid: u128,
        /// The player that joined.
        player: AccountResponse,
    },
    /// A lobby the client was part of was closed.
    LobbyClosed {
        /// The lobby that was closed.
        lobby_uuid: u128,
    },
    /// A player left a lobby.
    LobbyLeave {
        /// The lobby.
        lobby_uuid: u128,
        /// The player that left.
        player: AccountResponse,
    },
    /// A player was kicked out of a lobby.
    LobbyKick {
        /// The lobby.
        lobby_uuid: u128,
        /// The player that was kicked.
        player: AccountResponse,
    },
    /// An account was updated.
    AccountUpdated {
        /// The new account data.
        account: AccountResponse,
    },
}

impl FriendshipEvent {
    /// The name of the event on the wire.
    pub open spec fn wire_name(self) -> Seq<char> {
        match self {
            FriendshipEvent::Accepted => "accepted"@,
            FriendshipEvent::Rejected => "rejected"@,
            FriendshipEvent::Deleted => "deleted"@,
        }
    }

    /// Returns the name of the event on the wire.
    pub fn name(self) -> (name: &'static str)
        ensures
            name@ == self.wire_name(),
    {
        match self {
            FriendshipEvent::Accepted => "accepted",
            FriendshipEvent::Rejected => "rejected",
            FriendshipEvent::Deleted => "deleted",
        }
    }
}

impl WsMessage {
    /// Whether the event is the sentinel that ends a connection.
    pub open spec fn is_sentinel(self) -> bool {
        self is ServerQuitSocket
    }

    /// The `type` tag of the event's envelope; the sentinel has none.
    pub open spec fn wire_tag(self) -> Option<Seq<char>> {
        match self {
            WsMessage::ServerQuitSocket => None,
            WsMessage::InvalidMessage => Some("invalidMessage"@),
            WsMessage::GameStarted { .. } => Some("gameStarted"@),
            WsMessage::UpdateGameData { .. } => Some("updateGameData"@),
            WsMessage::ClientDisconnected { .. } => Some("clientDisconnected"@),
            WsMessage::ClientReconnected { .. } => Some("clientReconnected"@),
            WsMessage::IncomingChatMessage { .. } => Some("incomingChatMessage"@),
            WsMessage::IncomingInvite { .. } => Some("incomingInvite"@),
            WsMessage::IncomingFriendRequest { .. } => Some("incomingFriendRequest"@),
            WsMessage::FriendshipChanged { .. } => Some("friendshipChanged"@),
            WsMessage::LobbyJoin { .. } => Some("lobbyJoin"@),
            WsMessage::LobbyClosed { .. } => Some("lobbyClosed"@),
            WsMessage::LobbyLeave { .. } => Some("lobbyLeave"@),
            WsMessage::LobbyKick { .. } => Some("lobbyKick"@),
            WsMessage::AccountUpdated { .. } => Some("accountUpdated"@),
        }
    }

    /// Whether only the server may produce the event. Clients listen; every
    /// event of this protocol comes from the server.
    pub open spec fn is_server_only(self) -> bool {
        true
    }

    /// Tells whether only the server may produce the event, so that it is
    /// turned down when a client sends it.
    pub fn server_only(&self) -> (b: bool)
        ensures
            b == self.is_server_only(),
    {
        true
    }

    /// Tells whether the event is the sentinel that ends a connection.
    pub fn is_terminate(&self) -> (b: bool)
        ensures
            b == self.is_sentinel(),
    {
        match self {
            WsMessage::ServerQuitSocket => true,
            _ => false,
        }
    }

    /// Returns the `type` tag under which the event is put on the wire, and
    /// `None` for the sentinel, which is never put there.
    pub fn tag(&self) -> (tag: Option<&'static str>)
        ensures
            match tag {
                Some(t) => self.wire_tag() == Some(t@),
                None => self.wire_tag() is None,
            },
    {
        match self {
            WsMessage::ServerQuitSocket => None,
            WsMessage::InvalidMessage => Some("invalidMessage"),
            WsMessage::GameStarted { .. } => Some("gameStarted"),
            WsMessage::UpdateGameData { .. } => Some("updateGameData"),
            WsMessage::ClientDisconnected { .. } => Some("clientDisconnected"),
            WsMessage::ClientReconnected { .. } => Some("clientReconnected"),
            WsMessage::IncomingChatMessage { .. } => Some("incomingChatMessage"),
            WsMessage::IncomingInvite { .. } => Some("incomingInvite"),
            WsMessage::IncomingFriendRequest { .. } => Some("incomingFriendRequest"),
            WsMessage::FriendshipChanged { .. } => Some("friendshipChanged"),
            WsMessage::LobbyJoin { .. } => Some("lobbyJoin"),
            WsMessage::LobbyClosed { .. } => Some("lobbyClosed"),
            WsMessage::LobbyLeave { .. } => Some("lobbyLeave"),
            WsMessage::LobbyKick { .. } => Some("lobbyKick"),
            WsMessage::AccountUpdated { .. } => Some("accountUpdated"),
        }
    }
}

} // verus!
