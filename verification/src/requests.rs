//! The bodies of the requests that carry rules of their own, and the checks
//! that are made on them before storage is touched.

use crate::api_error::ApiError;
use vstd::prelude::*;

verus! {

/// The smallest number of players a lobby can be created for.
pub const MIN_LOBBY_PLAYERS: u8 = 2;

/// The largest number of players a lobby can be created for.
pub const MAX_LOBBY_PLAYERS: u8 = 34;

/// The content to register a new account.
#[derive(Clone, Debug, PartialEq, Eq)]
pub struct AccountRegistrationRequest {
    /// The login name; must not be empty.
    pub username: String,
    /// The name shown to others; must not be empty.
    pub display_name: String,
    /// The password.
    pub password: String,
}

/// The content to set a new password.
#[derive(Clone, Debug, PartialEq, Eq)]
pub struct SetPasswordRequest {
    /// The current password.
    pub old_password: String,
    /// The new password; must not be empty.
    pub new_password: String,
}

/// The content to update an account. Both fields are optional, but at least
/// one of them is required.
#[derive(Clone, Debug, PartialEq, Eq)]
pub struct UpdateAccountRequest {
    /// The new login name, if it changes; must not be empty.
    pub username: Option<String>,
    /// The new display name, if it changes; must not be empty.
    pub display_name: Option<String>,
}

/// The content to look an account up by its login name.
#[derive(Clone, Debug, PartialEq, Eq)]
pub struct LookupAccountUsernameRequest {
    /// The login name to look for.
    pub username: String,
}

/// The content to log in.
#[derive(Clone, Debug, PartialEq, Eq)]
pub struct LoginRequest {
    /// The login name.
    pub username: String,
    /// The password.
    pub password: String,
}

/// The content to send a chat message.
#[derive(Clone, Debug, PartialEq, Eq)]
pub struct SendMessageRequest {
    /// The text; must not be empty.
    pub message: String,
}

/// The content to upload a game state.
#[derive(Clone, Debug, PartialEq, Eq)]
pub struct GameUploadRequest {
    /// The game state.
    pub game_data: String,
}

/// The answer to an uploaded game state.
#[derive(Clone, Copy, Debug, PartialEq, Eq)]
pub struct GameUploadResponse {
    /// The counter that identifies the uploaded state.
    pub game_data_id: u64,
}

/// The content to create a lobby.
#[derive(Clone, Debug, PartialEq, Eq)]
pub struct CreateLobbyRequest {
    /// The name of the lobby.
    pub name: String,
    /// The password of the lobby, if it has one; must not be empty.
    pub password: Option<String>,
    /// The number of players the lobby is made for.
    pub max_players: u8,
}

/// The content to join a lobby.
#[derive(Clone, Debug, PartialEq, Eq)]
pub struct JoinLobbyRequest {
    /// The password, where the lobby has one.
    pub password: Option<String>,
}

/// Whether an optional text is given and empty.
pub open spec fn given_empty(text: Option<String>) -> bool {
    text matches Some(t) && t@.len() == 0
}

/// Tells whether an optional text is given and empty.
fn is_given_empty(text: &Option<String>) -> (empty: bool)
    ensures
        empty == given_empty(*text),
{
    match text {
        Some(t) => t.as_str().is_empty(),
        None => false,
    }
}

impl AccountRegistrationRequest {
    /// What the check of the request yields.
    pub open spec fn verdict(self) -> Result<(), ApiError> {
        if self.username@.len() == 0 {
            Err(ApiError::InvalidUsername)
        } else if self.display_name@.len() == 0 {
            Err(ApiError::InvalidDisplayName)
        } else {
            Ok(())
        }
    }

    /// Checks the request: an empty username is refused first, then an
    /// empty display name.
    pub fn validate(&self) -> (result: Result<(), ApiError>)
        ensures
            result == self.verdict(),
    {
        if self.username.as_str().is_empty() {
            Err(ApiError::InvalidUsername)
        } else if self.display_name.as_str().is_empty() {
            Err(ApiError::InvalidDisplayName)
        } else {
            Ok(())
        }
    }
}

impl SetPasswordRequest {
    /// Checks the request: an empty new password is refused.
    pub fn validate(&self) -> (result: Result<(), ApiError>)
        ensures
            result == if self.new_password@.len() == 0 {
                Err::<(), ApiError>(ApiError::InvalidPassword)
            } else {
                Ok::<(), ApiError>(())
            },
    {
        if self.new_password.as_str().is_empty() {
            Err(ApiError::InvalidPassword)
        } else {
            Ok(())
        }
    }
}

impl UpdateAccountRequest {
    /// What the check of the request yields, where `username_taken` says
    /// whether another account has the requested username.
    pub open spec fn verdict(self, username_taken: bool) -> Result<(), ApiError> {
        if given_empty(self.username) {
            Err(ApiError::InvalidUsername)
        } else if self.username is Some && username_taken {
            Err(ApiError::UsernameAlreadyOccupied)
        } else if given_empty(self.display_name) {
            Err(ApiError::InvalidDisplayName)
        } else if self.username is None && self.display_name is None {
            Err(ApiError::EmptyJson)
        } else {
            Ok(())
        }
    }

    /// Checks the request. Refused are, in this order: an empty username, a
    /// username that is taken, an empty display name, and a request that
    /// changes nothing.
    pub fn validate(&self, username_taken: bool) -> (result: Result<(), ApiError>)
        ensures
            result == self.verdict(username_taken),
    {
        if is_given_empty(&self.username) {
            Err(ApiError::InvalidUsername)
        } else if self.username.is_some() && username_taken {
            Err(ApiError::UsernameAlreadyOccupied)
        } else if is_given_empty(&self.display_name) {
            Err(ApiError::InvalidDisplayName)
        } else if self.username.is_none() && self.display_name.is_none() {
            Err(ApiError::EmptyJson)
        } else {
            Ok(())
        }
    }
}

impl SendMessageRequest {
    /// Checks the request: an empty message is refused.
    pub fn validate(&self) -> (result: Result<(), ApiError>)
        ensures
            result == if self.message@.len() == 0 {
                Err::<(), ApiError>(ApiError::InvalidMessage)
            } else {
                Ok::<(), ApiError>(())
            },
    {
        if self.message.as_str().is_empty() {
            Err(ApiError::InvalidMessage)
        } else {
            Ok(())
        }
    }
}

impl CreateLobbyRequest {
    /// What the check of the request yields.
    pub open spec fn verdict(self) -> Result<(), ApiError> {
        if self.max_players < MIN_LOBBY_PLAYERS || self.max_players > MAX_LOBBY_PLAYERS {
            Err(ApiError::InvalidMaxPlayersCount)
        } else if given_empty(self.password) {
            Err(ApiError::InvalidPassword)
        } else {
            Ok(())
        }
    }

    /// Checks the request: a number of players outside 2 to 34 is refused
    /// first, then an empty password.
    pub fn validate(&self) -> (result: Result<(), ApiError>)
        ensures
            result == self.verdict(),
    {
        if self.max_players < MIN_LOBBY_PLAYERS || self.max_players > MAX_LOBBY_PLAYERS {
            Err(ApiError::InvalidMaxPlayersCount)
        } else if is_given_empty(&self.password) {
            Err(ApiError::InvalidPassword)
        } else {
            Ok(())
        }
    }
}

/// Checks the login flag of a session: a request passes only if the flag is
/// set and true; otherwise it is refused as unauthenticated.
pub fn require_login(logged_in: Option<bool>) -> (result: Result<(), ApiError>)
    ensures
        result == if logged_in == Some(true) {
            Ok::<(), ApiError>(())
        } else {
            Err::<(), ApiError>(ApiError::Unauthenticated)
        },
{
    match logged_in {
        Some(true) => Ok(()),
        _ => Err(ApiError::Unauthenticated),
    }
}

/// Whether a lobby made for `max_player` players, which has `members`
/// members besides its owner, has no seat left.
pub open spec fn lobby_is_full(max_player: i16, members: nat) -> bool {
    max_player == members + 1
}

/// Tells whether a lobby has no seat left: the owner and the members fill
/// it.
pub fn is_lobby_full(max_player: i16, members: usize) -> (full: bool)
    ensures
        full == lobby_is_full(max_player, members as nat),
{
    max_player >= 1 && members == (max_player - 1) as usize
}

} // verus!
