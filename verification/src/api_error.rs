//! The errors of the request interface and how each is reported.
//!
//! Every error is reported with an HTTP status, a numeric status code that
//! identifies it, and a message. Codes from 1000 on are client errors, codes
//! from 2000 on are server errors.

use vstd::prelude::*;

verus! {

/// The numeric identifier of an error.
#[derive(Clone, Copy, Debug, PartialEq, Eq, Structural)]
pub enum ApiStatusCode {
    /// Reported as 1000.
    Unauthenticated,
    /// Reported as 1001.
    NotFound,
    /// Reported as 1002.
    InvalidContentType,
    /// Reported as 1003.
    InvalidJson,
    /// Reported as 1004.
    PayloadOverflow,
    /// Reported as 1005.
    LoginFailed,
    /// Reported as 1006.
    UsernameAlreadyOccupied,
    /// Reported as 1007.
    InvalidPassword,
    /// Reported as 1008.
    EmptyJson,
    /// Reported as 1009.
    InvalidUsername,
    /// Reported as 1010.
    InvalidDisplayName,
    /// Reported as 1011.
    FriendshipAlreadyRequested,
    /// Reported as 1012.
    AlreadyFriends,
    /// Reported as 1013.
    MissingPrivileges,
    /// Reported as 1014.
    InvalidMaxPlayersCount,
    /// Reported as 1015.
    AlreadyInALobby,
    /// Reported as 1016.
    InvalidUuid,
    /// Reported as 1017.
    InvalidLobbyUuid,
    /// Reported as 1018.
    InvalidFriendUuid,
    /// Reported as 1019.
    GameNotFound,
    /// Reported as 1020.
    InvalidMessage,
    /// Reported as 1021.
    WsNotConnected,
    /// Reported as 1022.
    LobbyFull,
    /// Reported as 1023.
    InvalidPlayerUuid,
    /// Reported as 1024.
    AlreadyInThisLobby,
    /// Reported as 2000.
    InternalServerError,
    /// Reported as 2001.
    DatabaseError,
    /// Reported as 2002.
    SessionError,
}

impl ApiStatusCode {
    /// The number that stands for the code on the wire.
    pub open spec fn value(self) -> u16 {
        match self {
            ApiStatusCode::Unauthenticated => 1000,
            ApiStatusCode::NotFound => 1001,
            ApiStatusCode::InvalidContentType => 1002,
            ApiStatusCode::InvalidJson => 1003,
            ApiStatusCode::PayloadOverflow => 1004,
            ApiStatusCode::LoginFailed => 1005,
            ApiStatusCode::UsernameAlreadyOccupied => 1006,
            ApiStatusCode::InvalidPassword => 1007,
            ApiStatusCode::EmptyJson => 1008,
            ApiStatusCode::InvalidUsername => 1009,
            ApiStatusCode::InvalidDisplayName => 1010,
            ApiStatusCode::FriendshipAlreadyRequested => 1011,
            ApiStatusCode::AlreadyFriends => 1012,
            ApiStatusCode::MissingPrivileges => 1013,
            ApiStatusCode::InvalidMaxPlayersCount => 1014,
            ApiStatusCode::AlreadyInALobby => 1015,
            ApiStatusCode::InvalidUuid => 1016,
            ApiStatusCode::InvalidLobbyUuid => 1017,
            ApiStatusCode::InvalidFriendUuid => 1018,
            ApiStatusCode::GameNotFound => 1019,
            ApiStatusCode::InvalidMessage => 1020,
            ApiStatusCode::WsNotConnected => 1021,
            ApiStatusCode::LobbyFull => 1022,
            ApiStatusCode::InvalidPlayerUuid => 1023,
            ApiStatusCode::AlreadyInThisLobby => 1024,
            ApiStatusCode::InternalServerError => 2000,
            ApiStatusCode::DatabaseError => 2001,
            ApiStatusCode::SessionError => 2002,
        }
    }

    /// Returns the number that stands for the code on the wire.
    pub fn code(self) -> (code: u16)
        ensures
            code == self.value(),
    {
        match self {
            ApiStatusCode::Unauthenticated => 1000,
            ApiStatusCode::NotFound => 1001,
            ApiStatusCode::InvalidContentType => 1002,
            ApiStatusCode::InvalidJson => 1003,
            ApiStatusCode::PayloadOverflow => 1004,
            ApiStatusCode::LoginFailed => 1005,
            ApiStatusCode::UsernameAlreadyOccupied => 1006,
            ApiStatusCode::InvalidPassword => 1007,
            ApiStatusCode::EmptyJson => 1008,
            ApiStatusCode::InvalidUsername => 1009,
            ApiStatusCode::InvalidDisplayName => 1010,
            ApiStatusCode::FriendshipAlreadyRequested => 1011,
            ApiStatusCode::AlreadyFriends => 1012,
            ApiStatusCode::MissingPrivileges => 1013,
            ApiStatusCode::InvalidMaxPlayersCount => 1014,
            ApiStatusCode::AlreadyInALobby => 1015,
            ApiStatusCode::InvalidUuid => 1016,
            ApiStatusCode::InvalidLobbyUuid => 1017,
            ApiStatusCode::InvalidFriendUuid => 1018,
            ApiStatusCode::GameNotFound => 1019,
            ApiStatusCode::InvalidMessage => 1020,
            ApiStatusCode::WsNotConnected => 1021,
            ApiStatusCode::LobbyFull => 1022,
            ApiStatusCode::InvalidPlayerUuid => 1023,
            ApiStatusCode::AlreadyInThisLobby => 1024,
            ApiStatusCode::InternalServerError => 2000,
            ApiStatusCode::DatabaseError => 2001,
            ApiStatusCode::SessionError => 2002,
        }
    }
}

/// The body of an error response.
#[derive(Clone, Debug, PartialEq, Eq)]
pub struct ApiErrorResponse {
    /// The message for the client.
    pub message: String,
    /// The code that identifies the error.
    pub status_code: ApiStatusCode,
}

impl ApiErrorResponse {
    /// Creates the body of an error response.
    pub fn new(status_code: ApiStatusCode, message: String) -> (response: ApiErrorResponse)
        ensures
            response.status_code == status_code,
            response.message == message,
    {
        ApiErrorResponse { message, status_code }
    }
}

/// The HTTP status of an error response.
#[derive(Clone, Copy, Debug, PartialEq, Eq, Structural)]
pub enum HttpStatus {
    /// 400, for errors the client can act on.
    BadRequest,
    /// 500, for errors of the server.
    InternalServerError,
}

impl HttpStatus {
    /// The number of the status.
    pub open spec fn value(self) -> u16 {
        match self {
            HttpStatus::BadRequest => 400,
            HttpStatus::InternalServerError => 500,
        }
    }

    /// Returns the number of the status.
    pub fn code(self) -> (code: u16)
        ensures
            code == self.value(),
    {
        match self {
            HttpStatus::BadRequest => 400,
            HttpStatus::InternalServerError => 500,
        }
    }
}

/// All errors that the request interface can report.
#[derive(Clone, Debug, PartialEq, Eq)]
pub enum ApiError {
    /// The user is not allowed to access the resource.
    Unauthenticated,
    /// The resource was not found.
    NotFound,
    /// An invalid content type was sent.
    InvalidContentType,
    /// The body was no valid JSON; holds the parser's message.
    InvalidJson(String),
    /// The payload was too large; holds the message to show.
    PayloadOverflow(String),
    /// The login was not successful.
    LoginFailed,
    /// The username is already occupied.
    UsernameAlreadyOccupied,
    /// An invalid password was given, such as an empty one.
    InvalidPassword,
    /// The request held nothing to act on.
    EmptyJson,
    /// An invalid username was given, such as an empty one.
    InvalidUsername,
    /// An invalid display name was given, such as an empty one.
    InvalidDisplayName,
    /// The friendship was requested before and is not accepted yet.
    FriendshipAlreadyRequested,
    /// The two accounts are friends already.
    AlreadyFriends,
    /// The caller lacks the privileges for the operation.
    MissingPrivileges,
    /// The maximum number of players is out of range.
    InvalidMaxPlayersCount,
    /// The caller is in a lobby already.
    AlreadyInALobby,
    /// The given identifier was not valid.
    InvalidUuid,
    /// The given lobby identifier was not valid.
    InvalidLobbyUuid,
    /// The friendship is in a state that does not allow the operation.
    InvalidFriendState,
    /// The game does not exist or the caller may not see it.
    GameNotFound,
    /// An invalid message was received.
    InvalidMessage,
    /// The action needs an open connection and there is none.
    WsNotConnected,
    /// The lobby is full.
    LobbyFull,
    /// The given player identifier was not valid.
    InvalidPlayerUuid,
    /// The target is in this lobby already.
    AlreadyInThisLobby,
    /// An unknown error occurred.
    InternalServerError,
    /// The storage reported an error; holds its message.
    DatabaseError(String),
    /// A stored password hash was not valid; holds the hasher's message.
    InvalidHash(String),
    /// Writing to the session failed; holds the session's message.
    SessionInsert(String),
    /// Reading from the session failed; holds the session's message.
    SessionGet(String),
    /// The session is in a corrupt state.
    SessionCorrupt,
}

/// The result that is used throughout the request interface.
pub type ApiResult<T> = Result<T, ApiError>;

/// `std`'s `concat` on a slice of two string slices: the characters of
/// `head` followed by those of `tail`.
#[verifier::external_body]
fn joined(head: &str, tail: &str) -> (text: String)
    ensures
        text@ == head@ + tail@,
{
    [head, tail].concat()
}

impl ApiError {
    /// The message that is shown for the error.
    pub open spec fn message_text(self) -> Seq<char> {
        match self {
            ApiError::Unauthenticated => "Unauthenticated"@,
            ApiError::NotFound => "The resource was not found"@,
            ApiError::InvalidContentType => "Content type error"@,
            ApiError::InvalidJson(reason) => "Json error: "@ + reason@,
            ApiError::PayloadOverflow(reason) => reason@,
            ApiError::LoginFailed => "The login was not successful"@,
            ApiError::UsernameAlreadyOccupied => "Username is already occupied"@,
            ApiError::InvalidPassword => "Invalid password"@,
            ApiError::EmptyJson => "Empty json found"@,
            ApiError::InvalidUsername => "Invalid username"@,
            ApiError::InvalidDisplayName => "Invalid display name"@,
            ApiError::FriendshipAlreadyRequested => "Friendship was already requested"@,
            ApiError::AlreadyFriends => "You are already friends"@,
            ApiError::MissingPrivileges => "Missing privileges to execute this operation"@,
            ApiError::InvalidMaxPlayersCount => "Invalid max_players count"@,
            ApiError::AlreadyInALobby => "Already in a lobby"@,
            ApiError::InvalidUuid => "The provided uuid was not valid"@,
            ApiError::InvalidLobbyUuid => "The provided lobby uuid was not valid"@,
            ApiError::InvalidFriendState => "Invalid friend state"@,
            ApiError::GameNotFound => "The game was not found on the server"@,
            ApiError::InvalidMessage => "Invalid message"@,
            ApiError::WsNotConnected => "The websocket was not connected, but required for this action"@,
            ApiError::LobbyFull => "The lobby is full"@,
            ApiError::InvalidPlayerUuid => "Invalid player uuid was specified"@,
            ApiError::AlreadyInThisLobby => "The target player is already in this lobby"@,
            ApiError::InternalServerError => "The resource was not found"@,
            ApiError::DatabaseError(_) => "Database error occurred"@,
            ApiError::InvalidHash(_) => "Internal server error"@,
            ApiError::SessionInsert(_) => "Session error occurred"@,
            ApiError::SessionGet(_) => "Session error occurred"@,
            ApiError::SessionCorrupt => "Corrupt session"@,
        }
    }

    /// The code under which the error is reported.
    pub open spec fn reported_code(self) -> ApiStatusCode {
        match self {
            ApiError::Unauthenticated => ApiStatusCode::Unauthenticated,
            ApiError::NotFound => ApiStatusCode::NotFound,
            ApiError::InvalidContentType => ApiStatusCode::InvalidContentType,
            ApiError::InvalidJson(_) => ApiStatusCode::InvalidJson,
            ApiError::PayloadOverflow(_) => ApiStatusCode::PayloadOverflow,
            ApiError::LoginFailed => ApiStatusCode::LoginFailed,
            ApiError::UsernameAlreadyOccupied => ApiStatusCode::UsernameAlreadyOccupied,
            ApiError::InvalidPassword => ApiStatusCode::InvalidPassword,
            ApiError::EmptyJson => ApiStatusCode::EmptyJson,
            ApiError::InvalidUsername => ApiStatusCode::InvalidUsername,
            ApiError::InvalidDisplayName => ApiStatusCode::InvalidDisplayName,
            ApiError::FriendshipAlreadyRequested => ApiStatusCode::FriendshipAlreadyRequested,
            ApiError::AlreadyFriends => ApiStatusCode::AlreadyFriends,
            ApiError::MissingPrivileges => ApiStatusCode::MissingPrivileges,
            ApiError::InvalidMaxPlayersCount => ApiStatusCode::InvalidMaxPlayersCount,
            ApiError::AlreadyInALobby => ApiStatusCode::AlreadyInALobby,
            ApiError::InvalidUuid => ApiStatusCode::InvalidUuid,
            ApiError::InvalidLobbyUuid => ApiStatusCode::InvalidLobbyUuid,
            ApiError::InvalidFriendState => ApiStatusCode::InvalidFriendUuid,
            ApiError::GameNotFound => ApiStatusCode::GameNotFound,
            ApiError::InvalidMessage => ApiStatusCode::InvalidMessage,
            ApiError::WsNotConnected => ApiStatusCode::WsNotConnected,
            ApiError::LobbyFull => ApiStatusCode::LobbyFull,
            ApiError::InvalidPlayerUuid => ApiStatusCode::InvalidPlayerUuid,
            ApiError::AlreadyInThisLobby => ApiStatusCode::AlreadyInThisLobby,
            ApiError::InternalServerError => ApiStatusCode::InternalServerError,
            ApiError::DatabaseError(_) => ApiStatusCode::DatabaseError,
            ApiError::InvalidHash(_) => ApiStatusCode::InternalServerError,
            ApiError::SessionInsert(_) => ApiStatusCode::SessionError,
            ApiError::SessionGet(_) => ApiStatusCode::SessionError,
            ApiError::SessionCorrupt => ApiStatusCode::SessionError,
        }
    }

    /// The HTTP status with which the error is reported.
    pub open spec fn reported_status(self) -> HttpStatus {
        match self {
            ApiError::InternalServerError => HttpStatus::InternalServerError,
            ApiError::DatabaseError(_) => HttpStatus::InternalServerError,
            ApiError::InvalidHash(_) => HttpStatus::InternalServerError,
            ApiError::SessionInsert(_) => HttpStatus::InternalServerError,
            ApiError::SessionGet(_) => HttpStatus::InternalServerError,
            _ => HttpStatus::BadRequest,
        }
    }

    /// Returns the message that is shown for the error.
    pub fn message(&self) -> (text: String)
        ensures
            text@ == self.message_text(),
    {
        match self {
            ApiError::Unauthenticated => "Unauthenticated".to_owned(),
            ApiError::NotFound => "The resource was not found".to_owned(),
            ApiError::InvalidContentType => "Content type error".to_owned(),
            ApiError::InvalidJson(reason) => joined("Json error: ", reason.as_str()),
            ApiError::PayloadOverflow(reason) => reason.clone(),
            ApiError::LoginFailed => "The login was not successful".to_owned(),
            ApiError::UsernameAlreadyOccupied => "Username is already occupied".to_owned(),
            ApiError::InvalidPassword => "Invalid password".to_owned(),
            ApiError::EmptyJson => "Empty json found".to_owned(),
            ApiError::InvalidUsername => "Invalid username".to_owned(),
            ApiError::InvalidDisplayName => "Invalid display name".to_owned(),
            ApiError::FriendshipAlreadyRequested => "Friendship was already requested".to_owned(),
            ApiError::AlreadyFriends => "You are already friends".to_owned(),
            ApiError::MissingPrivileges => "Missing privileges to execute this operation".to_owned(),
            ApiError::InvalidMaxPlayersCount => "Invalid max_players count".to_owned(),
            ApiError::AlreadyInALobby => "Already in a lobby".to_owned(),
            ApiError::InvalidUuid => "The provided uuid was not valid".to_owned(),
            ApiError::InvalidLobbyUuid => "The provided lobby uuid was not valid".to_owned(),
            ApiError::InvalidFriendState => "Invalid friend state".to_owned(),
            ApiError::GameNotFound => "The game was not found on the server".to_owned(),
            ApiError::InvalidMessage => "Invalid message".to_owned(),
            ApiError::WsNotConnected => "The websocket was not connected, but required for this action".to_owned(),
            ApiError::LobbyFull => "The lobby is full".to_owned(),
            ApiError::InvalidPlayerUuid => "Invalid player uuid was specified".to_owned(),
            ApiError::AlreadyInThisLobby => "The target player is already in this lobby".to_owned(),
            ApiError::InternalServerError => "The resource was not found".to_owned(),
            ApiError::DatabaseError(_) => "Database error occurred".to_owned(),
            ApiError::InvalidHash(_) => "Internal server error".to_owned(),
            ApiError::SessionInsert(_) => "Session error occurred".to_owned(),
            ApiError::SessionGet(_) => "Session error occurred".to_owned(),
            ApiError::SessionCorrupt => "Corrupt session".to_owned(),
        }
    }

    /// Returns the code under which the error is reported.
    pub fn status_code(&self) -> (code: ApiStatusCode)
        ensures
            code == self.reported_code(),
    {
        match self {
            ApiError::Unauthenticated => ApiStatusCode::Unauthenticated,
            ApiError::NotFound => ApiStatusCode::NotFound,
            ApiError::InvalidContentType => ApiStatusCode::InvalidContentType,
            ApiError::InvalidJson(_) => ApiStatusCode::InvalidJson,
            ApiError::PayloadOverflow(_) => ApiStatusCode::PayloadOverflow,
            ApiError::LoginFailed => ApiStatusCode::LoginFailed,
            ApiError::UsernameAlreadyOccupied => ApiStatusCode::UsernameAlreadyOccupied,
            ApiError::InvalidPassword => ApiStatusCode::InvalidPassword,
            ApiError::EmptyJson => ApiStatusCode::EmptyJson,
            ApiError::InvalidUsername => ApiStatusCode::InvalidUsername,
            ApiError::InvalidDisplayName => ApiStatusCode::InvalidDisplayName,
            ApiError::FriendshipAlreadyRequested => ApiStatusCode::FriendshipAlreadyRequested,
            ApiError::AlreadyFriends => ApiStatusCode::AlreadyFriends,
            ApiError::MissingPrivileges => ApiStatusCode::MissingPrivileges,
            ApiError::InvalidMaxPlayersCount => ApiStatusCode::InvalidMaxPlayersCount,
            ApiError::AlreadyInALobby => ApiStatusCode::AlreadyInALobby,
            ApiError::InvalidUuid => ApiStatusCode::InvalidUuid,
            ApiError::InvalidLobbyUuid => ApiStatusCode::InvalidLobbyUuid,
            ApiError::InvalidFriendState => ApiStatusCode::InvalidFriendUuid,
            ApiError::GameNotFound => ApiStatusCode::GameNotFound,
            ApiError::InvalidMessage => ApiStatusCode::InvalidMessage,
            ApiError::WsNotConnected => ApiStatusCode::WsNotConnected,
            ApiError::LobbyFull => ApiStatusCode::LobbyFull,
            ApiError::InvalidPlayerUuid => ApiStatusCode::InvalidPlayerUuid,
            ApiError::AlreadyInThisLobby => ApiStatusCode::AlreadyInThisLobby,
            ApiError::InternalServerError => ApiStatusCode::InternalServerError,
            ApiError::DatabaseError(_) => ApiStatusCode::DatabaseError,
            ApiError::InvalidHash(_) => ApiStatusCode::InternalServerError,
            ApiError::SessionInsert(_) => ApiStatusCode::SessionError,
            ApiError::SessionGet(_) => ApiStatusCode::SessionError,
            ApiError::SessionCorrupt => ApiStatusCode::SessionError,
        }
    }

    /// Returns the HTTP status with which the error is reported.
    pub fn http_status(&self) -> (status: HttpStatus)
        ensures
            status == self.reported_status(),
    {
        match self {
            ApiError::InternalServerError => HttpStatus::InternalServerError,
            ApiError::DatabaseError(_) => HttpStatus::InternalServerError,
            ApiError::InvalidHash(_) => HttpStatus::InternalServerError,
            ApiError::SessionInsert(_) => HttpStatus::InternalServerError,
            ApiError::SessionGet(_) => HttpStatus::InternalServerError,
            _ => HttpStatus::BadRequest,
        }
    }

    /// Builds the response for the error: the HTTP status, and the body with
    /// the error's code and message.
    pub fn error_response(&self) -> (response: (HttpStatus, ApiErrorResponse))
        ensures
            response.0 == self.reported_status(),
            response.1.status_code == self.reported_code(),
            response.1.message@ == self.message_text(),
    {
        (self.http_status(), ApiErrorResponse::new(self.status_code(), self.message()))
    }
}

/// Every error is reported with a code of one of the two ranges, and an
/// error that is reported with status 500 has a code of the server range.
pub proof fn law_codes_follow_ranges(error: ApiError)
    ensures
        1000 <= error.reported_code().value() <= 1024 || 2000 <= error.reported_code().value()
            <= 2002,
        error.reported_status() == HttpStatus::InternalServerError
            ==> error.reported_code().value() >= 2000,
{
}

/// Different codes are reported as different numbers.
pub proof fn law_codes_are_distinct(a: ApiStatusCode, b: ApiStatusCode)
    ensures
        a.value() == b.value() <==> a == b,
{
}

} // verus!
