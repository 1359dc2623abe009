use runciv::api_error::{ApiError, ApiErrorResponse, ApiStatusCode, HttpStatus};
use runciv::requests::{
    is_lobby_full, require_login, AccountRegistrationRequest, CreateLobbyRequest,
    SendMessageRequest, SetPasswordRequest, UpdateAccountRequest,
};
use runciv::settings::{HealthResponse, StartServerError, VersionResponse};
use runciv::startup::{check_admin_token, decode_secret_key, key_material};

#[test]
fn status_codes_have_their_numbers() {
    assert_eq!(ApiStatusCode::Unauthenticated.code(), 1000);
    assert_eq!(ApiStatusCode::InvalidJson.code(), 1003);
    assert_eq!(ApiStatusCode::InvalidFriendUuid.code(), 1018);
    assert_eq!(ApiStatusCode::AlreadyInThisLobby.code(), 1024);
    assert_eq!(ApiStatusCode::InternalServerError.code(), 2000);
    assert_eq!(ApiStatusCode::DatabaseError.code(), 2001);
    assert_eq!(ApiStatusCode::SessionError.code(), 2002);
    assert_eq!(HttpStatus::BadRequest.code(), 400);
    assert_eq!(HttpStatus::InternalServerError.code(), 500);
}

#[test]
fn json_error_message_names_the_reason() {
    let error = ApiError::InvalidJson(String::from("expected value at line 1"));
    assert_eq!(error.message(), "Json error: expected value at line 1");
    assert_eq!(ApiError::InvalidJson(String::new()).message(), "Json error: ");
}

#[test]
fn payload_overflow_message_is_the_reason() {
    let error = ApiError::PayloadOverflow(String::from("too large"));
    assert_eq!(error.message(), "too large");
    assert_eq!(error.status_code(), ApiStatusCode::PayloadOverflow);
}

#[test]
fn client_errors_are_reported_with_400() {
    let (status, body) = ApiError::LobbyFull.error_response();
    assert_eq!(status, HttpStatus::BadRequest);
    assert_eq!(
        body,
        ApiErrorResponse {
            message: String::from("The lobby is full"),
            status_code: ApiStatusCode::LobbyFull
        }
    );
    let (status, body) = ApiError::InvalidFriendState.error_response();
    assert_eq!(status, HttpStatus::BadRequest);
    assert_eq!(body.status_code, ApiStatusCode::InvalidFriendUuid);
    assert_eq!(body.message, "Invalid friend state");
    let (status, body) = ApiError::SessionCorrupt.error_response();
    assert_eq!(status, HttpStatus::BadRequest);
    assert_eq!(body.status_code, ApiStatusCode::SessionError);
    assert_eq!(body.message, "Corrupt session");
}

#[test]
fn server_errors_are_reported_with_500() {
    let (status, body) = ApiError::DatabaseError(String::from("gone")).error_response();
    assert_eq!(status, HttpStatus::InternalServerError);
    assert_eq!(body.status_code, ApiStatusCode::DatabaseError);
    assert_eq!(body.message, "Database error occurred");
    let (status, body) = ApiError::InvalidHash(String::from("bad")).error_response();
    assert_eq!(status, HttpStatus::InternalServerError);
    assert_eq!(body.status_code, ApiStatusCode::InternalServerError);
    assert_eq!(body.message, "Internal server error");
    let (status, body) = ApiError::SessionGet(String::from("x")).error_response();
    assert_eq!(status, HttpStatus::InternalServerError);
    assert_eq!(body.status_code, ApiStatusCode::SessionError);
    assert_eq!(body.message, "Session error occurred");
    assert_eq!(ApiError::InternalServerError.message(), "The resource was not found");
    assert_eq!(ApiError::NotFound.message(), "The resource was not found");
}

#[test]
fn error_response_body_is_built_from_its_parts() {
    let body = ApiErrorResponse::new(ApiStatusCode::NotFound, String::from("nothing here"));
    assert_eq!(body.status_code, ApiStatusCode::NotFound);
    assert_eq!(body.message, "nothing here");
}

#[test]
fn registration_refuses_empty_names() {
    let request = |username: &str, display_name: &str| AccountRegistrationRequest {
        username: String::from(username),
        display_name: String::from(display_name),
        password: String::from("pw"),
    };
    assert_eq!(request("user", "User").validate(), Ok(()));
    assert_eq!(request("", "User").validate(), Err(ApiError::InvalidUsername));
    assert_eq!(request("user", "").validate(), Err(ApiError::InvalidDisplayName));
    assert_eq!(request("", "").validate(), Err(ApiError::InvalidUsername));
}

#[test]
fn set_password_refuses_an_empty_password() {
    let request = SetPasswordRequest { old_password: String::from("a"), new_password: String::new() };
    assert_eq!(request.validate(), Err(ApiError::InvalidPassword));
    let request =
        SetPasswordRequest { old_password: String::new(), new_password: String::from("b") };
    assert_eq!(request.validate(), Ok(()));
}

#[test]
fn update_account_checks_in_order() {
    let request = |username: Option<&str>, display_name: Option<&str>| UpdateAccountRequest {
        username: username.map(String::from),
        display_name: display_name.map(String::from),
    };
    assert_eq!(request(None, None).validate(false), Err(ApiError::EmptyJson));
    assert_eq!(request(Some(""), None).validate(true), Err(ApiError::InvalidUsername));
    assert_eq!(request(Some("x"), Some("")).validate(true), Err(ApiError::UsernameAlreadyOccupied));
    assert_eq!(request(Some("x"), Some("")).validate(false), Err(ApiError::InvalidDisplayName));
    assert_eq!(request(None, Some("y")).validate(true), Ok(()));
    assert_eq!(request(Some("x"), None).validate(false), Ok(()));
}

#[test]
fn chat_message_must_not_be_empty() {
    assert_eq!(
        SendMessageRequest { message: String::new() }.validate(),
        Err(ApiError::InvalidMessage)
    );
    assert_eq!(SendMessageRequest { message: String::from("hi") }.validate(), Ok(()));
}

#[test]
fn lobby_size_must_be_between_2_and_34() {
    let request = |max_players: u8, password: Option<&str>| CreateLobbyRequest {
        name: String::from("lobby"),
        password: password.map(String::from),
        max_players,
    };
    assert_eq!(request(1, None).validate(), Err(ApiError::InvalidMaxPlayersCount));
    assert_eq!(request(2, None).validate(), Ok(()));
    assert_eq!(request(34, Some("pw")).validate(), Ok(()));
    assert_eq!(request(35, None).validate(), Err(ApiError::InvalidMaxPlayersCount));
    assert_eq!(request(0, Some("")).validate(), Err(ApiError::InvalidMaxPlayersCount));
    assert_eq!(request(4, Some("")).validate(), Err(ApiError::InvalidPassword));
}

#[test]
fn lobby_is_full_when_owner_and_members_fill_it() {
    assert!(is_lobby_full(4, 3));
    assert!(!is_lobby_full(4, 2));
    assert!(!is_lobby_full(4, 4));
    assert!(is_lobby_full(1, 0));
    assert!(!is_lobby_full(0, 0));
    assert!(!is_lobby_full(-1, 0));
}

#[test]
fn status_answers() {
    assert_eq!(VersionResponse::current().version, 2);
    let health = HealthResponse::new(1337, 31337);
    assert_eq!(health.registered_accounts, 1337);
    assert_eq!(health.open_connections, 31337);
}

#[test]
fn startup_errors_have_their_messages() {
    assert_eq!(StartServerError::IO(String::from("address in use")).message(), "address in use");
    assert_eq!(
        StartServerError::InvalidSecretKey.message(),
        "Invalid parameter SecretKey. Consider using the subcommand keygen and update your configuration file"
    );
    assert_eq!(StartServerError::InvalidAdminToken.message(), "Invalid admin token was specified");
}

#[test]
fn every_error_is_reported_with_its_status_code_and_message() {
    let reason = || String::from("reason");
    let table: Vec<(ApiError, u16, u16, &str)> = vec![
        (ApiError::Unauthenticated, 400, 1000, "Unauthenticated"),
        (ApiError::NotFound, 400, 1001, "The resource was not found"),
        (ApiError::InvalidContentType, 400, 1002, "Content type error"),
        (ApiError::InvalidJson(reason()), 400, 1003, "Json error: reason"),
        (ApiError::PayloadOverflow(reason()), 400, 1004, "reason"),
        (ApiError::LoginFailed, 400, 1005, "The login was not successful"),
        (ApiError::UsernameAlreadyOccupied, 400, 1006, "Username is already occupied"),
        (ApiError::InvalidPassword, 400, 1007, "Invalid password"),
        (ApiError::EmptyJson, 400, 1008, "Empty json found"),
        (ApiError::InvalidUsername, 400, 1009, "Invalid username"),
        (ApiError::InvalidDisplayName, 400, 1010, "Invalid display name"),
        (ApiError::FriendshipAlreadyRequested, 400, 1011, "Friendship was already requested"),
        (ApiError::AlreadyFriends, 400, 1012, "You are already friends"),
        (ApiError::MissingPrivileges, 400, 1013, "Missing privileges to execute this operation"),
        (ApiError::InvalidMaxPlayersCount, 400, 1014, "Invalid max_players count"),
        (ApiError::AlreadyInALobby, 400, 1015, "Already in a lobby"),
        (ApiError::InvalidUuid, 400, 1016, "The provided uuid was not valid"),
        (ApiError::InvalidLobbyUuid, 400, 1017, "The provided lobby uuid was not valid"),
        (ApiError::InvalidFriendState, 400, 1018, "Invalid friend state"),
        (ApiError::GameNotFound, 400, 1019, "The game was not found on the server"),
        (ApiError::InvalidMessage, 400, 1020, "Invalid message"),
        (
            ApiError::WsNotConnected,
            400,
            1021,
            "The websocket was not connected, but required for this action",
        ),
        (ApiError::LobbyFull, 400, 1022, "The lobby is full"),
        (ApiError::InvalidPlayerUuid, 400, 1023, "Invalid player uuid was specified"),
        (ApiError::AlreadyInThisLobby, 400, 1024, "The target player is already in this lobby"),
        (ApiError::InternalServerError, 500, 2000, "The resource was not found"),
        (ApiError::DatabaseError(reason()), 500, 2001, "Database error occurred"),
        (ApiError::InvalidHash(reason()), 500, 2000, "Internal server error"),
        (ApiError::SessionInsert(reason()), 500, 2002, "Session error occurred"),
        (ApiError::SessionGet(reason()), 500, 2002, "Session error occurred"),
        (ApiError::SessionCorrupt, 400, 2002, "Corrupt session"),
    ];
    for (error, http, code, message) in table {
        let (status, body) = error.error_response();
        assert_eq!(status.code(), http, "{:?}", error);
        assert_eq!(body.status_code.code(), code, "{:?}", error);
        assert_eq!(body.message, message, "{:?}", error);
        assert_eq!(error.http_status().code(), http);
        assert_eq!(error.status_code().code(), code);
        assert_eq!(error.message(), message);
    }
}

#[test]
fn secret_key_is_decoded_from_base64() {
    let mut text = "A".repeat(86);
    text.push_str("==");
    assert_eq!(decode_secret_key(&text), Ok(vec![0u8; 64]));
    assert_eq!(decode_secret_key("aGVsbG8="), Ok(b"hello".to_vec()));
    assert_eq!(decode_secret_key(""), Ok(vec![]));
}

#[test]
fn secret_key_that_is_no_base64_is_refused() {
    assert_eq!(decode_secret_key("not base64!"), Err(StartServerError::InvalidSecretKey));
    assert_eq!(decode_secret_key("aGVsbG8"), Err(StartServerError::InvalidSecretKey));
    assert_eq!(decode_secret_key("a==="), Err(StartServerError::InvalidSecretKey));
}

#[test]
fn key_material_maps_the_decoder_error() {
    assert_eq!(key_material(Ok(vec![1, 2, 3])), Ok(vec![1, 2, 3]));
    assert_eq!(
        key_material(Err(base64::DecodeError::InvalidPadding)),
        Err(StartServerError::InvalidSecretKey)
    );
    assert_eq!(
        key_material(Err(base64::DecodeError::InvalidByte(3, b'!'))),
        Err(StartServerError::InvalidSecretKey)
    );
}

#[test]
fn empty_admin_token_is_refused() {
    assert_eq!(check_admin_token(""), Err(StartServerError::InvalidSecretKey));
    assert_eq!(check_admin_token("token"), Ok(()));
}

#[test]
fn only_a_set_login_flag_passes() {
    assert_eq!(require_login(Some(true)), Ok(()));
    assert_eq!(require_login(Some(false)), Err(ApiError::Unauthenticated));
    assert_eq!(require_login(None), Err(ApiError::Unauthenticated));
}
