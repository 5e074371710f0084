use fleet_speed::errors::ConfigError;
use fleet_speed::errors::TokenError;
use fleet_speed::token::token_from_response;
use fleet_speed::token::Config;

#[test]
fn token_extracted_from_json_body() {
    let r = token_from_response(200, String::from("{\"access_token\": \"X\"}"));
    assert_eq!(r, Ok(String::from("X")));
}

#[test]
fn token_extra_fields_ignored() {
    let body = String::from(
        "{\"access_token\": \"abc123\", \"expires_in\": 3600, \"token_type\": \"Bearer\", \"scope\": \"ais\"}",
    );
    let r = token_from_response(200, body);
    assert_eq!(r, Ok(String::from("abc123")));
}

#[test]
fn non_json_body_is_parse_error_with_raw_body() {
    let body = String::from("<html>oops</html>");
    let r = token_from_response(200, body.clone());
    assert_eq!(r, Err(TokenError::Parse(body.clone())));
    let msg = match r {
        Err(e) => e.message(),
        Ok(_) => unreachable!(),
    };
    assert!(msg.contains(&body));
}

#[test]
fn shape_mismatched_body_is_parse_error() {
    let body = String::from("{\"token\": \"X\"}");
    let r = token_from_response(200, body.clone());
    assert_eq!(r, Err(TokenError::Parse(body)));
}

#[test]
fn non_string_token_is_parse_error() {
    let body = String::from("{\"access_token\": 5}");
    let r = token_from_response(200, body.clone());
    assert_eq!(r, Err(TokenError::Parse(body)));
}

#[test]
fn empty_token_is_never_returned() {
    let body = String::from("{\"access_token\": \"\"}");
    let r = token_from_response(200, body.clone());
    assert_eq!(r, Err(TokenError::Parse(body)));
}

#[test]
fn non_success_status_is_status_error() {
    let body = String::from("{\"access_token\": \"X\"}");
    assert_eq!(token_from_response(400, body.clone()), Err(TokenError::Status(400)));
    assert_eq!(token_from_response(500, body.clone()), Err(TokenError::Status(500)));
    assert_eq!(token_from_response(199, body.clone()), Err(TokenError::Status(199)));
    assert_eq!(token_from_response(300, body), Err(TokenError::Status(300)));
}

#[test]
fn missing_client_id_fails_before_any_request() {
    let r = Config::new(String::new(), String::from("secret"));
    assert_eq!(r, Err(ConfigError::MissingClientId));
}

#[test]
fn missing_client_secret_fails_before_any_request() {
    let r = Config::new(String::from("id"), String::new());
    assert_eq!(r, Err(ConfigError::MissingClientSecret));
}

#[test]
fn valid_config_builds_the_exchange_form() {
    let config = Config::new(String::from("my-id"), String::from("my-secret")).unwrap();
    let fields = config.form_fields();
    assert_eq!(fields.len(), 4);
    assert_eq!(fields[0], (String::from("grant_type"), String::from("client_credentials")));
    assert_eq!(fields[1], (String::from("client_id"), String::from("my-id")));
    assert_eq!(fields[2], (String::from("client_secret"), String::from("my-secret")));
    assert_eq!(fields[3], (String::from("scope"), String::from("ais")));
}

#[test]
fn fixed_endpoints_of_the_exchange() {
    assert_eq!(fleet_speed::token::token_url(), "https://id.barentswatch.no/connect/token");
    assert_eq!(fleet_speed::token::form_content_type(), "application/x-www-form-urlencoded");
}

#[test]
fn transport_error_message_carries_cause() {
    let e = TokenError::Transport(String::from("connection refused"));
    assert!(e.message().contains("connection refused"));
}

#[test]
fn config_error_messages_name_the_missing_secret() {
    assert!(ConfigError::MissingClientId.message().contains("client id"));
    assert!(ConfigError::MissingClientSecret.message().contains("client secret"));
}
