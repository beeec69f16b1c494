use validator_bootstrap::client::{
    auth_headers, check_status, parse_secret_envelope, parse_server_time,
};
use validator_bootstrap::encode::secret_url;
use validator_bootstrap::errors::Error;
use validator_bootstrap::signer::{sign, Credentials};

#[test]
fn secret_path_slash_is_encoded() {
    let url = secret_url("https://eu.api.ovh.com/v2", "okms-1", "a/b");
    assert_eq!(
        url,
        "https://eu.api.ovh.com/v2/okms/resource/okms-1/secret/a%2Fb?includeData=true"
    );
}

#[test]
fn secret_url_keeps_unreserved_path_untouched() {
    let url = secret_url("https://base", "id", "validator-keys_1.prod~x");
    assert_eq!(
        url,
        "https://base/okms/resource/id/secret/validator-keys_1.prod~x?includeData=true"
    );
}

#[test]
fn secret_path_reserved_characters_are_all_encoded() {
    let url = secret_url("b", "i", "a b/c?d=e&f");
    assert_eq!(url, "b/okms/resource/i/secret/a%20b%2Fc%3Fd%3De%26f?includeData=true");
}

#[test]
fn server_time_parses_trimmed_integer() {
    assert_eq!(parse_server_time("1700000000"), Ok(1700000000));
    assert_eq!(parse_server_time(" \n1700000000\t\r\n"), Ok(1700000000));
    assert_eq!(parse_server_time("0"), Ok(0));
    assert_eq!(parse_server_time("+1700000000"), Ok(1700000000));
    assert_eq!(parse_server_time("18446744073709551615"), Ok(u64::MAX));
    // The whole White_Space set is trimmed, exactly as str::trim trims it.
    assert_eq!(parse_server_time("\u{000c}5"), Ok(5));
    assert_eq!(parse_server_time("\u{000b}\u{00a0}\u{2009}42\u{2028}\u{3000}"), Ok(42));
    assert_eq!(parse_server_time("\u{0085}\u{1680}7\u{202f}\u{205f}\u{2029}"), Ok(7));
}

#[test]
fn server_time_rejects_non_numeric_body() {
    assert_eq!(parse_server_time("abc"), Err(Error::TimeSyncError));
    assert_eq!(parse_server_time(""), Err(Error::TimeSyncError));
    assert_eq!(parse_server_time("  \n"), Err(Error::TimeSyncError));
    assert_eq!(parse_server_time("17e9"), Err(Error::TimeSyncError));
    assert_eq!(parse_server_time("-5"), Err(Error::TimeSyncError));
    assert_eq!(parse_server_time("+"), Err(Error::TimeSyncError));
    assert_eq!(parse_server_time("18446744073709551616"), Err(Error::TimeSyncError));
}

#[test]
fn envelope_parses_complete_secret() {
    let body = "{\"version\":{\"data\":{\"aura\":\"A\",\"grandpa\":\"G\",\
                 \"im_online\":\"I\",\"keystore_secret\":\"P\",\"node_key\":\"N\"}}}";
    let km = parse_secret_envelope(body).unwrap();
    assert_eq!(km.aura, "A");
    assert_eq!(km.grandpa, "G");
    assert_eq!(km.im_online, "I");
    assert_eq!(km.keystore_secret, "P");
    assert_eq!(km.node_key, "N");
}

#[test]
fn envelope_missing_node_key_is_a_deserialization_error() {
    let body = "{\"version\":{\"data\":{\"aura\":\"A\",\"grandpa\":\"G\",\
                 \"im_online\":\"I\",\"keystore_secret\":\"P\"}}}";
    match parse_secret_envelope(body) {
        Err(e) => assert_eq!(e, Error::DeserializationError),
        Ok(_) => panic!("a missing field must not silently default"),
    }
}

#[test]
fn envelope_rejects_malformed_documents() {
    assert!(parse_secret_envelope("not json").is_err());
    assert!(parse_secret_envelope("{}").is_err());
    assert!(parse_secret_envelope("{\"version\":{}}").is_err());
    let wrong_type = "{\"version\":{\"data\":{\"aura\":7,\"grandpa\":\"G\",\
                      \"im_online\":\"I\",\"keystore_secret\":\"P\",\"node_key\":\"N\"}}}";
    assert_eq!(parse_secret_envelope(wrong_type).unwrap_err(), Error::DeserializationError);
}

#[test]
fn status_check_accepts_success_only() {
    assert!(check_status(200).is_ok());
    assert!(check_status(204).is_ok());
    assert!(check_status(299).is_ok());
    assert_eq!(check_status(199), Err(Error::HttpStatusError(199)));
    assert_eq!(check_status(301), Err(Error::HttpStatusError(301)));
    assert_eq!(check_status(404), Err(Error::HttpStatusError(404)));
    assert_eq!(check_status(500), Err(Error::HttpStatusError(500)));
}

#[test]
fn auth_headers_carry_the_four_credentials_fields() {
    let c = Credentials::new("AK".to_string(), "AS".to_string(), "CK".to_string());
    let headers = auth_headers(&c, "GET", "https://u", "", 1234);
    assert_eq!(headers.len(), 4);
    assert_eq!(headers[0], ("X-Ovh-Application".to_string(), "AK".to_string()));
    assert_eq!(headers[1], ("X-Ovh-Timestamp".to_string(), "1234".to_string()));
    let expected_sig = sign(&c, "GET", "https://u", "", 1234);
    assert_eq!(headers[2], ("X-Ovh-Signature".to_string(), expected_sig));
    assert_eq!(headers[3], ("X-Ovh-Consumer".to_string(), "CK".to_string()));
}

#[test]
fn auth_headers_add_content_type_only_with_a_body() {
    let c = Credentials::new("AK".to_string(), "AS".to_string(), "CK".to_string());
    let headers = auth_headers(&c, "POST", "https://u", "{}", 1);
    assert_eq!(headers.len(), 5);
    assert_eq!(
        headers[4],
        ("Content-Type".to_string(), "application/json;charset=utf-8".to_string())
    );
}
