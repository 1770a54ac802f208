use virtool::chain::{
    account_nonce, nonce_from_field, runtime_versions, version_from_field, JsonNumber,
};
use virtool::model::error::Error;

#[test]
fn nonce_is_read_from_the_account_state() {
    let text = "{\"nonce\":5,\"consumers\":0,\"data\":{\"free\":1000}}";
    assert!(matches!(account_nonce(text), Ok(5)));
    assert!(matches!(account_nonce("{\"nonce\": 18446744073709551615}"), Ok(u64::MAX)));
}

#[test]
fn missing_nonce_is_zero() {
    assert!(matches!(account_nonce("{}"), Ok(0)));
    assert!(matches!(account_nonce("null"), Ok(0)));
    assert!(matches!(account_nonce("[1, 2]"), Ok(0)));
    assert!(matches!(account_nonce("{\"Nonce\": 3}"), Ok(0)));
}

#[test]
fn nonce_that_is_no_number_is_refused() {
    for text in ["{\"nonce\":\"5\"}", "{\"nonce\":-1}", "{\"nonce\":1.5}", "{\"nonce\":null}"] {
        let error = account_nonce(text).unwrap_err();
        assert!(matches!(error, Error::Codec(_)));
        assert_eq!(error.to_string(), "Error encoding/decoding data: nonce not a Number");
    }
}

#[test]
fn account_state_that_is_no_json_is_refused() {
    for text in ["", "{", "nonce: 5", "{\"nonce\":5"] {
        let error = account_nonce(text).unwrap_err();
        assert!(matches!(error, Error::Codec(_)));
        assert!(error.to_string().len() > "Error encoding/decoding data: ".len());
    }
}

#[test]
fn nonce_from_each_field() {
    assert!(matches!(nonce_from_field(JsonNumber::Missing), Ok(0)));
    assert!(matches!(nonce_from_field(JsonNumber::Number(9)), Ok(9)));
    assert!(matches!(nonce_from_field(JsonNumber::NotNumber), Err(Error::Codec(_))));
}

#[test]
fn versions_are_read_from_the_runtime_version() {
    let text = "{\"spec_name\":\"westend\",\"spec_version\":9360,\"transaction_version\":17}";
    assert!(matches!(runtime_versions(text), Ok((9360, 17))));
}

#[test]
fn versions_keep_their_low_32_bits() {
    let text = "{\"spec_version\":4294967301,\"transaction_version\":4294967296}";
    assert!(matches!(runtime_versions(text), Ok((5, 0))));
    assert!(matches!(version_from_field(JsonNumber::Number(u64::MAX), "a", "b"), Ok(u32::MAX)));
    assert!(matches!(version_from_field(JsonNumber::Number(4294967295), "a", "b"), Ok(u32::MAX)));
}

#[test]
fn missing_version_is_a_schema_error() {
    let error = runtime_versions("{\"transaction_version\":17}").unwrap_err();
    assert!(matches!(error, Error::Schema(_)));
    assert_eq!(error.to_string(), "Error resolving the call schema: spec_version not found");
    let error = runtime_versions("{\"spec_version\":1}").unwrap_err();
    assert!(matches!(error, Error::Schema(_)));
    assert_eq!(
        error.to_string(),
        "Error resolving the call schema: transaction_version not found"
    );
}

#[test]
fn version_that_is_no_number_is_a_codec_error() {
    let error = runtime_versions("{\"spec_version\":\"1\",\"transaction_version\":17}").unwrap_err();
    assert!(matches!(error, Error::Codec(_)));
    assert_eq!(error.to_string(), "Error encoding/decoding data: spec_version not a Number");
    let error = runtime_versions("{\"spec_version\":1,\"transaction_version\":[]}").unwrap_err();
    assert!(matches!(error, Error::Codec(_)));
    assert_eq!(
        error.to_string(),
        "Error encoding/decoding data: transaction_version not a Number"
    );
}

#[test]
fn runtime_version_that_is_no_json_is_a_codec_error() {
    assert!(matches!(runtime_versions("{spec_version"), Err(Error::Codec(_))));
}
