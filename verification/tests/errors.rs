use virtool::errors;
use virtool::model::error::{Cause, Error};

#[test]
fn cause_keeps_its_words() {
    assert_eq!(Cause::from("Invalid public key length").to_string(), "Invalid public key length");
    assert_eq!(Cause::from("").to_string(), "");
}

#[test]
fn error_names_its_stage() {
    assert_eq!(
        Error::Wallet(Cause::from("locked")).to_string(),
        "Error handling wallet: locked"
    );
    assert_eq!(
        Error::Codec(Cause::from("odd")).to_string(),
        "Error encoding/decoding data: odd"
    );
    assert_eq!(
        Error::Sube(Cause::from("ChainUnavailable")).to_string(),
        "Error handling connection with sube: ChainUnavailable"
    );
    assert_eq!(
        Error::Schema(Cause::from("pallet does not exist")).to_string(),
        "Error resolving the call schema: pallet does not exist"
    );
}

#[test]
fn key_store_errors_in_words() {
    assert_eq!(errors::Error::Dir.to_string(), "Dir not found");
    assert_eq!(errors::Error::PkDecode.to_string(), "Could not decode public key");
    assert_eq!(errors::Error::DecodeStorage.to_string(), "Error decoding storage");
}
