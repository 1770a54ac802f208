use sp_core::crypto::{Ss58AddressFormat, Ss58Codec};
use virtool::address::{account_storage_path, get_address, PublicKey};
use virtool::model::error::Error;

const ALICE: &str = "5GrwvaEF5zXb26Fz9rcQpDWS57CtERHpNehXCPcNoHGKutQY";
const ALICE_HEX: &str = "d43593c715fdd31c61141abd04a99fd6822c8558854ccde39a5684e7a56da27d";

fn alice_key() -> [u8; 32] {
    let mut key = [0u8; 32];
    key.copy_from_slice(&hex::decode(ALICE_HEX).unwrap());
    key
}

#[test]
fn ss58_address_gives_its_key() {
    let key = get_address(ALICE).unwrap();
    assert_eq!(key.0, alice_key());
}

#[test]
fn ss58_address_of_another_registered_network_gives_its_key() {
    let polkadot = sp_core::sr25519::Public::from_raw(alice_key())
        .to_ss58check_with_version(Ss58AddressFormat::custom(0));
    assert!(!Ss58AddressFormat::custom(0).is_custom());
    assert_ne!(polkadot, ALICE);
    assert_eq!(get_address(&polkadot).unwrap().0, alice_key());
}

#[test]
fn ss58_address_of_an_unknown_network_is_refused() {
    let prefix = (1000..16384u16)
        .find(|p| {
            let format = Ss58AddressFormat::custom(*p);
            format.is_custom() && !format.is_reserved()
        })
        .unwrap();
    let address = sp_core::sr25519::Public::from_raw(alice_key())
        .to_ss58check_with_version(Ss58AddressFormat::custom(prefix));
    assert!(sp_core::sr25519::Public::from_ss58check_with_version(&address).is_ok());
    let error = get_address(&address).unwrap_err();
    assert_eq!(
        error.to_string(),
        "Error encoding/decoding data: Invalid public key length"
    );
}

#[test]
fn ss58_address_with_a_wrong_checksum_is_refused() {
    let mut address = String::from(ALICE);
    address.pop();
    address.push('Z');
    assert!(matches!(get_address(&address), Err(Error::Codec(_))));
}

#[test]
fn hexadecimal_address_gives_its_key() {
    let address = format!("0x{}", ALICE_HEX);
    assert_eq!(get_address(&address).unwrap().0, alice_key());
    let upper = format!("0x{}", ALICE_HEX.to_uppercase());
    assert_eq!(get_address(&upper).unwrap().0, alice_key());
    let zeros = format!("0x{}", "00".repeat(32));
    assert_eq!(get_address(&zeros).unwrap().0, [0u8; 32]);
}

#[test]
fn text_of_32_bytes_is_the_key_itself() {
    let text = "abcdefghijklmnopqrstuvwxyz_12345";
    assert_eq!(text.len(), 32);
    assert_eq!(get_address(text).unwrap().0.to_vec(), text.as_bytes().to_vec());
    let accented = "ééééééééééééééééé";
    assert_eq!(accented.len(), 34);
    assert!(get_address(accented).is_err());
    let sixteen = "éééééééééééééééé";
    assert_eq!(sixteen.len(), 32);
    assert_eq!(get_address(sixteen).unwrap().0.to_vec(), sixteen.as_bytes().to_vec());
}

#[test]
fn malformed_hexadecimal_is_refused() {
    let odd = get_address("0x123").unwrap_err();
    assert!(matches!(odd, Error::Codec(_)));
    assert_eq!(odd.to_string(), "Error encoding/decoding data: Odd number of digits");
    let no_digit = get_address("0xzz").unwrap_err();
    assert!(matches!(no_digit, Error::Codec(_)));
    assert_eq!(
        no_digit.to_string(),
        "Error encoding/decoding data: Invalid character 'z' at position 0"
    );
}

#[test]
fn key_of_another_length_is_refused() {
    for address in ["", "0x", "0x1234", "short", "0X1234"] {
        let error = get_address(address).unwrap_err();
        assert!(matches!(error, Error::Codec(_)));
        assert_eq!(
            error.to_string(),
            "Error encoding/decoding data: Invalid public key length"
        );
    }
    let long = format!("0x{}", "ab".repeat(33));
    assert!(matches!(get_address(&long), Err(Error::Codec(_))));
}

#[test]
fn key_from_a_slice() {
    assert_eq!(PublicKey::from_slice(&alice_key()).unwrap().0, alice_key());
    assert!(PublicKey::from_slice(&[0u8; 31]).is_none());
    assert!(PublicKey::from_slice(&[0u8; 33]).is_none());
    assert!(PublicKey::from_slice(&[]).is_none());
    assert_eq!(PublicKey(alice_key()).as_bytes(), &alice_key()[..]);
}

#[test]
fn key_in_hexadecimal() {
    assert_eq!(PublicKey(alice_key()).to_hex(), format!("0x{}", ALICE_HEX));
    assert_eq!(PublicKey([0xAB; 32]).to_hex(), format!("0x{}", "ab".repeat(32)));
    assert_eq!(PublicKey([0x0f; 32]).to_hex(), format!("0x{}", "0f".repeat(32)));
}

#[test]
fn storage_path_of_an_account() {
    assert_eq!(
        account_storage_path(&PublicKey(alice_key())),
        format!("system/account/0x{}", ALICE_HEX)
    );
}

#[test]
fn hexadecimal_of_a_key_reads_back() {
    let key = PublicKey(alice_key());
    assert_eq!(get_address(&key.to_hex()).unwrap().0, key.0);
}
