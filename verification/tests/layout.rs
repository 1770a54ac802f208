use virtool::address::PublicKey;
use virtool::call::{construct_extrinsic_data, construct_transfer_call, resolve_call, PalletEntry};
use virtool::compact::{decode_compact, encode_compact};
use virtool::extrinsic::{assemble, assemble_checked};
use virtool::model::error::Error;
use virtool::params::{build_additional, build_extra};
use virtool::payload::{make_signing_payload, prepare_for_signing};

fn patterned(len: usize) -> Vec<u8> {
    (0..len).map(|i| (i % 256) as u8).collect()
}

#[test]
fn extra_bytes_are_fixed() {
    let extra = build_extra(0, 5, 0);
    assert_eq!(extra, vec![0x00, 0x14, 0x00]);
    assert_eq!(build_extra(0, 5, 0), extra);
}

#[test]
fn extra_bytes_hold_era_nonce_and_tip() {
    assert_eq!(build_extra(0, 0, 0), vec![0x00, 0x00, 0x00]);
    assert_eq!(build_extra(7, 64, 1), vec![0x07, 0x01, 0x01, 0x04]);
    let mut expected = vec![0x00];
    expected.extend(encode_compact(u64::MAX as u128));
    expected.extend(encode_compact(u128::MAX));
    assert_eq!(build_extra(0, u64::MAX, u128::MAX), expected);
}

#[test]
fn additional_bytes_hold_versions_and_references() {
    let genesis = [0x11u8; 32];
    let fork = [0x22u8; 32];
    let additional = build_additional(9360, 17, &genesis, &fork);
    assert_eq!(additional.len(), 72);
    assert_eq!(&additional[0..4], &[0x90, 0x24, 0x00, 0x00]);
    assert_eq!(&additional[4..8], &[0x11, 0x00, 0x00, 0x00]);
    assert_eq!(&additional[8..40], &genesis);
    assert_eq!(&additional[40..72], &fork);
    assert_eq!(
        build_additional(u32::MAX, 0x0102_0304, &[], &[]),
        vec![0xff, 0xff, 0xff, 0xff, 0x04, 0x03, 0x02, 0x01]
    );
}

#[test]
fn signing_payload_is_call_extra_additional() {
    let payload = make_signing_payload(&[1, 2], &[3], &[4, 5, 6]);
    assert_eq!(payload, vec![1, 2, 3, 4, 5, 6]);
    assert_eq!(make_signing_payload(&[], &[], &[]), Vec::<u8>::new());
    assert_eq!(make_signing_payload(&[], &[9], &[]), vec![9]);
}

#[test]
fn payload_of_256_bytes_is_signed_as_it_is() {
    let payload = patterned(256);
    assert_eq!(prepare_for_signing(&payload), payload);
    assert_eq!(prepare_for_signing(&[]), Vec::<u8>::new());
    assert_eq!(prepare_for_signing(&[1, 2, 3]), vec![1, 2, 3]);
}

#[test]
fn payload_of_257_bytes_is_hashed() {
    let payload = patterned(257);
    let digest = prepare_for_signing(&payload);
    assert_eq!(digest.len(), 32);
    assert_eq!(
        digest,
        hex::decode("45f7f084c30bac7cbae2e1963bc6e6b0d8cb227a12927e97fb941d288fb1f9a3").unwrap()
    );
    assert_eq!(
        prepare_for_signing(&[0u8; 257]),
        hex::decode("a93d82fe42c85b6eb1dab95d264706993f6bd903aee5a3ca4a01adbe807c4ca3").unwrap()
    );
}

#[test]
fn length_prefix_counts_the_inner_bytes() {
    let key = PublicKey([0x01; 32]);
    for (signature, extra, call) in [
        (0usize, 0usize, 0usize),
        (64, 3, 10),
        (64, 3, 200),
        (64, 20, 16384),
        (1, 0, 27),
        (64, 3, 70000),
    ] {
        let inner = 35 + signature + extra + call;
        let out = assemble(&key, &patterned(signature), &patterned(extra), &patterned(call));
        let prefix = encode_compact(inner as u128);
        assert_eq!(decode_compact(&out), Some((inner as u128, prefix.len())));
        assert_eq!(out.len(), inner + prefix.len());
        assert_eq!(&out[..prefix.len()], &prefix[..]);
    }
}

#[test]
fn end_to_end_extrinsic() {
    let key = PublicKey([0xAA; 32]);
    let genesis = [0x00u8; 32];
    let call = construct_transfer_call(0x05, &[0x00, 0x01, 0x02, 0x03]);
    assert_eq!(call, vec![0x05, 0x00, 0x01, 0x02, 0x03]);
    let (extra, payload) = construct_extrinsic_data(&call, 0, 9360, 17, &genesis);
    assert_eq!(extra, vec![0x00, 0x00, 0x00]);
    let mut expected_payload = call.clone();
    expected_payload.extend_from_slice(&extra);
    expected_payload.extend_from_slice(&[0x90, 0x24, 0x00, 0x00, 0x11, 0x00, 0x00, 0x00]);
    expected_payload.extend_from_slice(&[0u8; 64]);
    assert_eq!(payload, expected_payload);

    let signature = patterned(64);
    let out = assemble(&key, &signature, &extra, &call);
    let inner = 35 + 64 + 3 + 5;
    assert_eq!(&out[0..2], &encode_compact(inner as u128)[..]);
    assert_eq!(decode_compact(&out), Some((inner as u128, 2)));
    assert_eq!(out.len() - 2, inner);
    let body = &out[2..];
    assert_eq!(body[0], 0x84);
    assert_eq!(body[1], 0x00);
    assert_eq!(&body[2..34], &[0xAA; 32]);
    assert_eq!(body[34], 0x01);
    assert_eq!(&body[35..99], &signature[..]);
    assert_eq!(&body[99..102], &[0x00, 0x00, 0x00]);
    assert_eq!(&body[102..], &call[..]);
}

#[test]
fn checked_assembly_gives_the_same_bytes() {
    let key = PublicKey([0x07; 32]);
    let out = assemble_checked(&key, &[1; 64], &[0, 4, 0], &[5, 0]).unwrap();
    assert_eq!(out, assemble(&key, &[1; 64], &[0, 4, 0], &[5, 0]));
}

#[test]
fn call_is_resolved_from_the_pallet_entry() {
    let found = resolve_call(Some(PalletEntry { index: 4, calls: Some(123) }));
    assert!(matches!(found, Ok((4, 123))));
    let no_pallet = resolve_call(None).unwrap_err();
    assert!(matches!(no_pallet, Error::Schema(_)));
    assert_eq!(
        no_pallet.to_string(),
        "Error resolving the call schema: pallet does not exist"
    );
    let no_calls = resolve_call(Some(PalletEntry { index: 4, calls: None })).unwrap_err();
    assert!(matches!(no_calls, Error::Schema(_)));
    assert_eq!(
        no_calls.to_string(),
        "Error resolving the call schema: pallet does not have calls"
    );
}
