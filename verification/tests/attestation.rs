use signal_attestation::classification::{classification_code, classification_from_byte};
use signal_attestation::{
    derive_attestation_address, record_signal, serialize_record, verify_attestation_address,
    AttestationError, AttestationStore, Classification, RecordSignal, RecordSignalParams,
    SignalAttestation, ATTESTATION_SIZE,
};

const PROGRAM_ID: [u8; 32] = [1u8; 32];

fn signer(authority: [u8; 32]) -> RecordSignal {
    RecordSignal {
        authority,
        authority_is_signer: true,
    }
}

fn sample_params() -> RecordSignalParams {
    RecordSignalParams {
        signal_hash: [3u8; 32],
        market_id_hash: [5u8; 32],
        movement_id_hash: [9u8; 32],
        classification: 2,
        confidence_bps: 8200,
        timestamp: 1_700_000_000,
    }
}

#[test]
fn classification_codes_decode_in_fixed_order() {
    let expected = [
        Classification::Capital,
        Classification::Info,
        Classification::Velocity,
        Classification::Liquidity,
        Classification::News,
        Classification::Time,
    ];
    for (b, variant) in expected.iter().enumerate() {
        assert_eq!(classification_from_byte(b as u8), Some(*variant));
        assert_eq!(classification_code(*variant), b as u8);
    }
    assert_eq!(classification_from_byte(6), None);
    assert_eq!(classification_from_byte(7), None);
    assert_eq!(classification_from_byte(255), None);
}

#[test]
fn confidence_out_of_range_is_malformed() {
    let mut store = AttestationStore::new(PROGRAM_ID);
    let authority = [7u8; 32];
    let mut params = sample_params();
    params.confidence_bps = 10001;
    let r = record_signal(&mut store, &signer(authority), &params);
    assert_eq!(r, Err(AttestationError::MalformedInput));

    params.confidence_bps = 7500;
    let r = record_signal(&mut store, &signer(authority), &params);
    assert_eq!(r, Ok(()));
}

#[test]
fn unknown_classification_byte_is_malformed() {
    let mut store = AttestationStore::new(PROGRAM_ID);
    let authority = [7u8; 32];
    let mut params = sample_params();
    params.classification = 6;
    let r = record_signal(&mut store, &signer(authority), &params);
    assert_eq!(r, Err(AttestationError::MalformedInput));
}

#[test]
fn unverified_signer_is_unauthorized() {
    let mut store = AttestationStore::new(PROGRAM_ID);
    let ctx = RecordSignal {
        authority: [7u8; 32],
        authority_is_signer: false,
    };
    let r = record_signal(&mut store, &ctx, &sample_params());
    assert_eq!(r, Err(AttestationError::Unauthorized));
}

#[test]
fn first_write_stores_the_inputs() {
    let mut store = AttestationStore::new(PROGRAM_ID);
    assert_eq!(store.program_id(), &PROGRAM_ID);
    let authority = [7u8; 32];
    let params = sample_params();
    let (address, bump) =
        derive_attestation_address(&authority, &params.movement_id_hash, &PROGRAM_ID)
            .expect("a proof byte exists for these inputs");

    let r = record_signal(&mut store, &signer(authority), &params);
    assert_eq!(r, Ok(()));

    let rec = store.get(&address).expect("the record was stored");
    assert_eq!(rec.signal_hash, params.signal_hash);
    assert_eq!(rec.market_id_hash, params.market_id_hash);
    assert_eq!(rec.classification, params.classification);
    assert_eq!(rec.confidence_bps, params.confidence_bps);
    assert_eq!(rec.timestamp, params.timestamp);
    assert_eq!(rec.authority, authority);
    assert_eq!(rec.bump, bump);
    assert_eq!(rec.classification_variant(), Some(Classification::Velocity));
}

#[test]
fn derivation_is_pure_and_matches_the_runtime() {
    let authority = [7u8; 32];
    let subject = [9u8; 32];
    let first = derive_attestation_address(&authority, &subject, &PROGRAM_ID);
    let second = derive_attestation_address(&authority, &subject, &PROGRAM_ID);
    assert_eq!(first, second);

    let (address, bump) = first.expect("a proof byte exists for these inputs");
    let program = solana_program::pubkey::Pubkey::new_from_array(PROGRAM_ID);
    let (expected, expected_bump) = solana_program::pubkey::Pubkey::find_program_address(
        &[b"attestation", &authority, &subject],
        &program,
    );
    assert_eq!(address, expected.to_bytes());
    assert_eq!(bump, expected_bump);
}

#[test]
fn stored_proof_byte_rebuilds_the_address() {
    let mut store = AttestationStore::new(PROGRAM_ID);
    let authority = [7u8; 32];
    let params = sample_params();
    let (address, _) =
        derive_attestation_address(&authority, &params.movement_id_hash, &PROGRAM_ID)
            .expect("a proof byte exists for these inputs");
    record_signal(&mut store, &signer(authority), &params).expect("first write succeeds");

    let rec = *store.get(&address).expect("the record was stored");
    assert!(verify_attestation_address(
        &authority,
        &params.movement_id_hash,
        rec.bump,
        &PROGRAM_ID,
        &address,
    ));
    // A different proof byte never rebuilds the same address.
    assert!(!verify_attestation_address(
        &authority,
        &params.movement_id_hash,
        rec.bump.wrapping_sub(1),
        &PROGRAM_ID,
        &address,
    ));
}

#[test]
fn second_write_to_the_same_address_fails() {
    let mut store = AttestationStore::new(PROGRAM_ID);
    let authority = [7u8; 32];
    let params = sample_params();
    let (address, _) =
        derive_attestation_address(&authority, &params.movement_id_hash, &PROGRAM_ID)
            .expect("a proof byte exists for these inputs");

    assert_eq!(record_signal(&mut store, &signer(authority), &params), Ok(()));
    let first = *store.get(&address).expect("the record was stored");

    // Same (authority, subject) pair, all other fields different.
    let second_params = RecordSignalParams {
        signal_hash: [30u8; 32],
        market_id_hash: [31u8; 32],
        movement_id_hash: params.movement_id_hash,
        classification: 4,
        confidence_bps: 100,
        timestamp: 1_800_000_000,
    };
    let r = record_signal(&mut store, &signer(authority), &second_params);
    assert_eq!(r, Err(AttestationError::AlreadyExists));

    let after = *store.get(&address).expect("the record is still there");
    assert_eq!(after, first);
}

#[test]
fn different_subjects_get_their_own_records() {
    let mut store = AttestationStore::new(PROGRAM_ID);
    let authority = [7u8; 32];
    let params = sample_params();
    let mut other = params;
    other.movement_id_hash = [10u8; 32];
    other.signal_hash = [11u8; 32];

    assert_eq!(record_signal(&mut store, &signer(authority), &params), Ok(()));
    assert_eq!(record_signal(&mut store, &signer(authority), &other), Ok(()));

    let (addr_a, _) = derive_attestation_address(&authority, &params.movement_id_hash, &PROGRAM_ID)
        .expect("a proof byte exists for these inputs");
    let (addr_b, _) = derive_attestation_address(&authority, &other.movement_id_hash, &PROGRAM_ID)
        .expect("a proof byte exists for these inputs");
    assert_ne!(addr_a, addr_b);
    assert_eq!(store.get(&addr_a).unwrap().signal_hash, params.signal_hash);
    assert_eq!(store.get(&addr_b).unwrap().signal_hash, other.signal_hash);
}

#[test]
fn serialized_record_is_exactly_116_bytes() {
    let rec = SignalAttestation {
        signal_hash: [0xAB; 32],
        market_id_hash: [0xCD; 32],
        classification: 2,
        confidence_bps: 8200,
        timestamp: 1_700_000_000,
        authority: [0x11; 32],
        bump: 254,
    };
    let out = serialize_record(&rec);
    assert_eq!(ATTESTATION_SIZE, 116);
    assert_eq!(out.len(), 116);

    let mut zeroed = rec;
    zeroed.signal_hash = [0; 32];
    zeroed.confidence_bps = 0;
    zeroed.timestamp = i64::MIN;
    assert_eq!(serialize_record(&zeroed).len(), 116);
}

#[test]
fn serialized_record_layout_is_the_wire_contract() {
    let rec = SignalAttestation {
        signal_hash: [0xAB; 32],
        market_id_hash: [0xCD; 32],
        classification: 2,
        confidence_bps: 8200,
        timestamp: 1_700_000_000,
        authority: [0x11; 32],
        bump: 254,
    };
    let out = serialize_record(&rec);

    let tag = solana_program::hash::hash(b"account:SignalAttestation").to_bytes();
    assert_eq!(&out[0..8], &tag[0..8]);
    assert_eq!(&out[8..40], &[0xAB; 32]);
    assert_eq!(&out[40..72], &[0xCD; 32]);
    assert_eq!(out[72], 2);
    assert_eq!(&out[73..75], &[0x08, 0x20]); // 8200 = 0x2008, little endian
    assert_eq!(&out[75..83], &1_700_000_000u64.to_le_bytes());
    assert_eq!(&out[83..115], &[0x11; 32]);
    assert_eq!(out[115], 254);

    let mut negative = rec;
    negative.timestamp = -1;
    let out = serialize_record(&negative);
    assert_eq!(&out[75..83], &[0xFF; 8]); // two's complement, little endian
}
