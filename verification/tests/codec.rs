use time_locked_wallet::LOCK_ACCOUNT_SIZE;
use time_locked_wallet::LockAccount;
use time_locked_wallet::codec::decode;
use time_locked_wallet::codec::encode;

fn sample_record() -> LockAccount {
    LockAccount {
        owner: [1; 32],
        beneficiary: [2; 32],
        mint: Some([5; 32]),
        amount: 123_456_789,
        unlock_timestamp: -7_200,
        description: b"severance".to_vec(),
        withdrawn: false,
        bump: 254,
    }
}

#[test]
fn encode_has_fixed_size() {
    let record = sample_record();
    assert_eq!(encode(&record).len(), LOCK_ACCOUNT_SIZE);
    let mut empty_description = record.clone();
    empty_description.description = Vec::new();
    assert_eq!(encode(&empty_description).len(), LOCK_ACCOUNT_SIZE);
}

#[test]
fn tokenized_record_round_trips() {
    let record = sample_record();
    let decoded = decode(&encode(&record)).expect("image of a record decodes");
    assert_eq!(decoded.owner, record.owner);
    assert_eq!(decoded.beneficiary, record.beneficiary);
    assert_eq!(decoded.mint, record.mint);
    assert_eq!(decoded.amount, record.amount);
    assert_eq!(decoded.unlock_timestamp, record.unlock_timestamp);
    assert_eq!(decoded.description, record.description);
    assert_eq!(decoded.withdrawn, record.withdrawn);
    assert_eq!(decoded.bump, record.bump);
}

#[test]
fn native_record_round_trips() {
    let mut record = sample_record();
    record.mint = None;
    record.withdrawn = true;
    record.unlock_timestamp = i64::MAX;
    record.description = vec![0xaa; 100];
    let decoded = decode(&encode(&record)).expect("image of a record decodes");
    assert_eq!(decoded.mint, None);
    assert_eq!(decoded.unlock_timestamp, i64::MAX);
    assert!(decoded.withdrawn);
    assert_eq!(decoded.description, record.description);
}

#[test]
fn decode_rejects_malformed_images() {
    let image = encode(&sample_record());

    // Wrong size.
    assert!(decode(&image[1..]).is_none());
    assert!(decode(&[]).is_none());

    // Wrong discriminator.
    let mut bad = image.clone();
    bad[0] ^= 1;
    assert!(decode(&bad).is_none());

    // A presence flag that is neither present nor absent.
    let mut bad = image.clone();
    bad[72] = 2;
    assert!(decode(&bad).is_none());

    // A description length beyond the maximum.
    let mut bad = image.clone();
    bad[121] = 101;
    assert!(decode(&bad).is_none());

    // A spent flag that is neither spent nor live.
    let mut bad = image.clone();
    bad[225] = 9;
    assert!(decode(&bad).is_none());

    // The untampered image still decodes.
    assert!(decode(&image).is_some());
}
