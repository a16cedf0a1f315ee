use token_auth::credential::{Authentication, User};
use token_auth::error::InternalError;
use token_auth::hasher::{fresh_salt, PasswordHasher, HASH_LENGTH, SALT_LENGTH};

fn pepper() -> PasswordHasher {
    PasswordHasher::new(b"pepper".to_vec())
}

#[test]
fn lengths_are_sixteen_and_thirty_two() {
    assert_eq!(SALT_LENGTH, 16);
    assert_eq!(HASH_LENGTH, 32);
}

#[test]
fn fresh_salts_have_sixteen_random_bytes() {
    let one = fresh_salt();
    let two = fresh_salt();
    assert_eq!(one.len(), 16);
    assert_eq!(two.len(), 16);
    assert_ne!(one, vec![0u8; 16]);
    assert_ne!(one, two);
}

#[test]
fn the_digest_is_what_argon2_computes() {
    let salt = [7u8; 16];
    let digest = pepper().hash("correct horse", &salt).unwrap();
    let config = argon2::Config { secret: b"pepper", ..Default::default() };
    assert_eq!(digest, argon2::hash_raw(b"correct horse", &salt, &config).unwrap());
    assert_eq!(digest.len(), 32);
    assert_ne!(digest, b"correct horse".to_vec());
}

#[test]
fn the_digest_depends_on_password_salt_and_key() {
    let salt = [7u8; 16];
    let digest = pepper().hash("correct horse", &salt).unwrap();
    assert_eq!(digest, pepper().hash("correct horse", &salt).unwrap());
    assert_ne!(digest, pepper().hash("correct horsf", &salt).unwrap());
    assert_ne!(digest, pepper().hash("correct horse", &[8u8; 16]).unwrap());
    assert_ne!(digest, PasswordHasher::new(b"salt".to_vec()).hash("correct horse", &salt).unwrap());
}

#[test]
fn verify_tells_the_right_password_from_a_wrong_one() {
    let salt = [9u8; 16];
    let hasher = pepper();
    let digest = hasher.hash("s3cret", &salt).unwrap();
    assert_eq!(hasher.verify("s3cret", &salt, &digest), Ok(true));
    assert_eq!(hasher.verify("s3cres", &salt, &digest), Ok(false));
    assert_eq!(hasher.verify("", &salt, &digest), Ok(false));
    let mut flipped = digest.clone();
    flipped[31] ^= 1;
    assert_eq!(hasher.verify("s3cret", &salt, &flipped), Ok(false));
}

#[test]
fn a_short_salt_is_a_hard_error() {
    let hasher = pepper();
    assert_eq!(hasher.hash("pw", &[1u8; 7]), Err(argon2::Error::SaltTooShort));
    assert!(hasher.hash("pw", &[1u8; 8]).is_ok());
    assert_eq!(hasher.verify("pw", &[1u8; 7], &[0u8; 32]), Err(argon2::Error::SaltTooShort));
}

#[test]
fn a_stored_digest_under_four_bytes_is_a_hard_error() {
    let hasher = pepper();
    assert_eq!(hasher.verify("pw", &[1u8; 16], &[0u8; 3]), Err(argon2::Error::OutputTooShort));
    assert_eq!(hasher.verify("pw", &[1u8; 16], &[]), Err(argon2::Error::OutputTooShort));
    assert_eq!(hasher.verify("pw", &[1u8; 16], &[0u8; 4]), Ok(false));
}

#[test]
fn verify_works_at_the_length_of_the_stored_digest() {
    let salt = [3u8; 16];
    let config = argon2::Config { secret: b"pepper", hash_length: 20, ..Default::default() };
    let short = argon2::hash_raw(b"pw", &salt, &config).unwrap();
    assert_eq!(pepper().verify("pw", &salt, &short), Ok(true));
    let long = pepper().hash("pw", &salt).unwrap();
    assert_ne!(&long[..20], &short[..]);
}

#[test]
fn a_new_credential_is_at_version_zero_and_verifies() {
    let hasher = pepper();
    let record = Authentication::create(&User::new("dave".to_string()), "hunter2", &hasher).unwrap();
    assert_eq!(record.username(), "dave");
    assert_eq!(record.username, "dave");
    assert_eq!(record.version(), 0);
    assert_eq!(record.version, 0);
    assert_eq!(record.salt().len(), 16);
    assert_eq!(record.hash().len(), 32);
    assert_eq!(record.hash(), &hasher.hash("hunter2", record.salt()).unwrap()[..]);
    assert!(matches!(record.verify("hunter2", &hasher), Ok(true)));
    assert!(matches!(record.verify("hunter3", &hasher), Ok(false)));
}

#[test]
fn two_credentials_of_one_password_differ_in_salt_and_digest() {
    let hasher = pepper();
    let one = Authentication::create(&User::new("dave".to_string()), "hunter2", &hasher).unwrap();
    let two = Authentication::create(&User::new("erin".to_string()), "hunter2", &hasher).unwrap();
    assert_ne!(one.salt(), two.salt());
    assert_ne!(one.hash(), two.hash());
}

#[test]
fn a_rotation_keeps_the_salt_and_raises_the_version() {
    let hasher = pepper();
    let mut record =
        Authentication::from_parts("dave".to_string(), vec![0; 32], vec![5; 16], 41);
    record.change_password("new password", &hasher).unwrap();
    assert_eq!(record.version(), 42);
    assert_eq!(record.salt(), &[5u8; 16][..]);
    assert_eq!(record.username(), "dave");
    assert_eq!(record.hash(), &hasher.hash("new password", &[5u8; 16]).unwrap()[..]);
    assert!(matches!(record.verify("new password", &hasher), Ok(true)));
}

#[test]
fn a_failed_rotation_leaves_the_credential() {
    let hasher = pepper();
    let mut record = Authentication::from_parts("dave".to_string(), vec![1; 32], vec![5; 4], 41);
    let failed = record.change_password("new password", &hasher);
    assert!(matches!(failed, Err(InternalError::Argon2(argon2::Error::SaltTooShort))));
    assert_eq!(record.version(), 41);
    assert_eq!(record.hash(), &[1u8; 32][..]);
    assert_eq!(record.salt(), &[5u8; 4][..]);
}

#[test]
fn verification_against_a_broken_record_is_an_internal_error() {
    let record = Authentication::from_parts("dave".to_string(), vec![1; 32], vec![5; 4], 0);
    assert!(matches!(
        record.verify("pw", &pepper()),
        Err(InternalError::Argon2(argon2::Error::SaltTooShort))
    ));
}

#[test]
fn increment_adds_one() {
    let mut record = Authentication::from_parts("dave".to_string(), vec![1; 32], vec![5; 16], 0);
    record.increment();
    assert_eq!(record.version(), 1);
    let mut last = Authentication::from_parts("dave".to_string(), vec![1; 32], vec![5; 16], u32::MAX - 1);
    last.increment();
    assert_eq!(last.version(), u32::MAX);
    assert_eq!(last.hash(), &[1u8; 32][..]);
}

#[test]
fn a_copy_holds_the_same_values() {
    let record = Authentication::from_parts("dave".to_string(), vec![1, 2, 3, 4], vec![5; 16], 6);
    let copy = record.duplicate();
    assert_eq!(copy.username(), "dave");
    assert_eq!(copy.hash(), &[1u8, 2, 3, 4][..]);
    assert_eq!(copy.salt(), &[5u8; 16][..]);
    assert_eq!(copy.version(), 6);
    assert!(copy.is_for(&"dave".to_string()));
    assert!(!copy.is_for(&"Dave".to_string()));
    assert_eq!(record.into_username(), "dave");
}
