use wusheng_pool_client::aleo::MAX_SIGNED_FIELDS;
use wusheng_pool_client::account::{Account, AccountError};
use wusheng_pool_client::mining::prover::Prover;

#[test]
fn new_account_keys_derive_from_its_private_key() {
    let account = Account::new().unwrap();
    assert!(account.private_key().starts_with("APrivateKey1"));
    assert!(account.view_key().starts_with("AViewKey1"));
    assert!(account.address().starts_with("aleo1"));
    assert_eq!(Prover::check_address(account.address()), Ok(()));
    let again = Account::from_str(account.private_key()).unwrap();
    assert_eq!(again.view_key, account.view_key);
    assert_eq!(again.address, account.address);
}

#[test]
fn invalid_private_key_is_refused() {
    assert_eq!(Account::new_from("not a key").unwrap_err(), AccountError::InvalidPrivateKey);
}

#[test]
fn signatures_verify_for_the_signer_only() {
    let account = Account::new().unwrap();
    let message = vec!["1field".to_string(), "2field".to_string()];
    let signature = account.sign(&message).unwrap();
    assert!(account.verify(&message, &signature));
    let other = vec!["3field".to_string()];
    assert!(!account.verify(&other, &signature));
    let stranger = Account::new().unwrap();
    assert!(!stranger.verify(&message, &signature));
    assert!(!account.verify(&message, "not a signature"));
}

#[test]
fn unsignable_message_is_refused() {
    let account = Account::new().unwrap();
    assert_eq!(account.sign(&["not a field".to_string()]).unwrap_err(), AccountError::Signing);
}

#[test]
fn backup_content_has_three_lines() {
    let account = Account {
        private_key: "APrivateKey1abc".to_string(),
        view_key: "AViewKey1def".to_string(),
        address: "aleo1ghi".to_string(),
    };
    assert_eq!(
        account.backup_content(),
        "Private key:  APrivateKey1abc\nView key:  AViewKey1def\nAddress:  aleo1ghi"
    );
}

#[test]
fn messages_up_to_the_field_limit_are_signed() {
    let account = Account::new().unwrap();
    let longest = vec!["7field".to_string(); MAX_SIGNED_FIELDS];
    let signature = account.sign(&longest).unwrap();
    assert!(account.verify(&longest, &signature));
    let too_long = vec!["7field".to_string(); MAX_SIGNED_FIELDS + 1];
    assert_eq!(account.sign(&too_long).unwrap_err(), AccountError::Signing);
    assert_eq!(account.sign(&[]).map(|_| ()), Ok(()));
}

#[test]
fn a_key_that_does_not_read_cannot_sign() {
    let account = Account {
        private_key: "APrivateKey1nope".to_string(),
        view_key: String::new(),
        address: String::new(),
    };
    assert_eq!(account.sign(&["1field".to_string()]).unwrap_err(), AccountError::Signing);
}
