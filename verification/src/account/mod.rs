//! An Aleo account: its private key, view key and address.
use vstd::prelude::*;
use vstd::string::StringExecFns;
use crate::aleo::{
    MAX_SIGNED_FIELDS, aleo_address_valid, address_of, derived_address, derived_view_key,
    fields_valid, private_key_valid, random_private_key, sign_message, signature_verifies, texts,
    verify_signature, view_key_of,
};

verus! {

broadcast use vstd::string::group_string_axioms;

/// A helper struct for an Aleo account, its keys held as their text.
#[derive(Debug, Clone)]
pub struct Account {
    /// The account private key.
    pub private_key: String,
    /// The account view key.
    pub view_key: String,
    /// The account address.
    pub address: String,
}

/// Why an account could not be made or used.
#[derive(Debug, Clone, Copy, PartialEq, Eq, Structural)]
pub enum AccountError {
    /// No private key could be generated.
    KeyGeneration,
    /// The text is not a private key, or its view key or address could not
    /// be derived.
    InvalidPrivateKey,
    /// The message could not be signed.
    Signing,
}

impl Account {
    /// The account's keys belong together: the view key and the address are
    /// those that the private key derives.
    pub open spec fn derives(&self) -> bool {
        &&& derived_view_key(self.private_key@) == Some(self.view_key@)
        &&& derived_address(self.private_key@) == Some(self.address@)
    }

    /// Initializes a new account from private key.
    pub fn new_from(private_key: &str) -> (res: Result<Account, AccountError>)
        ensures
            res is Ok <==> derived_view_key(private_key@) is Some && derived_address(private_key@) is Some,
            res is Ok <==> private_key_valid(private_key@),
            res matches Ok(account) ==> account.private_key@ == private_key@ && account.derives(),
            res matches Ok(account) ==> aleo_address_valid(account.address@),
            res is Err ==> res == Err::<Account, AccountError>(AccountError::InvalidPrivateKey),
    {
        let view_key = match view_key_of(private_key) {
            Ok(v) => v,
            Err(_) => return Err(AccountError::InvalidPrivateKey),
        };
        let address = match address_of(private_key) {
            Ok(a) => a,
            Err(_) => return Err(AccountError::InvalidPrivateKey),
        };
        Ok(Account { private_key: private_key.to_string(), view_key, address })
    }

    /// Initializes a new account from a private key string.
    pub fn from_str(private_key: &str) -> (res: Result<Account, AccountError>)
        ensures
            res is Ok <==> derived_view_key(private_key@) is Some && derived_address(private_key@) is Some,
            res is Ok <==> private_key_valid(private_key@),
            res matches Ok(account) ==> account.private_key@ == private_key@ && account.derives(),
    {
        Self::new_from(private_key)
    }

    /// Initializes a new account with a random private key: it fails only
    /// where no key could be generated.
    pub fn new() -> (res: Result<Account, AccountError>)
        ensures
            res matches Ok(account) ==> account.derives() && aleo_address_valid(account.address@),
            res is Err ==> res == Err::<Account, AccountError>(AccountError::KeyGeneration),
    {
        let private_key = match random_private_key() {
            Ok(k) => k,
            Err(_) => return Err(AccountError::KeyGeneration),
        };
        Self::new_from(private_key.as_str())
    }

    /// Signs a given message, given as the texts of its field elements: it
    /// succeeds exactly when the private key and every field element read
    /// from their texts and the message is not longer than signing allows.
    pub fn sign(&self, message: &[String]) -> (res: Result<String, AccountError>)
        ensures
            res is Ok <==> private_key_valid(self.private_key@) && fields_valid(message@)
                && message@.len() <= MAX_SIGNED_FIELDS,
            res matches Ok(signature) ==> derived_address(self.private_key@) matches Some(address)
                ==> signature_verifies(address, texts(message@), signature@),
            self.derives() ==> (res matches Ok(signature) ==> signature_verifies(
                self.address@,
                texts(message@),
                signature@,
            )),
            res is Err ==> res == Err::<String, AccountError>(AccountError::Signing),
    {
        match sign_message(self.private_key.as_str(), message) {
            Ok(signature) => Ok(signature),
            Err(_) => Err(AccountError::Signing),
        }
    }

    /// Verifies a given message and signature against the account's address.
    pub fn verify(&self, message: &[String], signature: &str) -> (valid: bool)
        ensures
            valid == signature_verifies(self.address@, texts(message@), signature@),
    {
        verify_signature(self.address.as_str(), message, signature)
    }

    /// Returns the account private key.
    pub fn private_key(&self) -> (key: &String)
        ensures
            key == &self.private_key,
    {
        &self.private_key
    }

    /// Returns the account view key.
    pub fn view_key(&self) -> (key: &String)
        ensures
            key == &self.view_key,
    {
        &self.view_key
    }

    /// Returns the account address.
    pub fn address(&self) -> (address: &String)
        ensures
            address == &self.address,
    {
        &self.address
    }

    /// The text that backs up an account: one line each for the private key,
    /// the view key and the address.
    pub open spec fn backup_text(&self) -> Seq<char> {
        "Private key:  "@ + self.private_key@ + "\nView key:  "@ + self.view_key@ + "\nAddress:  "@
            + self.address@
    }

    /// The text that backs up the account.
    pub fn backup_content(&self) -> (content: String)
        ensures
            content@ == self.backup_text(),
    {
        "Private key:  ".to_string().concat(self.private_key.as_str()).concat("\nView key:  ").concat(
            self.view_key.as_str(),
        ).concat("\nAddress:  ").concat(self.address.as_str())
    }
}

} // verus!
