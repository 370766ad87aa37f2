//! The account that authors and signs the posts.

use vstd::prelude::*;
use deso::errors::deso_signing_error::DesoSigningError;
use deso::errors::from_mnemonic_error::FromMnemonicError;
use deso::seed_hex::SeedHex;

verus! {

/// `deso::seed_hex::SeedHex`: the key material, handed on as it is.
#[verifier::external_type_specification]
#[verifier::external_body]
pub struct ExSeedHex(SeedHex);

/// The signer's error. Nothing is read of it.
#[verifier::external_type_specification]
#[verifier::external_body]
pub struct ExDesoSigningError(DesoSigningError);

/// The error of the key derivation. Nothing is read of it.
#[verifier::external_type_specification]
#[verifier::external_body]
pub struct ExFromMnemonicError(FromMnemonicError);

/// The bytes of the secret key that a `SeedHex` holds.
pub uninterp spec fn secret_key(key: SeedHex) -> Seq<u8>;

/// The secret key that `deso::seed_hex::from_mnemonic` derives from a
/// mnemonic phrase, or `None` where it refuses the phrase.
pub uninterp spec fn derived_key(mnemonic: Seq<char>) -> Option<Seq<u8>>;

/// The signed transaction, in hex, that `SeedHex::sign_transaction` makes
/// of an unsigned one with the given secret key, or `None` where it fails.
pub uninterp spec fn signed_transaction(key: Seq<u8>, transaction_hex: Seq<char>) -> Option<Seq<char>>;

/// Why an account could not be made.
#[derive(Clone, Copy, Debug, PartialEq, Eq, Structural)]
pub enum CredentialError {
    /// No key can be derived from the mnemonic phrase.
    InvalidMnemonic,
}

/// Why a transaction could not be signed.
#[derive(Clone, Copy, Debug, PartialEq, Eq, Structural)]
pub struct SigningFailed;

/// An address and the key that signs for it. It does not change once made.
pub struct Account {
    address: String,
    key_hex: SeedHex,
}

/// What an account stands for in contracts.
pub struct AccountView {
    pub address: Seq<char>,
    pub key: Seq<u8>,
}

impl View for Account {
    type V = AccountView;

    closed spec fn view(&self) -> AccountView {
        AccountView { address: self.address@, key: secret_key(self.key_hex) }
    }
}

/// What `sign` returns for a key and an unsigned transaction: nothing can
/// be signed of an empty transaction; otherwise the signer decides.
pub open spec fn sign_spec(key: Seq<u8>, transaction_hex: Seq<char>) -> Option<Seq<char>> {
    if transaction_hex.len() == 0 {
        None
    } else {
        signed_transaction(key, transaction_hex)
    }
}

impl Account {
    /// Makes the account of an address and the mnemonic phrase of its key.
    pub fn new(address: String, mnemonic: String) -> (made: Result<Account, CredentialError>)
        ensures
            match made {
                Ok(account) => derived_key(mnemonic@) == Some(account@.key) && account@.address
                    == address@,
                Err(error) => derived_key(mnemonic@) is None && error
                    == CredentialError::InvalidMnemonic,
            },
    {
        match seed_hex_from_mnemonic(mnemonic) {
            Ok(key_hex) => Ok(Account { address, key_hex }),
            Err(_) => Err(CredentialError::InvalidMnemonic),
        }
    }

    /// The address that posts are authored under.
    pub fn address(&self) -> (address: &str)
        ensures
            address@ == self@.address,
    {
        self.address.as_str()
    }

    /// Signs an unsigned transaction given in hex.
    pub fn sign(&self, transaction_hex: &str) -> (signed: Result<String, SigningFailed>)
        ensures
            match signed {
                Ok(hex) => sign_spec(self@.key, transaction_hex@) == Some(hex@),
                Err(_) => sign_spec(self@.key, transaction_hex@) is None,
            },
    {
        if transaction_hex.is_empty() {
            return Err(SigningFailed);
        }
        signing_outcome(seed_hex_sign(&self.key_hex, transaction_hex))
    }
}

/// What `sign` makes of the signer's answer: the signed hex, or the
/// failure without the signer's message.
pub fn signing_outcome(answer: Result<String, DesoSigningError>) -> (signed: Result<
    String,
    SigningFailed,
>)
    ensures
        match answer {
            Ok(hex) => signed == Ok::<String, SigningFailed>(hex),
            Err(_) => signed is Err,
        },
{
    match answer {
        Ok(hex) => Ok(hex),
        Err(_) => Err(SigningFailed),
    }
}

/// Calls `deso::seed_hex::from_mnemonic`.
///
/// Trusted: the key that comes back is a function of the phrase alone, and
/// the call fails exactly where no key is derived.
#[verifier::external_body]
fn seed_hex_from_mnemonic(mnemonic: String) -> (made: Result<SeedHex, FromMnemonicError>)
    ensures
        match made {
            Ok(key) => derived_key(mnemonic@) == Some(secret_key(key)),
            Err(_) => derived_key(mnemonic@) is None,
        },
{
    deso::seed_hex::from_mnemonic(mnemonic)
}

/// Calls `SeedHex::sign_transaction`.
///
/// Trusted: the signature is deterministic, so the signed hex is a function
/// of the secret key and the unsigned hex alone. The empty transaction is
/// left out: the signer subtracts one from the number of its bytes.
#[verifier::external_body]
fn seed_hex_sign(key: &SeedHex, transaction_hex: &str) -> (signed: Result<
    String,
    DesoSigningError,
>)
    requires
        transaction_hex@.len() > 0,
    ensures
        match signed {
            Ok(hex) => signed_transaction(secret_key(*key), transaction_hex@) == Some(hex@),
            Err(_) => signed_transaction(secret_key(*key), transaction_hex@) is None,
        },
{
    key.sign_transaction(transaction_hex)
}

} // verus!
