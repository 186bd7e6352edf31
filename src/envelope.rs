//! The sealed envelope around a vault's plaintext document: age's passphrase
//! mode (scrypt key derivation, then authenticated encryption).

use vstd::prelude::*;
use std::io::Read;
use std::io::Write;

verus! {

#[verifier::external_type_specification]
pub struct ExDecryptError(age::DecryptError);

#[verifier::external_type_specification]
#[verifier::external_body]
pub struct ExIoError(std::io::Error);

/// Why a vault could not be opened or written.
#[derive(Debug, Clone, Copy, PartialEq, Eq, Structural)]
pub enum VaultError {
    /// The vault file does not exist.
    NotFound,
    /// Reading or writing the vault file failed.
    Io,
    /// The file is not an envelope sealed with a passphrase.
    FormatUnsupported,
    /// The envelope rejected the passphrase, or failed its authentication.
    AuthFailed,
    /// The envelope opened, but the document inside did not parse.
    PayloadMalformed,
    /// The envelope asks for more key-derivation work than this machine
    /// accepts.
    ExcessiveWork,
}

/// What age made of an envelope and a passphrase.
pub enum Unsealed {
    /// The plaintext.
    Opened(Vec<u8>),
    /// The envelope is sealed to recipients' keys, not to a passphrase.
    NotPassphrase,
    /// age refused the header or the passphrase.
    Rejected(age::DecryptError),
    /// The header was accepted but the payload stream failed to decrypt.
    Unreadable,
}

/// The error kind that an age decryption error stands for.
pub open spec fn rejection_kind(e: age::DecryptError) -> VaultError {
    match e {
        age::DecryptError::DecryptionFailed => VaultError::AuthFailed,
        age::DecryptError::KeyDecryptionFailed => VaultError::AuthFailed,
        age::DecryptError::NoMatchingKeys => VaultError::AuthFailed,
        age::DecryptError::InvalidMac => VaultError::AuthFailed,
        age::DecryptError::Io(_) => VaultError::Io,
        age::DecryptError::ExcessiveWork { .. } => VaultError::ExcessiveWork,
        _ => VaultError::FormatUnsupported,
    }
}

/// The result of opening an envelope, given what age made of it.
pub open spec fn unsealed_result(u: Unsealed) -> Result<Seq<u8>, VaultError> {
    match u {
        Unsealed::Opened(b) => Ok(b@),
        Unsealed::NotPassphrase => Err(VaultError::FormatUnsupported),
        Unsealed::Rejected(e) => Err(rejection_kind(e)),
        Unsealed::Unreadable => Err(VaultError::AuthFailed),
    }
}

pub open spec fn result_view(r: Result<Vec<u8>, VaultError>) -> Result<Seq<u8>, VaultError> {
    match r {
        Ok(b) => Ok(b@),
        Err(e) => Err(e),
    }
}

/// The error kind for an age decryption error.
pub fn rejection(e: &age::DecryptError) -> (r: VaultError)
    ensures
        r == rejection_kind(*e),
{
    match e {
        age::DecryptError::DecryptionFailed => VaultError::AuthFailed,
        age::DecryptError::KeyDecryptionFailed => VaultError::AuthFailed,
        age::DecryptError::NoMatchingKeys => VaultError::AuthFailed,
        age::DecryptError::InvalidMac => VaultError::AuthFailed,
        age::DecryptError::Io(_) => VaultError::Io,
        age::DecryptError::ExcessiveWork { .. } => VaultError::ExcessiveWork,
        _ => VaultError::FormatUnsupported,
    }
}

/// The plaintext, or the kind of failure, for what age made of an envelope.
pub fn resolve_unsealed(u: Unsealed) -> (r: Result<Vec<u8>, VaultError>)
    ensures
        result_view(r) == unsealed_result(u),
{
    match u {
        Unsealed::Opened(b) => Ok(b),
        Unsealed::NotPassphrase => Err(VaultError::FormatUnsupported),
        Unsealed::Rejected(e) => Err(rejection(&e)),
        Unsealed::Unreadable => Err(VaultError::AuthFailed),
    }
}

/// Relies on age's `Encryptor::with_user_passphrase`, `Encryptor::wrap_output`,
/// the stream writer's `write` and `StreamWriter::finish`: the payload sealed
/// under the passphrase, with a fresh salt and nonce, so nothing is known of
/// the bytes in advance. Sealing into memory always succeeds: these calls fail
/// only when the underlying writer does, and a `Vec<u8>` never does.
#[verifier::external_body]
fn age_seal(payload: &[u8], passphrase: &str) -> (r: Option<Vec<u8>>)
    ensures
        r is Some,
{
    let encryptor = age::Encryptor::with_user_passphrase(
        age::secrecy::Secret::new(passphrase.to_owned()),
    );
    let mut out = Vec::new();
    let mut writer = encryptor.wrap_output(&mut out).ok()?;
    writer.write_all(payload).ok()?;
    writer.finish().ok()?;
    Some(out)
}

/// Relies on age's `Decryptor::new`, `PassphraseDecryptor::decrypt` and the
/// stream reader it returns: the plaintext, or where age stopped. The work
/// factor that age accepts depends on the speed of the machine, so the
/// outcome is not a function of the arguments.
#[verifier::external_body]
fn age_open(envelope: &[u8], passphrase: &str) -> (r: Unsealed) {
    let decryptor = match age::Decryptor::new(envelope) {
        Ok(age::Decryptor::Passphrase(d)) => d,
        Ok(age::Decryptor::Recipients(_)) => return Unsealed::NotPassphrase,
        Err(e) => return Unsealed::Rejected(e),
    };
    let secret = age::secrecy::Secret::new(passphrase.to_owned());
    let mut reader = match decryptor.decrypt(&secret, None) {
        Ok(reader) => reader,
        Err(e) => return Unsealed::Rejected(e),
    };
    let mut out = Vec::new();
    match reader.read_to_end(&mut out) {
        Ok(_) => Unsealed::Opened(out),
        Err(_) => Unsealed::Unreadable,
    }
}

/// Seals `payload` under `passphrase`; this always succeeds.
pub fn seal_envelope(payload: &[u8], passphrase: &str) -> (r: Result<Vec<u8>, VaultError>)
    ensures
        r is Ok,
{
    match age_seal(payload, passphrase) {
        Some(bytes) => Ok(bytes),
        None => Err(VaultError::Io),
    }
}

/// Opens an envelope with `passphrase`. A wrong passphrase is reported as
/// `AuthFailed`, an envelope that is not sealed to a passphrase, or not an
/// age file at all, as `FormatUnsupported`; what the plaintext holds is not
/// looked at here.
pub fn open_envelope(envelope: &[u8], passphrase: &str) -> (r: Result<Vec<u8>, VaultError>)
    ensures
        r matches Err(e) ==> (e == VaultError::AuthFailed || e == VaultError::FormatUnsupported
            || e == VaultError::Io || e == VaultError::ExcessiveWork),
{
    let u = age_open(envelope, passphrase);
    resolve_unsealed(u)
}

} // verus!
