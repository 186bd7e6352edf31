//! Where a vault's passphrase is kept in the system's credential store: the
//! service is the vault's path and the account label is fixed.

use vstd::prelude::*;

verus! {

/// The account label of every entry.
pub open spec fn local_label() -> Seq<char> {
    seq!['l', 'o', 'c', 'a', 'l']
}

/// The address of one entry in the credential store.
#[derive(Debug, Clone, PartialEq)]
pub struct KeyringEntry {
    pub service: String,
    pub account: String,
}

/// Why the passphrase could not be read from the credential store.
#[derive(Debug, Clone, Copy, PartialEq, Eq, Structural)]
pub enum KeyringError {
    /// The credential store could not be reached.
    Unavailable,
    /// The store holds no entry for the vault.
    EntryMissing,
}

/// The passphrases of vaults, as kept in the credential store.
pub struct Password;

impl Password {
    /// The entry that holds the passphrase of the vault at `path`.
    pub fn entry(path: &str) -> (r: KeyringEntry)
        ensures
            r.service@ == path@,
            r.account@ == local_label(),
    {
        proof {
            reveal_strlit("local");
        }
        let account = "local".to_string();
        assert(account@ =~= local_label());
        KeyringEntry { service: path.to_string(), account }
    }
}

} // verus!
