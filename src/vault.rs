//! The open vault: an ordered list of accounts together with the file it
//! belongs to and the passphrase that seals it. Identity is by position; the
//! list may hold several accounts with one name.

use vstd::prelude::*;
use crate::account::{duplicate_all, same_accounts, views, Account, AccountView};
use crate::envelope::{seal_envelope, VaultError};

verus! {

/// A vault as values: the accounts in order, the passphrase and the path.
pub struct DatabaseView {
    pub accounts: Seq<AccountView>,
    pub password: Seq<char>,
    pub path: Seq<char>,
}

#[derive(Debug, Clone)]
pub struct Database {
    pub accounts: Vec<Account>,
    pub password: String,
    pub path: String,
}

impl View for Database {
    type V = DatabaseView;

    open spec fn view(&self) -> DatabaseView {
        DatabaseView { accounts: views(self.accounts@), password: self.password@, path: self.path@ }
    }
}

/// `s` with the elements at `i` and `j` exchanged.
pub open spec fn swapped<A>(s: Seq<A>, i: int, j: int) -> Seq<A> {
    s.update(i, s[j]).update(j, s[i])
}

/// Where `move_by` sends the element at `index`: `index + offset`, held
/// within `0 ..= len - 1`.
pub open spec fn move_target(index: int, offset: int, len: int) -> int {
    let t = index + offset;
    if t < 0 {
        0
    } else if t > len - 1 {
        len - 1
    } else {
        t
    }
}

impl Database {
    /// An empty vault for `path`, sealed with `password`.
    pub fn new(path: &str, password: &str) -> (r: Database)
        ensures
            r@.accounts.len() == 0,
            r@.path == path@,
            r@.password == password@,
    {
        Database { accounts: Vec::new(), password: password.to_string(), path: path.to_string() }
    }

    /// A vault for `path`, sealed with `password`, holding `accounts` in order.
    pub fn from_accounts(accounts: Vec<Account>, path: &str, password: &str) -> (r: Database)
        ensures
            r@.accounts == views(accounts@),
            r@.path == path@,
            r@.password == password@,
    {
        Database { accounts, password: password.to_string(), path: path.to_string() }
    }

    /// A copy with the same accounts, passphrase and path.
    pub fn duplicate(&self) -> (r: Database)
        ensures
            r@ == self@,
    {
        Database {
            accounts: duplicate_all(&self.accounts),
            password: self.password.clone(),
            path: self.path.clone(),
        }
    }

    /// Whether both hold the same accounts, passphrase and path.
    pub fn same_as(&self, other: &Database) -> (r: bool)
        ensures
            r == (self@ == other@),
    {
        let r = same_accounts(&self.accounts, &other.accounts) && self.password == other.password
            && self.path == other.path;
        if r {
            assert(self@ == other@);
        }
        r
    }

    /// Seals `payload`, the vault's plaintext document, under the vault's
    /// passphrase: the bytes to write to its path. This always succeeds.
    pub fn seal(&self, payload: &[u8]) -> (r: Result<Vec<u8>, VaultError>)
        ensures
            r is Ok,
    {
        seal_envelope(payload, self.password.as_str())
    }

    /// The number of accounts.
    pub fn len(&self) -> (r: usize)
        ensures
            r == self@.accounts.len(),
    {
        self.accounts.len()
    }

    /// Adds `account` at the end of the list.
    pub fn append(&mut self, account: Account)
        ensures
            final(self)@.accounts == old(self)@.accounts.push(account@),
            final(self)@.password == old(self)@.password,
            final(self)@.path == old(self)@.path,
    {
        self.accounts.push(account);
        assert(views(self.accounts@) =~= views(old(self).accounts@).push(account@));
    }

    /// Puts `account` in place of the one at `index`.
    pub fn replace_at(&mut self, index: usize, account: Account)
        requires
            index < old(self)@.accounts.len(),
        ensures
            final(self)@.accounts == old(self)@.accounts.update(index as int, account@),
            final(self)@.password == old(self)@.password,
            final(self)@.path == old(self)@.path,
    {
        self.accounts.set(index, account);
        assert(views(self.accounts@) =~= views(old(self).accounts@).update(index as int, account@));
    }

    /// Takes the account at `index` out of the list.
    pub fn remove_at(&mut self, index: usize)
        requires
            index < old(self)@.accounts.len(),
        ensures
            final(self)@.accounts == old(self)@.accounts.remove(index as int),
            final(self)@.password == old(self)@.password,
            final(self)@.path == old(self)@.path,
    {
        self.accounts.remove(index);
        assert(views(self.accounts@) =~= views(old(self).accounts@).remove(index as int));
    }

    /// Exchanges the accounts at `i` and `j`.
    pub fn swap(&mut self, i: usize, j: usize)
        requires
            i < old(self)@.accounts.len(),
            j < old(self)@.accounts.len(),
        ensures
            final(self)@.accounts == swapped(old(self)@.accounts, i as int, j as int),
            final(self)@.password == old(self)@.password,
            final(self)@.path == old(self)@.path,
    {
        if i == j {
            assert(views(self.accounts@) =~= swapped(views(self.accounts@), i as int, j as int));
            return ;
        }
        let ghost s = self.accounts@;
        let mut held = Account::default();
        self.accounts.set_and_swap(i, &mut held);
        self.accounts.set_and_swap(j, &mut held);
        self.accounts.set_and_swap(i, &mut held);
        assert(self.accounts@ =~= swapped(s, i as int, j as int));
        assert(views(self.accounts@) =~= swapped(views(s), i as int, j as int));
    }

    /// Moves the account at `index` by `offset` places, stopping at either end
    /// of the list: it changes places with the account at the target.
    pub fn move_by(&mut self, index: usize, offset: i32)
        requires
            index < old(self)@.accounts.len(),
        ensures
            final(self)@.accounts == swapped(
                old(self)@.accounts,
                index as int,
                move_target(index as int, offset as int, old(self)@.accounts.len() as int),
            ),
            final(self)@.accounts.len() == old(self)@.accounts.len(),
            0 <= move_target(index as int, offset as int, old(self)@.accounts.len() as int)
                < old(self)@.accounts.len(),
            final(self)@.accounts[move_target(
                index as int,
                offset as int,
                old(self)@.accounts.len() as int,
            )] == old(self)@.accounts[index as int],
            final(self)@.password == old(self)@.password,
            final(self)@.path == old(self)@.path,
    {
        let len = self.accounts.len();
        let target: usize = if offset < 0 {
            let back = (-(offset as i64)) as u64;
            if back >= index as u64 {
                0
            } else {
                index - back as usize
            }
        } else {
            let ahead = offset as u64;
            let room = (len - 1 - index) as u64;
            if ahead >= room {
                len - 1
            } else {
                index + ahead as usize
            }
        };
        assert(target as int == move_target(index as int, offset as int, len as int));
        self.swap(index, target);
    }
}

} // verus!
