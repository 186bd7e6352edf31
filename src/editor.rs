//! The screens that change the account list: the main list with its search
//! box, the list editor, and the editor of a single account draft.

use vstd::prelude::*;
use crate::account::{Account, AccountView};
use crate::search::{filter_accounts, lower_of, shown_accounts};
use crate::vault::{move_target, swapped, Database};

verus! {

/// Whether a draft adds a new account or edits the one at an index.
#[derive(Debug, Clone, Copy, PartialEq, Eq, Structural)]
pub enum EditMode {
    New,
    Existing(usize),
}

/// The main screen: the open vault and the search text.
#[derive(Debug, Clone)]
pub struct MainState {
    pub filter: String,
    pub database: Database,
}

impl MainState {
    /// The main screen for `database`, with an empty search text.
    pub fn new(database: Database) -> (r: MainState)
        ensures
            r.filter@.len() == 0,
            r.database@ == database@,
    {
        MainState { filter: String::new(), database }
    }

    /// The accounts that the list shows: those whose names hold the search
    /// text, ignoring case, in list order.
    pub fn visible(&self) -> (r: Vec<Account>)
        ensures
            r@.map_values(|a: Account| a@) == shown_accounts(
                self.database@.accounts,
                lower_of(self.filter@),
            ),
    {
        filter_accounts(&self.database.accounts, self.filter.as_str())
    }
}

/// The list editor: a working copy of the vault beside the one the main
/// screen shows.
#[derive(Debug, Clone)]
pub struct EditState {
    pub previous: MainState,
    pub database: Database,
}

impl EditState {
    /// Starts editing the vault of the main screen.
    pub fn begin(main: MainState) -> (r: EditState)
        ensures
            r.database@ == main.database@,
            r.previous.database@ == main.database@,
            r.previous.filter@ == main.filter@,
    {
        let database = main.database.duplicate();
        EditState { previous: main, database }
    }

    /// Whether the working copy differs from the vault it started from.
    pub fn unsaved_changes(&self) -> (r: bool)
        ensures
            r == (self.database@ != self.previous.database@),
    {
        !self.database.same_as(&self.previous.database)
    }

    /// Takes the account at `index` out of the working copy.
    pub fn delete(&mut self, index: usize)
        requires
            index < old(self).database@.accounts.len(),
        ensures
            final(self).database@.accounts == old(self).database@.accounts.remove(index as int),
            final(self).database@.path == old(self).database@.path,
            final(self).database@.password == old(self).database@.password,
            final(self).previous.database@ == old(self).previous.database@,
            final(self).previous.filter@ == old(self).previous.filter@,
    {
        self.database.remove_at(index);
    }

    /// Moves the account at `index` by `offset` places in the working copy.
    pub fn move_account(&mut self, index: usize, offset: i32)
        requires
            index < old(self).database@.accounts.len(),
        ensures
            final(self).database@.accounts == swapped(
                old(self).database@.accounts,
                index as int,
                move_target(index as int, offset as int, old(self).database@.accounts.len() as int),
            ),
            final(self).database@.path == old(self).database@.path,
            final(self).database@.password == old(self).database@.password,
            final(self).previous.database@ == old(self).previous.database@,
            final(self).previous.filter@ == old(self).previous.filter@,
    {
        self.database.move_by(index, offset);
    }

    /// Marks the working copy as saved: the main screen now shows it. The
    /// caller seals and writes the returned copy.
    pub fn mark_saved(&mut self) -> (r: Database)
        ensures
            final(self).database@ == old(self).database@,
            final(self).previous.database@ == old(self).database@,
            final(self).previous.filter@ == old(self).previous.filter@,
            r@ == old(self).database@,
    {
        self.previous.database = self.database.duplicate();
        self.database.duplicate()
    }
}

/// The editor of one account draft, over the list editor it came from.
#[derive(Debug, Clone)]
pub struct AccountState {
    pub previous: EditState,
    pub account: Account,
    pub mode: EditMode,
}

/// The draft may be committed: it is valid and it changes something.
pub open spec fn committable(
    mode: EditMode,
    draft: AccountView,
    accounts: Seq<AccountView>,
) -> bool {
    draft.valid() && match mode {
        EditMode::New => draft.any_filled(),
        EditMode::Existing(i) => draft != accounts[i as int],
    }
}

impl AccountState {
    /// The index of an existing draft lies within the list.
    pub open spec fn wf(&self) -> bool {
        match self.mode {
            EditMode::New => true,
            EditMode::Existing(i) => i < self.previous.database@.accounts.len(),
        }
    }

    /// A draft for a new account, with every field empty.
    pub fn new(previous: EditState) -> (r: AccountState)
        ensures
            r.wf(),
            r.mode == EditMode::New,
            r.account@ == AccountView::empty(),
            r.previous.database@ == previous.database@,
            r.previous.previous.database@ == previous.previous.database@,
            r.previous.previous.filter@ == previous.previous.filter@,
    {
        AccountState { previous, account: Account::default(), mode: EditMode::New }
    }

    /// A draft that starts as the account at `index`.
    pub fn existing(previous: EditState, index: usize) -> (r: AccountState)
        requires
            index < previous.database@.accounts.len(),
        ensures
            r.wf(),
            r.mode == EditMode::Existing(index),
            r.account@ == previous.database@.accounts[index as int],
            r.previous.database@ == previous.database@,
            r.previous.previous.database@ == previous.previous.database@,
            r.previous.previous.filter@ == previous.previous.filter@,
    {
        let account = previous.database.accounts[index].duplicate();
        AccountState { previous, account, mode: EditMode::Existing(index) }
    }

    /// Whether name, username and password of the draft are all filled in.
    pub fn valid(&self) -> (r: bool)
        ensures
            r == self.account@.valid(),
    {
        self.account.is_valid()
    }

    /// Whether leaving the draft would lose something: for a new account any
    /// filled-in field, for an existing one any difference from the list.
    pub fn unsaved_changes(&self) -> (r: bool)
        requires
            self.wf(),
        ensures
            r == match self.mode {
                EditMode::New => self.account@.any_filled(),
                EditMode::Existing(i) => self.account@ != self.previous.database@.accounts[i as int],
            },
    {
        match self.mode {
            EditMode::New => self.account.any_filled(),
            EditMode::Existing(i) => !self.account.same_as(&self.previous.database.accounts[i]),
        }
    }

    /// Whether the draft may be committed.
    pub fn can_commit(&self) -> (r: bool)
        requires
            self.wf(),
        ensures
            r == committable(self.mode, self.account@, self.previous.database@.accounts),
    {
        self.valid() && self.unsaved_changes()
    }

    /// Commits the draft: a new account is added at the end of the list, an
    /// existing one is replaced in place.
    pub fn save(&mut self)
        requires
            old(self).wf(),
        ensures
            final(self).wf(),
            final(self).mode == old(self).mode,
            final(self).account@ == old(self).account@,
            final(self).previous.database@.accounts == match old(self).mode {
                EditMode::New => old(self).previous.database@.accounts.push(old(self).account@),
                EditMode::Existing(i) => old(self).previous.database@.accounts.update(
                    i as int,
                    old(self).account@,
                ),
            },
            final(self).previous.database@.path == old(self).previous.database@.path,
            final(self).previous.database@.password == old(self).previous.database@.password,
            final(self).previous.previous.database@ == old(self).previous.previous.database@,
            final(self).previous.previous.filter@ == old(self).previous.previous.filter@,
    {
        let draft = self.account.duplicate();
        match self.mode {
            EditMode::New => self.previous.database.append(draft),
            EditMode::Existing(index) => self.previous.database.replace_at(index, draft),
        }
    }
}

/// A draft can be committed exactly when name, username and password are
/// filled in and, for a new account, some field holds text, or, for an
/// existing one, the draft differs from the account at its index.
pub proof fn lemma_editor_validity(mode: EditMode, draft: AccountView, accounts: Seq<AccountView>)
    requires
        mode matches EditMode::Existing(i) ==> i < accounts.len(),
    ensures
        committable(mode, draft, accounts) <==> (draft.name.len() > 0 && draft.username.len() > 0
            && draft.password.len() > 0) && (match mode {
            EditMode::New => draft.name.len() > 0 || draft.username.len() > 0
                || draft.password.len() > 0 || draft.notes.len() > 0,
            EditMode::Existing(i) => draft != accounts[i as int],
        }),
{
}

} // verus!
