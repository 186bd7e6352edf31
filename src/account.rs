//! One stored login: a label, the credentials, and free-form notes.

use vstd::prelude::*;

verus! {

/// The four text fields of an account, as sequences of characters.
pub struct AccountView {
    pub name: Seq<char>,
    pub username: Seq<char>,
    pub password: Seq<char>,
    pub notes: Seq<char>,
}

impl AccountView {
    /// The record with all four fields empty.
    pub open spec fn empty() -> AccountView {
        AccountView {
            name: Seq::empty(),
            username: Seq::empty(),
            password: Seq::empty(),
            notes: Seq::empty(),
        }
    }

    /// A record may be saved once name, username and password are all filled in.
    pub open spec fn valid(self) -> bool {
        self.name.len() > 0 && self.username.len() > 0 && self.password.len() > 0
    }

    /// Some field holds text.
    pub open spec fn any_filled(self) -> bool {
        self.name.len() > 0 || self.username.len() > 0 || self.password.len() > 0
            || self.notes.len() > 0
    }
}

#[derive(Debug, Clone)]
pub struct Account {
    pub name: String,
    pub username: String,
    pub password: String,
    pub notes: String,
}

impl View for Account {
    type V = AccountView;

    open spec fn view(&self) -> AccountView {
        AccountView {
            name: self.name@,
            username: self.username@,
            password: self.password@,
            notes: self.notes@,
        }
    }
}

impl Default for Account {
    fn default() -> (r: Account)
        ensures
            r@ == AccountView::empty(),
    {
        Account {
            name: String::new(),
            username: String::new(),
            password: String::new(),
            notes: String::new(),
        }
    }
}

impl PartialEq for Account {
    fn eq(&self, other: &Account) -> (r: bool) {
        self.name == other.name && self.username == other.username && self.password
            == other.password && self.notes == other.notes
    }
}

impl vstd::std_specs::cmp::PartialEqSpecImpl for Account {
    open spec fn obeys_eq_spec() -> bool {
        true
    }

    open spec fn eq_spec(&self, other: &Account) -> bool {
        self@ == other@
    }
}

impl Account {
    /// A record with the given fields.
    pub fn new(name: String, username: String, password: String, notes: String) -> (r: Account)
        ensures
            r@ == (AccountView { name: name@, username: username@, password: password@, notes: notes@ }),
    {
        Account { name, username, password, notes }
    }

    /// Whether name, username and password are all non-empty.
    pub fn is_valid(&self) -> (r: bool)
        ensures
            r == self@.valid(),
    {
        !self.name.as_str().is_empty() && !self.username.as_str().is_empty() && !self.password.as_str().is_empty()
    }

    /// Whether any of the four fields holds text.
    pub fn any_filled(&self) -> (r: bool)
        ensures
            r == self@.any_filled(),
    {
        !self.name.as_str().is_empty() || !self.username.as_str().is_empty() || !self.password.as_str().is_empty()
            || !self.notes.as_str().is_empty()
    }

    /// Whether both records hold the same text in every field.
    pub fn same_as(&self, other: &Account) -> (r: bool)
        ensures
            r == (self@ == other@),
    {
        let r = self.name == other.name && self.username == other.username && self.password
            == other.password && self.notes == other.notes;
        if r {
            assert(self@ == other@);
        }
        r
    }

    /// A copy with the same text in every field.
    pub fn duplicate(&self) -> (r: Account)
        ensures
            r@ == self@,
    {
        Account {
            name: self.name.clone(),
            username: self.username.clone(),
            password: self.password.clone(),
            notes: self.notes.clone(),
        }
    }
}

/// The views of a list of accounts.
pub open spec fn views(accounts: Seq<Account>) -> Seq<AccountView> {
    accounts.map_values(|a: Account| a@)
}

/// A copy of a list of accounts, in the same order.
pub fn duplicate_all(accounts: &Vec<Account>) -> (r: Vec<Account>)
    ensures
        views(r@) == views(accounts@),
{
    let mut out: Vec<Account> = Vec::new();
    let mut k: usize = 0;
    while k < accounts.len()
        invariant
            k <= accounts@.len(),
            views(out@) == views(accounts@.take(k as int)),
        decreases accounts@.len() - k,
    {
        let a = accounts[k].duplicate();
        let ghost before = out@;
        out.push(a);
        assert(views(out@) =~= views(before).push(accounts@[k as int]@));
        assert(accounts@.take(k + 1) =~= accounts@.take(k as int).push(accounts@[k as int]));
        assert(views(accounts@.take(k + 1)) =~= views(accounts@.take(k as int)).push(
            accounts@[k as int]@,
        ));
        k = k + 1;
    }
    assert(accounts@.take(accounts@.len() as int) =~= accounts@);
    out
}

/// Whether both lists hold the same records in the same order.
pub fn same_accounts(a: &Vec<Account>, b: &Vec<Account>) -> (r: bool)
    ensures
        r == (views(a@) == views(b@)),
{
    if a.len() != b.len() {
        assert(views(a@).len() != views(b@).len());
        return false;
    }
    let mut k: usize = 0;
    while k < a.len()
        invariant
            a@.len() == b@.len(),
            k <= a@.len(),
            forall|j: int| 0 <= j < k ==> a@[j]@ == b@[j]@,
        decreases a@.len() - k,
    {
        if !a[k].same_as(&b[k]) {
            assert(views(a@)[k as int] != views(b@)[k as int]);
            return false;
        }
        k = k + 1;
    }
    assert(views(a@) =~= views(b@));
    true
}

} // verus!
