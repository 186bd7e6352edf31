//! The account list's search box: an account is shown when its name, folded
//! to lower case, holds the folded search text.

use vstd::prelude::*;
use vstd::string::*;
use crate::account::{Account, AccountView};

verus! {

/// What `str::to_lowercase` returns for `s`.
pub uninterp spec fn lower_of(s: Seq<char>) -> Seq<char>;

/// Relies on `str::to_lowercase`: the result depends on the characters alone.
#[verifier::external_body]
fn lowercase(s: &str) -> (r: String)
    ensures
        r@ == lower_of(s@),
{
    s.to_lowercase()
}

/// `needle` occurs in `hay` at position `i`.
pub open spec fn occurs_at(hay: Seq<char>, needle: Seq<char>, i: int) -> bool {
    0 <= i && i + needle.len() <= hay.len() && hay.subrange(i, i + needle.len()) == needle
}

/// `needle` occurs somewhere in `hay`.
pub open spec fn contains(hay: Seq<char>, needle: Seq<char>) -> bool {
    exists|i: int| occurs_at(hay, needle, i)
}

/// Whether `account` is shown for the already folded search text `filter`.
pub open spec fn shown(account: AccountView, filter: Seq<char>) -> bool {
    contains(lower_of(account.name), filter)
}

/// The accounts shown for the folded search text, in list order.
pub open spec fn shown_accounts(accounts: Seq<AccountView>, filter: Seq<char>) -> Seq<AccountView>
    decreases accounts.len(),
{
    if accounts.len() == 0 {
        Seq::empty()
    } else {
        let rest = shown_accounts(accounts.drop_last(), filter);
        if shown(accounts.last(), filter) {
            rest.push(accounts.last())
        } else {
            rest
        }
    }
}

/// Whether `needle` occurs in `hay`, both already folded to lower case.
pub fn matches_folded(hay: &str, needle: &str) -> (r: bool)
    ensures
        r == contains(hay@, needle@),
{
    let n = hay.unicode_len();
    let m = needle.unicode_len();
    if m > n {
        assert(!contains(hay@, needle@));
        return false;
    }
    let mut i: usize = 0;
    while i <= n - m
        invariant
            n == hay@.len(),
            m == needle@.len(),
            m <= n,
            forall|p: int| 0 <= p < i ==> !occurs_at(hay@, needle@, p),
        decreases n - m + 1 - i,
    {
        let mut j: usize = 0;
        let mut same = true;
        while j < m && same
            invariant
                n == hay@.len(),
                m == needle@.len(),
                i + m <= n,
                j <= m,
                same ==> forall|q: int| 0 <= q < j ==> hay@[i + q] == needle@[q],
                !same ==> exists|q: int| 0 <= q < m && hay@[i + q] != needle@[q],
            decreases m - j + (if same { 1int } else { 0int }),
        {
            if hay.get_char(i + j) != needle.get_char(j) {
                same = false;
            } else {
                j = j + 1;
            }
        }
        if same {
            assert(hay@.subrange(i as int, i + m) =~= needle@);
            assert(occurs_at(hay@, needle@, i as int));
            return true;
        }
        assert(!occurs_at(hay@, needle@, i as int)) by {
            let q = choose|q: int| 0 <= q < m && hay@[i + q] != needle@[q];
            if hay@.subrange(i as int, i + m) == needle@ {
                assert(hay@.subrange(i as int, i + m)[q] == hay@[i + q]);
            }
        }
        i = i + 1;
    }
    assert forall|p: int| !occurs_at(hay@, needle@, p) by {
        if 0 <= p && p + m <= n {
            assert(p < i);
        }
    }
    false
}

/// The accounts whose names hold `filter`, ignoring case, in list order.
pub fn filter_accounts(accounts: &Vec<Account>, filter: &str) -> (r: Vec<Account>)
    ensures
        r@.map_values(|a: Account| a@) == shown_accounts(
            accounts@.map_values(|a: Account| a@),
            lower_of(filter@),
        ),
{
    let folded = lowercase(filter);
    let mut out: Vec<Account> = Vec::new();
    let mut k: usize = 0;
    while k < accounts.len()
        invariant
            k <= accounts@.len(),
            folded@ == lower_of(filter@),
            out@.map_values(|a: Account| a@) == shown_accounts(
                accounts@.take(k as int).map_values(|a: Account| a@),
                folded@,
            ),
        decreases accounts@.len() - k,
    {
        let ghost prefix = accounts@.take(k as int).map_values(|a: Account| a@);
        let ghost next = accounts@.take(k + 1).map_values(|a: Account| a@);
        assert(next.drop_last() =~= prefix);
        assert(next.last() == accounts@[k as int]@);
        let name = lowercase(accounts[k].name.as_str());
        if matches_folded(name.as_str(), folded.as_str()) {
            let ghost before = out@;
            out.push(accounts[k].duplicate());
            assert(out@.map_values(|a: Account| a@) =~= before.map_values(|a: Account| a@).push(
                accounts@[k as int]@,
            ));
        }
        k = k + 1;
    }
    assert(accounts@.take(accounts@.len() as int) =~= accounts@);
    out
}

} // verus!
