//! The settings screen: edits the preferences of the open session and exports
//! the open vault as readable text.

use vstd::prelude::*;
use vstd::string::*;
use crate::account::{Account, AccountView};
use crate::editor::MainState;
use crate::settings::Settings;

verus! {

/// One account as exported text: four labelled fields, the notes on the
/// lines after their label, and a blank line.
pub open spec fn account_text(a: AccountView) -> Seq<char> {
    "Name: "@ + a.name + "\n"@ + "Username: "@ + a.username + "\n"@ + "Password: "@ + a.password
        + "\n"@ + "Notes:\n"@ + a.notes + "\n"@ + "\n"@
}

/// The accounts as exported text, in list order.
pub open spec fn export_text(accounts: Seq<AccountView>) -> Seq<char>
    decreases accounts.len(),
{
    if accounts.len() == 0 {
        Seq::empty()
    } else {
        export_text(accounts.drop_last()) + account_text(accounts.last())
    }
}

/// The settings screen over the main screen it was opened from.
#[derive(Debug, Clone)]
pub struct SettingsState {
    pub previous: MainState,
    pub settings: Settings,
}

fn push_account_text(out: &mut String, a: &Account)
    ensures
        final(out)@ == old(out)@ + account_text(a@),
{
    proof {
        reveal_strlit("Name: ");
        reveal_strlit("Username: ");
        reveal_strlit("Password: ");
        reveal_strlit("Notes:\n");
        reveal_strlit("\n");
    }
    out.append("Name: ");
    out.append(a.name.as_str());
    out.append("\n");
    out.append("Username: ");
    out.append(a.username.as_str());
    out.append("\n");
    out.append("Password: ");
    out.append(a.password.as_str());
    out.append("\n");
    out.append("Notes:\n");
    out.append(a.notes.as_str());
    out.append("\n");
    out.append("\n");
    assert(out@ =~= old(out)@ + account_text(a@));
}

/// The accounts as readable text.
pub fn export_txt(accounts: &Vec<Account>) -> (r: String)
    ensures
        r@ == export_text(accounts@.map_values(|a: Account| a@)),
{
    let mut out = String::new();
    let mut k: usize = 0;
    while k < accounts.len()
        invariant
            k <= accounts@.len(),
            out@ == export_text(accounts@.take(k as int).map_values(|a: Account| a@)),
        decreases accounts@.len() - k,
    {
        let ghost next = accounts@.take(k + 1).map_values(|a: Account| a@);
        assert(next.drop_last() =~= accounts@.take(k as int).map_values(|a: Account| a@));
        assert(next.last() == accounts@[k as int]@);
        push_account_text(&mut out, &accounts[k]);
        k = k + 1;
    }
    assert(accounts@.take(accounts@.len() as int) =~= accounts@);
    out
}

/// The forms an export can take.
#[derive(Debug, Clone, Copy, PartialEq, Eq, Structural)]
pub enum ExportFormat {
    /// Readable text, as `export_txt` writes it.
    Text,
    /// The vault's plaintext document.
    Yaml,
}

/// The export form that a file extension asks for, if any.
pub open spec fn format_of(ext: Seq<char>) -> Option<ExportFormat> {
    if ext == "txt"@ {
        Some(ExportFormat::Text)
    } else if ext == "yml"@ || ext == "yaml"@ {
        Some(ExportFormat::Yaml)
    } else {
        None
    }
}

/// The export form for the extension of the chosen file.
pub fn export_format(ext: &str) -> (r: Option<ExportFormat>)
    ensures
        r == format_of(ext@),
{
    let owned = ext.to_string();
    let txt = "txt".to_string();
    let yml = "yml".to_string();
    let yaml = "yaml".to_string();
    if owned == txt {
        Some(ExportFormat::Text)
    } else if owned == yml || owned == yaml {
        Some(ExportFormat::Yaml)
    } else {
        None
    }
}

impl SettingsState {
    /// The open vault's accounts as readable text.
    pub fn export_txt(&self) -> (r: String)
        ensures
            r@ == export_text(self.previous.database@.accounts),
    {
        export_txt(&self.previous.database.accounts)
    }
}

} // verus!
