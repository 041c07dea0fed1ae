//! The tray: whether it is wanted, and how accounts are shown in its menu.
use vstd::prelude::*;
use crate::settings::AppSettings;

verus! {

/// Decides on the tray from the settings.
pub struct SystemTrayManager {}

impl SystemTrayManager {
    pub fn new() -> (r: SystemTrayManager) {
        SystemTrayManager {  }
    }

    /// Whether the settings ask for the tray.
    pub fn is_enabled_setting(&self, settings: &AppSettings) -> (r: bool)
        ensures
            r == settings.system_tray_enabled,
    {
        settings.system_tray_enabled
    }
}

/// The text holds exactly one `'@'`, at `at`.
pub open spec fn single_at(e: Seq<char>, at: int) -> bool {
    &&& 0 <= at < e.len()
    &&& e[at] == '@'
    &&& forall|j: int| 0 <= j < e.len() && j != at ==> e[j] != '@'
}

/// An email address as shown in the tray menu: the local part cut down to its
/// first character and a star (up to two characters) or to its first and last
/// characters around three stars; any text that is not one local part and one
/// domain around one `'@'`, or has an empty local part, as it is.
pub open spec fn masked_email(e: Seq<char>) -> Seq<char> {
    if exists|at: int| single_at(e, at) {
        let at = choose|at: int| single_at(e, at);
        let local = e.subrange(0, at);
        let domain = e.subrange(at + 1, e.len() as int);
        if local.len() == 0 {
            e
        } else if local.len() <= 2 {
            seq![local[0]] + "*@"@ + domain
        } else {
            seq![local[0]] + "***"@ + seq![local.last()] + "@"@ + domain
        }
    } else {
        e
    }
}

pub fn mask_email(email: &str) -> (r: String)
    ensures
        r@ == masked_email(email@),
{
    let n = email.unicode_len();
    let mut count: usize = 0;
    let mut at: usize = 0;
    let mut i: usize = 0;
    while i < n
        invariant
            n == email@.len(),
            i <= n,
            count <= 2,
            count == 0 ==> forall|j: int| 0 <= j < i ==> email@[j] != '@',
            count == 1 ==> at < i && email@[at as int] == '@' && forall|j: int|
                0 <= j < i && j != at ==> email@[j] != '@',
            count == 2 ==> exists|a: int, b: int|
                0 <= a < b < i && email@[a] == '@' && email@[b] == '@',
        decreases n - i,
    {
        if email.get_char(i) == '@' {
            if count == 0 {
                at = i;
                count = 1;
            } else if count == 1 {
                assert(0 <= at < i && email@[at as int] == '@' && email@[i as int] == '@');
                count = 2;
            }
        }
        i = i + 1;
    }
    if count != 1 {
        proof {
            if count == 2 {
                assert forall|k: int| !single_at(email@, k) by {
                    let (a, b) = choose|a: int, b: int|
                        0 <= a < b < n && email@[a] == '@' && email@[b] == '@';
                    if single_at(email@, k) {
                        assert(a == k && b == k);
                    }
                }
            }
        }
        return String::from_str(email);
    }
    assert(single_at(email@, at as int));
    proof {
        let c = choose|k: int| single_at(email@, k);
        assert(c == at);
    }
    if at == 0 {
        return String::from_str(email);
    }
    let first = email.substring_char(0, 1);
    let domain = email.substring_char(at + 1, n);
    let mut r = String::from_str(first);
    if at <= 2 {
        r.append("*@");
        r.append(domain);
        proof {
            assert(first@ =~= seq![email@[0]]);
        }
    } else {
        let last = email.substring_char(at - 1, at);
        r.append("***");
        r.append(last);
        r.append("@");
        r.append(domain);
        proof {
            assert(first@ =~= seq![email@[0]]);
            assert(last@ =~= seq![email@.subrange(0, at as int).last()]);
        }
    }
    r
}

/// What a click on an item of the tray menu asks for.
pub enum TrayCommand {
    ShowMain,
    Quit,
    /// Switch to the account with this email address.
    SwitchAccount(String),
    Unknown,
}

pub open spec fn account_id_prefix() -> Seq<char> {
    "account_"@
}

/// Reads the id of a clicked tray menu item.
pub fn tray_menu_command(id: &str) -> (r: TrayCommand)
    ensures
        id@ == "show_main"@ ==> r is ShowMain,
        id@ == "quit"@ ==> r is Quit,
        id@ != "show_main"@ && id@ != "quit"@ && id@.len() >= 8 && id@.subrange(0, 8)
            == account_id_prefix() ==> r is SwitchAccount && r->SwitchAccount_0@ == id@.subrange(
            8,
            id@.len() as int,
        ),
        id@ != "show_main"@ && id@ != "quit"@ && !(id@.len() >= 8 && id@.subrange(0, 8)
            == account_id_prefix()) ==> r is Unknown,
{
    proof {
        reveal_strlit("account_");
        reveal_strlit("show_main");
        reveal_strlit("quit");
    }
    if crate::text::text_equals(id, "show_main") {
        return TrayCommand::ShowMain;
    }
    if crate::text::text_equals(id, "quit") {
        return TrayCommand::Quit;
    }
    let n = id.unicode_len();
    if n >= 8 && crate::text::text_equals(id.substring_char(0, 8), "account_") {
        return TrayCommand::SwitchAccount(String::from_str(id.substring_char(8, n)));
    }
    TrayCommand::Unknown
}

/// One account item of the tray menu.
pub struct TrayMenuItem {
    pub id: String,
    pub label: String,
}

/// The account items of the tray menu: each account's id, and its email
/// address masked.
pub fn tray_account_items(accounts: &Vec<String>) -> (r: Vec<TrayMenuItem>)
    ensures
        r@.len() == accounts@.len(),
        forall|i: int|
            0 <= i < r@.len() ==> #[trigger] r@[i].id@ == account_id_prefix() + accounts@[i]@
                && r@[i].label@ == masked_email(accounts@[i]@),
{
    let mut r: Vec<TrayMenuItem> = Vec::new();
    let mut i: usize = 0;
    while i < accounts.len()
        invariant
            i <= accounts@.len(),
            r@.len() == i,
            forall|j: int|
                0 <= j < i ==> #[trigger] r@[j].id@ == account_id_prefix() + accounts@[j]@
                    && r@[j].label@ == masked_email(accounts@[j]@),
        decreases accounts@.len() - i,
    {
        let id = String::from_str("account_").concat(accounts[i].as_str());
        let label = mask_email(accounts[i].as_str());
        r.push(TrayMenuItem { id, label });
        i = i + 1;
    }
    r
}

} // verus!
