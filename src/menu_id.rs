//! The identifiers of the tray menu items and their string keys.
use vstd::prelude::*;

verus! {

/// An item of the tray menu. Its key is the string that the tray stores for
/// the item and reports back when the item is clicked.
#[derive(Clone, Copy, Debug, PartialEq, Eq, Structural)]
pub enum MenuItemId {
    DisplayDashboard,
    Restart,
    Quit,
    AppVersion,
}

impl MenuItemId {
    /// The key of this item: the name of its variant.
    pub open spec fn key(self) -> Seq<char> {
        match self {
            MenuItemId::DisplayDashboard => "DisplayDashboard"@,
            MenuItemId::Restart => "Restart"@,
            MenuItemId::Quit => "Quit"@,
            MenuItemId::AppVersion => "AppVersion"@,
        }
    }

    /// The key of this item.
    pub fn as_str(&self) -> (r: &'static str)
        ensures
            r@ == self.key(),
    {
        match self {
            MenuItemId::DisplayDashboard => "DisplayDashboard",
            MenuItemId::Restart => "Restart",
            MenuItemId::Quit => "Quit",
            MenuItemId::AppVersion => "AppVersion",
        }
    }
}

/// What a key names: the item whose key it is, or `None` for any other
/// string.
pub open spec fn item_of_key(s: Seq<char>) -> Option<MenuItemId> {
    if s == MenuItemId::DisplayDashboard.key() {
        Some(MenuItemId::DisplayDashboard)
    } else if s == MenuItemId::Restart.key() {
        Some(MenuItemId::Restart)
    } else if s == MenuItemId::Quit.key() {
        Some(MenuItemId::Quit)
    } else if s == MenuItemId::AppVersion.key() {
        Some(MenuItemId::AppVersion)
    } else {
        None
    }
}

/// Whether two strings hold the same characters.
fn same_text(a: &str, b: &str) -> (r: bool)
    ensures
        r == (a@ == b@),
{
    let n = a.unicode_len();
    if n != b.unicode_len() {
        return false;
    }
    let mut i: usize = 0;
    while i < n
        invariant
            n == a@.len(),
            n == b@.len(),
            i <= n,
            forall|j: int| 0 <= j < i ==> a@[j] == b@[j],
        decreases n - i,
    {
        if a.get_char(i) != b.get_char(i) {
            return false;
        }
        i = i + 1;
    }
    assert(a@ =~= b@);
    true
}

impl MenuItemId {
    /// The item whose key is `s`; `None` where `s` is no item's key.
    pub fn parse(s: &str) -> (r: Option<MenuItemId>)
        ensures
            r == item_of_key(s@),
    {
        if same_text(s, "DisplayDashboard") {
            Some(MenuItemId::DisplayDashboard)
        } else if same_text(s, "Restart") {
            Some(MenuItemId::Restart)
        } else if same_text(s, "Quit") {
            Some(MenuItemId::Quit)
        } else if same_text(s, "AppVersion") {
            Some(MenuItemId::AppVersion)
        } else {
            None
        }
    }

    /// The key of this item, as an owned string.
    pub fn to_string(&self) -> (r: String)
        ensures
            r@ == self.key(),
    {
        String::from_str(self.as_str())
    }
}

/// The four keys are pairwise distinct.
pub proof fn lemma_keys_distinct(a: MenuItemId, b: MenuItemId)
    ensures
        a.key() == b.key() ==> a == b,
{
    reveal_strlit("DisplayDashboard");
    reveal_strlit("Restart");
    reveal_strlit("Quit");
    reveal_strlit("AppVersion");
    if a != b {
        assert(a.key()[0] != b.key()[0] || a.key().len() != b.key().len());
    }
}

/// Parsing the key of an item gives back that item.
pub proof fn lemma_parse_key_round_trip(id: MenuItemId)
    ensures
        item_of_key(id.key()) == Some(id),
{
    lemma_keys_distinct(id, MenuItemId::DisplayDashboard);
    lemma_keys_distinct(id, MenuItemId::Restart);
    lemma_keys_distinct(id, MenuItemId::Quit);
}

/// A string is parsed to an item exactly when it is that item's key.
pub proof fn lemma_parse_only_keys(s: Seq<char>, id: MenuItemId)
    ensures
        item_of_key(s) == Some(id) <==> s == id.key(),
{
    lemma_parse_key_round_trip(id);
}

} // verus!
