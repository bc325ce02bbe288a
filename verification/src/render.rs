//! The compute side of drawing: which menu entries and highlight each
//! screen shows, the edit-screen overlay of the scratch buffer, and the
//! home screen's status lines. Putting widgets on a terminal is the
//! application's business; everything it shows comes from here.

use vstd::prelude::*;
use vstd::string::StringExecFns;
use crate::ark::MenuItem;

verus! {

/// The menu entries shown on each screen.
pub open spec fn menu_titles_view(item: MenuItem) -> Seq<Seq<char>> {
    match item {
        MenuItem::Home => seq!["Home"@, "List Servers"@, "Quit"@],
        MenuItem::Servers => seq!["Home"@, "List Servers"@, "Add"@, "Delete"@, "Quit"@],
        MenuItem::ViewServer => seq![
            "Home"@,
            "List Servers"@,
            "Mods"@,
            "Edit"@,
            "Back"@,
            "Quit"@,
        ],
        MenuItem::ServerMods => seq![
            "Home"@,
            "List Servers"@,
            "Mods"@,
            "Add"@,
            "Delete"@,
            "Back"@,
            "Quit"@,
        ],
        MenuItem::ViewMod => seq![
            "Home"@,
            "List Servers"@,
            "Mods"@,
            "Toggle"@,
            "Edit"@,
            "Back"@,
            "Quit"@,
        ],
        MenuItem::EditMod => seq!["Home"@, "List Servers"@, "Mods"@, "Back"@, "Quit"@],
        MenuItem::EditServer => seq!["Home"@, "List Servers"@, "Mods"@, "Back"@, "Quit"@],
    }
}

/// The menu entries shown while on the given screen.
pub fn menu_titles(item: MenuItem) -> (r: Vec<&'static str>)
    ensures
        r@.len() == menu_titles_view(item).len(),
        forall|t: int| 0 <= t < r@.len() ==> (#[trigger] r@[t])@ == menu_titles_view(item)[t],
{
    let mut v: Vec<&'static str> = Vec::new();
    v.push("Home");
    v.push("List Servers");
    match item {
        MenuItem::Home => {},
        MenuItem::Servers => {
            v.push("Add");
            v.push("Delete");
        },
        MenuItem::ViewServer => {
            v.push("Mods");
            v.push("Edit");
            v.push("Back");
        },
        MenuItem::ServerMods => {
            v.push("Mods");
            v.push("Add");
            v.push("Delete");
            v.push("Back");
        },
        MenuItem::ViewMod => {
            v.push("Mods");
            v.push("Toggle");
            v.push("Edit");
            v.push("Back");
        },
        MenuItem::EditMod => {
            v.push("Mods");
            v.push("Back");
        },
        MenuItem::EditServer => {
            v.push("Mods");
            v.push("Back");
        },
    }
    v.push("Quit");
    v
}

/// The tab highlighted while on the given screen: the detail, edit and
/// mod screens highlight the list they came from.
pub open spec fn menu_highlight_view(item: MenuItem) -> MenuItem {
    match item {
        MenuItem::Home => MenuItem::Home,
        MenuItem::Servers => MenuItem::Servers,
        MenuItem::ViewServer => MenuItem::Servers,
        MenuItem::ServerMods => MenuItem::ServerMods,
        MenuItem::ViewMod => MenuItem::ServerMods,
        MenuItem::EditMod => MenuItem::ServerMods,
        MenuItem::EditServer => MenuItem::Servers,
    }
}

/// The tab highlighted while on the given screen.
pub fn menu_highlight(item: MenuItem) -> (r: MenuItem)
    ensures
        r == menu_highlight_view(item),
{
    match item {
        MenuItem::Home => MenuItem::Home,
        MenuItem::Servers => MenuItem::Servers,
        MenuItem::ViewServer => MenuItem::Servers,
        MenuItem::ServerMods => MenuItem::ServerMods,
        MenuItem::ViewMod => MenuItem::ServerMods,
        MenuItem::EditMod => MenuItem::ServerMods,
        MenuItem::EditServer => MenuItem::Servers,
    }
}

/// The rows an edit screen shows: the record's property rows, with the
/// scratch buffer shown in place of the row under the field cursor while
/// an edit is being captured.
pub fn edit_view_values(props: &Vec<String>, sel: usize, editing: bool, tmp: &String) -> (r: Vec<
    String,
>)
    ensures
        r@.len() == props@.len(),
        forall|t: int| 0 <= t < props@.len() && t != sel ==> r@[t] == props@[t],
        editing && sel < props@.len() ==> r@[sel as int] == *tmp,
        !(editing && sel < props@.len()) && sel < props@.len() ==> r@[sel as int] == props@[
            sel as int],
{
    let mut vals: Vec<String> = Vec::new();
    let mut t: usize = 0;
    while t < props.len()
        invariant
            0 <= t <= props@.len(),
            vals@.len() == t,
            forall|u: int| 0 <= u < t ==> vals@[u] == props@[u],
        decreases props@.len() - t,
    {
        vals.push(props[t].clone());
        t = t + 1;
    }
    if editing && sel < vals.len() {
        vals[sel] = tmp.clone();
    }
    vals
}

/// One line of the home screen: a server's name against the textual
/// outcome of asking after its service.
pub fn home_status_line(name: &String, status: &String) -> (r: String)
    ensures
        r@ == name@ + ":     "@ + status@,
{
    let mut r = name.clone();
    r.append(":     ");
    r.append(status.as_str());
    r
}

} // verus!
