//! Command dispatch: one input symbol against the current screen.
//!
//! Each screen has a handler; `process_input` routes an event to the edit
//! buffer protocol while an edit is being captured, and to the current
//! screen's handler otherwise. Every handler's contract is a transition
//! relation over the navigation state, the collection and the effect the
//! caller must perform afterwards.

use vstd::prelude::*;
use vstd::string::StringExecFns;
use crate::ark::{
    ArkServer, Error, Event, InputEvent, KeyCode, ListState, MenuItem, RenderState, cursor_ok,
    cursor_after_remove, is_default_mod, is_default_server, reset_cursor, revalidated_cursors,
};
use crate::db::{
    add_ark_server_mod_to_db, add_ark_server_to_db, mod_commit_ok, mod_committed_rel,
    remove_ark_server_at_index, remove_ark_server_mod_at_index, selected_mod_of,
    selected_server_of, server_commit_ok, server_committed, server_field_ok, server_with_field,
    set_server_mod_property, set_server_property, with_mod_appended, with_mod_removed,
};
use crate::service::Effect;

verus! {

/// The reduced input alphabet an edit buffer accepts: lowercase letters,
/// digits and the space.
pub open spec fn is_accepted_char(c: char) -> bool {
    (97 <= c as u32 && c as u32 <= 122) || (48 <= c as u32 && c as u32 <= 57) || c as u32 == 32
}

/// What one key contributes to an edit buffer: its character when it is in
/// the accepted alphabet, nothing otherwise.
pub open spec fn input_char(code: KeyCode) -> Seq<char> {
    match code {
        KeyCode::Char(c) => {
            if is_accepted_char(c) {
                seq![c]
            } else {
                Seq::<char>::empty()
            }
        },
        _ => Seq::<char>::empty(),
    }
}

/// The text one key appends to an edit buffer.
#[verifier::rlimit(50)]
pub fn get_input_char(code: KeyCode) -> (r: &'static str)
    ensures
        r@ == input_char(code),
{
    proof {
        reveal_strlit("a");
        reveal_strlit("b");
        reveal_strlit("c");
        reveal_strlit("d");
        reveal_strlit("e");
        reveal_strlit("f");
        reveal_strlit("g");
        reveal_strlit("h");
        reveal_strlit("i");
        reveal_strlit("j");
        reveal_strlit("k");
        reveal_strlit("l");
        reveal_strlit("m");
        reveal_strlit("n");
        reveal_strlit("o");
        reveal_strlit("p");
        reveal_strlit("q");
        reveal_strlit("r");
        reveal_strlit("s");
        reveal_strlit("t");
        reveal_strlit("u");
        reveal_strlit("v");
        reveal_strlit("w");
        reveal_strlit("x");
        reveal_strlit("y");
        reveal_strlit("z");
        reveal_strlit("0");
        reveal_strlit("1");
        reveal_strlit("2");
        reveal_strlit("3");
        reveal_strlit("4");
        reveal_strlit("5");
        reveal_strlit("6");
        reveal_strlit("7");
        reveal_strlit("8");
        reveal_strlit("9");
        reveal_strlit(" ");
        reveal_strlit("");
    }
    let r = match code {
        KeyCode::Char('a') => "a",
        KeyCode::Char('b') => "b",
        KeyCode::Char('c') => "c",
        KeyCode::Char('d') => "d",
        KeyCode::Char('e') => "e",
        KeyCode::Char('f') => "f",
        KeyCode::Char('g') => "g",
        KeyCode::Char('h') => "h",
        KeyCode::Char('i') => "i",
        KeyCode::Char('j') => "j",
        KeyCode::Char('k') => "k",
        KeyCode::Char('l') => "l",
        KeyCode::Char('m') => "m",
        KeyCode::Char('n') => "n",
        KeyCode::Char('o') => "o",
        KeyCode::Char('p') => "p",
        KeyCode::Char('q') => "q",
        KeyCode::Char('r') => "r",
        KeyCode::Char('s') => "s",
        KeyCode::Char('t') => "t",
        KeyCode::Char('u') => "u",
        KeyCode::Char('v') => "v",
        KeyCode::Char('w') => "w",
        KeyCode::Char('x') => "x",
        KeyCode::Char('y') => "y",
        KeyCode::Char('z') => "z",
        KeyCode::Char('0') => "0",
        KeyCode::Char('1') => "1",
        KeyCode::Char('2') => "2",
        KeyCode::Char('3') => "3",
        KeyCode::Char('4') => "4",
        KeyCode::Char('5') => "5",
        KeyCode::Char('6') => "6",
        KeyCode::Char('7') => "7",
        KeyCode::Char('8') => "8",
        KeyCode::Char('9') => "9",
        KeyCode::Char(' ') => " ",
        _ => "",
    };
    proof {
        assert(r@ =~= input_char(code));
    }
    r
}

/// The row after the given one, wrapping past the end.
pub open spec fn next_index(i: nat, size: nat) -> nat {
    if i + 1 < size {
        i + 1
    } else {
        0
    }
}

/// The row before the given one, wrapping past the start.
pub open spec fn prev_index(i: nat, size: nat) -> nat {
    if i > 0 {
        (i - 1) as nat
    } else {
        (size - 1) as nat
    }
}

/// Where a selection rests after one navigation key against a collection
/// of the given size: down and up move circularly, a selection on nothing
/// stays on nothing, and a selection over an emptied collection empties.
pub open spec fn cursor_moved(code: KeyCode, cur: Option<usize>, size: nat) -> Option<usize> {
    match code {
        KeyCode::Down => match cur {
            Some(i) => {
                if size == 0 {
                    None
                } else {
                    Some(next_index(i as nat, size) as usize)
                }
            },
            None => None,
        },
        KeyCode::Up => match cur {
            Some(i) => {
                if size == 0 {
                    None
                } else {
                    Some(prev_index(i as nat, size) as usize)
                }
            },
            None => None,
        },
        _ => cur,
    }
}

/// Circular navigation is an inverse pair: on a non-empty collection,
/// moving the cursor down and then up, or up and then down, returns it to
/// where it started.
pub proof fn lemma_cursor_move_roundtrip(cur: Option<usize>, size: nat)
    requires
        0 < size <= usize::MAX,
        cursor_ok(cur, size),
    ensures
        cursor_moved(KeyCode::Up, cursor_moved(KeyCode::Down, cur, size), size) == cur,
        cursor_moved(KeyCode::Down, cursor_moved(KeyCode::Up, cur, size), size) == cur,
{
}

/// Move a list selection by one navigation key; other keys leave it alone.
pub fn try_change_list_state(code: KeyCode, list_state: &mut ListState, list_size: usize)
    ensures
        final(list_state).selected == cursor_moved(
            code,
            old(list_state).selected,
            list_size as nat,
        ),
{
    match code {
        KeyCode::Down => {
            if let Some(selected) = list_state.selected() {
                if list_size < 1 {
                    list_state.select(None);
                } else if selected >= list_size - 1 {
                    list_state.select(Some(0));
                } else {
                    list_state.select(Some(selected + 1));
                }
            }
        },
        KeyCode::Up => {
            if let Some(selected) = list_state.selected() {
                if list_size < 1 {
                    list_state.select(None);
                } else if selected > 0 {
                    list_state.select(Some(selected - 1));
                } else {
                    list_state.select(Some(list_size - 1));
                }
            }
        },
        _ => {},
    }
}

/// Move a table selection by one navigation key; other keys leave it
/// alone.
pub fn try_change_table_state(code: KeyCode, table_state: &mut ListState, table_size: usize)
    ensures
        final(table_state).selected == cursor_moved(
            code,
            old(table_state).selected,
            table_size as nat,
        ),
{
    match code {
        KeyCode::Down => {
            if let Some(selected) = table_state.selected() {
                if table_size < 1 {
                    table_state.select(None);
                } else if selected >= table_size - 1 {
                    table_state.select(Some(0));
                } else {
                    table_state.select(Some(selected + 1));
                }
            }
        },
        KeyCode::Up => {
            if let Some(selected) = table_state.selected() {
                if table_size < 1 {
                    table_state.select(None);
                } else if selected > 0 {
                    table_state.select(Some(selected - 1));
                } else {
                    table_state.select(Some(table_size - 1));
                }
            }
        },
        _ => {},
    }
}

/// How many rows of a detail table the edit cursor may rest on: all but
/// the trailing creation-timestamp row.
pub open spec fn edit_table_size(num: usize) -> nat {
    if num > 0 {
        (num - 1) as nat
    } else {
        0
    }
}

/// Nothing happened: state, collection and effect all unchanged.
pub open spec fn unchanged_step(
    pre: RenderState,
    pre_sv: Seq<ArkServer>,
    post: RenderState,
    post_sv: Seq<ArkServer>,
    eff: Effect,
) -> bool {
    post == pre && post_sv == pre_sv && eff == Effect::Nothing
}

/// The transition of the server detail screen.
pub open spec fn view_server_rel(
    pre: RenderState,
    pre_sv: Seq<ArkServer>,
    code: KeyCode,
    post: RenderState,
) -> bool {
    if code == KeyCode::Char('m') {
        post == (RenderState {
            active_menu_item: MenuItem::ServerMods,
            ark_server_mod_list_state: (ListState {
                selected: reset_cursor(pre.selected_mods(pre_sv).len()),
            }),
            ..pre
        })
    } else if code == KeyCode::Char('b') {
        post == (RenderState { active_menu_item: MenuItem::Servers, ..pre })
    } else if code == KeyCode::Char('e') {
        post == (RenderState { active_menu_item: MenuItem::EditServer, ..pre })
    } else {
        post == pre
    }
}

/// The transition of the server list screen.
pub open spec fn servers_rel(
    pre: RenderState,
    pre_sv: Seq<ArkServer>,
    code: KeyCode,
    post: RenderState,
    post_sv: Seq<ArkServer>,
    eff: Effect,
) -> bool {
    if code == KeyCode::Char('a') {
        &&& post_sv.len() == pre_sv.len() + 1
        &&& forall|t: int| 0 <= t < pre_sv.len() ==> post_sv[t] == pre_sv[t]
        &&& is_default_server(post_sv.last(), "New Server"@)
        &&& post == revalidated_cursors(pre, post_sv)
        &&& eff == Effect::Persist
    } else if code == KeyCode::Char('d') {
        match pre.ark_server_list_state.selected {
            Some(i) => {
                if i < pre_sv.len() {
                    &&& post_sv == pre_sv.remove(i as int)
                    &&& post == (RenderState {
                        ark_server_list_state: (ListState {
                            selected: cursor_after_remove(i as nat, pre_sv.len()),
                        }),
                        ark_server_mod_list_state: (ListState {
                            selected: reset_cursor(post.selected_mods(post_sv).len()),
                        }),
                        ..pre
                    })
                    &&& eff == Effect::Persist
                } else {
                    unchanged_step(pre, pre_sv, post, post_sv, eff)
                }
            },
            None => unchanged_step(pre, pre_sv, post, post_sv, eff),
        }
    } else if code == KeyCode::Char('s') {
        post == pre && post_sv == pre_sv && eff == Effect::Start
    } else if code == KeyCode::Char('r') {
        post == pre && post_sv == pre_sv && eff == Effect::Restart
    } else if code == KeyCode::Enter {
        &&& post_sv == pre_sv
        &&& eff == Effect::Nothing
        &&& match selected_server_of(pre, pre_sv) {
            Some(s) => post == (RenderState { active_menu_item: MenuItem::ViewServer, ..pre }),
            None => post == pre,
        }
    } else if code == KeyCode::Down || code == KeyCode::Up {
        &&& post_sv == pre_sv
        &&& eff == Effect::Nothing
        &&& post == revalidated_cursors(
            (RenderState {
                ark_server_list_state: (ListState {
                    selected: cursor_moved(code, pre.ark_server_list_state.selected, pre_sv.len()),
                }),
                ..pre
            }),
            pre_sv,
        )
    } else {
        unchanged_step(pre, pre_sv, post, post_sv, eff)
    }
}

/// Switching the server cursor revalidates the mod cursor: after a
/// navigation key on the server list, however stale the mod cursor was,
/// both cursors are in range for what they now select — the mod cursor
/// rests inside the newly selected server's mod list, or on nothing when
/// that server has none.
pub proof fn lemma_server_switch_revalidates_mod_cursor(
    pre: RenderState,
    pre_sv: Seq<ArkServer>,
    post: RenderState,
    post_sv: Seq<ArkServer>,
    eff: Effect,
    code: KeyCode,
)
    requires
        code == KeyCode::Down || code == KeyCode::Up,
        servers_rel(pre, pre_sv, code, post, post_sv, eff),
    ensures
        cursor_ok(post.ark_server_list_state.selected, post_sv.len()),
        cursor_ok(post.ark_server_mod_list_state.selected, post.selected_mods(post_sv).len()),
{
}

/// Deleting the only record empties the collection and leaves the cursor
/// on nothing.
pub proof fn lemma_delete_last_record(
    pre: RenderState,
    pre_sv: Seq<ArkServer>,
    post: RenderState,
    post_sv: Seq<ArkServer>,
    eff: Effect,
)
    requires
        pre.ark_server_list_state.selected == Some(0usize),
        pre_sv.len() == 1,
        servers_rel(pre, pre_sv, KeyCode::Char('d'), post, post_sv, eff),
    ensures
        post_sv.len() == 0,
        post.ark_server_list_state.selected is None,
        eff == Effect::Persist,
{
    pre_sv.remove_ensures(0);
}

/// Deleting at a positive cursor moves it one record left and closes the
/// gap: every record before the deleted one keeps its place, every record
/// after it slides down by one.
pub proof fn lemma_delete_shifts_left(
    pre: RenderState,
    pre_sv: Seq<ArkServer>,
    post: RenderState,
    post_sv: Seq<ArkServer>,
    eff: Effect,
    i: usize,
)
    requires
        pre.ark_server_list_state.selected == Some(i),
        0 < i < pre_sv.len(),
        servers_rel(pre, pre_sv, KeyCode::Char('d'), post, post_sv, eff),
    ensures
        post.ark_server_list_state.selected == Some((i - 1) as usize),
        post_sv.len() == pre_sv.len() - 1,
        forall|t: int| 0 <= t < i ==> post_sv[t] == pre_sv[t],
        forall|t: int| i <= t < post_sv.len() ==> post_sv[t] == pre_sv[t + 1],
        eff == Effect::Persist,
{
    pre_sv.remove_ensures(i as int);
}

/// The transition of the mod list screen.
pub open spec fn server_mods_rel(
    pre: RenderState,
    pre_sv: Seq<ArkServer>,
    code: KeyCode,
    post: RenderState,
    post_sv: Seq<ArkServer>,
    eff: Effect,
) -> bool {
    if code == KeyCode::Char('a') {
        match pre.ark_server_list_state.selected {
            Some(i) => {
                if i < pre_sv.len() {
                    &&& exists|m|
                        with_mod_appended(pre_sv, post_sv, i as int, m) && is_default_mod(
                            m,
                            "New Mod"@,
                        )
                    &&& post == revalidated_cursors(pre, post_sv)
                    &&& eff == Effect::Persist
                } else {
                    unchanged_step(pre, pre_sv, post, post_sv, eff)
                }
            },
            None => unchanged_step(pre, pre_sv, post, post_sv, eff),
        }
    } else if code == KeyCode::Char('d') {
        match (pre.ark_server_list_state.selected, pre.ark_server_mod_list_state.selected) {
            (Some(i), Some(j)) => {
                if i < pre_sv.len() && j < pre_sv[i as int].mods@.len() {
                    &&& with_mod_removed(pre_sv, post_sv, i as int, j as int)
                    &&& post == (RenderState {
                        ark_server_mod_list_state: (ListState {
                            selected: cursor_after_remove(j as nat, pre_sv[i as int].mods@.len()),
                        }),
                        ..pre
                    })
                    &&& eff == Effect::Persist
                } else {
                    unchanged_step(pre, pre_sv, post, post_sv, eff)
                }
            },
            _ => unchanged_step(pre, pre_sv, post, post_sv, eff),
        }
    } else if code == KeyCode::Char('b') {
        &&& post_sv == pre_sv
        &&& eff == Effect::Nothing
        &&& post == (RenderState { active_menu_item: MenuItem::ViewServer, ..pre })
    } else if code == KeyCode::Enter {
        &&& post_sv == pre_sv
        &&& eff == Effect::Nothing
        &&& match selected_mod_of(pre, pre_sv) {
            Some(m) => post == (RenderState { active_menu_item: MenuItem::ViewMod, ..pre }),
            None => post == pre,
        }
    } else if code == KeyCode::Down || code == KeyCode::Up {
        &&& post_sv == pre_sv
        &&& eff == Effect::Nothing
        &&& post == (RenderState {
            ark_server_mod_list_state: (ListState {
                selected: cursor_moved(
                    code,
                    pre.ark_server_mod_list_state.selected,
                    pre.selected_mods(pre_sv).len(),
                ),
            }),
            ..pre
        })
    } else {
        unchanged_step(pre, pre_sv, post, post_sv, eff)
    }
}

/// The transition of the mod detail screen. The toggle key is declared in
/// the menu but deliberately not wired to the enabled flag.
pub open spec fn view_mod_rel(pre: RenderState, code: KeyCode, post: RenderState) -> bool {
    if code == KeyCode::Char('b') {
        post == (RenderState { active_menu_item: MenuItem::ServerMods, ..pre })
    } else if code == KeyCode::Char('e') {
        post == (RenderState { active_menu_item: MenuItem::EditMod, ..pre })
    } else {
        post == pre
    }
}

/// The transition of the mod edit screen: pick a field row, or confirm to
/// start capturing input with a cleared scratch buffer.
pub open spec fn edit_mod_rel(pre: RenderState, code: KeyCode, post: RenderState) -> bool {
    if code == KeyCode::Char('b') {
        post == (RenderState { active_menu_item: MenuItem::ViewMod, ..pre })
    } else if code == KeyCode::Enter {
        &&& post.editing_mod
        &&& post.tmp_mod_field@ == Seq::<char>::empty()
        &&& post == (RenderState { editing_mod: true, tmp_mod_field: post.tmp_mod_field, ..pre })
    } else if code == KeyCode::Down || code == KeyCode::Up {
        post == (RenderState {
            ark_server_mod_list_edit_state: (ListState {
                selected: cursor_moved(
                    code,
                    pre.ark_server_mod_list_edit_state.selected,
                    edit_table_size(pre.num_ark_server_mod_properties),
                ),
            }),
            ..pre
        })
    } else {
        post == pre
    }
}

/// The transition of the server edit screen, the server-side twin of the
/// mod edit screen.
pub open spec fn edit_server_rel(pre: RenderState, code: KeyCode, post: RenderState) -> bool {
    if code == KeyCode::Char('b') {
        post == (RenderState { active_menu_item: MenuItem::ViewServer, ..pre })
    } else if code == KeyCode::Enter {
        &&& post.editing_server
        &&& post.tmp_server_field@ == Seq::<char>::empty()
        &&& post == (RenderState {
            editing_server: true,
            tmp_server_field: post.tmp_server_field,
            ..pre
        })
    } else if code == KeyCode::Down || code == KeyCode::Up {
        post == (RenderState {
            ark_server_list_edit_state: (ListState {
                selected: cursor_moved(
                    code,
                    pre.ark_server_list_edit_state.selected,
                    edit_table_size(pre.num_ark_server_properties),
                ),
            }),
            ..pre
        })
    } else {
        post == pre
    }
}

/// The edit-buffer protocol over the server scratch buffer: characters of
/// the accepted alphabet append, backspace is accepted but deliberately
/// inert, and confirm commits the buffer into the addressed field. A
/// commit that fails leaves the buffer, the record and the edit state as
/// they were.
pub open spec fn server_edits_rel(
    pre: RenderState,
    pre_sv: Seq<ArkServer>,
    input: Event<KeyCode>,
    post: RenderState,
    post_sv: Seq<ArkServer>,
    eff: Effect,
) -> bool {
    match input {
        Event::Input(code) => {
            if code == KeyCode::Enter {
                if server_commit_ok(pre, pre_sv) {
                    &&& post_sv == server_committed(pre, pre_sv)
                    &&& post == (RenderState { editing_server: false, ..pre })
                    &&& eff == Effect::Persist
                } else {
                    unchanged_step(pre, pre_sv, post, post_sv, eff)
                }
            } else if code == KeyCode::Backspace {
                unchanged_step(pre, pre_sv, post, post_sv, eff)
            } else {
                &&& post_sv == pre_sv
                &&& eff == Effect::Nothing
                &&& post.tmp_server_field@ == pre.tmp_server_field@ + input_char(code)
                &&& post == (RenderState { tmp_server_field: post.tmp_server_field, ..pre })
            }
        },
        Event::Tick => unchanged_step(pre, pre_sv, post, post_sv, eff),
    }
}

/// Confirming with an acceptable buffer commits it: exactly the one field
/// under the field cursor of the one server under the server cursor takes
/// the buffer's value, every other record and every other field keeps its
/// value, the edit flag clears, and the caller is asked to persist the
/// whole collection.
pub proof fn lemma_commit_updates_one_field(
    pre: RenderState,
    pre_sv: Seq<ArkServer>,
    post: RenderState,
    post_sv: Seq<ArkServer>,
    eff: Effect,
    i: usize,
    k: usize,
)
    requires
        pre.ark_server_list_state.selected == Some(i),
        pre.ark_server_list_edit_state.selected == Some(k),
        i < pre_sv.len(),
        server_field_ok(k as int, pre.tmp_server_field@),
        server_edits_rel(pre, pre_sv, Event::Input(KeyCode::Enter), post, post_sv, eff),
    ensures
        eff == Effect::Persist,
        !post.editing_server,
        post == (RenderState { editing_server: false, ..pre }),
        post_sv.len() == pre_sv.len(),
        forall|t: int| 0 <= t < pre_sv.len() && t != i ==> post_sv[t] == pre_sv[t],
        post_sv[i as int] == server_with_field(pre_sv[i as int], k as int, pre.tmp_server_field),
        k != 0 ==> post_sv[i as int].id == pre_sv[i as int].id,
        k != 1 ==> post_sv[i as int].name == pre_sv[i as int].name,
        k != 2 ==> post_sv[i as int].category == pre_sv[i as int].category,
        k != 3 ==> post_sv[i as int].age == pre_sv[i as int].age,
        k != 4 ==> post_sv[i as int].service_name == pre_sv[i as int].service_name,
        post_sv[i as int].created_at == pre_sv[i as int].created_at,
        post_sv[i as int].mods@ == pre_sv[i as int].mods@,
{
}

/// Confirming with a buffer that does not coerce to the targeted numeric
/// field commits nothing: every record keeps its value byte for byte, the
/// edit state and the buffer stay as they were, and nothing is persisted.
pub proof fn lemma_failed_commit_changes_nothing(
    pre: RenderState,
    pre_sv: Seq<ArkServer>,
    post: RenderState,
    post_sv: Seq<ArkServer>,
    eff: Effect,
)
    requires
        !server_commit_ok(pre, pre_sv),
        server_edits_rel(pre, pre_sv, Event::Input(KeyCode::Enter), post, post_sv, eff),
    ensures
        post == pre,
        post_sv == pre_sv,
        eff == Effect::Nothing,
{
}

/// The edit-buffer protocol over the mod scratch buffer.
pub open spec fn mod_edits_rel(
    pre: RenderState,
    pre_sv: Seq<ArkServer>,
    input: Event<KeyCode>,
    post: RenderState,
    post_sv: Seq<ArkServer>,
    eff: Effect,
) -> bool {
    match input {
        Event::Input(code) => {
            if code == KeyCode::Enter {
                if mod_commit_ok(pre, pre_sv) {
                    &&& mod_committed_rel(pre, pre_sv, post_sv)
                    &&& post == (RenderState { editing_mod: false, ..pre })
                    &&& eff == Effect::Persist
                } else {
                    unchanged_step(pre, pre_sv, post, post_sv, eff)
                }
            } else if code == KeyCode::Backspace {
                unchanged_step(pre, pre_sv, post, post_sv, eff)
            } else {
                &&& post_sv == pre_sv
                &&& eff == Effect::Nothing
                &&& post.tmp_mod_field@ == pre.tmp_mod_field@ + input_char(code)
                &&& post == (RenderState { tmp_mod_field: post.tmp_mod_field, ..pre })
            }
        },
        Event::Tick => unchanged_step(pre, pre_sv, post, post_sv, eff),
    }
}

/// The whole dispatch: an event against the whole navigation state. While
/// an edit captures input everything routes to the edit-buffer protocol;
/// otherwise quit, home and servers act from every screen, and any other
/// key goes to the current screen's handler.
pub open spec fn input_rel(
    pre: RenderState,
    pre_sv: Seq<ArkServer>,
    input: Event<KeyCode>,
    post: RenderState,
    post_sv: Seq<ArkServer>,
    ev: InputEvent,
    eff: Effect,
) -> bool {
    if pre.editing_server {
        ev == InputEvent::Other && server_edits_rel(pre, pre_sv, input, post, post_sv, eff)
    } else if pre.editing_mod {
        ev == InputEvent::Other && mod_edits_rel(pre, pre_sv, input, post, post_sv, eff)
    } else {
        match input {
            Event::Input(code) => {
                if code == KeyCode::Char('q') {
                    &&& ev == InputEvent::Exit
                    &&& post == pre
                    &&& post_sv == pre_sv
                    &&& eff == Effect::Nothing
                } else if code == KeyCode::Char('h') {
                    &&& ev == InputEvent::Other
                    &&& post == (RenderState { active_menu_item: MenuItem::Home, ..pre })
                    &&& post_sv == pre_sv
                    &&& eff == Effect::Nothing
                } else if code == KeyCode::Char('s') {
                    &&& ev == InputEvent::Other
                    &&& post == (RenderState { active_menu_item: MenuItem::Servers, ..pre })
                    &&& post_sv == pre_sv
                    &&& eff == Effect::Nothing
                } else {
                    ev == InputEvent::Other && match pre.active_menu_item {
                        MenuItem::Home => unchanged_step(pre, pre_sv, post, post_sv, eff),
                        MenuItem::Servers => servers_rel(pre, pre_sv, code, post, post_sv, eff),
                        MenuItem::ViewServer => post_sv == pre_sv && eff == Effect::Nothing
                            && view_server_rel(pre, pre_sv, code, post),
                        MenuItem::ServerMods => server_mods_rel(
                            pre,
                            pre_sv,
                            code,
                            post,
                            post_sv,
                            eff,
                        ),
                        MenuItem::ViewMod => post_sv == pre_sv && eff == Effect::Nothing
                            && view_mod_rel(pre, code, post),
                        MenuItem::EditMod => post_sv == pre_sv && eff == Effect::Nothing
                            && edit_mod_rel(pre, code, post),
                        MenuItem::EditServer => post_sv == pre_sv && eff == Effect::Nothing
                            && edit_server_rel(pre, code, post),
                    }
                }
            },
            Event::Tick => ev == InputEvent::Other && unchanged_step(
                pre,
                pre_sv,
                post,
                post_sv,
                eff,
            ),
        }
    }
}

/// The home screen reacts to no screen-specific key.
pub fn process_home(state: &mut RenderState, event: KeyCode) -> (r: Result<(), Error>)
    ensures
        r matches Ok(u),
        *final(state) == *old(state),
{
    match event {
        _ => {},
    }
    Ok(())
}

/// The server detail screen: open the mod list, go back, or start editing.
pub fn process_view_server(state: &mut RenderState, servers: &Vec<ArkServer>, event: KeyCode) -> (r:
    Result<(), Error>)
    ensures
        r matches Ok(u),
        view_server_rel(*old(state), servers@, event, *final(state)),
        old(state).wf(servers@) ==> final(state).wf(servers@),
{
    match event {
        KeyCode::Char('m') => {
            let num_mods: usize = match state.ark_server_list_state.selected() {
                Some(i) => {
                    if i < servers.len() {
                        servers[i].mods.len()
                    } else {
                        0
                    }
                },
                None => 0,
            };
            if num_mods == 0 {
                state.ark_server_mod_list_state.select(None);
            } else {
                state.ark_server_mod_list_state.select(Some(0));
            }
            state.active_menu_item = MenuItem::ServerMods;
        },
        KeyCode::Char('b') => {
            state.active_menu_item = MenuItem::Servers;
        },
        KeyCode::Char('e') => {
            state.active_menu_item = MenuItem::EditServer;
        },
        _ => {},
    }
    Ok(())
}

/// The server list screen: add, delete, navigate, open, or ask for a
/// control action on the selected server's service.
pub fn process_servers(state: &mut RenderState, servers: &mut Vec<ArkServer>, event: KeyCode) -> (r:
    Result<Effect, Error>)
    ensures
        r matches Ok(eff) && servers_rel(
            *old(state),
            old(servers)@,
            event,
            *final(state),
            final(servers)@,
            eff,
        ),
        old(state).wf(old(servers)@) ==> final(state).wf(final(servers)@),
{
    match event {
        KeyCode::Char('a') => {
            add_ark_server_to_db(servers);
            state.revalidate(servers);
            Ok(Effect::Persist)
        },
        KeyCode::Char('d') => {
            match remove_ark_server_at_index(servers, state) {
                Ok(_) => Ok(Effect::Persist),
                Err(_) => Ok(Effect::Nothing),
            }
        },
        KeyCode::Char('s') => Ok(Effect::Start),
        KeyCode::Char('r') => Ok(Effect::Restart),
        KeyCode::Enter => {
            let open_ok: bool = match state.ark_server_list_state.selected() {
                Some(i) => i < servers.len(),
                None => false,
            };
            if open_ok {
                state.active_menu_item = MenuItem::ViewServer;
            }
            Ok(Effect::Nothing)
        },
        KeyCode::Down => {
            let num_ark_servers: usize = servers.len();
            let mut cur = state.ark_server_list_state;
            try_change_list_state(KeyCode::Down, &mut cur, num_ark_servers);
            state.ark_server_list_state = cur;
            state.revalidate(servers);
            Ok(Effect::Nothing)
        },
        KeyCode::Up => {
            let num_ark_servers: usize = servers.len();
            let mut cur = state.ark_server_list_state;
            try_change_list_state(KeyCode::Up, &mut cur, num_ark_servers);
            state.ark_server_list_state = cur;
            state.revalidate(servers);
            Ok(Effect::Nothing)
        },
        _ => Ok(Effect::Nothing),
    }
}

/// The mod list screen: add, delete, navigate, open, or go back, scoped to
/// the selected server.
pub fn process_server_mods(
    state: &mut RenderState,
    servers: &mut Vec<ArkServer>,
    event: KeyCode,
) -> (r: Result<Effect, Error>)
    ensures
        r matches Ok(eff) && server_mods_rel(
            *old(state),
            old(servers)@,
            event,
            *final(state),
            final(servers)@,
            eff,
        ),
        old(state).wf(old(servers)@) ==> final(state).wf(final(servers)@),
{
    match event {
        KeyCode::Char('a') => {
            match add_ark_server_mod_to_db(servers, state) {
                Ok(_) => {
                    state.revalidate(servers);
                    Ok(Effect::Persist)
                },
                Err(_) => Ok(Effect::Nothing),
            }
        },
        KeyCode::Char('d') => {
            match remove_ark_server_mod_at_index(servers, state) {
                Ok(_) => Ok(Effect::Persist),
                Err(_) => Ok(Effect::Nothing),
            }
        },
        KeyCode::Char('b') => {
            state.active_menu_item = MenuItem::ViewServer;
            Ok(Effect::Nothing)
        },
        KeyCode::Enter => {
            let open_ok: bool = match (
                state.ark_server_list_state.selected(),
                state.ark_server_mod_list_state.selected(),
            ) {
                (Some(i), Some(j)) => i < servers.len() && j < servers[i].mods.len(),
                _ => false,
            };
            if open_ok {
                state.active_menu_item = MenuItem::ViewMod;
            }
            Ok(Effect::Nothing)
        },
        KeyCode::Down => {
            let num_ark_server_mods: usize = match state.ark_server_list_state.selected() {
                Some(i) => {
                    if i < servers.len() {
                        servers[i].mods.len()
                    } else {
                        0
                    }
                },
                None => 0,
            };
            let mut cur = state.ark_server_mod_list_state;
            try_change_list_state(KeyCode::Down, &mut cur, num_ark_server_mods);
            state.ark_server_mod_list_state = cur;
            Ok(Effect::Nothing)
        },
        KeyCode::Up => {
            let num_ark_server_mods: usize = match state.ark_server_list_state.selected() {
                Some(i) => {
                    if i < servers.len() {
                        servers[i].mods.len()
                    } else {
                        0
                    }
                },
                None => 0,
            };
            let mut cur = state.ark_server_mod_list_state;
            try_change_list_state(KeyCode::Up, &mut cur, num_ark_server_mods);
            state.ark_server_mod_list_state = cur;
            Ok(Effect::Nothing)
        },
        _ => Ok(Effect::Nothing),
    }
}

/// The mod detail screen: go back, edit, or the declared-but-inert toggle.
pub fn process_view_mod(state: &mut RenderState, event: KeyCode) -> (r: Result<(), Error>)
    ensures
        r matches Ok(u),
        view_mod_rel(*old(state), event, *final(state)),
{
    match event {
        KeyCode::Char('b') => {
            state.active_menu_item = MenuItem::ServerMods;
        },
        KeyCode::Char('t') => {
            // Toggling the enabled flag is declared in the menu but not
            // wired to the record; kept as an explicit no-op.
        },
        KeyCode::Char('e') => {
            state.active_menu_item = MenuItem::EditMod;
        },
        _ => {},
    }
    Ok(())
}

/// The mod edit screen: pick a field row, or confirm to start capturing
/// input into a cleared scratch buffer.
pub fn process_edit_mod(state: &mut RenderState, event: KeyCode) -> (r: Result<(), Error>)
    ensures
        r matches Ok(u),
        edit_mod_rel(*old(state), event, *final(state)),
{
    match event {
        KeyCode::Char('b') => {
            state.active_menu_item = MenuItem::ViewMod;
        },
        KeyCode::Enter => {
            state.editing_mod = true;
            state.tmp_mod_field = String::new();
        },
        KeyCode::Down => {
            let size: usize = if state.num_ark_server_mod_properties > 0 {
                state.num_ark_server_mod_properties - 1
            } else {
                0
            };
            let mut cur = state.ark_server_mod_list_edit_state;
            try_change_table_state(KeyCode::Down, &mut cur, size);
            state.ark_server_mod_list_edit_state = cur;
        },
        KeyCode::Up => {
            let size: usize = if state.num_ark_server_mod_properties > 0 {
                state.num_ark_server_mod_properties - 1
            } else {
                0
            };
            let mut cur = state.ark_server_mod_list_edit_state;
            try_change_table_state(KeyCode::Up, &mut cur, size);
            state.ark_server_mod_list_edit_state = cur;
        },
        _ => {},
    }
    Ok(())
}

/// The server edit screen, the server-side twin of the mod edit screen.
pub fn process_edit_server(state: &mut RenderState, event: KeyCode) -> (r: Result<(), Error>)
    ensures
        r matches Ok(u),
        edit_server_rel(*old(state), event, *final(state)),
{
    match event {
        KeyCode::Char('b') => {
            state.active_menu_item = MenuItem::ViewServer;
        },
        KeyCode::Enter => {
            state.editing_server = true;
            state.tmp_server_field = String::new();
        },
        KeyCode::Down => {
            let size: usize = if state.num_ark_server_properties > 0 {
                state.num_ark_server_properties - 1
            } else {
                0
            };
            let mut cur = state.ark_server_list_edit_state;
            try_change_table_state(KeyCode::Down, &mut cur, size);
            state.ark_server_list_edit_state = cur;
        },
        KeyCode::Up => {
            let size: usize = if state.num_ark_server_properties > 0 {
                state.num_ark_server_properties - 1
            } else {
                0
            };
            let mut cur = state.ark_server_list_edit_state;
            try_change_table_state(KeyCode::Up, &mut cur, size);
            state.ark_server_list_edit_state = cur;
        },
        _ => {},
    }
    Ok(())
}

/// One event of the edit-buffer protocol over the server scratch buffer.
pub fn process_server_edits(
    state: &mut RenderState,
    servers: &mut Vec<ArkServer>,
    input: Event<KeyCode>,
) -> (r: Result<Effect, Error>)
    ensures
        r matches Ok(eff) && server_edits_rel(
            *old(state),
            old(servers)@,
            input,
            *final(state),
            final(servers)@,
            eff,
        ),
        old(state).wf(old(servers)@) ==> final(state).wf(final(servers)@),
{
    match input {
        Event::Input(code) => match code {
            KeyCode::Enter => {
                match set_server_property(servers, state) {
                    Ok(_) => {
                        state.editing_server = false;
                        Ok(Effect::Persist)
                    },
                    Err(_) => Ok(Effect::Nothing),
                }
            },
            KeyCode::Backspace => {
                // Backspace is accepted but deliberately leaves the
                // scratch buffer as it is.
                Ok(Effect::Nothing)
            },
            _ => {
                state.tmp_server_field.append(get_input_char(code));
                Ok(Effect::Nothing)
            },
        },
        Event::Tick => Ok(Effect::Nothing),
    }
}

/// One event of the edit-buffer protocol over the mod scratch buffer.
pub fn process_mod_edits(
    state: &mut RenderState,
    servers: &mut Vec<ArkServer>,
    input: Event<KeyCode>,
) -> (r: Result<Effect, Error>)
    ensures
        r matches Ok(eff) && mod_edits_rel(
            *old(state),
            old(servers)@,
            input,
            *final(state),
            final(servers)@,
            eff,
        ),
        old(state).wf(old(servers)@) ==> final(state).wf(final(servers)@),
{
    match input {
        Event::Input(code) => match code {
            KeyCode::Enter => {
                match set_server_mod_property(servers, state) {
                    Ok(_) => {
                        state.editing_mod = false;
                        Ok(Effect::Persist)
                    },
                    Err(_) => Ok(Effect::Nothing),
                }
            },
            KeyCode::Backspace => {
                // Backspace is accepted but deliberately leaves the
                // scratch buffer as it is.
                Ok(Effect::Nothing)
            },
            _ => {
                state.tmp_mod_field.append(get_input_char(code));
                Ok(Effect::Nothing)
            },
        },
        Event::Tick => Ok(Effect::Nothing),
    }
}

/// Process one event: route it to the edit-buffer protocol while an edit
/// is being captured, else to the global keys or the current screen's
/// handler. Total over every (state, event) pair; unknown symbols are
/// no-ops.
pub fn process_input(
    state: &mut RenderState,
    servers: &mut Vec<ArkServer>,
    input: Event<KeyCode>,
) -> (r: Result<(InputEvent, Effect), Error>)
    ensures
        r matches Ok(p) && input_rel(
            *old(state),
            old(servers)@,
            input,
            *final(state),
            final(servers)@,
            p.0,
            p.1,
        ),
        old(state).wf(old(servers)@) ==> final(state).wf(final(servers)@),
{
    if state.editing_server {
        let eff = match process_server_edits(state, servers, input) {
            Ok(e) => e,
            Err(_) => Effect::Nothing,
        };
        return Ok((InputEvent::Other, eff));
    }
    if state.editing_mod {
        let eff = match process_mod_edits(state, servers, input) {
            Ok(e) => e,
            Err(_) => Effect::Nothing,
        };
        return Ok((InputEvent::Other, eff));
    }
    match input {
        Event::Input(code) => match code {
            KeyCode::Char('q') => Ok((InputEvent::Exit, Effect::Nothing)),
            KeyCode::Char('h') => {
                state.active_menu_item = MenuItem::Home;
                Ok((InputEvent::Other, Effect::Nothing))
            },
            KeyCode::Char('s') => {
                state.active_menu_item = MenuItem::Servers;
                Ok((InputEvent::Other, Effect::Nothing))
            },
            _ => {
                match state.active_menu_item {
                    MenuItem::Home => {
                        let _ = process_home(state, code);
                        Ok((InputEvent::Other, Effect::Nothing))
                    },
                    MenuItem::Servers => {
                        let eff = match process_servers(state, servers, code) {
                            Ok(e) => e,
                            Err(_) => Effect::Nothing,
                        };
                        Ok((InputEvent::Other, eff))
                    },
                    MenuItem::ViewServer => {
                        let _ = process_view_server(state, servers, code);
                        Ok((InputEvent::Other, Effect::Nothing))
                    },
                    MenuItem::ServerMods => {
                        let eff = match process_server_mods(state, servers, code) {
                            Ok(e) => e,
                            Err(_) => Effect::Nothing,
                        };
                        Ok((InputEvent::Other, eff))
                    },
                    MenuItem::ViewMod => {
                        let _ = process_view_mod(state, code);
                        Ok((InputEvent::Other, Effect::Nothing))
                    },
                    MenuItem::EditMod => {
                        let _ = process_edit_mod(state, code);
                        Ok((InputEvent::Other, Effect::Nothing))
                    },
                    MenuItem::EditServer => {
                        let _ = process_edit_server(state, code);
                        Ok((InputEvent::Other, Effect::Nothing))
                    },
                }
            },
        },
        Event::Tick => Ok((InputEvent::Other, Effect::Nothing)),
    }
}

} // verus!
