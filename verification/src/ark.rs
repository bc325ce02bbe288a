//! Record types, cursor model and the shared navigation state.

use vstd::prelude::*;

verus! {

/// The failure kinds of the library and of the store around it.
#[derive(Clone, Copy, Debug, PartialEq, Eq, Structural)]
pub enum Error {
    /// The backing file is missing or unreadable.
    StoreUnavailable,
    /// The backing file cannot be decoded into the record schema.
    StoreCorrupt,
    /// An operation required a cursor that is not on a record.
    SelectionInvalid,
    /// The scratch buffer did not coerce to the targeted field's type.
    FieldTypeError,
    /// The external control command could not be launched.
    ProcessInvocationFailed,
    /// Drawing a frame failed.
    RenderError,
}

/// An event delivered to the main loop: one input, or a periodic tick.
pub enum Event<I> {
    Input(I),
    Tick,
}

/// What the dispatcher tells the caller about one processed event.
#[derive(Clone, Copy, Debug, PartialEq, Eq, Structural)]
pub enum InputEvent {
    Exit,
    Other,
}

/// The single-key input symbols the state machine reacts to.
#[derive(Clone, Copy, Debug, PartialEq, Eq, Structural)]
pub enum KeyCode {
    Char(char),
    Enter,
    Backspace,
    Up,
    Down,
    Other,
}

/// A mod record, owned by exactly one server.
#[derive(Debug)]
pub struct ArkServerMod {
    pub id: usize,
    pub name: String,
    pub category: String,
    pub descripton: String,
    pub enabled: bool,
    pub age: usize,
    pub created_at: String,
}

/// Holds of a freshly created mod, up to its creation timestamp.
pub open spec fn is_default_mod(m: ArkServerMod, name: Seq<char>) -> bool {
    &&& m.id == 0
    &&& m.name@ == name
    &&& m.category@ == Seq::<char>::empty()
    &&& m.descripton@ == Seq::<char>::empty()
    &&& !m.enabled
    &&& m.age == 0
}

impl Clone for ArkServerMod {
    fn clone(&self) -> (r: ArkServerMod)
        ensures
            r == *self,
    {
        ArkServerMod {
            id: self.id,
            name: self.name.clone(),
            category: self.category.clone(),
            descripton: self.descripton.clone(),
            enabled: self.enabled,
            age: self.age,
            created_at: self.created_at.clone(),
        }
    }
}

impl ArkServerMod {
    /// A fresh mod carrying the given name and blank remaining fields.
    pub fn named(name: &str) -> (r: ArkServerMod)
        ensures
            is_default_mod(r, name@),
    {
        ArkServerMod {
            id: 0,
            name: name.to_owned(),
            category: String::new(),
            descripton: String::new(),
            enabled: false,
            age: 0,
            created_at: now_text(),
        }
    }

    /// A fresh mod with every field blank.
    pub fn new() -> (r: ArkServerMod)
        ensures
            is_default_mod(r, Seq::<char>::empty()),
    {
        ArkServerMod {
            id: 0,
            name: String::new(),
            category: String::new(),
            descripton: String::new(),
            enabled: false,
            age: 0,
            created_at: now_text(),
        }
    }
}

/// A server record with its ordered list of mods.
#[derive(Debug)]
pub struct ArkServer {
    pub id: usize,
    pub name: String,
    pub category: String,
    pub age: usize,
    pub service_name: String,
    pub created_at: String,
    pub mods: Vec<ArkServerMod>,
}

/// Holds of a freshly created server, up to its creation timestamp.
pub open spec fn is_default_server(s: ArkServer, name: Seq<char>) -> bool {
    &&& s.id == 0
    &&& s.name@ == name
    &&& s.category@ == Seq::<char>::empty()
    &&& s.age == 0
    &&& s.service_name@ == Seq::<char>::empty()
    &&& s.mods@ == Seq::<ArkServerMod>::empty()
}

/// The two records carry the same data: every plain field is equal and the
/// mod lists hold the same mods in the same order. (A cloned record is
/// equivalent, not equal: the copy owns a list of its own.)
pub open spec fn server_eq(a: ArkServer, b: ArkServer) -> bool {
    &&& a.id == b.id
    &&& a.name == b.name
    &&& a.category == b.category
    &&& a.age == b.age
    &&& a.service_name == b.service_name
    &&& a.created_at == b.created_at
    &&& a.mods@ == b.mods@
}

impl Clone for ArkServer {
    fn clone(&self) -> (r: ArkServer)
        ensures
            server_eq(r, *self),
    {
        let mods: Vec<ArkServerMod> = self.mods.clone();
        proof {
            assert forall|i: int| 0 <= i < self.mods@.len() implies mods@[i] == self.mods@[i] by {
                assert(cloned::<ArkServerMod>(self.mods@[i], mods@[i]));
            }
            assert(mods@ =~= self.mods@);
        }
        ArkServer {
            id: self.id,
            name: self.name.clone(),
            category: self.category.clone(),
            age: self.age,
            service_name: self.service_name.clone(),
            created_at: self.created_at.clone(),
            mods,
        }
    }
}

impl ArkServer {
    /// A fresh server carrying the given name, blank fields and no mods.
    pub fn named(name: &str) -> (r: ArkServer)
        ensures
            is_default_server(r, name@),
    {
        ArkServer {
            id: 0,
            name: name.to_owned(),
            category: String::new(),
            age: 0,
            service_name: String::new(),
            created_at: now_text(),
            mods: Vec::new(),
        }
    }

    /// A fresh server with every field blank and no mods.
    pub fn new() -> (r: ArkServer)
        ensures
            is_default_server(r, Seq::<char>::empty()),
    {
        ArkServer {
            id: 0,
            name: String::new(),
            category: String::new(),
            age: 0,
            service_name: String::new(),
            created_at: now_text(),
            mods: Vec::new(),
        }
    }
}

/// Relies on chrono::Utc::now and the Display impl of chrono::DateTime for
/// the creation timestamp rendered as text. The result depends on the system
/// clock (which must not be before the Unix epoch, or chrono aborts), so
/// nothing is promised of it.
#[verifier::external_body]
fn now_text() -> String {
    chrono::Utc::now().to_string()
}

/// The screens of the navigation state machine.
#[derive(Clone, Copy, Debug, PartialEq, Eq, Structural)]
pub enum MenuItem {
    Home,
    Servers,
    ViewServer,
    ServerMods,
    ViewMod,
    EditMod,
    EditServer,
}

/// The tab position a screen is shown under in the menu row.
pub open spec fn menu_index(item: MenuItem) -> usize {
    match item {
        MenuItem::Home => 0usize,
        MenuItem::Servers => 1usize,
        MenuItem::ServerMods => 2usize,
        MenuItem::ViewServer => 3usize,
        MenuItem::ViewMod => 4usize,
        MenuItem::EditMod => 5usize,
        MenuItem::EditServer => 6usize,
    }
}

impl From<MenuItem> for usize {
    fn from(input: MenuItem) -> (r: usize)
        ensures
            r == menu_index(input),
    {
        match input {
            MenuItem::Home => 0,
            MenuItem::Servers => 1,
            MenuItem::ServerMods => 2,
            MenuItem::ViewServer => 3,
            MenuItem::ViewMod => 4,
            MenuItem::EditMod => 5,
            MenuItem::EditServer => 6,
        }
    }
}

impl vstd::std_specs::convert::FromSpecImpl<MenuItem> for usize {
    open spec fn obeys_from_spec() -> bool {
        true
    }

    open spec fn from_spec(t: MenuItem) -> usize {
        menu_index(t)
    }
}

/// A list selection: the index of the chosen element, or nothing.
#[derive(Clone, Copy, Debug, PartialEq, Eq, Structural)]
pub struct ListState {
    pub selected: Option<usize>,
}

impl ListState {
    /// A selection resting on nothing.
    pub fn default() -> (r: ListState)
        ensures
            r.selected is None,
    {
        ListState { selected: None }
    }

    /// The current selection.
    pub fn selected(&self) -> (r: Option<usize>)
        ensures
            r == self.selected,
    {
        self.selected
    }

    /// Move the selection.
    pub fn select(&mut self, index: Option<usize>)
        ensures
            final(self).selected == index,
    {
        self.selected = index;
    }
}

/// A cursor is on a record of a collection of the given length, or, only
/// when the collection is empty, on nothing.
pub open spec fn cursor_ok(cur: Option<usize>, len: nat) -> bool {
    match cur {
        Some(i) => i < len,
        None => len == 0,
    }
}

/// The cursor a collection of the given length gets when the previous
/// selection is no longer meaningful: its first record, or nothing.
pub open spec fn reset_cursor(len: nat) -> Option<usize> {
    if len == 0 {
        None
    } else {
        Some(0usize)
    }
}

/// Where the cursor rests after the record at `i` leaves a collection that
/// held `old_len` records: on the previous record when one exists, else on
/// the new first record, or on nothing when the collection emptied.
pub open spec fn cursor_after_remove(i: nat, old_len: nat) -> Option<usize> {
    if i > 0 {
        Some((i - 1) as usize)
    } else if old_len <= 1 {
        None
    } else {
        Some(0usize)
    }
}

/// How many rows the server detail table shows.
pub const NUM_ARK_SERVER_PROPERTIES: usize = 6;

/// How many rows the mod detail table shows.
pub const NUM_ARK_SERVER_MOD_PROPERTIES: usize = 5;

/// The state with its record cursors brought back into range for the given
/// collection: a cursor that is out of range is reset to the first record
/// or to nothing, one that is still meaningful is kept. The mod cursor is
/// judged against the mods of the server the corrected server cursor
/// selects.
pub open spec fn revalidated_cursors(s: RenderState, servers: Seq<ArkServer>) -> RenderState {
    let sc = if cursor_ok(s.ark_server_list_state.selected, servers.len()) {
        s.ark_server_list_state.selected
    } else {
        reset_cursor(servers.len())
    };
    let s1 = RenderState { ark_server_list_state: (ListState { selected: sc }), ..s };
    let mc = if cursor_ok(s.ark_server_mod_list_state.selected, s1.selected_mods(servers).len()) {
        s.ark_server_mod_list_state.selected
    } else {
        reset_cursor(s1.selected_mods(servers).len())
    };
    RenderState { ark_server_mod_list_state: (ListState { selected: mc }), ..s1 }
}

/// The process-wide navigation state: the current screen, the cursors into
/// the record collections and field tables, and the edit-buffer state.
#[derive(Debug)]
pub struct RenderState {
    pub editing_mod: bool,
    pub editing_server: bool,
    pub tmp_mod_field: String,
    pub tmp_server_field: String,
    pub active_menu_item: MenuItem,
    pub ark_server_list_state: ListState,
    pub ark_server_list_edit_state: ListState,
    pub ark_server_mod_list_state: ListState,
    pub ark_server_mod_list_edit_state: ListState,
    pub num_ark_server_properties: usize,
    pub num_ark_server_mod_properties: usize,
}

impl RenderState {
    /// The mod collection of the server under the cursor, as far as the
    /// cursor is on one; an empty sequence otherwise.
    pub open spec fn selected_mods(&self, servers: Seq<ArkServer>) -> Seq<ArkServerMod> {
        match self.ark_server_list_state.selected {
            Some(i) => {
                if i < servers.len() {
                    servers[i as int].mods@
                } else {
                    Seq::<ArkServerMod>::empty()
                }
            },
            None => Seq::<ArkServerMod>::empty(),
        }
    }

    /// The navigation state is consistent with the collection: record
    /// cursors are in range or rest on nothing exactly when their collection
    /// is empty, field cursors stay on the editable field rows, and at most
    /// one edit buffer is capturing input.
    pub open spec fn wf(&self, servers: Seq<ArkServer>) -> bool {
        &&& cursor_ok(self.ark_server_list_state.selected, servers.len())
        &&& cursor_ok(self.ark_server_mod_list_state.selected, self.selected_mods(servers).len())
        &&& self.ark_server_list_edit_state.selected matches Some(k) && k
            < NUM_ARK_SERVER_PROPERTIES - 1
        &&& self.ark_server_mod_list_edit_state.selected matches Some(k) && k
            < NUM_ARK_SERVER_MOD_PROPERTIES - 1
        &&& !(self.editing_mod && self.editing_server)
        &&& self.num_ark_server_properties == NUM_ARK_SERVER_PROPERTIES
        &&& self.num_ark_server_mod_properties == NUM_ARK_SERVER_MOD_PROPERTIES
    }

    /// The starting state: the home screen, nothing being edited, every
    /// selection on its first row.
    pub fn new() -> (r: RenderState)
        ensures
            !r.editing_mod,
            !r.editing_server,
            r.tmp_mod_field@ == Seq::<char>::empty(),
            r.tmp_server_field@ == Seq::<char>::empty(),
            r.active_menu_item == MenuItem::Home,
            r.ark_server_list_state.selected == Some(0usize),
            r.ark_server_list_edit_state.selected == Some(0usize),
            r.ark_server_mod_list_state.selected == Some(0usize),
            r.ark_server_mod_list_edit_state.selected == Some(0usize),
            r.num_ark_server_properties == NUM_ARK_SERVER_PROPERTIES,
            r.num_ark_server_mod_properties == NUM_ARK_SERVER_MOD_PROPERTIES,
    {
        let mut rs = RenderState {
            editing_mod: false,
            editing_server: false,
            tmp_mod_field: String::new(),
            tmp_server_field: String::new(),
            active_menu_item: MenuItem::Home,
            ark_server_list_state: ListState::default(),
            ark_server_list_edit_state: ListState::default(),
            ark_server_mod_list_state: ListState::default(),
            ark_server_mod_list_edit_state: ListState::default(),
            num_ark_server_properties: NUM_ARK_SERVER_PROPERTIES,
            num_ark_server_mod_properties: NUM_ARK_SERVER_MOD_PROPERTIES,
        };
        rs.ark_server_list_state.select(Some(0));
        rs.ark_server_list_edit_state.select(Some(0));
        rs.ark_server_mod_list_state.select(Some(0));
        rs.ark_server_mod_list_edit_state.select(Some(0));
        rs
    }

    /// The field row the server edit cursor rests on.
    pub fn get_server_edit_index(&self) -> (r: usize)
        ensures
            r == match self.ark_server_list_edit_state.selected {
                Some(k) => k,
                None => 0usize,
            },
    {
        match self.ark_server_list_edit_state.selected {
            Some(k) => k,
            None => 0,
        }
    }

    /// The field row the mod edit cursor rests on.
    pub fn get_mod_edit_index(&self) -> (r: usize)
        ensures
            r == match self.ark_server_mod_list_edit_state.selected {
                Some(k) => k,
                None => 0usize,
            },
    {
        match self.ark_server_mod_list_edit_state.selected {
            Some(k) => k,
            None => 0,
        }
    }

    /// Bring the record cursors back into range for the given collection:
    /// a cursor that is out of range is reset to the first record or to
    /// nothing, one that is still meaningful is kept.
    pub fn revalidate(&mut self, servers: &Vec<ArkServer>)
        ensures
            *final(self) == revalidated_cursors(*old(self), servers@),
            cursor_ok(final(self).ark_server_list_state.selected, servers@.len()),
            cursor_ok(
                final(self).ark_server_mod_list_state.selected,
                final(self).selected_mods(servers@).len(),
            ),
    {
        let in_range = match self.ark_server_list_state.selected() {
            Some(i) => i < servers.len(),
            None => servers.len() == 0,
        };
        if !in_range {
            if servers.len() == 0 {
                self.ark_server_list_state.select(None);
            } else {
                self.ark_server_list_state.select(Some(0));
            }
        }
        let num_mods = match self.ark_server_list_state.selected() {
            Some(i) => servers[i].mods.len(),
            None => 0,
        };
        let mods_in_range = match self.ark_server_mod_list_state.selected() {
            Some(j) => j < num_mods,
            None => num_mods == 0,
        };
        if !mods_in_range {
            if num_mods == 0 {
                self.ark_server_mod_list_state.select(None);
            } else {
                self.ark_server_mod_list_state.select(Some(0));
            }
        }
    }
}

} // verus!
