//! Cursor-addressed reads and writes of the server collection.
//!
//! Every function takes the collection as a plain value; the caller loads it
//! from the store before and rewrites the store after a mutating call.

use vstd::prelude::*;
use vstd::string::StringExecFns;
use crate::ark::{
    ArkServer, ArkServerMod, Error, ListState, RenderState, cursor_after_remove, is_default_mod,
    is_default_server, reset_cursor, revalidated_cursors, server_eq,
};
use crate::text::{dec_parses, dec_str, dec_val, parse_usize, u_to_string};

verus! {

/// The server under the cursor, as far as the cursor is on one.
pub open spec fn selected_server_of(state: RenderState, servers: Seq<ArkServer>) -> Option<
    ArkServer,
> {
    match state.ark_server_list_state.selected {
        Some(i) => {
            if i < servers.len() {
                Some(servers[i as int])
            } else {
                None
            }
        },
        None => None,
    }
}

/// The mod under the mod cursor of the server under the server cursor.
pub open spec fn selected_mod_of(state: RenderState, servers: Seq<ArkServer>) -> Option<
    ArkServerMod,
> {
    match (selected_server_of(state, servers), state.ark_server_mod_list_state.selected) {
        (Some(s), Some(j)) => {
            if j < s.mods@.len() {
                Some(s.mods@[j as int])
            } else {
                None
            }
        },
        _ => None,
    }
}

/// The server under the cursor.
pub fn get_server(servers: &Vec<ArkServer>, state: &RenderState) -> (r: Result<ArkServer, Error>)
    ensures
        match selected_server_of(*state, servers@) {
            Some(s) => r matches Ok(got) && server_eq(got, s),
            None => r matches Err(e) && e == Error::SelectionInvalid,
        },
{
    match state.ark_server_list_state.selected() {
        Some(i) => {
            if i < servers.len() {
                Ok(servers[i].clone())
            } else {
                Err(Error::SelectionInvalid)
            }
        },
        None => Err(Error::SelectionInvalid),
    }
}

/// How many servers the collection holds.
pub fn get_num_servers(servers: &Vec<ArkServer>) -> (r: Result<usize, Error>)
    ensures
        r matches Ok(n) && n == servers@.len(),
{
    Ok(servers.len())
}

/// How many mods the server under the cursor holds.
pub fn get_num_server_mods(servers: &Vec<ArkServer>, state: &RenderState) -> (r: Result<
    usize,
    Error,
>)
    ensures
        match selected_server_of(*state, servers@) {
            Some(s) => r matches Ok(n) && n == s.mods@.len(),
            None => r matches Err(e) && e == Error::SelectionInvalid,
        },
{
    match state.ark_server_list_state.selected() {
        Some(i) => {
            if i < servers.len() {
                Ok(servers[i].mods.len())
            } else {
                Err(Error::SelectionInvalid)
            }
        },
        None => Err(Error::SelectionInvalid),
    }
}

/// Append a fresh server named "New Server". No cursor moves: what every
/// cursor pointed at, it still points at.
pub fn add_ark_server_to_db(servers: &mut Vec<ArkServer>)
    ensures
        final(servers)@.len() == old(servers)@.len() + 1,
        forall|t: int| 0 <= t < old(servers)@.len() ==> final(servers)@[t] == old(servers)@[t],
        is_default_server(final(servers)@.last(), "New Server"@),
{
    servers.push(ArkServer::named("New Server"));
}

/// Adding a server never changes what the cursors point at: after an
/// append and the cursor revalidation that follows one, the server cursor
/// rests on the same index, that index holds the same record, and the mod
/// cursor is unmoved too.
pub proof fn lemma_add_server_preserves_target(
    state: RenderState,
    pre: Seq<ArkServer>,
    s: ArkServer,
    i: usize,
)
    requires
        state.wf(pre),
        state.ark_server_list_state.selected == Some(i),
    ensures
        revalidated_cursors(state, pre.push(s)).ark_server_list_state.selected == Some(i),
        pre.push(s)[i as int] == pre[i as int],
        revalidated_cursors(state, pre.push(s)).ark_server_mod_list_state.selected
            == state.ark_server_mod_list_state.selected,
{
}

/// Adding a mod to the selected server never changes what the cursors
/// point at: both cursors rest where they were and the mod they select is
/// the same one.
pub proof fn lemma_add_mod_preserves_target(
    state: RenderState,
    pre: Seq<ArkServer>,
    post: Seq<ArkServer>,
    m: ArkServerMod,
    i: usize,
    j: usize,
)
    requires
        state.wf(pre),
        state.ark_server_list_state.selected == Some(i),
        state.ark_server_mod_list_state.selected == Some(j),
        with_mod_appended(pre, post, i as int, m),
    ensures
        revalidated_cursors(state, post).ark_server_list_state.selected == Some(i),
        revalidated_cursors(state, post).ark_server_mod_list_state.selected == Some(j),
        post[i as int].mods@[j as int] == pre[i as int].mods@[j as int],
{
}

/// Remove the server under the cursor. The cursor slides to the previous
/// record when one exists, else stays on the new first record or empties
/// with the collection; the mod cursor is reset for the newly selected
/// server.
pub fn remove_ark_server_at_index(servers: &mut Vec<ArkServer>, state: &mut RenderState) -> (r:
    Result<(), Error>)
    ensures
        match old(state).ark_server_list_state.selected {
            Some(i) => {
                if i < old(servers)@.len() {
                    &&& r matches Ok(u)
                    &&& final(servers)@ == old(servers)@.remove(i as int)
                    &&& *final(state) == (RenderState {
                        ark_server_list_state: (ListState {
                            selected: cursor_after_remove(i as nat, old(servers)@.len()),
                        }),
                        ark_server_mod_list_state: (ListState {
                            selected: reset_cursor(
                                final(state).selected_mods(final(servers)@).len(),
                            ),
                        }),
                        ..*old(state)
                    })
                } else {
                    &&& r matches Err(e) && e == Error::SelectionInvalid
                    &&& final(servers)@ == old(servers)@
                    &&& *final(state) == *old(state)
                }
            },
            None => {
                &&& r matches Err(e) && e == Error::SelectionInvalid
                &&& final(servers)@ == old(servers)@
                &&& *final(state) == *old(state)
            },
        },
        old(state).wf(old(servers)@) ==> final(state).wf(final(servers)@),
{
    match state.ark_server_list_state.selected() {
        Some(selected) => {
            if selected < servers.len() {
                servers.remove(selected);
                if selected > 0 {
                    state.ark_server_list_state.select(Some(selected - 1));
                } else if servers.len() == 0 {
                    state.ark_server_list_state.select(None);
                } else {
                    state.ark_server_list_state.select(Some(0));
                }
                let num_mods: usize = match state.ark_server_list_state.selected() {
                    Some(i) => servers[i].mods.len(),
                    None => 0,
                };
                if num_mods == 0 {
                    state.ark_server_mod_list_state.select(None);
                } else {
                    state.ark_server_mod_list_state.select(Some(0));
                }
                Ok(())
            } else {
                Err(Error::SelectionInvalid)
            }
        },
        None => Err(Error::SelectionInvalid),
    }
}

/// Whether the scratch buffer is acceptable for the server field at the
/// given row: the two numeric fields demand a run of digits in range.
pub open spec fn server_field_ok(k: int, buf: Seq<char>) -> bool {
    if k == 0 || k == 3 {
        dec_parses(buf)
    } else {
        true
    }
}

/// The server with the field at the given row replaced by the committed
/// buffer; rows past the editable fields leave the record as it is.
pub open spec fn server_with_field(s: ArkServer, k: int, buf: String) -> ArkServer {
    if k == 0 {
        ArkServer { id: dec_val(buf@) as usize, ..s }
    } else if k == 1 {
        ArkServer { name: buf, ..s }
    } else if k == 2 {
        ArkServer { category: buf, ..s }
    } else if k == 3 {
        ArkServer { age: dec_val(buf@) as usize, ..s }
    } else if k == 4 {
        ArkServer { service_name: buf, ..s }
    } else {
        s
    }
}

/// Commit the scratch buffer into the server field addressed by the edit
/// cursor. A buffer that does not coerce to a numeric field aborts the
/// commit and leaves the record untouched.
pub fn set_server_property(servers: &mut Vec<ArkServer>, state: &RenderState) -> (r: Result<
    (),
    Error,
>)
    ensures
        match (state.ark_server_list_state.selected, state.ark_server_list_edit_state.selected) {
            (Some(i), Some(k)) => {
                if i < old(servers)@.len() {
                    if server_field_ok(k as int, state.tmp_server_field@) {
                        &&& r matches Ok(u)
                        &&& final(servers)@ == old(servers)@.update(
                            i as int,
                            server_with_field(
                                old(servers)@[i as int],
                                k as int,
                                state.tmp_server_field,
                            ),
                        )
                    } else {
                        &&& r matches Err(e) && e == Error::FieldTypeError
                        &&& final(servers)@ == old(servers)@
                    }
                } else {
                    &&& r matches Err(e) && e == Error::SelectionInvalid
                    &&& final(servers)@ == old(servers)@
                }
            },
            _ => {
                &&& r matches Err(e) && e == Error::SelectionInvalid
                &&& final(servers)@ == old(servers)@
            },
        },
{
    let selected_server: usize = match state.ark_server_list_state.selected() {
        Some(i) => i,
        None => {
            return Err(Error::SelectionInvalid);
        },
    };
    let k: usize = match state.ark_server_list_edit_state.selected() {
        Some(k) => k,
        None => {
            return Err(Error::SelectionInvalid);
        },
    };
    if selected_server >= servers.len() {
        return Err(Error::SelectionInvalid);
    }
    match k {
        0 => {
            match parse_usize(&state.tmp_server_field) {
                Some(v) => {
                    servers[selected_server].id = v;
                },
                None => {
                    return Err(Error::FieldTypeError);
                },
            }
        },
        1 => {
            servers[selected_server].name = state.tmp_server_field.clone();
        },
        2 => {
            servers[selected_server].category = state.tmp_server_field.clone();
        },
        3 => {
            match parse_usize(&state.tmp_server_field) {
                Some(v) => {
                    servers[selected_server].age = v;
                },
                None => {
                    return Err(Error::FieldTypeError);
                },
            }
        },
        4 => {
            servers[selected_server].service_name = state.tmp_server_field.clone();
        },
        _ => {
            proof {
                assert(servers@ =~= old(servers)@.update(
                    selected_server as int,
                    old(servers)@[selected_server as int],
                ));
            }
        },
    }
    Ok(())
}

/// Whether a confirm in the server edit buffer can commit: a server and a
/// field row are under their cursors and the buffer is acceptable for that
/// field.
pub open spec fn server_commit_ok(state: RenderState, servers: Seq<ArkServer>) -> bool {
    match (state.ark_server_list_state.selected, state.ark_server_list_edit_state.selected) {
        (Some(i), Some(k)) => i < servers.len() && server_field_ok(
            k as int,
            state.tmp_server_field@,
        ),
        _ => false,
    }
}

/// The collection a successful server commit leaves behind: the one
/// addressed field of the one selected server replaced by the buffer.
pub open spec fn server_committed(state: RenderState, servers: Seq<ArkServer>) -> Seq<ArkServer> {
    match (state.ark_server_list_state.selected, state.ark_server_list_edit_state.selected) {
        (Some(i), Some(k)) => servers.update(
            i as int,
            server_with_field(servers[i as int], k as int, state.tmp_server_field),
        ),
        _ => servers,
    }
}

/// Whether the scratch buffer is acceptable for the mod field at the given
/// row.
pub open spec fn mod_field_ok(k: int, buf: Seq<char>) -> bool {
    if k == 0 || k == 3 {
        dec_parses(buf)
    } else {
        true
    }
}

/// The mod with the field at the given row replaced by the committed buffer.
pub open spec fn mod_with_field(m: ArkServerMod, k: int, buf: String) -> ArkServerMod {
    if k == 0 {
        ArkServerMod { id: dec_val(buf@) as usize, ..m }
    } else if k == 1 {
        ArkServerMod { name: buf, ..m }
    } else if k == 2 {
        ArkServerMod { category: buf, ..m }
    } else if k == 3 {
        ArkServerMod { age: dec_val(buf@) as usize, ..m }
    } else {
        m
    }
}

/// The collections agree but for the one mod at row `j` of server `i`,
/// which became `m`.
pub open spec fn with_mod_updated(
    pre: Seq<ArkServer>,
    post: Seq<ArkServer>,
    i: int,
    j: int,
    m: ArkServerMod,
) -> bool {
    &&& post.len() == pre.len()
    &&& forall|t: int| 0 <= t < pre.len() && t != i ==> post[t] == pre[t]
    &&& post[i].id == pre[i].id
    &&& post[i].name == pre[i].name
    &&& post[i].category == pre[i].category
    &&& post[i].age == pre[i].age
    &&& post[i].service_name == pre[i].service_name
    &&& post[i].created_at == pre[i].created_at
    &&& post[i].mods@ == pre[i].mods@.update(j, m)
}

/// Whether a confirm in the mod edit buffer can commit: a server, one of
/// its mods and a field row are under their cursors and the buffer is
/// acceptable for that field.
pub open spec fn mod_commit_ok(state: RenderState, servers: Seq<ArkServer>) -> bool {
    match (
        state.ark_server_list_state.selected,
        state.ark_server_mod_list_state.selected,
        state.ark_server_mod_list_edit_state.selected,
    ) {
        (Some(i), Some(j), Some(k)) => i < servers.len() && j < servers[i as int].mods@.len()
            && mod_field_ok(k as int, state.tmp_mod_field@),
        _ => false,
    }
}

/// What a successful mod commit leaves behind: only the one addressed mod
/// changed, its addressed field replaced by the buffer.
pub open spec fn mod_committed_rel(
    state: RenderState,
    pre: Seq<ArkServer>,
    post: Seq<ArkServer>,
) -> bool {
    match (
        state.ark_server_list_state.selected,
        state.ark_server_mod_list_state.selected,
        state.ark_server_mod_list_edit_state.selected,
    ) {
        (Some(i), Some(j), Some(k)) => with_mod_updated(
            pre,
            post,
            i as int,
            j as int,
            mod_with_field(pre[i as int].mods@[j as int], k as int, state.tmp_mod_field),
        ),
        _ => post == pre,
    }
}

/// Commit the scratch buffer into the mod field addressed by the mod edit
/// cursor, under the same coercion rule as the server commit.
pub fn set_server_mod_property(servers: &mut Vec<ArkServer>, state: &RenderState) -> (r: Result<
    (),
    Error,
>)
    ensures
        match (
            state.ark_server_list_state.selected,
            state.ark_server_mod_list_state.selected,
            state.ark_server_mod_list_edit_state.selected,
        ) {
            (Some(i), Some(j), Some(k)) => {
                if i < old(servers)@.len() && j < old(servers)@[i as int].mods@.len() {
                    if mod_field_ok(k as int, state.tmp_mod_field@) {
                        &&& r matches Ok(u)
                        &&& with_mod_updated(
                            old(servers)@,
                            final(servers)@,
                            i as int,
                            j as int,
                            mod_with_field(
                                old(servers)@[i as int].mods@[j as int],
                                k as int,
                                state.tmp_mod_field,
                            ),
                        )
                    } else {
                        &&& r matches Err(e) && e == Error::FieldTypeError
                        &&& final(servers)@ == old(servers)@
                    }
                } else {
                    &&& r matches Err(e) && e == Error::SelectionInvalid
                    &&& final(servers)@ == old(servers)@
                }
            },
            _ => {
                &&& r matches Err(e) && e == Error::SelectionInvalid
                &&& final(servers)@ == old(servers)@
            },
        },
{
    let selected_server: usize = match state.ark_server_list_state.selected() {
        Some(i) => i,
        None => {
            return Err(Error::SelectionInvalid);
        },
    };
    let selected_mod: usize = match state.ark_server_mod_list_state.selected() {
        Some(j) => j,
        None => {
            return Err(Error::SelectionInvalid);
        },
    };
    let k: usize = match state.ark_server_mod_list_edit_state.selected() {
        Some(k) => k,
        None => {
            return Err(Error::SelectionInvalid);
        },
    };
    if selected_server >= servers.len() {
        return Err(Error::SelectionInvalid);
    }
    if selected_mod >= servers[selected_server].mods.len() {
        return Err(Error::SelectionInvalid);
    }
    match k {
        0 => {
            match parse_usize(&state.tmp_mod_field) {
                Some(v) => {
                    servers[selected_server].mods[selected_mod].id = v;
                },
                None => {
                    return Err(Error::FieldTypeError);
                },
            }
        },
        1 => {
            servers[selected_server].mods[selected_mod].name = state.tmp_mod_field.clone();
        },
        2 => {
            servers[selected_server].mods[selected_mod].category = state.tmp_mod_field.clone();
        },
        3 => {
            match parse_usize(&state.tmp_mod_field) {
                Some(v) => {
                    servers[selected_server].mods[selected_mod].age = v;
                },
                None => {
                    return Err(Error::FieldTypeError);
                },
            }
        },
        _ => {
            proof {
                assert(servers@[selected_server as int].mods@ =~= old(servers)@[
                    selected_server as int].mods@.update(
                    selected_mod as int,
                    old(servers)@[selected_server as int].mods@[selected_mod as int],
                ));
            }
        },
    }
    Ok(())
}

/// The mod list of the server under the cursor.
pub fn get_server_mods(servers: &Vec<ArkServer>, state: &RenderState) -> (r: Result<
    Vec<ArkServerMod>,
    Error,
>)
    ensures
        match selected_server_of(*state, servers@) {
            Some(s) => r matches Ok(v) && v@ == s.mods@,
            None => r matches Err(e) && e == Error::SelectionInvalid,
        },
{
    match state.ark_server_list_state.selected() {
        Some(i) => {
            if i < servers.len() {
                let mods: Vec<ArkServerMod> = servers[i].mods.clone();
                proof {
                    assert forall|t: int| 0 <= t < servers@[i as int].mods@.len() implies mods@[t]
                        == servers@[i as int].mods@[t] by {
                        assert(cloned::<ArkServerMod>(servers@[i as int].mods@[t], mods@[t]));
                    }
                    assert(mods@ =~= servers@[i as int].mods@);
                }
                Ok(mods)
            } else {
                Err(Error::SelectionInvalid)
            }
        },
        None => Err(Error::SelectionInvalid),
    }
}

/// The mod names of a list, each followed by a comma and a space.
pub open spec fn mods_str(mods: Seq<ArkServerMod>) -> Seq<char>
    decreases mods.len(),
{
    if mods.len() == 0 {
        Seq::<char>::empty()
    } else {
        mods_str(mods.drop_last()) + mods.last().name@ + ", "@
    }
}

/// The names of the selected server's mods as one line of text.
pub fn get_server_mods_str(servers: &Vec<ArkServer>, state: &RenderState) -> (r: Result<
    String,
    Error,
>)
    ensures
        match selected_server_of(*state, servers@) {
            Some(s) => r matches Ok(line) && line@ == mods_str(s.mods@),
            None => r matches Err(e) && e == Error::SelectionInvalid,
        },
{
    match state.ark_server_list_state.selected() {
        Some(i) => {
            if i < servers.len() {
                let num_mods: usize = servers[i].mods.len();
                let mut line = String::new();
                let mut j: usize = 0;
                proof {
                    assert(servers@[i as int].mods@.take(0) =~= Seq::<ArkServerMod>::empty());
                }
                while j < num_mods
                    invariant
                        i < servers@.len(),
                        num_mods == servers@[i as int].mods@.len(),
                        0 <= j <= num_mods,
                        line@ == mods_str(servers@[i as int].mods@.take(j as int)),
                    decreases num_mods - j,
                {
                    line.append(servers[i].mods[j].name.as_str());
                    line.append(", ");
                    proof {
                        let mods = servers@[i as int].mods@;
                        assert(mods.take(j + 1).drop_last() =~= mods.take(j as int));
                        assert(mods.take(j + 1).last() == mods[j as int]);
                    }
                    j = j + 1;
                }
                proof {
                    assert(servers@[i as int].mods@.take(num_mods as int) =~= servers@[
                        i as int].mods@);
                }
                Ok(line)
            } else {
                Err(Error::SelectionInvalid)
            }
        },
        None => Err(Error::SelectionInvalid),
    }
}

/// The mod under the mod cursor of the selected server.
pub fn get_server_mod(servers: &Vec<ArkServer>, state: &RenderState) -> (r: Result<
    ArkServerMod,
    Error,
>)
    ensures
        match selected_mod_of(*state, servers@) {
            Some(m) => r matches Ok(got) && got == m,
            None => r matches Err(e) && e == Error::SelectionInvalid,
        },
{
    match (state.ark_server_list_state.selected(), state.ark_server_mod_list_state.selected()) {
        (Some(i), Some(j)) => {
            if i < servers.len() {
                if j < servers[i].mods.len() {
                    Ok(servers[i].mods[j].clone())
                } else {
                    Err(Error::SelectionInvalid)
                }
            } else {
                Err(Error::SelectionInvalid)
            }
        },
        _ => Err(Error::SelectionInvalid),
    }
}

/// The rows of the server detail and edit tables, as text.
pub open spec fn server_prop_view(s: ArkServer, k: int) -> Seq<char> {
    if k == 0 {
        dec_str(s.id as nat)
    } else if k == 1 {
        s.name@
    } else if k == 2 {
        s.category@
    } else if k == 3 {
        dec_str(s.age as nat)
    } else if k == 4 {
        s.service_name@
    } else {
        s.created_at@
    }
}

/// The rows of the mod detail and edit tables, as text.
pub open spec fn mod_prop_view(m: ArkServerMod, k: int) -> Seq<char> {
    if k == 0 {
        dec_str(m.id as nat)
    } else if k == 1 {
        m.name@
    } else if k == 2 {
        m.category@
    } else if k == 3 {
        dec_str(m.age as nat)
    } else {
        m.created_at@
    }
}

/// All rows of the selected server's detail table.
pub fn get_server_properties(servers: &Vec<ArkServer>, state: &RenderState) -> (r: Result<
    Vec<String>,
    Error,
>)
    ensures
        match selected_server_of(*state, servers@) {
            Some(s) => {
                &&& r matches Ok(props)
                &&& props@.len() == 6
                &&& forall|k: int| 0 <= k < 6 ==> (#[trigger] props@[k])@ == server_prop_view(s, k)
            },
            None => r matches Err(e) && e == Error::SelectionInvalid,
        },
{
    match state.ark_server_list_state.selected() {
        Some(i) => {
            if i < servers.len() {
                let mut props: Vec<String> = Vec::new();
                props.push(u_to_string(servers[i].id));
                props.push(servers[i].name.clone());
                props.push(servers[i].category.clone());
                props.push(u_to_string(servers[i].age));
                props.push(servers[i].service_name.clone());
                props.push(servers[i].created_at.clone());
                Ok(props)
            } else {
                Err(Error::SelectionInvalid)
            }
        },
        None => Err(Error::SelectionInvalid),
    }
}

/// All rows of the selected mod's detail table.
pub fn get_server_mod_properties(servers: &Vec<ArkServer>, state: &RenderState) -> (r: Result<
    Vec<String>,
    Error,
>)
    ensures
        match selected_mod_of(*state, servers@) {
            Some(m) => {
                &&& r matches Ok(props)
                &&& props@.len() == 5
                &&& forall|k: int| 0 <= k < 5 ==> (#[trigger] props@[k])@ == mod_prop_view(m, k)
            },
            None => r matches Err(e) && e == Error::SelectionInvalid,
        },
{
    match get_server_mod(servers, state) {
        Ok(m) => {
            let mut props: Vec<String> = Vec::new();
            props.push(u_to_string(m.id));
            props.push(m.name.clone());
            props.push(m.category.clone());
            props.push(u_to_string(m.age));
            props.push(m.created_at.clone());
            Ok(props)
        },
        Err(e) => Err(e),
    }
}

/// The one row of the mod detail table the mod edit cursor rests on.
pub fn get_server_mod_property(servers: &Vec<ArkServer>, state: &RenderState) -> (r: Result<
    String,
    Error,
>)
    ensures
        match (selected_mod_of(*state, servers@), state.ark_server_mod_list_edit_state.selected) {
            (Some(m), Some(k)) => {
                if k < 5 {
                    r matches Ok(p) && p@ == mod_prop_view(m, k as int)
                } else {
                    r matches Err(e) && e == Error::SelectionInvalid
                }
            },
            _ => r matches Err(e) && e == Error::SelectionInvalid,
        },
{
    let sel: usize = match state.ark_server_mod_list_edit_state.selected() {
        Some(k) => k,
        None => {
            return Err(Error::SelectionInvalid);
        },
    };
    match get_server_mod_properties(servers, state) {
        Ok(props) => {
            if sel < props.len() {
                Ok(props[sel].clone())
            } else {
                Err(Error::SelectionInvalid)
            }
        },
        Err(e) => Err(e),
    }
}

/// The one row of the server detail table the server edit cursor rests on.
pub fn get_server_property(servers: &Vec<ArkServer>, state: &RenderState) -> (r: Result<
    String,
    Error,
>)
    ensures
        match (selected_server_of(*state, servers@), state.ark_server_list_edit_state.selected) {
            (Some(s), Some(k)) => {
                if k < 6 {
                    r matches Ok(p) && p@ == server_prop_view(s, k as int)
                } else {
                    r matches Err(e) && e == Error::SelectionInvalid
                }
            },
            _ => r matches Err(e) && e == Error::SelectionInvalid,
        },
{
    let sel: usize = match state.ark_server_list_edit_state.selected() {
        Some(k) => k,
        None => {
            return Err(Error::SelectionInvalid);
        },
    };
    match get_server_properties(servers, state) {
        Ok(props) => {
            if sel < props.len() {
                Ok(props[sel].clone())
            } else {
                Err(Error::SelectionInvalid)
            }
        },
        Err(e) => Err(e),
    }
}

/// The service identifier of the server under the cursor.
pub fn get_server_service_name(servers: &Vec<ArkServer>, state: &RenderState) -> (r: Result<
    String,
    Error,
>)
    ensures
        match selected_server_of(*state, servers@) {
            Some(s) => r matches Ok(n) && n == s.service_name,
            None => r matches Err(e) && e == Error::SelectionInvalid,
        },
{
    match state.ark_server_list_state.selected() {
        Some(i) => {
            if i < servers.len() {
                Ok(servers[i].service_name.clone())
            } else {
                Err(Error::SelectionInvalid)
            }
        },
        None => Err(Error::SelectionInvalid),
    }
}

/// The collections agree but for the mod list of server `i`, which grew by
/// the one given mod at its end.
pub open spec fn with_mod_appended(
    pre: Seq<ArkServer>,
    post: Seq<ArkServer>,
    i: int,
    m: ArkServerMod,
) -> bool {
    &&& post.len() == pre.len()
    &&& forall|t: int| 0 <= t < pre.len() && t != i ==> post[t] == pre[t]
    &&& post[i].id == pre[i].id
    &&& post[i].name == pre[i].name
    &&& post[i].category == pre[i].category
    &&& post[i].age == pre[i].age
    &&& post[i].service_name == pre[i].service_name
    &&& post[i].created_at == pre[i].created_at
    &&& post[i].mods@ == pre[i].mods@.push(m)
}

/// Append a fresh mod named "New Mod" to the server under the cursor. No
/// cursor moves.
pub fn add_ark_server_mod_to_db(servers: &mut Vec<ArkServer>, state: &RenderState) -> (r: Result<
    (),
    Error,
>)
    ensures
        match state.ark_server_list_state.selected {
            Some(i) => {
                if i < old(servers)@.len() {
                    &&& r matches Ok(u)
                    &&& final(servers)@.len() == old(servers)@.len()
                    &&& exists|m: ArkServerMod|
                        with_mod_appended(old(servers)@, final(servers)@, i as int, m)
                            && is_default_mod(m, "New Mod"@)
                } else {
                    &&& r matches Err(e) && e == Error::SelectionInvalid
                    &&& final(servers)@ == old(servers)@
                }
            },
            None => {
                &&& r matches Err(e) && e == Error::SelectionInvalid
                &&& final(servers)@ == old(servers)@
            },
        },
{
    match state.ark_server_list_state.selected() {
        Some(selected_server) => {
            if selected_server < servers.len() {
                let m = ArkServerMod::named("New Mod");
                let ghost gm = m;
                servers[selected_server].mods.push(m);
                proof {
                    assert(with_mod_appended(old(servers)@, servers@, selected_server as int, gm));
                }
                Ok(())
            } else {
                Err(Error::SelectionInvalid)
            }
        },
        None => Err(Error::SelectionInvalid),
    }
}

/// The collections agree but for the mod list of server `i`, which lost
/// the mod at row `j`.
pub open spec fn with_mod_removed(
    pre: Seq<ArkServer>,
    post: Seq<ArkServer>,
    i: int,
    j: int,
) -> bool {
    &&& post.len() == pre.len()
    &&& forall|t: int| 0 <= t < pre.len() && t != i ==> post[t] == pre[t]
    &&& post[i].id == pre[i].id
    &&& post[i].name == pre[i].name
    &&& post[i].category == pre[i].category
    &&& post[i].age == pre[i].age
    &&& post[i].service_name == pre[i].service_name
    &&& post[i].created_at == pre[i].created_at
    &&& post[i].mods@ == pre[i].mods@.remove(j)
}

/// Remove the mod under the mod cursor of the selected server. The mod
/// cursor slides under the same policy as the server cursor on a delete.
pub fn remove_ark_server_mod_at_index(servers: &mut Vec<ArkServer>, state: &mut RenderState) -> (r:
    Result<(), Error>)
    ensures
        match (
            old(state).ark_server_list_state.selected,
            old(state).ark_server_mod_list_state.selected,
        ) {
            (Some(i), Some(j)) => {
                if i < old(servers)@.len() && j < old(servers)@[i as int].mods@.len() {
                    &&& r matches Ok(u)
                    &&& with_mod_removed(old(servers)@, final(servers)@, i as int, j as int)
                    &&& *final(state) == (RenderState {
                        ark_server_mod_list_state: (ListState {
                            selected: cursor_after_remove(
                                j as nat,
                                old(servers)@[i as int].mods@.len(),
                            ),
                        }),
                        ..*old(state)
                    })
                } else {
                    &&& r matches Err(e) && e == Error::SelectionInvalid
                    &&& final(servers)@ == old(servers)@
                    &&& *final(state) == *old(state)
                }
            },
            _ => {
                &&& r matches Err(e) && e == Error::SelectionInvalid
                &&& final(servers)@ == old(servers)@
                &&& *final(state) == *old(state)
            },
        },
        old(state).wf(old(servers)@) ==> final(state).wf(final(servers)@),
{
    let selected_server: usize = match state.ark_server_list_state.selected() {
        Some(i) => i,
        None => {
            return Err(Error::SelectionInvalid);
        },
    };
    let selected_mod: usize = match state.ark_server_mod_list_state.selected() {
        Some(j) => j,
        None => {
            return Err(Error::SelectionInvalid);
        },
    };
    if selected_server >= servers.len() {
        return Err(Error::SelectionInvalid);
    }
    if selected_mod >= servers[selected_server].mods.len() {
        return Err(Error::SelectionInvalid);
    }
    let num_mods: usize = servers[selected_server].mods.len();
    servers[selected_server].mods.remove(selected_mod);
    if selected_mod > 0 {
        state.ark_server_mod_list_state.select(Some(selected_mod - 1));
    } else if num_mods == 1 {
        state.ark_server_mod_list_state.select(None);
    } else {
        state.ark_server_mod_list_state.select(Some(0));
    }
    Ok(())
}

} // verus!
