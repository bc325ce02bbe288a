use ark_server_manager::ark::{ArkServer, ArkServerMod, Error, Event, KeyCode, MenuItem, RenderState};
use ark_server_manager::db::{
    add_ark_server_mod_to_db, add_ark_server_to_db, get_num_server_mods, get_num_servers,
    get_server, get_server_mod, get_server_mods, get_server_mods_str, get_server_service_name,
    remove_ark_server_at_index, remove_ark_server_mod_at_index,
};
use ark_server_manager::input::{process_input, process_server_mods, process_servers};
use ark_server_manager::service::Effect;

fn fresh_state(servers: &Vec<ArkServer>) -> RenderState {
    let mut state = RenderState::new();
    state.revalidate(servers);
    state
}

#[test]
fn delete_last_record_empties_cursor() {
    let mut servers = vec![ArkServer::named("only")];
    let mut state = fresh_state(&servers);
    assert_eq!(state.ark_server_list_state.selected(), Some(0));
    remove_ark_server_at_index(&mut servers, &mut state).unwrap();
    assert_eq!(servers.len(), 0);
    assert_eq!(state.ark_server_list_state.selected(), None);
}

#[test]
fn delete_at_positive_cursor_shifts_left() {
    let mut servers = vec![
        ArkServer::named("alpha"),
        ArkServer::named("beta"),
        ArkServer::named("gamma"),
    ];
    let mut state = fresh_state(&servers);
    state.ark_server_list_state.select(Some(2));
    remove_ark_server_at_index(&mut servers, &mut state).unwrap();
    assert_eq!(servers.len(), 2);
    assert_eq!(state.ark_server_list_state.selected(), Some(1));
    assert_eq!(servers[0].name, "alpha");
    assert_eq!(servers[1].name, "beta");
}

#[test]
fn delete_at_cursor_zero_keeps_cursor_on_new_first() {
    let mut servers = vec![ArkServer::named("alpha"), ArkServer::named("beta")];
    let mut state = fresh_state(&servers);
    remove_ark_server_at_index(&mut servers, &mut state).unwrap();
    assert_eq!(servers.len(), 1);
    assert_eq!(state.ark_server_list_state.selected(), Some(0));
    assert_eq!(servers[0].name, "beta");
}

#[test]
fn delete_without_selection_is_an_error() {
    let mut servers: Vec<ArkServer> = Vec::new();
    let mut state = fresh_state(&servers);
    let r = remove_ark_server_at_index(&mut servers, &mut state);
    assert_eq!(r, Err(Error::SelectionInvalid));
}

#[test]
fn add_keeps_cursor_target() {
    let mut servers = vec![ArkServer::named("alpha"), ArkServer::named("beta")];
    let mut state = fresh_state(&servers);
    state.ark_server_list_state.select(Some(1));
    state.active_menu_item = MenuItem::Servers;
    let eff = process_servers(&mut state, &mut servers, KeyCode::Char('a')).unwrap();
    assert_eq!(eff, Effect::Persist);
    assert_eq!(servers.len(), 3);
    assert_eq!(state.ark_server_list_state.selected(), Some(1));
    assert_eq!(servers[1].name, "beta");
    assert_eq!(servers[2].name, "New Server");
}

#[test]
fn add_to_empty_collection_selects_the_record() {
    let mut servers: Vec<ArkServer> = Vec::new();
    let mut state = fresh_state(&servers);
    state.active_menu_item = MenuItem::Servers;
    let eff = process_servers(&mut state, &mut servers, KeyCode::Char('a')).unwrap();
    assert_eq!(eff, Effect::Persist);
    assert_eq!(servers.len(), 1);
    assert_eq!(state.ark_server_list_state.selected(), Some(0));
}

#[test]
fn add_mod_keeps_mod_cursor_target() {
    let mut servers = vec![ArkServer::named("alpha")];
    servers[0].mods.push(ArkServerMod::named("one"));
    servers[0].mods.push(ArkServerMod::named("two"));
    let mut state = fresh_state(&servers);
    state.ark_server_mod_list_state.select(Some(1));
    let eff = process_server_mods(&mut state, &mut servers, KeyCode::Char('a')).unwrap();
    assert_eq!(eff, Effect::Persist);
    assert_eq!(servers[0].mods.len(), 3);
    assert_eq!(state.ark_server_mod_list_state.selected(), Some(1));
    assert_eq!(servers[0].mods[1].name, "two");
    assert_eq!(servers[0].mods[2].name, "New Mod");
}

#[test]
fn fresh_records_have_default_fields() {
    let s = ArkServer::named("alpha");
    assert_eq!(s.id, 0);
    assert_eq!(s.name, "alpha");
    assert_eq!(s.category, "");
    assert_eq!(s.age, 0);
    assert_eq!(s.service_name, "");
    assert!(s.mods.is_empty());
    let s2 = ArkServer::new();
    assert_eq!(s2.name, "");
    let m = ArkServerMod::named("m");
    assert_eq!(m.name, "m");
    assert_eq!(m.descripton, "");
    assert!(!m.enabled);
    assert_eq!(m.age, 0);
    let m2 = ArkServerMod::new();
    assert_eq!(m2.name, "");
}

#[test]
fn getters_follow_the_cursors() {
    let mut servers = vec![ArkServer::named("alpha"), ArkServer::named("beta")];
    servers[1].service_name = "beta.service".to_string();
    servers[1].mods.push(ArkServerMod::named("one"));
    servers[1].mods.push(ArkServerMod::named("two"));
    let mut state = fresh_state(&servers);
    state.ark_server_list_state.select(Some(1));
    state.ark_server_mod_list_state.select(Some(1));

    assert_eq!(get_num_servers(&servers), Ok(2));
    assert_eq!(get_num_server_mods(&servers, &state), Ok(2));
    assert_eq!(get_server(&servers, &state).unwrap().name, "beta");
    assert_eq!(get_server_mod(&servers, &state).unwrap().name, "two");
    assert_eq!(get_server_mods(&servers, &state).unwrap().len(), 2);
    assert_eq!(get_server_mods_str(&servers, &state).unwrap(), "one, two, ");
    assert_eq!(get_server_service_name(&servers, &state).unwrap(), "beta.service");
}

#[test]
fn getters_without_selection_fail() {
    let servers: Vec<ArkServer> = Vec::new();
    let state = fresh_state(&servers);
    assert_eq!(get_server(&servers, &state).unwrap_err(), Error::SelectionInvalid);
    assert_eq!(get_num_server_mods(&servers, &state).unwrap_err(), Error::SelectionInvalid);
    assert_eq!(get_server_mods_str(&servers, &state).unwrap_err(), Error::SelectionInvalid);
    assert_eq!(get_server_service_name(&servers, &state).unwrap_err(), Error::SelectionInvalid);
}

#[test]
fn remove_mod_follows_delete_policy() {
    let mut servers = vec![ArkServer::named("alpha")];
    servers[0].mods.push(ArkServerMod::named("one"));
    servers[0].mods.push(ArkServerMod::named("two"));
    servers[0].mods.push(ArkServerMod::named("three"));
    let mut state = fresh_state(&servers);
    state.ark_server_mod_list_state.select(Some(2));
    remove_ark_server_mod_at_index(&mut servers, &mut state).unwrap();
    assert_eq!(servers[0].mods.len(), 2);
    assert_eq!(state.ark_server_mod_list_state.selected(), Some(1));
    assert_eq!(servers[0].mods[0].name, "one");
    assert_eq!(servers[0].mods[1].name, "two");
}

#[test]
fn add_mod_without_server_is_an_error() {
    let mut servers: Vec<ArkServer> = Vec::new();
    let state = fresh_state(&servers);
    let r = add_ark_server_mod_to_db(&mut servers, &state);
    assert_eq!(r, Err(Error::SelectionInvalid));
}

#[test]
fn add_server_appends_a_default_record() {
    let mut servers = vec![ArkServer::named("alpha")];
    add_ark_server_to_db(&mut servers);
    assert_eq!(servers.len(), 2);
    assert_eq!(servers[1].name, "New Server");
    assert_eq!(servers[1].id, 0);
    assert!(servers[1].mods.is_empty());
}

#[test]
fn service_keys_ask_for_control_actions() {
    let mut servers = vec![ArkServer::named("alpha")];
    let mut state = fresh_state(&servers);
    let start = process_servers(&mut state, &mut servers, KeyCode::Char('s')).unwrap();
    assert_eq!(start, Effect::Start);
    let restart = process_servers(&mut state, &mut servers, KeyCode::Char('r')).unwrap();
    assert_eq!(restart, Effect::Restart);
    assert_eq!(servers.len(), 1);
}

#[test]
fn quit_key_types_into_an_open_buffer() {
    let mut servers = vec![ArkServer::named("alpha")];
    let mut state = fresh_state(&servers);
    state.editing_mod = true;
    let (ev, eff) = process_input(&mut state, &mut servers, Event::Input(KeyCode::Char('q'))).unwrap();
    assert_eq!(ev, ark_server_manager::ark::InputEvent::Other);
    assert_eq!(eff, Effect::Nothing);
    assert_eq!(state.tmp_mod_field, "q");
    assert!(state.editing_mod);
}

#[test]
fn end_to_end_mod_lifecycle() {
    // One server, no mods; everything below goes through the dispatcher.
    let mut servers = vec![ArkServer::named("Alpha")];
    let mut state = fresh_state(&servers);
    state.active_menu_item = MenuItem::ServerMods;

    // Two adds: the mod list grows to two.
    process_input(&mut state, &mut servers, Event::Input(KeyCode::Char('a'))).unwrap();
    process_input(&mut state, &mut servers, Event::Input(KeyCode::Char('a'))).unwrap();
    assert_eq!(servers[0].mods.len(), 2);
    servers[0].mods[0].name = "one".to_string();
    servers[0].mods[1].name = "two".to_string();

    // Delete at cursor 0: the remaining mod is the second one added.
    assert_eq!(state.ark_server_mod_list_state.selected(), Some(0));
    let (_, eff) = process_input(&mut state, &mut servers, Event::Input(KeyCode::Char('d'))).unwrap();
    assert_eq!(eff, Effect::Persist);
    assert_eq!(servers[0].mods.len(), 1);
    assert_eq!(servers[0].mods[0].name, "two");

    // Open the mod, edit field 1 (the name), type "boot", confirm.
    process_input(&mut state, &mut servers, Event::Input(KeyCode::Enter)).unwrap();
    assert_eq!(state.active_menu_item, MenuItem::ViewMod);
    process_input(&mut state, &mut servers, Event::Input(KeyCode::Char('e'))).unwrap();
    assert_eq!(state.active_menu_item, MenuItem::EditMod);
    process_input(&mut state, &mut servers, Event::Input(KeyCode::Down)).unwrap();
    assert_eq!(state.ark_server_mod_list_edit_state.selected(), Some(1));
    process_input(&mut state, &mut servers, Event::Input(KeyCode::Enter)).unwrap();
    assert!(state.editing_mod);
    for c in ['b', 'o', 'o', 't'] {
        process_input(&mut state, &mut servers, Event::Input(KeyCode::Char(c))).unwrap();
    }
    let (_, eff) = process_input(&mut state, &mut servers, Event::Input(KeyCode::Enter)).unwrap();
    assert_eq!(eff, Effect::Persist);
    assert!(!state.editing_mod);
    assert_eq!(servers[0].mods[0].name, "boot");
}
