use ark_server_manager::ark::{ArkServer, ArkServerMod, Error, Event, KeyCode, MenuItem, RenderState};
use ark_server_manager::db::{
    get_server_mod_properties, get_server_mod_property, get_server_properties,
    get_server_property, set_server_mod_property, set_server_property,
};
use ark_server_manager::input::{get_input_char, process_edit_server, process_input, process_server_edits};
use ark_server_manager::render::{edit_view_values, home_status_line};
use ark_server_manager::service::{pick_output, Effect};
use ark_server_manager::text::{parse_usize, u_to_string};

fn fresh_state(servers: &Vec<ArkServer>) -> RenderState {
    let mut state = RenderState::new();
    state.revalidate(servers);
    state
}

#[test]
fn accepted_alphabet_is_lowercase_digits_space() {
    assert_eq!(get_input_char(KeyCode::Char('a')), "a");
    assert_eq!(get_input_char(KeyCode::Char('z')), "z");
    assert_eq!(get_input_char(KeyCode::Char('0')), "0");
    assert_eq!(get_input_char(KeyCode::Char('9')), "9");
    assert_eq!(get_input_char(KeyCode::Char(' ')), " ");
    assert_eq!(get_input_char(KeyCode::Char('A')), "");
    assert_eq!(get_input_char(KeyCode::Char('!')), "");
    assert_eq!(get_input_char(KeyCode::Char('\u{00e9}')), "");
    assert_eq!(get_input_char(KeyCode::Other), "");
}

#[test]
fn typing_appends_and_ignores_other_symbols() {
    let mut servers = vec![ArkServer::named("alpha")];
    let mut state = fresh_state(&servers);
    state.editing_server = true;
    for c in ['a', '1', 'Z', '!', ' ', 'b'] {
        process_server_edits(&mut state, &mut servers, Event::Input(KeyCode::Char(c))).unwrap();
    }
    assert_eq!(state.tmp_server_field, "a1 b");
}

#[test]
fn backspace_is_accepted_but_inert() {
    let mut servers = vec![ArkServer::named("alpha")];
    let mut state = fresh_state(&servers);
    state.editing_server = true;
    state.tmp_server_field = "abc".to_string();
    let eff = process_server_edits(&mut state, &mut servers, Event::Input(KeyCode::Backspace)).unwrap();
    assert_eq!(eff, Effect::Nothing);
    assert!(state.editing_server);
    assert_eq!(state.tmp_server_field, "abc");
}

#[test]
fn entering_edit_clears_the_buffer() {
    let servers = vec![ArkServer::named("alpha")];
    let mut state = fresh_state(&servers);
    state.active_menu_item = MenuItem::EditServer;
    state.tmp_server_field = "left over".to_string();
    process_edit_server(&mut state, KeyCode::Enter).unwrap();
    assert!(state.editing_server);
    assert_eq!(state.tmp_server_field, "");
}

#[test]
fn commit_updates_exactly_the_targeted_field() {
    let mut servers = vec![ArkServer::named("alpha"), ArkServer::named("beta")];
    let mut state = fresh_state(&servers);
    state.ark_server_list_state.select(Some(1));
    state.ark_server_list_edit_state.select(Some(1));
    state.tmp_server_field = "renamed".to_string();
    set_server_property(&mut servers, &state).unwrap();
    assert_eq!(servers[1].name, "renamed");
    assert_eq!(servers[1].id, 0);
    assert_eq!(servers[1].category, "");
    assert_eq!(servers[0].name, "alpha");
}

#[test]
fn commit_parses_numeric_fields() {
    let mut servers = vec![ArkServer::named("alpha")];
    let mut state = fresh_state(&servers);
    state.ark_server_list_edit_state.select(Some(0));
    state.tmp_server_field = "42".to_string();
    set_server_property(&mut servers, &state).unwrap();
    assert_eq!(servers[0].id, 42);
    state.ark_server_list_edit_state.select(Some(3));
    state.tmp_server_field = "7".to_string();
    set_server_property(&mut servers, &state).unwrap();
    assert_eq!(servers[0].age, 7);
}

#[test]
fn invalid_integer_buffer_leaves_record_unchanged() {
    let mut servers = vec![ArkServer::named("alpha")];
    servers[0].id = 9;
    servers[0].category = "pve".to_string();
    let mut state = fresh_state(&servers);
    state.editing_server = true;
    state.ark_server_list_edit_state.select(Some(0));
    state.tmp_server_field = "12x".to_string();

    let eff = process_server_edits(&mut state, &mut servers, Event::Input(KeyCode::Enter)).unwrap();
    assert_eq!(eff, Effect::Nothing);
    // Still in edit mode, buffer still visible, record untouched.
    assert!(state.editing_server);
    assert_eq!(state.tmp_server_field, "12x");
    assert_eq!(servers[0].id, 9);
    assert_eq!(servers[0].name, "alpha");
    assert_eq!(servers[0].category, "pve");
    assert_eq!(servers[0].age, 0);
    assert_eq!(servers[0].service_name, "");
}

#[test]
fn empty_and_oversized_buffers_are_type_errors() {
    let mut servers = vec![ArkServer::named("alpha")];
    let mut state = fresh_state(&servers);
    state.ark_server_list_edit_state.select(Some(0));
    state.tmp_server_field = "".to_string();
    assert_eq!(set_server_property(&mut servers, &state), Err(Error::FieldTypeError));
    state.tmp_server_field = "99999999999999999999999999".to_string();
    assert_eq!(set_server_property(&mut servers, &state), Err(Error::FieldTypeError));
    assert_eq!(servers[0].id, 0);
}

#[test]
fn successful_commit_asks_for_persistence() {
    let mut servers = vec![ArkServer::named("alpha")];
    let mut state = fresh_state(&servers);
    state.editing_server = true;
    state.ark_server_list_edit_state.select(Some(2));
    state.tmp_server_field = "pvp".to_string();
    let (_, eff) = process_input(&mut state, &mut servers, Event::Input(KeyCode::Enter)).unwrap();
    assert_eq!(eff, Effect::Persist);
    assert!(!state.editing_server);
    assert_eq!(servers[0].category, "pvp");
}

#[test]
fn mod_commit_follows_the_same_protocol() {
    let mut servers = vec![ArkServer::named("alpha")];
    servers[0].mods.push(ArkServerMod::named("one"));
    let mut state = fresh_state(&servers);
    state.ark_server_mod_list_edit_state.select(Some(3));
    state.tmp_mod_field = "15".to_string();
    set_server_mod_property(&mut servers, &state).unwrap();
    assert_eq!(servers[0].mods[0].age, 15);

    state.ark_server_mod_list_edit_state.select(Some(0));
    state.tmp_mod_field = "nope".to_string();
    assert_eq!(set_server_mod_property(&mut servers, &state), Err(Error::FieldTypeError));
    assert_eq!(servers[0].mods[0].id, 0);
}

#[test]
fn mod_commit_without_mod_selection_is_an_error() {
    let mut servers = vec![ArkServer::named("alpha")];
    let mut state = fresh_state(&servers);
    state.tmp_mod_field = "x".to_string();
    assert_eq!(set_server_mod_property(&mut servers, &state), Err(Error::SelectionInvalid));
}

#[test]
fn properties_render_records_as_text() {
    let mut servers = vec![ArkServer::named("alpha")];
    servers[0].id = 12345;
    servers[0].category = "pve".to_string();
    servers[0].age = 3;
    servers[0].service_name = "alpha.service".to_string();
    servers[0].created_at = "stamp".to_string();
    servers[0].mods.push(ArkServerMod::named("one"));
    servers[0].mods[0].id = 8;
    servers[0].mods[0].created_at = "mstamp".to_string();
    let state = fresh_state(&servers);

    let props = get_server_properties(&servers, &state).unwrap();
    assert_eq!(props, vec!["12345", "alpha", "pve", "3", "alpha.service", "stamp"]);

    let mprops = get_server_mod_properties(&servers, &state).unwrap();
    assert_eq!(mprops, vec!["8", "one", "", "0", "mstamp"]);

    let mut state2 = state;
    state2.ark_server_list_edit_state.select(Some(4));
    assert_eq!(get_server_property(&servers, &state2).unwrap(), "alpha.service");
    state2.ark_server_mod_list_edit_state.select(Some(1));
    assert_eq!(get_server_mod_property(&servers, &state2).unwrap(), "one");
}

#[test]
fn numbers_render_in_decimal() {
    assert_eq!(u_to_string(0), "0");
    assert_eq!(u_to_string(7), "7");
    assert_eq!(u_to_string(10), "10");
    assert_eq!(u_to_string(90210), "90210");
    assert_eq!(u_to_string(usize::MAX), usize::MAX.to_string());
}

#[test]
fn buffers_parse_as_nonnegative_integers() {
    assert_eq!(parse_usize(&"0".to_string()), Some(0));
    assert_eq!(parse_usize(&"007".to_string()), Some(7));
    assert_eq!(parse_usize(&"90210".to_string()), Some(90210));
    assert_eq!(parse_usize(&usize::MAX.to_string()), Some(usize::MAX));
    assert_eq!(parse_usize(&"".to_string()), None);
    assert_eq!(parse_usize(&" 1".to_string()), None);
    assert_eq!(parse_usize(&"-1".to_string()), None);
    assert_eq!(parse_usize(&"1x".to_string()), None);
    assert_eq!(parse_usize(&"99999999999999999999999999".to_string()), None);
}

#[test]
fn edit_view_overlays_the_buffer() {
    let props = vec!["0".to_string(), "alpha".to_string(), "pve".to_string()];
    let tmp = "typed".to_string();
    let shown = edit_view_values(&props, 1, true, &tmp);
    assert_eq!(shown, vec!["0", "typed", "pve"]);
    let plain = edit_view_values(&props, 1, false, &tmp);
    assert_eq!(plain, vec!["0", "alpha", "pve"]);
    let out_of_range = edit_view_values(&props, 9, true, &tmp);
    assert_eq!(out_of_range, props);
}

#[test]
fn end_to_end_server_edit() {
    // From the server detail screen: edit, pick the service-name field,
    // type, confirm; the collection carries the committed value.
    let mut servers = vec![ArkServer::named("Alpha")];
    let mut state = fresh_state(&servers);
    state.active_menu_item = MenuItem::ViewServer;
    process_input(&mut state, &mut servers, Event::Input(KeyCode::Char('e'))).unwrap();
    assert_eq!(state.active_menu_item, MenuItem::EditServer);
    for _ in 0..4 {
        process_input(&mut state, &mut servers, Event::Input(KeyCode::Down)).unwrap();
    }
    assert_eq!(state.ark_server_list_edit_state.selected(), Some(4));
    process_input(&mut state, &mut servers, Event::Input(KeyCode::Enter)).unwrap();
    assert!(state.editing_server);
    assert_eq!(state.tmp_server_field, "");
    for c in ['a', 'r', 'k'] {
        process_input(&mut state, &mut servers, Event::Input(KeyCode::Char(c))).unwrap();
    }
    let (_, eff) = process_input(&mut state, &mut servers, Event::Input(KeyCode::Enter)).unwrap();
    assert_eq!(eff, Effect::Persist);
    assert!(!state.editing_server);
    assert_eq!(servers[0].service_name, "ark");
}

#[test]
fn field_cursors_wrap_over_editable_rows() {
    let servers = vec![ArkServer::named("alpha")];
    let mut state = fresh_state(&servers);
    // The server edit cursor wraps over five editable rows.
    for _ in 0..4 {
        process_edit_server(&mut state, KeyCode::Down).unwrap();
    }
    assert_eq!(state.ark_server_list_edit_state.selected(), Some(4));
    process_edit_server(&mut state, KeyCode::Down).unwrap();
    assert_eq!(state.ark_server_list_edit_state.selected(), Some(0));
    process_edit_server(&mut state, KeyCode::Up).unwrap();
    assert_eq!(state.ark_server_list_edit_state.selected(), Some(4));
}

#[test]
fn edit_indices_follow_the_edit_cursors() {
    let servers = vec![ArkServer::named("alpha")];
    let mut state = fresh_state(&servers);
    assert_eq!(state.get_server_edit_index(), 0);
    assert_eq!(state.get_mod_edit_index(), 0);
    state.ark_server_list_edit_state.select(Some(3));
    assert_eq!(state.get_server_edit_index(), 3);
}

#[test]
fn control_output_falls_back_to_stderr() {
    assert_eq!(pick_output("active\n".to_string(), "boom".to_string()), "active\n");
    assert_eq!(pick_output("".to_string(), "boom".to_string()), "boom");
}

#[test]
fn home_lines_join_name_and_status() {
    assert_eq!(
        home_status_line(&"Alpha".to_string(), &"active".to_string()),
        "Alpha:     active"
    );
}
