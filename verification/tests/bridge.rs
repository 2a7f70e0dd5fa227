use rustycube::errors::ExtensionError;
use rustycube::registry::{key_content, BufferKey, BufferRegistry};
use rustycube::state::ExtensionState;
use rustycube::surface::{refresh_main_menu, refresh_say_surface, Surface};

#[test]
fn get_or_create_is_idempotent() {
    let mut reg = BufferRegistry::new();
    let first = reg.get_or_create(BufferKey::MenuName);
    let mut last = first;
    for _ in 0..5 {
        last = reg.get_or_create(BufferKey::MenuName);
        assert_eq!(last, first);
        assert_eq!(reg.entries.len(), 1);
        assert_eq!(reg.entries[last].text, "rustycube");
    }
}

#[test]
fn get_or_create_distinct_keys_get_distinct_slots() {
    let mut reg = BufferRegistry::new();
    let name = reg.get_or_create(BufferKey::MenuName);
    let title = reg.get_or_create(BufferKey::MenuTitle);
    assert_ne!(name, title);
    assert_eq!(reg.entries[name].text, "rustycube");
    assert_eq!(reg.entries[title].text, "Rusty Cube");
    assert_eq!(reg.get_or_create(BufferKey::MenuName), name);
    assert_eq!(reg.get_or_create(BufferKey::MenuTitle), title);
}

#[test]
fn set_once_refuses_reinitialization() {
    let mut reg = BufferRegistry::new();
    let slot = reg.set_once(BufferKey::CommandSayName).expect("first initialization");
    assert_eq!(reg.entries[slot].text, "rustysay");
    let again = reg.set_once(BufferKey::CommandSayName);
    assert_eq!(again, Err(ExtensionError::BufferReinitConflict));
    assert_eq!(reg.entries.len(), 1);
}

#[test]
fn key_contents_match_host_protocol() {
    assert_eq!(key_content(BufferKey::ItemHelloLabel), "Hello");
    assert_eq!(key_content(BufferKey::ItemHelloAction), "rustysay hello");
    assert_eq!(key_content(BufferKey::ItemCloseLabel), "Close");
    assert_eq!(key_content(BufferKey::ItemCloseAction), "closecurmenu");
    assert_eq!(key_content(BufferKey::CommandMenuSignature), "");
    assert_eq!(key_content(BufferKey::CommandSaySignature), "s");
}

#[test]
fn refresh_yields_same_two_items_every_time() {
    let mut reg = BufferRegistry::new();
    let mut surface = Surface::new(7);
    for _ in 0..4 {
        refresh_main_menu(&mut surface, &mut reg);
        assert_eq!(surface.handle, 7);
        assert_eq!(surface.items.len(), 2);
        assert_eq!(surface.items[0].label, "Hello");
        assert_eq!(surface.items[0].action, "rustysay hello");
        assert_eq!(surface.items[1].label, "Close");
        assert_eq!(surface.items[1].action, "closecurmenu");
    }
    // The four buffers were created once and never again.
    assert_eq!(reg.entries.len(), 4);
}

#[test]
fn say_refresh_shows_stored_payload() {
    let mut reg = BufferRegistry::new();
    let mut surface = Surface::new(9);
    let mut state = ExtensionState::new(10, 20, 0);
    state.command_say(String::from("payload"));
    for _ in 0..3 {
        refresh_say_surface(&mut surface, &mut reg, &state);
        assert_eq!(surface.items.len(), 1);
        assert_eq!(surface.items[0].label, "payload");
        assert_eq!(surface.items[0].action, "closecurmenu");
    }
}

#[test]
fn commands_overwrite_current_surface() {
    let mut state = ExtensionState::new(10, 20, 0);
    assert_eq!(state.current, 0);

    state.command_open_menu();
    assert_eq!(state.current, 10);
    // Re-invoking while already active changes nothing.
    state.command_open_menu();
    assert_eq!(state.current, 10);

    state.command_say(String::from("hi"));
    assert_eq!(state.current, 20);
    assert_eq!(state.say_text, "hi");
    assert!(state.say_text_set);

    // An unconditional overwrite back, whatever was current before.
    state.command_open_menu();
    assert_eq!(state.current, 10);
    assert_eq!(state.say_text, "hi");
}

#[test]
fn say_command_stores_payload_exactly() {
    let mut state = ExtensionState::new(11, 22, 5);
    state.command_say(String::from("payload"));
    assert_eq!(state.say_text, "payload");
    assert_eq!(state.current, 22);
    state.command_say(String::from("second message"));
    assert_eq!(state.say_text, "second message");
    assert_eq!(state.current, 22);
}

#[test]
fn activate_is_an_unconditional_overwrite() {
    let mut state = ExtensionState::new(10, 20, 0);
    state.activate(99);
    assert_eq!(state.current, 99);
    state.activate(10);
    assert_eq!(state.current, 10);
    state.activate(10);
    assert_eq!(state.current, 10);
}
