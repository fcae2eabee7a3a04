use dc34_virtual_pet_core::badge::{GameAction, VirtualPet, KEY_CANCEL, KEY_OK, KEY_SELECT};
use dc34_virtual_pet_core::GameTime;

#[test]
fn select_cycles_through_the_menu() {
    let mut g = VirtualPet::new();
    assert_eq!(g.cursor(), Some(0));
    assert_eq!(g.key(KEY_SELECT), GameAction::Continue);
    assert_eq!(g.cursor(), Some(1));
    assert_eq!(g.key(KEY_SELECT), GameAction::Continue);
    assert_eq!(g.cursor(), Some(0));
}

#[test]
fn cancel_backs_out_one_step_at_a_time() {
    let mut g = VirtualPet::new();
    assert_eq!(g.key(KEY_CANCEL), GameAction::Continue);
    assert_eq!(g.cursor(), None);
    assert_eq!(g.key(KEY_OK), GameAction::Continue);
    assert_eq!(g.key(KEY_CANCEL), GameAction::Exit);
    assert_eq!(g.key(KEY_SELECT), GameAction::Continue);
    assert_eq!(g.cursor(), Some(0));
}

#[test]
fn ok_on_end_leaves() {
    let mut g = VirtualPet::new();
    g.key(KEY_SELECT);
    assert_eq!(g.key(KEY_OK), GameAction::Exit);
}

#[test]
fn the_greeting_shows_for_two_seconds() {
    let mut g = VirtualPet::default();
    g.start(10_000);
    g.tick(11_000);
    assert_eq!(g.key(KEY_OK), GameAction::Continue);
    assert_eq!(g.message(), Some("Hello, world!"));
    g.tick(12_999);
    assert_eq!(g.message(), Some("Hello, world!"));
    g.tick(13_000);
    assert_eq!(g.message(), None);
}

#[test]
fn other_keys_are_ignored() {
    let mut g = VirtualPet::new();
    assert_eq!(g.key('x'), GameAction::Continue);
    assert_eq!(g.cursor(), Some(0));
    assert_eq!(g.message(), None);
}

#[test]
fn start_resets_the_clock_and_the_menu() {
    let mut g = VirtualPet::new();
    g.key(KEY_CANCEL);
    g.start(500);
    assert_eq!(g.cursor(), Some(0));
    g.tick(100);
    assert_eq!(g.state().elapsed_ms(), 0);
    g.tick(500 + 3_000);
    assert_eq!(g.state().game_time(), GameTime { day: 1, hour: 0, minute: 36 });
}
