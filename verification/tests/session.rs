use cpmenu::app_state::{duplicate_menu, AppState, ClickOutcome, EscapeOutcome};
use cpmenu::config::Button;
use cpmenu::geometry::{wedge_boundary, QUARTER_TURN};
use cpmenu::units::ONE;

fn leaf(label: &str) -> Button {
    Button {
        label: label.to_string(),
        action: format!("run {}", label),
        text: String::new(),
        keybind: None,
        icon_path: None,
        icon_char: None,
        color: None,
        hover_color: None,
        show_label: false,
        children: Vec::new(),
    }
}

fn root() -> Vec<Button> {
    let mut power = leaf("power");
    power.children = vec![leaf("halt"), leaf("reboot"), leaf("sleep")];
    vec![leaf("term"), power, leaf("web"), leaf("files")]
}

fn labels(menu: &[Button]) -> Vec<&str> {
    menu.iter().map(|b| b.label.as_str()).collect()
}

/// The direction half way through a wedge of a menu that begins straight up.
fn toward(index: usize, count: usize) -> i128 {
    -QUARTER_TURN + (wedge_boundary(index, count) + wedge_boundary(index + 1, count)) / 2
}

// A canvas of 1000 by 1000 pixels has its centre at (500, 500) and a menu
// radius of 350; (500, 250) is inside the ring and (500, 100) outside.
const W: i32 = 1000;
const H: i32 = 1000;
const IN_X: i64 = 500_000;
const IN_Y: i64 = 250_000;
const OUT_Y: i64 = 100_000;

#[test]
fn new_session_shows_the_root_menu() {
    let state = AppState::new(root());
    assert_eq!(labels(state.current_menu()), ["term", "power", "web", "files"]);
    assert!(!state.in_submenu());
    assert_eq!(state.hover_button(), None);
    assert_eq!(state.animation().progress(), 0);
    assert_eq!(state.animation().start(), (0, 0));
}

#[test]
fn push_and_pop_walk_the_menu_stack() {
    let mut state = AppState::new(root());
    state.push_submenu(vec![leaf("a"), leaf("b")]);
    assert!(state.in_submenu());
    assert_eq!(labels(state.current_menu()), ["a", "b"]);
    state.push_submenu(vec![leaf("c")]);
    assert_eq!(labels(state.current_menu()), ["c"]);
    state.pop_submenu();
    assert_eq!(labels(state.current_menu()), ["a", "b"]);
    state.pop_submenu();
    assert!(!state.in_submenu());
    assert_eq!(labels(state.current_menu()), ["term", "power", "web", "files"]);
    // The root menu is never popped.
    state.pop_submenu();
    assert_eq!(labels(state.current_menu()), ["term", "power", "web", "files"]);
}

#[test]
fn moving_to_another_menu_resets_hover_and_animation() {
    let mut state = AppState::new(root());
    state.set_start(40_000, 50_000);
    assert!(state.pointer_moved(IN_X, IN_Y, toward(2, 4), W, H));
    for _ in 0..4 {
        state.tick();
    }
    assert_eq!(state.hover_button(), Some(2));
    assert_eq!(state.animation().progress(), 480);
    assert_eq!(state.animation().scale(2), 1040);
    state.push_submenu(vec![leaf("a")]);
    assert_eq!(state.hover_button(), None);
    assert_eq!(state.animation().progress(), 0);
    assert_eq!(state.animation().scale(2), ONE);
    assert_eq!(state.animation().offset(2), 0);
    assert_eq!(state.animation().start(), (40_000, 50_000));

    assert!(state.pointer_moved(IN_X, IN_Y, toward(0, 1), W, H));
    state.tick();
    assert_eq!(state.animation().scale(0), 1010);
    state.pop_submenu();
    assert_eq!(state.hover_button(), None);
    assert_eq!(state.animation().progress(), 0);
    assert_eq!(state.animation().scale(0), ONE);

    // Popping at the root changes nothing.
    assert!(state.pointer_moved(IN_X, IN_Y, toward(1, 4), W, H));
    state.tick();
    state.pop_submenu();
    assert_eq!(state.hover_button(), Some(1));
    assert_eq!(state.animation().progress(), 120);
    assert_eq!(state.animation().scale(1), 1010);
}

#[test]
fn pointer_motion_updates_the_hover_selection() {
    let mut state = AppState::new(root());
    assert_eq!(state.wedge_at(IN_X, IN_Y, toward(3, 4), W, H), Some(3));
    assert_eq!(state.wedge_at(IN_X, OUT_Y, toward(3, 4), W, H), None);
    assert_eq!(state.hover_button(), None);
    assert!(!state.pointer_moved(IN_X, OUT_Y, toward(3, 4), W, H));
    assert!(state.pointer_moved(IN_X, IN_Y, toward(3, 4), W, H));
    assert_eq!(state.hover_button(), Some(3));
    assert!(!state.pointer_moved(IN_X, IN_Y, toward(3, 4) + 5, W, H));
    assert!(state.pointer_moved(IN_X, IN_Y, toward(0, 4), W, H));
    assert_eq!(state.hover_button(), Some(0));
    assert!(state.pointer_moved(IN_X, OUT_Y, toward(0, 4), W, H));
    assert_eq!(state.hover_button(), None);
}

#[test]
fn empty_menu_has_nothing_to_hover_or_click() {
    let mut state = AppState::new(Vec::new());
    assert_eq!(state.wedge_at(IN_X, IN_Y, 0, W, H), None);
    assert!(!state.pointer_moved(IN_X, IN_Y, 0, W, H));
    assert!(matches!(state.click(IN_X, IN_Y, 0, W, H), ClickOutcome::Missed));
    state.tick();
    assert_eq!(state.animation().wedge_count(), 0);
    assert_eq!(state.animation().progress(), 120);
}

#[test]
fn click_on_a_plain_button_runs_its_action() {
    let mut state = AppState::new(root());
    state.pointer_moved(IN_X, IN_Y, toward(2, 4), W, H);
    state.tick();
    match state.click(IN_X, IN_Y, toward(2, 4), W, H) {
        ClickOutcome::Run(action) => assert_eq!(action, "run web"),
        other => panic!("unexpected outcome {:?}", other),
    }
    // Nothing else changed.
    assert!(!state.in_submenu());
    assert_eq!(state.hover_button(), Some(2));
    assert_eq!(state.animation().progress(), 120);
    assert_eq!(state.animation().scale(2), 1010);
}

#[test]
fn click_on_a_button_with_children_enters_its_submenu() {
    let mut state = AppState::new(root());
    state.pointer_moved(IN_X, IN_Y, toward(1, 4), W, H);
    state.tick();
    let outcome = state.click(IN_X, IN_Y, toward(1, 4), W, H);
    assert!(matches!(outcome, ClickOutcome::EnteredSubmenu));
    assert!(state.in_submenu());
    assert_eq!(labels(state.current_menu()), ["halt", "reboot", "sleep"]);
    assert_eq!(state.hover_button(), None);
    assert_eq!(state.animation().progress(), 0);
    assert_eq!(state.animation().scale(1), ONE);
    match state.click(IN_X, IN_Y, toward(1, 3), W, H) {
        ClickOutcome::Run(action) => assert_eq!(action, "run reboot"),
        other => panic!("unexpected outcome {:?}", other),
    }
    assert_eq!(state.escape(), EscapeOutcome::WentBack);
    assert_eq!(labels(state.current_menu()), ["term", "power", "web", "files"]);
}

#[test]
fn click_outside_the_ring_misses() {
    let mut state = AppState::new(root());
    state.pointer_moved(IN_X, IN_Y, toward(1, 4), W, H);
    assert!(matches!(state.click(IN_X, OUT_Y, toward(1, 4), W, H), ClickOutcome::Missed));
    assert!(matches!(state.click(500_000, 500_000, 0, W, H), ClickOutcome::Missed));
    assert!(!state.in_submenu());
    assert_eq!(state.hover_button(), Some(1));
}

#[test]
fn escape_goes_back_or_closes() {
    let mut state = AppState::new(root());
    assert_eq!(state.escape(), EscapeOutcome::Close);
    assert!(!state.in_submenu());
    state.push_submenu(vec![leaf("a")]);
    state.push_submenu(vec![leaf("b")]);
    assert_eq!(state.escape(), EscapeOutcome::WentBack);
    assert_eq!(labels(state.current_menu()), ["a"]);
    assert_eq!(state.escape(), EscapeOutcome::WentBack);
    assert_eq!(state.escape(), EscapeOutcome::Close);
    assert_eq!(labels(state.current_menu()), ["term", "power", "web", "files"]);
}

#[test]
fn tick_advances_slide_and_hover_together() {
    let mut state = AppState::new(root());
    state.pointer_moved(IN_X, IN_Y, toward(0, 4), W, H);
    for _ in 0..9 {
        state.tick();
    }
    assert_eq!(state.animation().progress(), ONE);
    assert_eq!(state.animation().wedge_count(), 4);
    assert_eq!(state.animation().scale(0), 1090);
    assert_eq!(state.animation().scale(1), ONE);
}

#[test]
fn the_shown_menu_can_be_changed_in_place() {
    let mut state = AppState::new(root());
    state.pointer_moved(IN_X, IN_Y, toward(1, 4), W, H);
    state.current_menu_mut().push(leaf("extra"));
    assert_eq!(labels(state.current_menu()), ["term", "power", "web", "files", "extra"]);
    assert_eq!(state.hover_button(), Some(1));
    state.push_submenu(vec![leaf("a")]);
    state.current_menu_mut()[0].label = "b".to_string();
    assert_eq!(labels(state.current_menu()), ["b"]);
    state.pop_submenu();
    assert_eq!(labels(state.current_menu()), ["term", "power", "web", "files", "extra"]);
}

#[test]
fn a_copied_menu_has_the_same_entries() {
    let menu = root();
    let copy = duplicate_menu(&menu);
    assert_eq!(format!("{:?}", copy), format!("{:?}", menu));
}
