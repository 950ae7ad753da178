use cpmenu::animation::AnimationState;
use cpmenu::circular_layout::{
    canvas_center, compute_frame, menu_radius, CircularButton, DEFAULT_ICON, LABEL_OFFSET,
    START_ANGLE,
};
use cpmenu::config::{Button, Color};
use cpmenu::error::MenuError;
use cpmenu::geometry::{wedge_boundary, FULL_TURN, QUARTER_TURN};
use cpmenu::units::{half, interpolate, scale_by, thousandth, ONE};

fn plain(label: &str) -> Button {
    Button {
        label: label.to_string(),
        action: format!("run {}", label),
        text: format!("Text of {}", label),
        keybind: None,
        icon_path: None,
        icon_char: None,
        color: None,
        hover_color: None,
        show_label: false,
        children: Vec::new(),
    }
}

fn six_buttons(opacity: i64) -> Vec<CircularButton> {
    ["a", "b", "c", "d", "e", "f"]
        .iter()
        .map(|label| CircularButton::from_button(&plain(label), opacity, None))
        .collect()
}

#[test]
fn radius_and_center_follow_the_canvas() {
    assert_eq!(menu_radius(1000, 800), 280_000);
    assert_eq!(menu_radius(800, 1000), 280_000);
    assert_eq!(menu_radius(1920, 1080), 378_000);
    assert_eq!(menu_radius(0, 10), 0);
    assert_eq!(menu_radius(i32::MIN, i32::MAX), i32::MIN as i64 * 350);
    assert_eq!(canvas_center(1000, 800), (500_000, 400_000));
    assert_eq!(canvas_center(1921, 1081), (960_500, 540_500));
}

#[test]
fn default_colors_fade_with_the_opacity() {
    let shown = CircularButton::from_button(&plain("x"), ONE, None);
    assert_eq!(shown.color, Color { red: 258, green: 322, blue: 386, alpha: 350 });
    assert_eq!(shown.hover_color, Color { red: 188, green: 258, blue: 344, alpha: 550 });
    let half_way = CircularButton::from_button(&plain("x"), 480, None);
    assert_eq!(half_way.color.alpha, 168);
    assert_eq!(half_way.hover_color.alpha, 264);
    let start = CircularButton::from_button(&plain("x"), 0, None);
    assert_eq!(start.color.alpha, 0);
    assert_eq!(start.hover_color.alpha, 0);
}

#[test]
fn custom_colors_need_both_to_be_configured() {
    let mut button = plain("x");
    button.color = Some("#FF0000".to_string());
    let only_base = CircularButton::from_button(&button, ONE, None);
    assert_eq!(only_base.color, Color { red: 258, green: 322, blue: 386, alpha: 350 });
    button.hover_color = Some("#00ff00".to_string());
    let both = CircularButton::from_button(&button, ONE, None);
    assert_eq!(both.color, Color { red: 510, green: 0, blue: 0, alpha: 800 });
    assert_eq!(both.hover_color, Color { red: 0, green: 510, blue: 0, alpha: 900 });
    let fading = CircularButton::from_button(&button, 120, None);
    assert_eq!(fading.color.alpha, 96);
    assert_eq!(fading.hover_color.alpha, 108);
    button.color = Some("nonsense".to_string());
    let gray = CircularButton::from_button(&button, ONE, None);
    assert_eq!(gray.color, Color { red: 255, green: 255, blue: 255, alpha: 800 });
}

#[test]
fn buttons_carry_text_action_and_icon() {
    let mut button = plain("term");
    button.icon_char = Some('T');
    button.show_label = true;
    let shown =
        CircularButton::from_button(&button, ONE, Some("/usr/share/icons/term.png".to_string()));
    assert_eq!(shown.label, "Text of term");
    assert_eq!(shown.action, "run term");
    assert_eq!(shown.icon_char, Some('T'));
    assert_eq!(shown.icon_path.as_deref(), Some("/usr/share/icons/term.png"));
    assert!(shown.show_label);
}

#[test]
fn empty_menu_is_an_invalid_configuration() {
    let animation = AnimationState::new(0, 0);
    let got = compute_frame(&[], &animation, None, 1000, 800);
    assert!(matches!(got, Err(MenuError::InvalidConfiguration)));
}

#[test]
fn frame_of_a_menu_at_rest() {
    let animation = AnimationState::new(100_000, 900_000);
    let buttons = six_buttons(0);
    let frame = compute_frame(&buttons, &animation, None, 1000, 800).unwrap();
    assert_eq!((frame.center_x, frame.center_y), (500_000, 400_000));
    // The slide has not started: the menu is still at its start point and
    // the backdrop is clear.
    assert_eq!((frame.menu_x, frame.menu_y), (100_000, 900_000));
    assert_eq!(frame.overlay_alpha, 0);
    assert_eq!(frame.wedges.len(), 6);
    for (index, wedge) in frame.wedges.iter().enumerate() {
        assert_eq!(wedge.start_angle, -QUARTER_TURN + wedge_boundary(index, 6));
        assert_eq!(wedge.end_angle, -QUARTER_TURN + wedge_boundary(index + 1, 6));
        assert_eq!(wedge.mid_angle, (wedge.start_angle + wedge.end_angle).div_euclid(2));
        assert_eq!(wedge.outer_radius, 280_000);
        assert_eq!(wedge.inner_radius, 112_000);
        assert_eq!(wedge.icon_radius, 196_000);
        assert_eq!(wedge.icon_size, 48_000);
        assert_eq!(wedge.icon, DEFAULT_ICON);
        assert_eq!(wedge.icon, '•');
        assert_eq!(wedge.fill, buttons[index].color);
        assert!(wedge.label.is_none());
        assert_eq!(wedge.label_offset, LABEL_OFFSET);
        assert_eq!(wedge.label_offset, 40_000);
    }
    assert_eq!(frame.wedges[0].start_angle, START_ANGLE);
    assert_eq!(frame.wedges[5].end_angle, 3 * QUARTER_TURN);
    assert_eq!(frame.wedges[3].start_angle, QUARTER_TURN);
}

#[test]
fn wedges_of_a_frame_partition_the_turn() {
    let animation = AnimationState::new(0, 0);
    for count in 1..=9usize {
        let buttons: Vec<CircularButton> = (0..count)
            .map(|_| CircularButton::from_button(&plain("x"), ONE, None))
            .collect();
        let frame = compute_frame(&buttons, &animation, None, 640, 480).unwrap();
        assert_eq!(frame.wedges.len(), count);
        assert_eq!(frame.wedges[0].start_angle, START_ANGLE);
        for pair in frame.wedges.windows(2) {
            assert_eq!(pair[0].end_angle, pair[1].start_angle);
            assert!(pair[0].start_angle < pair[0].end_angle);
        }
        assert_eq!(frame.wedges[count - 1].end_angle, START_ANGLE + FULL_TURN);
    }
}

#[test]
fn hovered_wedge_grows_outward_only() {
    let mut animation = AnimationState::new(0, 0);
    let buttons = six_buttons(ONE);
    for _ in 0..5 {
        animation.tick(Some(2), 6);
    }
    let frame = compute_frame(&buttons, &animation, Some(2), 1000, 800).unwrap();
    let hovered = &frame.wedges[2];
    assert_eq!(hovered.outer_radius, 294_000);
    assert_eq!(hovered.inner_radius, 112_000);
    assert_eq!(hovered.icon_radius, 203_000);
    assert_eq!(hovered.icon_size, 50_400);
    assert_eq!(hovered.fill, buttons[2].hover_color);
    let other = &frame.wedges[1];
    assert_eq!(other.outer_radius, 280_000);
    assert_eq!(other.fill, buttons[1].color);
    for _ in 0..20 {
        animation.tick(Some(2), 6);
    }
    let frame = compute_frame(&buttons, &animation, Some(2), 1000, 800).unwrap();
    assert_eq!(frame.wedges[2].outer_radius, 313_600);
    assert_eq!(frame.wedges[2].icon_size, 53_760);
    // The pointer has left but the wedge has not shrunk yet: it keeps its
    // size and gets its base colour back.
    let frame = compute_frame(&buttons, &animation, None, 1000, 800).unwrap();
    assert_eq!(frame.wedges[2].outer_radius, 313_600);
    assert_eq!(frame.wedges[2].fill, buttons[2].color);
}

#[test]
fn menu_slides_from_its_start_to_the_center() {
    let mut animation = AnimationState::new(100_000, 900_000);
    let buttons = six_buttons(ONE);
    let wanted = [
        (120, 148_000, 840_000, 42),
        (240, 196_000, 780_000, 84),
        (360, 244_000, 720_000, 126),
    ];
    for (progress, x, y, alpha) in wanted {
        animation.slide_tick();
        assert_eq!(animation.progress(), progress);
        let frame = compute_frame(&buttons, &animation, None, 1000, 800).unwrap();
        assert_eq!((frame.menu_x, frame.menu_y), (x, y));
        assert_eq!(frame.overlay_alpha, alpha);
    }
    for _ in 0..6 {
        animation.slide_tick();
    }
    let frame = compute_frame(&buttons, &animation, None, 1000, 800).unwrap();
    assert_eq!((frame.menu_x, frame.menu_y), (500_000, 400_000));
    assert_eq!(frame.overlay_alpha, 350);
}

#[test]
fn labels_and_icons_come_from_the_buttons() {
    let mut first = plain("one");
    first.show_label = true;
    first.icon_char = Some('1');
    let second = plain("two");
    let buttons = vec![
        CircularButton::from_button(&first, ONE, None),
        CircularButton::from_button(&second, ONE, None),
    ];
    let animation = AnimationState::new(0, 0);
    let frame = compute_frame(&buttons, &animation, Some(1), 300, 300).unwrap();
    assert_eq!(frame.wedges[0].label.as_deref(), Some("Text of one"));
    assert_eq!(frame.wedges[0].icon, '1');
    assert_eq!(frame.wedges[1].label, None);
    assert_eq!(frame.wedges[1].icon, DEFAULT_ICON);
    assert_eq!(frame.wedges[0].mid_angle, 0);
    assert_eq!(frame.wedges[1].mid_angle, 2 * QUARTER_TURN);
}

#[test]
fn arithmetic_on_thousandths_rounds_down() {
    assert_eq!(thousandth(1999), 1);
    assert_eq!(thousandth(-1), -1);
    assert_eq!(thousandth(-1000), -1);
    assert_eq!(thousandth(-1001), -2);
    assert_eq!(half(7), 3);
    assert_eq!(half(-7), -4);
    assert_eq!(scale_by(280_000, 1120), 313_600);
    assert_eq!(scale_by(-3, 500), -2);
    assert_eq!(scale_by(i64::MIN, i64::MIN), (1i128 << 126) / 1000);
    assert_eq!(interpolate(0, 10, 0), 0);
    assert_eq!(interpolate(0, 10, 1000), 10);
    assert_eq!(interpolate(0, 10, 550), 5);
    assert_eq!(interpolate(10, 0, 550), 4);
    assert_eq!(interpolate(i64::MIN, i64::MAX, 1000), i64::MAX);
    assert_eq!(interpolate(i64::MAX, i64::MIN, 1000), i64::MIN);
    assert_eq!(interpolate(i64::MAX, i64::MIN, 500), -1);
}
