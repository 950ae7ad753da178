//! The frame of a ring menu: where each wedge lies, how far it reaches, what
//! colour fills it, and where its icon and label go.
//!
//! A frame holds draw parameters only. Turning them into pixels is left to
//! whoever owns the drawing surface.

use vstd::prelude::*;
use crate::animation::AnimationState;
use crate::animation::HOVER_SCALE;
use crate::animation::is_hovered;
use crate::config::Button;
use crate::config::Color;
use crate::config::color_of;
use crate::config::lemma_six_digit_color;
use crate::config::parse_color_with_alpha;
use crate::config::text_of;
use crate::error::MenuError;
use crate::geometry::FULL_TURN;
use crate::geometry::clicked_wedge;
use crate::geometry::lemma_hit_span;
use crate::geometry::outside_ring;
use crate::geometry::lemma_wedge_start_ordered;
use crate::geometry::wedge_boundary;
use crate::geometry::wedge_mid;
use crate::geometry::wedge_start;
use crate::units::ONE;
use crate::units::half;
use crate::units::interpolate;
use crate::units::lerp;
use crate::units::scale_by;
use crate::units::scaled;

verus! {

/// The inner radius of the ring as a ratio of the menu radius, 0.4: the
/// hole that is drawn is the dead zone of the hit test.
pub const INNER_RADIUS_RATIO: i64 = 400;

/// The menu radius as a ratio of the smaller side of the canvas, 0.35.
pub const MENU_RADIUS_PERCENT: i64 = 350;

/// The size of an icon at rest, 48 pixels.
pub const ICON_SIZE: i64 = 48_000;

/// How far below its icon a label is drawn, 40 pixels.
pub const LABEL_OFFSET: i64 = 40_000;

/// The size of a label's font, 14 pixels.
pub const LABEL_FONT_SIZE: i64 = 14_000;

/// The alpha of a label, 0.9.
pub const LABEL_FONT_ALPHA: i64 = 900;

/// The alpha of the backdrop once the menu has arrived, 0.35.
pub const OVERLAY_ALPHA: i64 = 350;

/// The alpha of a configured base colour once the menu has arrived, 0.8.
pub const CUSTOM_ALPHA: i64 = 800;

/// The alpha of a configured hover colour once the menu has arrived, 0.9.
pub const CUSTOM_HOVER_ALPHA: i64 = 900;

/// The alpha of the default base colour once the menu has arrived, 0.35.
pub const DEFAULT_ALPHA: i64 = 350;

/// The alpha of the default hover colour once the menu has arrived, 0.55.
pub const DEFAULT_HOVER_ALPHA: i64 = 550;

/// The icon of a button that names none, a bullet.
pub const DEFAULT_ICON: char = '\u{2022}';

/// The start angle of the ring: the boundary between the last wedge and the
/// first points straight up.
pub const START_ANGLE: i128 = -4_611_686_018_427_387_904;

/// One wedge of the menu as it is to be shown.
#[derive(Debug, Clone)]
pub struct CircularButton {
    /// The text of the label.
    pub label: String,
    /// The command that the button runs.
    pub action: String,
    /// The fill of the wedge at rest.
    pub color: Color,
    /// The fill of the wedge under the pointer.
    pub hover_color: Color,
    /// The icon file of the button, if one was found.
    pub icon_path: Option<String>,
    /// The icon character of the button, if it names one.
    pub icon_char: Option<char>,
    /// Whether the label is drawn below the icon.
    pub show_label: bool,
}

/// `alpha` faded by the opacity `opacity`, both in thousandths.
pub open spec fn faded(alpha: int, opacity: int) -> int {
    scaled(alpha, opacity)
}

/// The fill colours of a button at the opacity `opacity`: its own two
/// colours where it configures both, else the default pair.
pub open spec fn fill_colors(
    color: Option<Seq<char>>,
    hover_color: Option<Seq<char>>,
    opacity: int,
) -> (Color, Color) {
    match (color, hover_color) {
        (Some(base), Some(hover)) => (
            Color { alpha: faded(CUSTOM_ALPHA as int, opacity) as i64, ..color_of(base) },
            Color { alpha: faded(CUSTOM_HOVER_ALPHA as int, opacity) as i64, ..color_of(hover) },
        ),
        _ => (
            Color {
                alpha: faded(DEFAULT_ALPHA as int, opacity) as i64,
                ..color_of("#81A1C1"@)
            },
            Color {
                alpha: faded(DEFAULT_HOVER_ALPHA as int, opacity) as i64,
                ..color_of("#5E81AC"@)
            },
        ),
    }
}

/// The default pair of colours: a light and a darker blue grey.
pub proof fn lemma_default_colors()
    ensures
        color_of("#81A1C1"@) == (Color { red: 258, green: 322, blue: 386, alpha: ONE }),
        color_of("#5E81AC"@) == (Color { red: 188, green: 258, blue: 344, alpha: ONE }),
{
    reveal_strlit("#81A1C1");
    reveal_strlit("#5E81AC");
    lemma_six_digit_color("#81A1C1"@, seq!['8', '1', 'A', '1', 'C', '1']);
    lemma_six_digit_color("#5E81AC"@, seq!['5', 'E', '8', '1', 'A', 'C']);
}

/// Fades an alpha of at most one by an opacity.
fn fade(alpha: i64, opacity: i64) -> (r: i64)
    requires
        0 <= alpha <= ONE,
    ensures
        r == faded(alpha as int, opacity as int),
{
    let wide: i128 = scale_by(alpha, opacity);
    assert(opacity >= 0 ==> 0 <= alpha * opacity <= 1000 * opacity) by (nonlinear_arith)
        requires
            0 <= alpha <= 1000,
    ;
    assert(opacity <= 0 ==> 0 >= alpha * opacity >= 1000 * opacity) by (nonlinear_arith)
        requires
            0 <= alpha <= 1000,
    ;
    wide as i64
}

impl CircularButton {
    /// The wedge that shows a configured button at the opacity `opacity`,
    /// with the icon file that was found for it.
    ///
    /// The label is the button's text. A button that configures both a base
    /// and a hover colour gets them at 0.8 and 0.9 of the opacity; any other
    /// gets the default pair at 0.35 and 0.55 of it.
    pub fn from_button(button: &Button, opacity: i64, icon_path: Option<String>) -> (r:
        CircularButton)
        ensures
            r.label@ == button.text@,
            r.action@ == button.action@,
            (r.color, r.hover_color) == fill_colors(
                text_of(button.color),
                text_of(button.hover_color),
                opacity as int,
            ),
            r.icon_path == icon_path,
            r.icon_char == button.icon_char,
            r.show_label == button.show_label,
    {
        let (color, hover_color) = match (&button.color, &button.hover_color) {
            (Some(base), Some(hover)) => (
                parse_color_with_alpha(base.as_str(), fade(CUSTOM_ALPHA, opacity)),
                parse_color_with_alpha(hover.as_str(), fade(CUSTOM_HOVER_ALPHA, opacity)),
            ),
            _ => (
                parse_color_with_alpha("#81A1C1", fade(DEFAULT_ALPHA, opacity)),
                parse_color_with_alpha("#5E81AC", fade(DEFAULT_HOVER_ALPHA, opacity)),
            ),
        };
        CircularButton {
            label: button.text.clone(),
            action: button.action.clone(),
            color,
            hover_color,
            icon_path,
            icon_char: button.icon_char,
            show_label: button.show_label,
        }
    }
}

/// The draw parameters of one wedge.
#[derive(Debug, Clone)]
pub struct WedgeDrawSpec {
    /// The angle at which the wedge begins.
    pub start_angle: i128,
    /// The angle at which the wedge ends.
    pub end_angle: i128,
    /// The angle half way through the wedge, along which its icon lies.
    pub mid_angle: i128,
    /// The radius of the inner arc. Hovering does not change it.
    pub inner_radius: i64,
    /// The radius of the outer arc, grown by the wedge's scale.
    pub outer_radius: i64,
    /// The colour that fills the wedge.
    pub fill: Color,
    /// The icon character.
    pub icon: char,
    /// The distance of the icon's centre from the centre of the ring.
    pub icon_radius: i64,
    /// The size of the icon's font.
    pub icon_size: i64,
    /// The label of the wedge, if the button shows one.
    pub label: Option<String>,
    /// How far below the centre of the icon the label is drawn.
    pub label_offset: i64,
}

/// The draw parameters of a whole frame.
#[derive(Debug, Clone)]
pub struct Frame {
    /// The centre of the canvas, around which the ring is laid out.
    pub center_x: i64,
    pub center_y: i64,
    /// Where the centre of the ring is shown: it moves from the start point
    /// to the centre of the canvas as the menu slides in, and everything
    /// drawn moves with it.
    pub menu_x: i64,
    pub menu_y: i64,
    /// The alpha of the black backdrop that covers the canvas.
    pub overlay_alpha: i64,
    /// One entry for each button, in order.
    pub wedges: Vec<WedgeDrawSpec>,
}

/// The radius of the menu on a canvas of `width` by `height` pixels.
pub open spec fn menu_radius_of(width: int, height: int) -> int {
    (if width < height {
        width
    } else {
        height
    }) * MENU_RADIUS_PERCENT
}

/// The middle of an extent of `pixels` pixels.
pub open spec fn middle_of(pixels: int) -> int {
    pixels * (ONE / 2)
}

/// The inner radius of the drawn wedges.
pub open spec fn drawn_inner_radius(radius: int) -> int {
    scaled(radius, INNER_RADIUS_RATIO as int)
}

/// The outer radius of a wedge at scale `scale`: a scale above one grows
/// it, any other leaves it at the menu radius.
pub open spec fn effective_outer_radius(radius: int, scale: int) -> int {
    if scale > ONE {
        scaled(radius, scale)
    } else {
        radius
    }
}

/// The icon that a button shows.
pub open spec fn icon_of(icon_char: Option<char>) -> char {
    match icon_char {
        Some(c) => c,
        None => DEFAULT_ICON,
    }
}

impl WedgeDrawSpec {
    /// Whether these are the draw parameters of wedge `index` of `count`
    /// for the button `button`, at scale `scale` on a menu of radius
    /// `radius`.
    pub open spec fn draws(
        self,
        button: CircularButton,
        scale: int,
        hovered: bool,
        radius: int,
        index: int,
        count: int,
    ) -> bool {
        &&& self.start_angle == START_ANGLE + wedge_start(index, count)
        &&& self.end_angle == START_ANGLE + wedge_start(index + 1, count)
        &&& self.mid_angle == START_ANGLE + wedge_mid(index, count)
        &&& self.inner_radius == drawn_inner_radius(radius)
        &&& self.outer_radius == effective_outer_radius(radius, scale)
        &&& self.fill == if hovered {
            button.hover_color
        } else {
            button.color
        }
        &&& self.icon == icon_of(button.icon_char)
        &&& self.icon_radius == (effective_outer_radius(radius, scale) + drawn_inner_radius(
            radius,
        )) / 2
        &&& self.icon_size == scaled(ICON_SIZE as int, scale)
        &&& text_of(self.label) == if button.show_label {
            Some(button.label@)
        } else {
            None
        }
        &&& self.label_offset == LABEL_OFFSET
    }
}

/// The radius of the menu on a canvas of `width` by `height` pixels: 0.35 of
/// the smaller side.
pub fn menu_radius(width: i32, height: i32) -> (r: i64)
    ensures
        r == menu_radius_of(width as int, height as int),
{
    let side: i64 = if width < height { width as i64 } else { height as i64 };
    side * MENU_RADIUS_PERCENT
}

/// The centre of a canvas of `width` by `height` pixels.
pub fn canvas_center(width: i32, height: i32) -> (c: (i64, i64))
    ensures
        c.0 == middle_of(width as int),
        c.1 == middle_of(height as int),
{
    ((width as i64) * (ONE / 2), (height as i64) * (ONE / 2))
}

/// The draw parameters of one wedge.
fn wedge_draw_spec(
    button: &CircularButton,
    scale: i64,
    hovered: bool,
    radius: i64,
    index: usize,
    count: usize,
) -> (r: WedgeDrawSpec)
    requires
        index < count,
        ONE <= scale <= HOVER_SCALE,
        -0x100_0000_0000 <= radius <= 0x100_0000_0000,
    ensures
        r.draws(*button, scale as int, hovered, radius as int, index as int, count as int),
{
    let from: i128 = wedge_boundary(index, count);
    let to: i128 = wedge_boundary(index + 1, count);
    let inner: i128 = scale_by(radius, INNER_RADIUS_RATIO);
    let outer: i128 = if scale > ONE { scale_by(radius, scale) } else { radius as i128 };
    assert(-0x100_0000_0000 * 1120 <= radius * scale <= 0x100_0000_0000 * 1120)
        by (nonlinear_arith)
        requires
            -0x100_0000_0000 <= radius <= 0x100_0000_0000,
            1000 <= scale <= 1120,
    ;
    let icon_size: i128 = scale_by(ICON_SIZE, scale);
    let label: Option<String> = if button.show_label {
        Some(button.label.clone())
    } else {
        None
    };
    WedgeDrawSpec {
        start_angle: START_ANGLE + from,
        end_angle: START_ANGLE + to,
        mid_angle: START_ANGLE + (from + to) / 2,
        inner_radius: inner as i64,
        outer_radius: outer as i64,
        fill: if hovered { button.hover_color } else { button.color },
        icon: match button.icon_char {
            Some(c) => c,
            None => DEFAULT_ICON,
        },
        icon_radius: half(outer + inner) as i64,
        icon_size: icon_size as i64,
        label,
        label_offset: LABEL_OFFSET,
    }
}

/// Whether `frame` is the frame of a menu with the buttons `buttons` on a
/// canvas of `width` by `height` pixels, in the animation state `animation`
/// and with `hover` under the pointer.
pub open spec fn frame_shows(
    frame: Frame,
    buttons: Seq<CircularButton>,
    animation: crate::animation::AnimationView,
    hover: Option<usize>,
    width: int,
    height: int,
) -> bool {
    &&& frame.center_x == middle_of(width)
    &&& frame.center_y == middle_of(height)
    &&& frame.menu_x == lerp(animation.start_x as int, middle_of(width), animation.progress as int)
    &&& frame.menu_y == lerp(animation.start_y as int, middle_of(height), animation.progress as int)
    &&& frame.overlay_alpha == faded(OVERLAY_ALPHA as int, animation.progress as int)
    &&& frame.wedges@.len() == buttons.len()
    &&& forall|i: int|
        0 <= i < buttons.len() ==> (#[trigger] frame.wedges@[i]).draws(
            buttons[i],
            animation.wedge(i).scale as int,
            is_hovered(hover, i),
            menu_radius_of(width, height),
            i,
            buttons.len() as int,
        )
}

/// The radii of a drawn wedge are in order on a menu of positive radius:
/// the inner radius is not negative and less than the menu radius, and the
/// outer radius is the menu radius at rest and not less under any scale.
pub proof fn lemma_radii_ordered(radius: int, scale: int)
    requires
        radius > 0,
    ensures
        0 <= drawn_inner_radius(radius) < radius <= effective_outer_radius(radius, scale),
        scale <= ONE ==> effective_outer_radius(radius, scale) == radius,
{
    if scale > ONE {
        assert(radius * scale >= radius * 1000) by (nonlinear_arith)
            requires
                radius > 0,
                scale > 1000,
        ;
    }
}

/// The wedges of a frame lie side by side around the whole turn: the first
/// begins at the start angle, each ends where the next begins and after it
/// began itself, and the last ends one turn after the start angle.
pub proof fn lemma_frame_covers_turn(
    frame: Frame,
    buttons: Seq<CircularButton>,
    animation: crate::animation::AnimationView,
    hover: Option<usize>,
    width: int,
    height: int,
    index: int,
)
    requires
        frame_shows(frame, buttons, animation, hover, width, height),
        0 <= index < buttons.len() <= usize::MAX,
    ensures
        frame.wedges@[0].start_angle == START_ANGLE,
        frame.wedges@[buttons.len() - 1].end_angle == START_ANGLE + FULL_TURN,
        frame.wedges@[index].start_angle < frame.wedges@[index].end_angle,
        frame.wedges@[index].start_angle <= frame.wedges@[index].mid_angle
            < frame.wedges@[index].end_angle,
        index + 1 < buttons.len() ==> frame.wedges@[index].end_angle == frame.wedges@[index
            + 1].start_angle,
{
    lemma_wedge_start_ordered(index, buttons.len() as int);
}

/// What is drawn is what is hit: a pointer inside the ring whose direction
/// lies in the drawn span of a wedge of the frame hits that wedge.
pub proof fn lemma_drawn_wedge_is_hit(
    frame: Frame,
    buttons: Seq<CircularButton>,
    animation: crate::animation::AnimationView,
    hover: Option<usize>,
    width: int,
    height: int,
    index: usize,
    dx: int,
    dy: int,
    angle: int,
    radius: int,
)
    requires
        frame_shows(frame, buttons, animation, hover, width, height),
        index < buttons.len() <= usize::MAX,
        !outside_ring(dx, dy, radius),
        frame.wedges@[index as int].start_angle <= angle < frame.wedges@[index as int].end_angle,
    ensures
        clicked_wedge(dx, dy, angle, radius, buttons.len() as int, START_ANGLE as int) == Some(
            index,
        ),
{
    let count = buttons.len() as usize;
    lemma_wedge_start_ordered(index as int, count as int);
    lemma_hit_span(dx, dy, angle, radius, count, index, START_ANGLE as int);
}

/// Lays out one frame of the menu.
///
/// The ring is centred on the canvas and has 0.35 of its smaller side as
/// radius. Wedge `i` spans the `i`-th of `buttons.len()` equal parts of the
/// turn, counted from straight up; its outer radius is grown by its scale,
/// its inner radius is not; it is filled with the hover colour if it is the
/// hovered wedge and with the base colour if not. The backdrop fades in and
/// the whole menu moves from the start point to the centre as the slide
/// progresses. The animation state is read, not changed.
///
/// A menu without buttons is refused.
pub fn compute_frame(
    buttons: &[CircularButton],
    animation: &AnimationState,
    hover: Option<usize>,
    width: i32,
    height: i32,
) -> (r: Result<Frame, MenuError>)
    ensures
        buttons@.len() == 0 <==> r == Err::<Frame, MenuError>(MenuError::InvalidConfiguration),
        buttons@.len() > 0 ==> r is Ok && frame_shows(
            r->Ok_0,
            buttons@,
            animation@,
            hover,
            width as int,
            height as int,
        ),
{
    let count: usize = buttons.len();
    if count == 0 {
        return Err(MenuError::InvalidConfiguration);
    }
    let radius: i64 = menu_radius(width, height);
    let (center_x, center_y) = canvas_center(width, height);
    let progress: i64 = animation.progress();
    let (start_x, start_y) = animation.start();
    let menu_x: i64 = interpolate(start_x, center_x, progress);
    let menu_y: i64 = interpolate(start_y, center_y, progress);
    let mut wedges: Vec<WedgeDrawSpec> = Vec::new();
    let mut i: usize = 0;
    while i < count
        invariant
            i <= count == buttons@.len(),
            radius == menu_radius_of(width as int, height as int),
            wedges@.len() == i,
            forall|j: int|
                0 <= j < i ==> (#[trigger] wedges@[j]).draws(
                    buttons@[j],
                    animation@.wedge(j).scale as int,
                    is_hovered(hover, j),
                    radius as int,
                    j,
                    count as int,
                ),
        decreases count - i,
    {
        let hovered: bool = match hover {
            Some(h) => h == i,
            None => false,
        };
        let spec: WedgeDrawSpec = wedge_draw_spec(
            &buttons[i],
            animation.scale(i),
            hovered,
            radius,
            i,
            count,
        );
        wedges.push(spec);
        i += 1;
    }
    Ok(
        Frame {
            center_x,
            center_y,
            menu_x,
            menu_y,
            overlay_alpha: fade(OVERLAY_ALPHA, progress),
            wedges,
        },
    )
}

} // verus!
