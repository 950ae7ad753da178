//! One menu session: the stack of menus that the user has walked into, the
//! wedge under the pointer, and the animation, together with the decisions
//! that pointer, click and key events call for.

use vstd::prelude::*;
use crate::animation::AnimationState;
use crate::animation::AnimationView;
use crate::circular_layout::START_ANGLE;
use crate::circular_layout::canvas_center;
use crate::circular_layout::menu_radius;
use crate::circular_layout::menu_radius_of;
use crate::circular_layout::middle_of;
use crate::config::Button;
use crate::config::ButtonView;
use crate::geometry::clicked_wedge;
use crate::geometry::get_clicked_button;

verus! {

/// The entries of a menu, as plain values.
pub open spec fn menu_view(menu: Seq<Button>) -> Seq<ButtonView> {
    Seq::new(menu.len(), |i: int| menu[i]@)
}

/// The menus of a stack, as plain values.
pub open spec fn stack_view(stack: Seq<Vec<Button>>) -> Seq<Seq<ButtonView>> {
    Seq::new(stack.len(), |i: int| menu_view(stack[i]@))
}

/// What an [`AppState`] holds, as plain values.
pub ghost struct AppStateView {
    /// The root menu, then each submenu that was entered and not left.
    pub menu_stack: Seq<Seq<ButtonView>>,
    /// The wedge under the pointer, if any.
    pub hover_button: Option<usize>,
    /// The animation.
    pub animation: AnimationView,
}

impl AppStateView {
    /// The menu that is shown: the top of the stack.
    pub open spec fn current_menu(self) -> Seq<ButtonView> {
        self.menu_stack.last()
    }

    /// The state after a move to another menu, whose stack is `menu_stack`:
    /// nothing is hovered and the animation starts over.
    pub open spec fn moved_to(self, menu_stack: Seq<Seq<ButtonView>>) -> AppStateView {
        AppStateView { menu_stack, hover_button: None, animation: self.animation.cleared() }
    }
}

/// The wedge that a pointer hits on a canvas of `width` by `height` pixels
/// that shows a menu of `count` buttons. The ring is centred on the canvas,
/// has the menu radius, and begins straight up. A menu without buttons has
/// no wedge to hit.
pub open spec fn hover_at(
    x: int,
    y: int,
    pointer_angle: int,
    width: int,
    height: int,
    count: int,
) -> Option<usize> {
    if count <= 0 {
        None
    } else {
        clicked_wedge(
            x - middle_of(width),
            y - middle_of(height),
            pointer_angle,
            menu_radius_of(width, height),
            count,
            START_ANGLE as int,
        )
    }
}

/// What a click calls for.
#[derive(Debug)]
pub enum ClickOutcome {
    /// The click hit no wedge.
    Missed,
    /// The click hit a button with a submenu, which is now shown.
    EnteredSubmenu,
    /// The click hit a button without a submenu: its action is to be run.
    Run(String),
}

/// What the escape key calls for.
#[derive(Debug, Clone, Copy, PartialEq, Eq, Structural)]
pub enum EscapeOutcome {
    /// A submenu was shown; now its parent is.
    WentBack,
    /// The root menu was shown: the menu is to be closed.
    Close,
}

/// The state of one menu session.
///
/// The stack of menus is never empty: the root menu is held apart from the
/// submenus on top of it.
pub struct AppState {
    root_menu: Vec<Button>,
    submenus: Vec<Vec<Button>>,
    hover_button: Option<usize>,
    animation: AnimationState,
}

impl View for AppState {
    type V = AppStateView;

    closed spec fn view(&self) -> AppStateView {
        AppStateView {
            menu_stack: seq![menu_view(self.root_menu@)] + stack_view(self.submenus@),
            hover_button: self.hover_button,
            animation: self.animation@,
        }
    }
}

/// A copy of a menu.
pub fn duplicate_menu(menu: &Vec<Button>) -> (r: Vec<Button>)
    ensures
        menu_view(r@) == menu_view(menu@),
{
    let mut copy: Vec<Button> = Vec::new();
    let mut i: usize = 0;
    while i < menu.len()
        invariant
            i <= menu@.len(),
            copy@.len() == i,
            forall|j: int| 0 <= j < i ==> (#[trigger] copy@[j])@ == menu@[j]@,
        decreases menu@.len() - i,
    {
        copy.push(menu[i].duplicate());
        i += 1;
    }
    copy
}

impl AppState {
    /// The stack of menus is never empty: there is always a menu to show.
    pub proof fn lemma_stack_never_empty(&self)
        ensures
            self@.menu_stack.len() >= 1,
    {
    }

    /// A session that shows the root menu `buttons`, with nothing hovered
    /// and the slide at its start.
    pub fn new(buttons: Vec<Button>) -> (s: Self)
        ensures
            s@.menu_stack == seq![menu_view(buttons@)],
            s@.hover_button is None,
            s@.animation == (AnimationView {
                wedges: Seq::empty(),
                progress: 0,
                start_x: 0,
                start_y: 0,
            }),
    {
        let s = AppState {
            root_menu: buttons,
            submenus: Vec::new(),
            hover_button: None,
            animation: AnimationState::new(0, 0),
        };
        s
    }

    /// The menu that is shown.
    pub fn current_menu(&self) -> (menu: &Vec<Button>)
        ensures
            menu_view(menu@) == self@.current_menu(),
            self@.menu_stack.len() >= 1,
    {
        if self.submenus.len() == 0 {
            &self.root_menu
        } else {
            &self.submenus[self.submenus.len() - 1]
        }
    }

    /// The menu that is shown, to be changed in place. Hover selection and
    /// animation stay as they are.
    pub fn current_menu_mut(&mut self) -> (menu: &mut Vec<Button>)
        ensures
            menu_view(menu@) == old(self)@.current_menu(),
            final(self)@.menu_stack =~= old(self)@.menu_stack.update(
                old(self)@.menu_stack.len() - 1,
                menu_view(final(menu)@),
            ),
            final(self)@.hover_button == old(self)@.hover_button,
            final(self)@.animation == old(self)@.animation,
    {
        if self.submenus.len() == 0 {
            &mut self.root_menu
        } else {
            let last: usize = self.submenus.len() - 1;
            &mut self.submenus[last]
        }
    }

    /// Whether a submenu is shown, not the root menu.
    pub fn in_submenu(&self) -> (r: bool)
        ensures
            r == (self@.menu_stack.len() > 1),
    {
        self.submenus.len() > 0
    }

    /// The wedge under the pointer, if any.
    pub fn hover_button(&self) -> (r: Option<usize>)
        ensures
            r == self@.hover_button,
    {
        self.hover_button
    }

    /// Records the point that the menu slides in from.
    pub fn set_start(&mut self, start_x: i64, start_y: i64)
        ensures
            final(self)@ == (AppStateView {
                animation: AnimationView { start_x, start_y, ..old(self)@.animation },
                ..old(self)@
            }),
    {
        self.animation.set_start(start_x, start_y);
    }

    /// Walks into a submenu: it goes on top of the stack, nothing is hovered
    /// any more and the animation starts over.
    pub fn push_submenu(&mut self, submenu: Vec<Button>)
        ensures
            final(self)@ == old(self)@.moved_to(old(self)@.menu_stack.push(menu_view(submenu@))),
    {
        self.submenus.push(submenu);
        self.hover_button = None;
        self.animation.reset();
        assert(final(self)@.menu_stack =~= old(self)@.menu_stack.push(menu_view(submenu@)));
    }

    /// Walks back to the parent menu. In the root menu nothing changes;
    /// else the top of the stack goes, nothing is hovered any more and the
    /// animation starts over.
    pub fn pop_submenu(&mut self)
        ensures
            old(self)@.menu_stack.len() > 1 ==> final(self)@ == old(self)@.moved_to(
                old(self)@.menu_stack.drop_last(),
            ),
            old(self)@.menu_stack.len() <= 1 ==> final(self)@ == old(self)@,
    {
        if self.submenus.len() > 0 {
            self.submenus.pop();
            self.hover_button = None;
            self.animation.reset();
            assert(final(self)@.menu_stack =~= old(self)@.menu_stack.drop_last());
        }
    }

    /// Advances the animation by one tick: the slide moves on, and each
    /// wedge of the menu that is shown moves toward its hover or rest values.
    pub fn tick(&mut self)
        ensures
            final(self)@ == (AppStateView {
                animation: old(self)@.animation.slid().ticked(
                    old(self)@.hover_button,
                    old(self)@.current_menu().len(),
                ),
                ..old(self)@
            }),
    {
        let count: usize = self.current_menu().len();
        self.animation.slide_tick();
        self.animation.tick(self.hover_button, count);
    }

    /// Finds the wedge under a pointer at `(x, y)` whose direction from the
    /// centre of the canvas is `pointer_angle`.
    pub fn wedge_at(&self, x: i64, y: i64, pointer_angle: i128, width: i32, height: i32) -> (r:
        Option<usize>)
        ensures
            r == hover_at(
                x as int,
                y as int,
                pointer_angle as int,
                width as int,
                height as int,
                self@.current_menu().len() as int,
            ),
            r matches Some(index) ==> index < self@.current_menu().len(),
    {
        let count: usize = self.current_menu().len();
        let (center_x, center_y) = canvas_center(width, height);
        let radius: i64 = menu_radius(width, height);
        match get_clicked_button(x, y, center_x, center_y, pointer_angle, radius, count, START_ANGLE) {
            Ok(hit) => hit,
            Err(_) => None,
        }
    }

    /// Takes note of where the pointer is: the wedge under it becomes the
    /// hovered one. The answer is whether the hover selection changed, in
    /// which case the menu is to be drawn again.
    pub fn pointer_moved(&mut self, x: i64, y: i64, pointer_angle: i128, width: i32, height: i32) -> (changed:
        bool)
        ensures
            final(self)@ == (AppStateView {
                hover_button: hover_at(
                    x as int,
                    y as int,
                    pointer_angle as int,
                    width as int,
                    height as int,
                    old(self)@.current_menu().len() as int,
                ),
                ..old(self)@
            }),
            changed == (final(self)@.hover_button != old(self)@.hover_button),
    {
        let hit: Option<usize> = self.wedge_at(x, y, pointer_angle, width, height);
        let changed: bool = match (hit, self.hover_button) {
            (Some(a), Some(b)) => a != b,
            (None, None) => false,
            _ => true,
        };
        self.hover_button = hit;
        changed
    }

    /// Handles a click at `(x, y)`. A click on a button with a submenu
    /// walks into it; a click on any other button asks for its action to be
    /// run and leaves the state as it is, as does a click that hits no
    /// wedge.
    pub fn click(&mut self, x: i64, y: i64, pointer_angle: i128, width: i32, height: i32) -> (outcome:
        ClickOutcome)
        ensures
            match hover_at(
                x as int,
                y as int,
                pointer_angle as int,
                width as int,
                height as int,
                old(self)@.current_menu().len() as int,
            ) {
                None => outcome is Missed && final(self)@ == old(self)@,
                Some(index) => {
                    let button = old(self)@.current_menu()[index as int];
                    if button.children.len() > 0 {
                        &&& outcome is EnteredSubmenu
                        &&& final(self)@ == old(self)@.moved_to(
                            old(self)@.menu_stack.push(button.children),
                        )
                    } else {
                        &&& outcome matches ClickOutcome::Run(action)
                        &&& action@ == button.action
                        &&& final(self)@ == old(self)@
                    }
                },
            },
    {
        let hit: Option<usize> = self.wedge_at(x, y, pointer_angle, width, height);
        match hit {
            None => ClickOutcome::Missed,
            Some(index) => {
                let menu: &Vec<Button> = self.current_menu();
                let button: &Button = &menu[index];
                if button.has_submenu() {
                    let submenu: Vec<Button> = duplicate_menu(&button.children);
                    assert(menu_view(submenu@) =~= button@.children);
                    self.push_submenu(submenu);
                    ClickOutcome::EnteredSubmenu
                } else {
                    ClickOutcome::Run(button.action.clone())
                }
            },
        }
    }

    /// Handles the escape key: from a submenu it walks back to the parent
    /// menu, from the root menu it asks for the menu to be closed.
    pub fn escape(&mut self) -> (outcome: EscapeOutcome)
        ensures
            old(self)@.menu_stack.len() > 1 ==> outcome == EscapeOutcome::WentBack && final(self)@
                == old(self)@.moved_to(old(self)@.menu_stack.drop_last()),
            old(self)@.menu_stack.len() <= 1 ==> outcome == EscapeOutcome::Close && final(self)@
                == old(self)@,
    {
        if self.in_submenu() {
            self.pop_submenu();
            EscapeOutcome::WentBack
        } else {
            EscapeOutcome::Close
        }
    }

    /// The animation, for laying out a frame.
    pub fn animation(&self) -> (r: &AnimationState)
        ensures
            r@ == self@.animation,
    {
        &self.animation
    }
}

} // verus!
