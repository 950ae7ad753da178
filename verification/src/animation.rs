//! Hover and slide-in animation: how a wedge's scale and radial offset and
//! the menu's slide progress move from one tick to the next.
//!
//! Scales and the slide progress are ratios in thousandths. Offsets are
//! lengths in millionths of a pixel: their damped steps are rounded, and in
//! the finer unit the rounding never moves the tick on which an offset
//! settles.

use vstd::prelude::*;
use crate::units::ONE;

verus! {

/// The scale that a hovered wedge grows to, 1.12.
pub const HOVER_SCALE: i64 = 1120;

/// How far a scale moves in one tick, 0.01.
pub const ANIMATION_SPEED: i64 = 10;

/// One pixel of radial offset, in millionths.
pub const OFFSET_PIXEL: i64 = 1_000_000;

/// The radial offset that a hovered wedge moves out to, 8 pixels.
pub const HOVER_Y_OFFSET: i64 = 8_000_000;

/// An offset closes one part in this many of its gap each tick, that is 0.05
/// of it.
pub const OFFSET_DAMPING: i64 = 20;

/// The gap at or below which an offset snaps to its target, 0.1 pixel.
pub const OFFSET_TOLERANCE: i64 = 100_000;

/// How far the slide progress moves in one tick, 0.12.
pub const SLIDE_STEP: i64 = 120;

/// The scale that a wedge moves toward.
pub open spec fn scale_target(hovered: bool) -> int {
    if hovered {
        HOVER_SCALE as int
    } else {
        ONE as int
    }
}

/// The radial offset that a wedge moves toward.
pub open spec fn offset_target(hovered: bool) -> int {
    if hovered {
        HOVER_Y_OFFSET as int
    } else {
        0
    }
}

/// One tick of a scale: a step of `ANIMATION_SPEED` toward the target, or
/// the target itself where that step would reach or pass it.
pub open spec fn scale_step(current: int, target: int) -> int {
    if current < target {
        if current + ANIMATION_SPEED >= target {
            target
        } else {
            current + ANIMATION_SPEED
        }
    } else if current > target {
        if current - ANIMATION_SPEED <= target {
            target
        } else {
            current - ANIMATION_SPEED
        }
    } else {
        current
    }
}

/// One tick of an offset: while the gap to the target is more than
/// `OFFSET_TOLERANCE`, the offset closes a twentieth of it, rounded toward
/// no movement; after that it is the target itself.
pub open spec fn offset_step(current: int, target: int) -> int {
    if current - target > OFFSET_TOLERANCE {
        current - (current - target) / (OFFSET_DAMPING as int)
    } else if target - current > OFFSET_TOLERANCE {
        current + (target - current) / (OFFSET_DAMPING as int)
    } else {
        target
    }
}

/// One tick of the slide progress: `SLIDE_STEP` more, but never past `ONE`.
pub open spec fn slide_step(progress: int) -> int {
    if progress + SLIDE_STEP >= ONE {
        ONE as int
    } else {
        progress + SLIDE_STEP
    }
}

/// Moves a scale one tick toward its target.
pub fn advance_scale(current: i64, target: i64) -> (r: i64)
    ensures
        r == scale_step(current as int, target as int),
{
    let gap: i128 = target as i128 - current as i128;
    if gap > ANIMATION_SPEED as i128 {
        current + ANIMATION_SPEED
    } else if gap < -(ANIMATION_SPEED as i128) {
        current - ANIMATION_SPEED
    } else {
        target
    }
}

/// Moves a radial offset one tick toward its target.
pub fn advance_offset(current: i64, target: i64) -> (r: i64)
    ensures
        r == offset_step(current as int, target as int),
{
    let gap: i128 = target as i128 - current as i128;
    if gap > OFFSET_TOLERANCE as i128 {
        (current as i128 + gap / (OFFSET_DAMPING as i128)) as i64
    } else if gap < -(OFFSET_TOLERANCE as i128) {
        (current as i128 - (-gap) / (OFFSET_DAMPING as i128)) as i64
    } else {
        target
    }
}

/// Moves the slide progress one tick on.
pub fn advance_slide(progress: i64) -> (r: i64)
    ensures
        r == slide_step(progress as int),
{
    if progress >= ONE - SLIDE_STEP {
        ONE
    } else {
        progress + SLIDE_STEP
    }
}

/// A scale after `ticks` ticks toward one target.
pub open spec fn scale_after(current: int, target: int, ticks: nat) -> int
    decreases ticks,
{
    if ticks == 0 {
        current
    } else {
        scale_after(scale_step(current, target), target, (ticks - 1) as nat)
    }
}

/// An offset after `ticks` ticks toward one target.
pub open spec fn offset_after(current: int, target: int, ticks: nat) -> int
    decreases ticks,
{
    if ticks == 0 {
        current
    } else {
        offset_after(offset_step(current, target), target, (ticks - 1) as nat)
    }
}

/// The slide progress after `ticks` ticks.
pub open spec fn slide_after(progress: int, ticks: nat) -> int
    decreases ticks,
{
    if ticks == 0 {
        progress
    } else {
        slide_after(slide_step(progress), (ticks - 1) as nat)
    }
}

/// The distance between two values.
pub open spec fn gap(current: int, target: int) -> int {
    if current >= target {
        current - target
    } else {
        target - current
    }
}

/// The number of ticks after which an offset that starts `gap` away from
/// its target is the target: one damped step for each gap above the
/// tolerance, then the tick that snaps.
pub open spec fn settle_ticks(gap: int) -> nat
    decreases gap,
{
    if gap <= OFFSET_TOLERANCE {
        1
    } else {
        1 + settle_ticks(gap - gap / (OFFSET_DAMPING as int))
    }
}

/// The number of ticks after which every scale in range is at its target.
pub open spec fn scale_settle_bound() -> nat {
    12
}

/// The number of ticks after which every offset in range is at its target.
pub open spec fn offset_settle_bound() -> nat {
    87
}

/// The number of ticks after which the slide has arrived.
pub open spec fn slide_settle_bound() -> nat {
    9
}

/// A scale never passes its target: one tick leaves it between where it was
/// and the target, and nearer to the target unless it was there already.
pub proof fn lemma_scale_step_approaches(current: int, target: int)
    ensures
        current <= target ==> current <= scale_step(current, target) <= target,
        current >= target ==> current >= scale_step(current, target) >= target,
        current != target ==> gap(scale_step(current, target), target) < gap(current, target),
        gap(current, target) <= ANIMATION_SPEED ==> scale_step(current, target) == target,
        gap(current, target) > ANIMATION_SPEED ==> gap(scale_step(current, target), target) == gap(
            current,
            target,
        ) - ANIMATION_SPEED,
{
}

/// A scale reaches its target exactly, and stays there, once enough ticks
/// have passed to cover the gap at `ANIMATION_SPEED` a tick. For a wedge
/// that is no longer hovered the target is `ONE`.
pub proof fn lemma_scale_converges(current: int, target: int, ticks: nat)
    requires
        ticks * ANIMATION_SPEED >= gap(current, target),
    ensures
        scale_after(current, target, ticks) == target,
    decreases ticks,
{
    if ticks > 0 {
        lemma_scale_converges(scale_step(current, target), target, (ticks - 1) as nat);
    }
}

/// An offset never passes its target: one tick leaves it between where it
/// was and the target, and nearer to the target unless it was there already.
/// Within the tolerance it snaps; outside it closes a twentieth of the gap.
pub proof fn lemma_offset_step_approaches(current: int, target: int)
    ensures
        current <= target ==> current <= offset_step(current, target) <= target,
        current >= target ==> current >= offset_step(current, target) >= target,
        current != target ==> gap(offset_step(current, target), target) < gap(current, target),
        gap(current, target) <= OFFSET_TOLERANCE ==> offset_step(current, target) == target,
        gap(current, target) > OFFSET_TOLERANCE ==> gap(offset_step(current, target), target)
            == gap(current, target) - gap(current, target) / (OFFSET_DAMPING as int),
{
}

/// An offset reaches its target exactly once `settle_ticks` of its gap have
/// passed, and stays there.
pub proof fn lemma_offset_converges(current: int, target: int, ticks: nat)
    requires
        ticks >= settle_ticks(gap(current, target)),
    ensures
        offset_after(current, target, ticks) == target,
    decreases ticks,
{
    if gap(current, target) <= OFFSET_TOLERANCE {
        lemma_offset_stays(target, (ticks - 1) as nat);
    } else {
        lemma_offset_converges(offset_step(current, target), target, (ticks - 1) as nat);
    }
}

/// An offset at its target does not move.
pub proof fn lemma_offset_stays(target: int, ticks: nat)
    ensures
        offset_after(target, target, ticks) == target,
    decreases ticks,
{
    if ticks > 0 {
        lemma_offset_stays(target, (ticks - 1) as nat);
    }
}

/// Until it has settled an offset has not reached its target: with fewer
/// ticks than `settle_ticks` of a gap that is not zero, some gap is left.
pub proof fn lemma_offset_not_settled_before(current: int, target: int, ticks: nat)
    requires
        current != target,
        ticks < settle_ticks(gap(current, target)),
    ensures
        offset_after(current, target, ticks) != target,
    decreases ticks,
{
    if ticks > 0 {
        lemma_offset_not_settled_before(offset_step(current, target), target, (ticks - 1) as nat);
    }
}

/// A larger gap never settles sooner.
pub proof fn lemma_settle_ticks_monotone(small: int, large: int)
    requires
        small <= large,
    ensures
        settle_ticks(small) <= settle_ticks(large),
    decreases large,
{
    if large > OFFSET_TOLERANCE {
        if small > OFFSET_TOLERANCE {
            lemma_settle_ticks_monotone(
                small - small / (OFFSET_DAMPING as int),
                large - large / (OFFSET_DAMPING as int),
            );
        }
    }
}

/// Above the tolerance, settling takes one damped step and then what the
/// smaller gap takes.
proof fn lemma_settle_ticks_unfold(gap: int)
    requires
        gap > OFFSET_TOLERANCE,
    ensures
        settle_ticks(gap) == 1 + settle_ticks(gap - gap / 20),
{
}

/// The settling from the full hover offset, counted out tick by tick from
/// the snap backwards.
proof fn lemma_settle_ticks_from_full()
    ensures
        settle_ticks(HOVER_Y_OFFSET as int) == offset_settle_bound(),
{
    lemma_settle_ticks_unfold(102243);
    lemma_settle_ticks_unfold(107624);
    lemma_settle_ticks_unfold(113288);
    lemma_settle_ticks_unfold(119250);
    lemma_settle_ticks_unfold(125526);
    lemma_settle_ticks_unfold(132132);
    lemma_settle_ticks_unfold(139086);
    lemma_settle_ticks_unfold(146406);
    lemma_settle_ticks_unfold(154111);
    lemma_settle_ticks_unfold(162222);
    lemma_settle_ticks_unfold(170759);
    lemma_settle_ticks_unfold(179746);
    lemma_settle_ticks_unfold(189206);
    lemma_settle_ticks_unfold(199164);
    lemma_settle_ticks_unfold(209646);
    lemma_settle_ticks_unfold(220679);
    lemma_settle_ticks_unfold(232293);
    lemma_settle_ticks_unfold(244518);
    lemma_settle_ticks_unfold(257387);
    lemma_settle_ticks_unfold(270933);
    lemma_settle_ticks_unfold(285192);
    lemma_settle_ticks_unfold(300202);
    lemma_settle_ticks_unfold(316002);
    lemma_settle_ticks_unfold(332633);
    lemma_settle_ticks_unfold(350139);
    lemma_settle_ticks_unfold(368567);
    lemma_settle_ticks_unfold(387965);
    lemma_settle_ticks_unfold(408384);
    lemma_settle_ticks_unfold(429877);
    lemma_settle_ticks_unfold(452502);
    lemma_settle_ticks_unfold(476317);
    lemma_settle_ticks_unfold(501386);
    lemma_settle_ticks_unfold(527774);
    lemma_settle_ticks_unfold(555551);
    lemma_settle_ticks_unfold(584790);
    lemma_settle_ticks_unfold(615568);
    lemma_settle_ticks_unfold(647966);
    lemma_settle_ticks_unfold(682069);
    lemma_settle_ticks_unfold(717967);
    lemma_settle_ticks_unfold(755754);
    lemma_settle_ticks_unfold(795530);
    lemma_settle_ticks_unfold(837400);
    lemma_settle_ticks_unfold(881473);
    lemma_settle_ticks_unfold(927866);
    lemma_settle_ticks_unfold(976701);
    lemma_settle_ticks_unfold(1028106);
    lemma_settle_ticks_unfold(1082216);
    lemma_settle_ticks_unfold(1139174);
    lemma_settle_ticks_unfold(1199130);
    lemma_settle_ticks_unfold(1262242);
    lemma_settle_ticks_unfold(1328675);
    lemma_settle_ticks_unfold(1398605);
    lemma_settle_ticks_unfold(1472215);
    lemma_settle_ticks_unfold(1549699);
    lemma_settle_ticks_unfold(1631262);
    lemma_settle_ticks_unfold(1717117);
    lemma_settle_ticks_unfold(1807491);
    lemma_settle_ticks_unfold(1902622);
    lemma_settle_ticks_unfold(2002760);
    lemma_settle_ticks_unfold(2108168);
    lemma_settle_ticks_unfold(2219124);
    lemma_settle_ticks_unfold(2335919);
    lemma_settle_ticks_unfold(2458862);
    lemma_settle_ticks_unfold(2588275);
    lemma_settle_ticks_unfold(2724499);
    lemma_settle_ticks_unfold(2867893);
    lemma_settle_ticks_unfold(3018834);
    lemma_settle_ticks_unfold(3177719);
    lemma_settle_ticks_unfold(3344967);
    lemma_settle_ticks_unfold(3521017);
    lemma_settle_ticks_unfold(3706333);
    lemma_settle_ticks_unfold(3901403);
    lemma_settle_ticks_unfold(4106740);
    lemma_settle_ticks_unfold(4322884);
    lemma_settle_ticks_unfold(4550404);
    lemma_settle_ticks_unfold(4789898);
    lemma_settle_ticks_unfold(5041997);
    lemma_settle_ticks_unfold(5307365);
    lemma_settle_ticks_unfold(5586700);
    lemma_settle_ticks_unfold(5880736);
    lemma_settle_ticks_unfold(6190248);
    lemma_settle_ticks_unfold(6516050);
    lemma_settle_ticks_unfold(6859000);
    lemma_settle_ticks_unfold(7220000);
    lemma_settle_ticks_unfold(7600000);
    lemma_settle_ticks_unfold(8000000);
}

/// From the full hover offset the settling takes `offset_settle_bound()`
/// ticks, so no offset in range takes longer.
pub proof fn lemma_settle_ticks_bound(gap: int)
    requires
        gap <= HOVER_Y_OFFSET,
    ensures
        settle_ticks(gap) <= offset_settle_bound(),
        settle_ticks(HOVER_Y_OFFSET as int) == offset_settle_bound(),
{
    lemma_settle_ticks_from_full();
    lemma_settle_ticks_monotone(gap, HOVER_Y_OFFSET as int);
}

/// The slide progress never goes back and never passes `ONE`.
pub proof fn lemma_slide_step_monotone(progress: int)
    requires
        progress <= ONE,
    ensures
        progress <= slide_step(progress) <= ONE,
{
}

/// The slide progress is `ONE` after `slide_settle_bound()` ticks, wherever
/// in its range it started, and stays there.
pub proof fn lemma_slide_arrives(progress: int, ticks: nat)
    requires
        0 <= progress <= ONE,
        ticks * SLIDE_STEP >= ONE - progress,
    ensures
        slide_after(progress, ticks) == ONE,
    decreases ticks,
{
    if ticks > 0 {
        lemma_slide_arrives(slide_step(progress), (ticks - 1) as nat);
    }
}

/// The animated values of one wedge.
#[derive(Debug, Clone, Copy, PartialEq, Eq, Structural)]
pub struct WedgeAnimation {
    /// The factor by which the wedge's outer radius has grown, in
    /// thousandths.
    pub scale: i64,
    /// How far the wedge has moved outward, in millionths of a pixel.
    pub offset: i64,
}

impl WedgeAnimation {
    /// A wedge at rest: full size, not moved.
    pub open spec fn rest() -> WedgeAnimation {
        WedgeAnimation { scale: ONE, offset: 0 }
    }

    /// Scale and offset lie between their rest and their hover values.
    pub open spec fn in_range(self) -> bool {
        &&& ONE <= self.scale <= HOVER_SCALE
        &&& 0 <= self.offset <= HOVER_Y_OFFSET
    }

    /// Moves the wedge one tick on: toward its hover values if `hovered`,
    /// toward rest if not.
    pub fn advance(self, hovered: bool) -> (r: WedgeAnimation)
        ensures
            r == self.stepped(hovered),
            self.in_range() ==> r.in_range(),
    {
        let scale_goal: i64 = if hovered { HOVER_SCALE } else { ONE };
        let offset_goal: i64 = if hovered { HOVER_Y_OFFSET } else { 0 };
        WedgeAnimation {
            scale: advance_scale(self.scale, scale_goal),
            offset: advance_offset(self.offset, offset_goal),
        }
    }

    /// The wedge one tick later.
    pub open spec fn stepped(self, hovered: bool) -> WedgeAnimation {
        WedgeAnimation {
            scale: scale_step(self.scale as int, scale_target(hovered)) as i64,
            offset: offset_step(self.offset as int, offset_target(hovered)) as i64,
        }
    }
}

/// Whether the hover selection names wedge `index`.
pub open spec fn is_hovered(hover: Option<usize>, index: int) -> bool {
    hover matches Some(h) && h == index
}

/// What an [`AnimationState`] holds, as plain values.
pub ghost struct AnimationView {
    /// The animated values of each wedge, by wedge index.
    pub wedges: Seq<WedgeAnimation>,
    /// The slide progress.
    pub progress: i64,
    /// Where the menu slides in from.
    pub start_x: i64,
    pub start_y: i64,
}

impl AnimationView {
    /// Every wedge is in range and the progress is between nothing and one.
    pub open spec fn wf(self) -> bool {
        &&& forall|i: int| 0 <= i < self.wedges.len() ==> (#[trigger] self.wedges[i]).in_range()
        &&& 0 <= self.progress <= ONE
    }

    /// The values of wedge `index`; a wedge that has not been animated yet
    /// is at rest.
    pub open spec fn wedge(self, index: int) -> WedgeAnimation {
        if 0 <= index < self.wedges.len() {
            self.wedges[index]
        } else {
            WedgeAnimation::rest()
        }
    }

    /// The state after one tick with `count` buttons shown: the first
    /// `count` wedges step toward their targets, new ones starting from
    /// rest; wedges beyond `count` stay as they are.
    pub open spec fn ticked(self, hover: Option<usize>, count: nat) -> AnimationView {
        AnimationView {
            wedges: Seq::new(
                if self.wedges.len() >= count {
                    self.wedges.len()
                } else {
                    count
                },
                |i: int|
                    if i < count {
                        self.wedge(i).stepped(is_hovered(hover, i))
                    } else {
                        self.wedges[i]
                    },
            ),
            ..self
        }
    }

    /// The state after `ticks` ticks with the same buttons and the same
    /// hover selection.
    pub open spec fn ticked_times(self, hover: Option<usize>, count: nat, ticks: nat) -> AnimationView
        decreases ticks,
    {
        if ticks == 0 {
            self
        } else {
            self.ticked(hover, count).ticked_times(hover, count, (ticks - 1) as nat)
        }
    }

    /// The state after `ticks` ticks of the slide.
    pub open spec fn slid_times(self, ticks: nat) -> AnimationView
        decreases ticks,
    {
        if ticks == 0 {
            self
        } else {
            self.slid().slid_times((ticks - 1) as nat)
        }
    }

    /// The state after one tick of the slide.
    pub open spec fn slid(self) -> AnimationView {
        AnimationView { progress: slide_step(self.progress as int) as i64, ..self }
    }

    /// The state after the menu changed: every wedge at rest and the slide
    /// back at its start.
    pub open spec fn cleared(self) -> AnimationView {
        AnimationView {
            wedges: Seq::new(self.wedges.len(), |i: int| WedgeAnimation::rest()),
            progress: 0,
            ..self
        }
    }
}

/// A tick keeps every value in range, and so do a slide tick and a reset.
pub proof fn lemma_steps_keep_range(state: AnimationView, hover: Option<usize>, count: nat)
    requires
        state.wf(),
    ensures
        state.ticked(hover, count).wf(),
        state.slid().wf(),
        state.cleared().wf(),
{
}

/// The wedges with animated values cover the buttons shown after a tick,
/// and neither a tick nor a slide tick nor a reset takes any away.
pub proof fn lemma_wedges_never_shrink(state: AnimationView, hover: Option<usize>, count: nat)
    ensures
        state.ticked(hover, count).wedges.len() >= count,
        state.ticked(hover, count).wedges.len() >= state.wedges.len(),
        state.slid().wedges.len() == state.wedges.len(),
        state.cleared().wedges.len() == state.wedges.len(),
{
}

/// Over any number of ticks with the same buttons and hover selection, each
/// shown wedge follows the per-value laws: its scale is `scale_after` and
/// its offset `offset_after` of what they were, and all values stay in range.
pub proof fn lemma_ticked_times_follows(
    state: AnimationView,
    hover: Option<usize>,
    count: nat,
    index: int,
    ticks: nat,
)
    requires
        state.wf(),
        0 <= index < count,
    ensures
        state.ticked_times(hover, count, ticks).wf(),
        state.ticked_times(hover, count, ticks).wedge(index).scale == scale_after(
            state.wedge(index).scale as int,
            scale_target(is_hovered(hover, index)),
            ticks,
        ),
        state.ticked_times(hover, count, ticks).wedge(index).offset == offset_after(
            state.wedge(index).offset as int,
            offset_target(is_hovered(hover, index)),
            ticks,
        ),
    decreases ticks,
{
    if ticks > 0 {
        lemma_ticked_times_follows(
            state.ticked(hover, count),
            hover,
            count,
            index,
            (ticks - 1) as nat,
        );
    }
}

/// After `scale_settle_bound()` ticks or more with the same hover selection,
/// the scale of a shown wedge is exactly its target: `ONE` for a wedge that
/// is not hovered, `HOVER_SCALE` for the one that is.
pub proof fn lemma_scale_settles(
    state: AnimationView,
    hover: Option<usize>,
    count: nat,
    index: int,
    ticks: nat,
)
    requires
        state.wf(),
        0 <= index < count,
        ticks >= scale_settle_bound(),
    ensures
        state.ticked_times(hover, count, ticks).wedge(index).scale == scale_target(
            is_hovered(hover, index),
        ),
        !is_hovered(hover, index) ==> state.ticked_times(hover, count, ticks).wedge(index).scale
            == ONE,
{
    lemma_ticked_times_follows(state, hover, count, index, ticks);
    lemma_scale_converges(
        state.wedge(index).scale as int,
        scale_target(is_hovered(hover, index)),
        ticks,
    );
}

/// After `offset_settle_bound()` ticks or more with the same hover
/// selection, the offset of a shown wedge is exactly its target: zero for a
/// wedge that is not hovered, `HOVER_Y_OFFSET` for the one that is.
pub proof fn lemma_offset_settles(
    state: AnimationView,
    hover: Option<usize>,
    count: nat,
    index: int,
    ticks: nat,
)
    requires
        state.wf(),
        0 <= index < count,
        ticks >= offset_settle_bound(),
    ensures
        state.ticked_times(hover, count, ticks).wedge(index).offset == offset_target(
            is_hovered(hover, index),
        ),
{
    lemma_ticked_times_follows(state, hover, count, index, ticks);
    let from = state.wedge(index).offset as int;
    let to = offset_target(is_hovered(hover, index));
    lemma_settle_ticks_bound(gap(from, to));
    lemma_offset_converges(from, to, ticks);
}

/// Over any number of slide ticks the progress never goes back and never
/// passes `ONE`; after `slide_settle_bound()` ticks or more it is `ONE`.
pub proof fn lemma_slide_progress(state: AnimationView, ticks: nat)
    requires
        state.wf(),
    ensures
        state.slid_times(ticks).wf(),
        state.progress <= state.slid_times(ticks).progress <= ONE,
        state.slid_times(ticks).progress == slide_after(state.progress as int, ticks),
        ticks >= slide_settle_bound() ==> state.slid_times(ticks).progress == ONE,
    decreases ticks,
{
    if ticks > 0 {
        lemma_slide_progress(state.slid(), (ticks - 1) as nat);
    }
    if ticks >= 9 {
        lemma_slide_arrives(state.progress as int, ticks);
    }
}

/// The animation of one menu session: per-wedge hover values, the slide
/// progress of the whole menu, and the point the menu slides in from.
pub struct AnimationState {
    wedges: Vec<WedgeAnimation>,
    progress: i64,
    start_x: i64,
    start_y: i64,
}

impl View for AnimationState {
    type V = AnimationView;

    closed spec fn view(&self) -> AnimationView {
        AnimationView {
            wedges: self.wedges@,
            progress: self.progress,
            start_x: self.start_x,
            start_y: self.start_y,
        }
    }
}

impl AnimationState {
    #[verifier::type_invariant]
    spec fn well_formed(&self) -> bool {
        &&& forall|i: int| 0 <= i < self.wedges@.len() ==> (#[trigger] self.wedges@[i]).in_range()
        &&& 0 <= self.progress <= ONE
    }

    /// A fresh session whose menu slides in from `(start_x, start_y)`.
    pub fn new(start_x: i64, start_y: i64) -> (s: Self)
        ensures
            s@ == (AnimationView { wedges: Seq::empty(), progress: 0, start_x, start_y }),
            s@.wf(),
    {
        AnimationState { wedges: Vec::new(), progress: 0, start_x, start_y }
    }

    /// The slide progress, from nothing to `ONE`.
    pub fn progress(&self) -> (p: i64)
        ensures
            p == self@.progress,
            self@.wf(),
    {
        proof {
            use_type_invariant(&*self);
        }
        self.progress
    }

    /// Advances the slide by one tick. The progress never goes back and
    /// never passes `ONE`.
    pub fn slide_tick(&mut self)
        ensures
            final(self)@ == old(self)@.slid(),
            old(self)@.progress <= final(self)@.progress <= ONE,
            final(self)@.wf(),
    {
        proof {
            use_type_invariant(&*self);
        }
        self.progress = advance_slide(self.progress);
    }

    /// The number of wedges that have animated values. It only grows.
    pub fn wedge_count(&self) -> (n: usize)
        ensures
            n == self@.wedges.len(),
    {
        self.wedges.len()
    }

    /// The values of wedge `index`, at rest if the wedge has none yet.
    pub fn wedge(&self, index: usize) -> (w: WedgeAnimation)
        ensures
            w == self@.wedge(index as int),
            w.in_range(),
    {
        proof {
            use_type_invariant(&*self);
        }
        if index < self.wedges.len() {
            self.wedges[index]
        } else {
            WedgeAnimation { scale: ONE, offset: 0 }
        }
    }

    /// The scale of wedge `index`, `ONE` if the wedge has none yet.
    pub fn scale(&self, index: usize) -> (r: i64)
        ensures
            r == self@.wedge(index as int).scale,
            ONE <= r <= HOVER_SCALE,
    {
        self.wedge(index).scale
    }

    /// The radial offset of wedge `index`, zero if the wedge has none yet.
    pub fn offset(&self, index: usize) -> (r: i64)
        ensures
            r == self@.wedge(index as int).offset,
            0 <= r <= HOVER_Y_OFFSET,
    {
        self.wedge(index).offset
    }

    /// The point the menu slides in from.
    pub fn start(&self) -> (p: (i64, i64))
        ensures
            p == (self@.start_x, self@.start_y),
    {
        (self.start_x, self.start_y)
    }

    /// Records the point that the menu slides in from.
    pub fn set_start(&mut self, start_x: i64, start_y: i64)
        ensures
            final(self)@ == (AnimationView { start_x, start_y, ..old(self)@ }),
            final(self)@.wf(),
    {
        proof {
            use_type_invariant(&*self);
        }
        self.start_x = start_x;
        self.start_y = start_y;
    }

    /// Advances the hover animation by one tick for a menu of
    /// `button_count` buttons, of which `hover` is under the pointer.
    ///
    /// Wedges that had no values yet start from rest. Each of the first
    /// `button_count` wedges moves its scale one linear step and its offset
    /// one damped step toward the hover values if it is the hovered one, and
    /// toward rest if not.
    pub fn tick(&mut self, hover: Option<usize>, button_count: usize)
        ensures
            final(self)@ == old(self)@.ticked(hover, button_count as nat),
            final(self)@.wf(),
    {
        proof {
            use_type_invariant(&*self);
        }
        let mut wedges: Vec<WedgeAnimation> = Vec::new();
        std::mem::swap(&mut wedges, &mut self.wedges);
        let ghost before = wedges@;
        let ghost view = old(self)@;
        while wedges.len() < button_count
            invariant
                wedges@.len() >= before.len(),
                wedges@.len() == before.len() || wedges@.len() <= button_count,
                forall|j: int| 0 <= j < before.len() ==> wedges@[j] == before[j],
                forall|j: int|
                    before.len() <= j < wedges@.len() ==> wedges@[j] == WedgeAnimation::rest(),
            decreases button_count - wedges.len(),
        {
            wedges.push(WedgeAnimation { scale: ONE, offset: 0 });
        }
        let mut i: usize = 0;
        while i < button_count
            invariant
                i <= button_count <= wedges@.len(),
                view.wedges == before,
                wedges@.len() == view.ticked(hover, button_count as nat).wedges.len(),
                forall|j: int| 0 <= j < before.len() ==> (#[trigger] before[j]).in_range(),
                forall|j: int|
                    0 <= j < i ==> #[trigger] wedges@[j] == view.wedge(j).stepped(
                        is_hovered(hover, j),
                    ),
                forall|j: int| i <= j < wedges@.len() ==> #[trigger] wedges@[j] == view.wedge(j),
            decreases button_count - i,
        {
            let hovered: bool = match hover {
                Some(h) => h == i,
                None => false,
            };
            let current: WedgeAnimation = wedges[i];
            wedges.set(i, current.advance(hovered));
            i += 1;
        }
        assert(wedges@ =~= view.ticked(hover, button_count as nat).wedges);
        self.wedges = wedges;
    }

    /// Starts the animation over after the menu changed to another set of
    /// buttons: every wedge goes back to rest and the slide to its start.
    pub fn reset(&mut self)
        ensures
            final(self)@ == old(self)@.cleared(),
            final(self)@.wf(),
    {
        proof {
            use_type_invariant(&*self);
        }
        let mut wedges: Vec<WedgeAnimation> = Vec::new();
        std::mem::swap(&mut wedges, &mut self.wedges);
        let ghost len = wedges@.len();
        let mut i: usize = 0;
        while i < wedges.len()
            invariant
                i <= wedges@.len() == len,
                forall|j: int| 0 <= j < i ==> wedges@[j] == WedgeAnimation::rest(),
                forall|j: int| i <= j < wedges@.len() ==> (#[trigger] wedges@[j]).in_range(),
            decreases wedges.len() - i,
        {
            wedges.set(i, WedgeAnimation { scale: ONE, offset: 0 });
            i += 1;
        }
        assert(wedges@ =~= old(self)@.cleared().wedges);
        self.wedges = wedges;
        self.progress = 0;
    }
}

} // verus!
