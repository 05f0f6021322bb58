//! The zoom of the display, as a whole number of thousandths.
//!
//! One value drives both the magnification of a card and its font size, so it
//! is kept in one place and only ever moved by a relative step that is clamped
//! to the permitted range.

use vstd::prelude::*;

verus! {

/// The scale of a display shown at its natural size.
pub const ZOOM_ONE: i64 = 1000;

/// The smallest scale the display may take.
pub const MIN_ZOOM: i64 = 500;

/// The largest scale the display may take.
pub const MAX_ZOOM: i64 = 2000;

/// The step of one notch of the wheel.
pub const ZOOM_STEP: i64 = 100;

/// `x` brought into the permitted range.
pub open spec fn clamp_zoom(x: int) -> int {
    if x < MIN_ZOOM {
        MIN_ZOOM as int
    } else if x > MAX_ZOOM {
        MAX_ZOOM as int
    } else {
        x
    }
}

/// The scale reached from `scale` by one relative step.
pub open spec fn zoom_step(scale: int, delta: int) -> int {
    clamp_zoom(scale + delta)
}

/// The scale reached from `scale` by the steps `deltas`, taken one after
/// another and each of them clamped.
pub open spec fn zoom_after(scale: int, deltas: Seq<int>) -> int
    decreases deltas.len(),
{
    if deltas.len() == 0 {
        scale
    } else {
        zoom_step(zoom_after(scale, deltas.drop_last()), deltas.last())
    }
}

/// The sum of `deltas`.
pub open spec fn total(deltas: Seq<int>) -> int
    decreases deltas.len(),
{
    if deltas.len() == 0 {
        0
    } else {
        total(deltas.drop_last()) + deltas.last()
    }
}

/// What the clamp has cut off over the steps `deltas`: for each step, the
/// scale that the step asked for less the scale that it gave. A cut at the
/// upper end of the range counts as positive, one at the lower end as negative.
pub open spec fn cut_off(scale: int, deltas: Seq<int>) -> int
    decreases deltas.len(),
{
    if deltas.len() == 0 {
        0
    } else {
        let before = zoom_after(scale, deltas.drop_last());
        cut_off(scale, deltas.drop_last()) + (before + deltas.last() - zoom_step(
            before,
            deltas.last(),
        ))
    }
}

/// The cuts of a run of steps have left no trace in where it ended: nothing
/// was cut off on balance, or the run ended at the end of the range at which
/// the balance was cut.
pub open spec fn cuts_left_no_trace(scale: int, deltas: Seq<int>) -> bool {
    let cut = cut_off(scale, deltas);
    let reached = zoom_after(scale, deltas);
    ||| cut == 0
    ||| cut > 0 && reached == MAX_ZOOM
    ||| cut < 0 && reached == MIN_ZOOM
}

/// Whether the double-precision number with the bit pattern `bits` is below
/// zero: its sign bit is set, and it is neither the negative zero nor a NaN.
pub open spec fn is_negative_double(bits: u64) -> bool {
    0x8000_0000_0000_0000 < bits <= 0xFFF0_0000_0000_0000
}

/// The step that one turn of the wheel asks for. Only the direction of the
/// turn counts, not how far it went: a vertical delta below zero, which is a
/// turn away from the user, zooms in by one notch; any other zooms out by one.
/// `delta_y` is the bit pattern of the vertical delta, a double-precision
/// number.
pub open spec fn wheel_step(delta_y: u64) -> int {
    if is_negative_double(delta_y) {
        ZOOM_STEP as int
    } else {
        -ZOOM_STEP
    }
}

/// The scale as a whole percentage, the nearest one.
pub open spec fn zoom_percent(scale: int) -> int {
    (scale + 5) / 10
}

/// A clamped scale.
pub struct ZoomModel {
    scale: i64,
}

impl ZoomModel {
    /// What holds of every model: its scale is within the permitted range.
    #[verifier::type_invariant]
    pub open spec fn in_range(self) -> bool {
        MIN_ZOOM <= self.value() <= MAX_ZOOM
    }

    /// The scale, in thousandths.
    pub closed spec fn value(self) -> int {
        self.scale as int
    }

    /// A model at the natural size.
    pub fn new() -> (model: ZoomModel)
        ensures
            model.value() == ZOOM_ONE,
    {
        ZoomModel { scale: ZOOM_ONE }
    }

    /// The current scale; it never leaves the permitted range.
    pub fn scale(&self) -> (scale: i64)
        ensures
            scale == self.value(),
            MIN_ZOOM <= scale <= MAX_ZOOM,
    {
        proof {
            use_type_invariant(self);
        }
        self.scale
    }

    /// The scale as a whole percentage.
    pub fn percent(&self) -> (percent: i64)
        ensures
            percent == zoom_percent(self.value()),
            50 <= percent <= 200,
    {
        proof {
            use_type_invariant(self);
        }
        (self.scale + 5) / 10
    }

    /// Moves the scale by `delta` and clamps it; returns the new scale.
    pub fn apply_delta(&mut self, delta: i64) -> (scale: i64)
        ensures
            final(self).value() == zoom_step(old(self).value(), delta as int),
            scale == final(self).value(),
            MIN_ZOOM <= scale <= MAX_ZOOM,
    {
        proof {
            use_type_invariant(&*self);
        }
        let current: i64 = self.scale;
        let next: i64 = if delta >= MAX_ZOOM - current {
            MAX_ZOOM
        } else if delta <= MIN_ZOOM - current {
            MIN_ZOOM
        } else {
            current + delta
        };
        self.scale = next;
        next
    }
}

/// The step that one turn of the wheel asks for; `delta_y` is the bit pattern
/// of the turn's vertical delta.
pub fn wheel_delta(delta_y: u64) -> (delta: i64)
    ensures
        delta == wheel_step(delta_y),
{
    if 0x8000_0000_0000_0000 < delta_y && delta_y <= 0xFFF0_0000_0000_0000 {
        ZOOM_STEP
    } else {
        -ZOOM_STEP
    }
}

/// However many steps are taken, the scale stays within the permitted range.
pub proof fn lemma_zoom_after_in_range(scale: int, deltas: Seq<int>)
    requires
        MIN_ZOOM <= scale <= MAX_ZOOM,
    ensures
        MIN_ZOOM <= zoom_after(scale, deltas) <= MAX_ZOOM,
    decreases deltas.len(),
{
    if deltas.len() > 0 {
        lemma_zoom_after_in_range(scale, deltas.drop_last());
    }
}

/// Where a run of steps ends and what was cut off on the way add up to the
/// start and the sum of the steps.
pub proof fn lemma_zoom_after_accounts(scale: int, deltas: Seq<int>)
    ensures
        zoom_after(scale, deltas) + cut_off(scale, deltas) == scale + total(deltas),
    decreases deltas.len(),
{
    if deltas.len() > 0 {
        lemma_zoom_after_accounts(scale, deltas.drop_last());
    }
}

/// The scale after a run of steps is the start plus the sum of the steps,
/// clamped once, exactly when the cuts have left no trace. A run that is cut
/// at one end of the range and then turns back ends elsewhere: from the
/// natural size, a step of two thousand up and one of five hundred down end at
/// 1500, where the clamped sum is 2000.
pub proof fn lemma_zoom_after_is_clamped_total(scale: int, deltas: Seq<int>)
    requires
        MIN_ZOOM <= scale <= MAX_ZOOM,
    ensures
        zoom_after(scale, deltas) == clamp_zoom(scale + total(deltas)) <==> cuts_left_no_trace(
            scale,
            deltas,
        ),
{
    lemma_zoom_after_in_range(scale, deltas);
    lemma_zoom_after_accounts(scale, deltas);
}

/// A run of steps that all go one way ends at the start plus the sum of the
/// steps, clamped once.
pub proof fn lemma_zoom_after_one_way(scale: int, deltas: Seq<int>)
    requires
        MIN_ZOOM <= scale <= MAX_ZOOM,
        (forall|k: int| 0 <= k < deltas.len() ==> deltas[k] >= 0) || (forall|k: int|
            0 <= k < deltas.len() ==> deltas[k] <= 0),
    ensures
        cuts_left_no_trace(scale, deltas),
        zoom_after(scale, deltas) == clamp_zoom(scale + total(deltas)),
    decreases deltas.len(),
{
    lemma_zoom_after_in_range(scale, deltas);
    if deltas.len() > 0 {
        let before = deltas.drop_last();
        lemma_zoom_after_in_range(scale, before);
        lemma_zoom_after_one_way(scale, before);
        assert(deltas.last() == deltas[deltas.len() - 1]);
        if forall|k: int| 0 <= k < deltas.len() ==> deltas[k] >= 0 {
            lemma_cut_off_sign(scale, before, true);
        } else {
            lemma_cut_off_sign(scale, before, false);
        }
    }
    lemma_zoom_after_is_clamped_total(scale, deltas);
}

/// Steps that all go up are cut at the upper end only, steps that all go down
/// at the lower end only.
proof fn lemma_cut_off_sign(scale: int, deltas: Seq<int>, up: bool)
    requires
        MIN_ZOOM <= scale <= MAX_ZOOM,
        up ==> forall|k: int| 0 <= k < deltas.len() ==> deltas[k] >= 0,
        !up ==> forall|k: int| 0 <= k < deltas.len() ==> deltas[k] <= 0,
    ensures
        up ==> cut_off(scale, deltas) >= 0,
        !up ==> cut_off(scale, deltas) <= 0,
    decreases deltas.len(),
{
    if deltas.len() > 0 {
        let before = deltas.drop_last();
        lemma_zoom_after_in_range(scale, before);
        lemma_cut_off_sign(scale, before, up);
        assert(deltas.last() == deltas[deltas.len() - 1]);
    }
}

} // verus!
