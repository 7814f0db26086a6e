//! The per-tick key rules that drive the viewport, and the exit condition.
//!
//! Each rule pairs a held logical key with one viewport transition. All rules
//! whose key is held apply in the same tick, in one fixed order: zoom in, zoom
//! out, pan up, pan down, pan left, pan right, reset.
use vstd::prelude::*;

verus! {

/// A change of the viewport bounds.
#[derive(Clone, Copy, Debug, PartialEq, Eq, Structural)]
pub enum Transition {
    /// Shrink both ranges about the centre by the zoom factor.
    ZoomIn,
    /// Grow both ranges about the centre by the reciprocal of the zoom factor.
    ZoomOut,
    /// Shift the imaginary bounds down by the pan step of their range.
    PanUp,
    /// Shift the imaginary bounds up by the pan step of their range.
    PanDown,
    /// Shift the real bounds down by the pan step of their range.
    PanLeft,
    /// Shift the real bounds up by the pan step of their range.
    PanRight,
    /// Restore the startup bounds.
    Reset,
}

/// The logical keys held during one tick.
#[derive(Clone, Copy, Debug, PartialEq, Eq, Structural)]
pub struct HeldKeys {
    /// Escape: leave the loop.
    pub exit: bool,
    /// Up arrow.
    pub zoom_in: bool,
    /// Down arrow.
    pub zoom_out: bool,
    /// W.
    pub pan_up: bool,
    /// S.
    pub pan_down: bool,
    /// A.
    pub pan_left: bool,
    /// D.
    pub pan_right: bool,
    /// R.
    pub reset: bool,
}

/// `seq![t]` when `on` holds, else the empty sequence.
pub open spec fn when(on: bool, t: Transition) -> Seq<Transition> {
    if on {
        seq![t]
    } else {
        Seq::empty()
    }
}

/// The transitions of one tick, in the order in which they apply.
pub open spec fn planned(k: HeldKeys) -> Seq<Transition> {
    when(k.zoom_in, Transition::ZoomIn)
        + when(k.zoom_out, Transition::ZoomOut)
        + when(k.pan_up, Transition::PanUp)
        + when(k.pan_down, Transition::PanDown)
        + when(k.pan_left, Transition::PanLeft)
        + when(k.pan_right, Transition::PanRight)
        + when(k.reset, Transition::Reset)
}

impl HeldKeys {
    /// No key held.
    pub fn none() -> (k: HeldKeys)
        ensures
            !k.exit,
            !k.zoom_in,
            !k.zoom_out,
            !k.pan_up,
            !k.pan_down,
            !k.pan_left,
            !k.pan_right,
            !k.reset,
    {
        HeldKeys {
            exit: false,
            zoom_in: false,
            zoom_out: false,
            pan_up: false,
            pan_down: false,
            pan_left: false,
            pan_right: false,
            reset: false,
        }
    }
}

fn push_when(v: &mut Vec<Transition>, on: bool, t: Transition)
    ensures
        final(v)@ == old(v)@ + when(on, t),
{
    if on {
        v.push(t);
    }
}

/// The transitions that the held keys call for, in the fixed rule order.
pub fn transitions(keys: &HeldKeys) -> (r: Vec<Transition>)
    ensures
        r@ == planned(*keys),
{
    let mut v: Vec<Transition> = Vec::new();
    push_when(&mut v, keys.zoom_in, Transition::ZoomIn);
    push_when(&mut v, keys.zoom_out, Transition::ZoomOut);
    push_when(&mut v, keys.pan_up, Transition::PanUp);
    push_when(&mut v, keys.pan_down, Transition::PanDown);
    push_when(&mut v, keys.pan_left, Transition::PanLeft);
    push_when(&mut v, keys.pan_right, Transition::PanRight);
    push_when(&mut v, keys.reset, Transition::Reset);
    v
}

/// Whether the loop goes on: the window is open and Escape is not held.
pub fn keep_running(window_open: bool, keys: &HeldKeys) -> (r: bool)
    ensures
        r == (window_open && !keys.exit),
{
    window_open && !keys.exit
}

/// Within a tick, reset applies after every zoom and pan: when R is held, the
/// tick's last transition is the reset and no other transition is a reset, so
/// the tick ends on the startup bounds whatever else is held.
pub proof fn reset_applies_last(k: HeldKeys)
    requires
        k.reset,
    ensures
        planned(k).len() > 0,
        planned(k).last() == Transition::Reset,
        forall|i: int| 0 <= i < planned(k).len() - 1 ==> planned(k)[i] != Transition::Reset,
{
    let s = when(k.zoom_in, Transition::ZoomIn) + when(k.zoom_out, Transition::ZoomOut) + when(
        k.pan_up,
        Transition::PanUp,
    ) + when(k.pan_down, Transition::PanDown) + when(k.pan_left, Transition::PanLeft) + when(
        k.pan_right,
        Transition::PanRight,
    );
    assert(planned(k) == s + seq![Transition::Reset]);
}

} // verus!
