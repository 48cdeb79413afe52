use vstd::prelude::*;

verus! {

/// Edge detector for one push button, sampled once per animation tick.
///
/// Only the previous sample is kept. There is no debounce filter: contact
/// bounce is tolerated only because the button is sampled at the slow rate
/// of the animation tick.
#[derive(Clone, Copy, Debug, PartialEq, Eq, Structural)]
pub struct Button {
    /// Whether the button was held down at the previous sample.
    pub was_pressed: bool,
}

impl Button {
    /// Whether a sample `is_pressed` following this state completes a release:
    /// held down before, up now.
    pub open spec fn edge(self, is_pressed: bool) -> bool {
        self.was_pressed && !is_pressed
    }

    /// A detector with no earlier sample, counted as not pressed.
    pub fn new() -> (r: Button)
        ensures
            !r.was_pressed,
    {
        Button { was_pressed: false }
    }

    /// Takes the current sample (`true` when the button is held down) and
    /// reports whether the button was just released; the sample is kept for
    /// the next call.
    pub fn check_rising_edge(&mut self, is_pressed: bool) -> (r: bool)
        ensures
            r == old(self).edge(is_pressed),
            final(self).was_pressed == is_pressed,
    {
        let mut rising_edge = false;
        if self.was_pressed && !is_pressed {
            rising_edge = true;
        }
        self.was_pressed = is_pressed;
        rising_edge
    }
}

/// A detector reports an edge exactly when the previous sample was pressed and
/// the current one is not; so a fresh detector, which counts as not pressed,
/// reports none on its first sample, whatever that sample is.
pub proof fn lemma_edge_needs_prior_press(b: Button, is_pressed: bool)
    ensures
        b.edge(is_pressed) <==> (b.was_pressed && !is_pressed),
        !b.was_pressed ==> !b.edge(is_pressed),
{
}

} // verus!
