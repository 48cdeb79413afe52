use vstd::prelude::*;
use crate::button::Button;
use crate::images::{
    author_grid, author_image, heart_grid, heart_image, rust_grid, rust_image, Frame, Images,
};

verus! {

/// Number of steps in one breathing cycle of the heart.
pub const CYCLE_STEPS: u8 = 25;

/// Brightness of the heart's inner pixels at `step` of the cycle: fading out
/// over steps 0 to 8, dark for 9 to 12, fading in over 13 to 20, dark for
/// 21 to 24; always dark while the animation is stopped.
pub open spec fn brightness_of(animate: bool, step: u8) -> u8 {
    if !animate {
        0
    } else if step <= 8 {
        (9 - step) as u8
    } else if step <= 12 {
        0
    } else if step <= 20 {
        (21 - step) as u8
    } else {
        0
    }
}

/// The step that follows `step`: one more, back to 0 after the last.
pub open spec fn next_step(step: u8) -> u8 {
    if step + 1 == CYCLE_STEPS {
        0
    } else {
        (step + 1) as u8
    }
}

/// The step reached from `step` after `n` animated ticks.
pub open spec fn step_after(step: u8, n: nat) -> u8
    decreases n,
{
    if n == 0 {
        step
    } else {
        next_step(step_after(step, (n - 1) as nat))
    }
}

/// The picture reached from `image` after `n` presses of the picture button.
pub open spec fn image_after(image: Images, n: nat) -> Images
    decreases n,
{
    if n == 0 {
        image
    } else {
        image_after(image, (n - 1) as nat).next()
    }
}

/// What a picture looks like at a given animation state.
pub open spec fn render(image: Images, animate: bool, step: u8) -> Seq<Seq<u8>> {
    match image {
        Images::Heart => heart_grid(brightness_of(animate, step)),
        Images::Rust => rust_grid(),
        Images::Author => author_grid(step),
    }
}

/// Computes the brightness of the heart's inner pixels.
pub fn inner_brightness(animate: bool, step: u8) -> (r: u8)
    requires
        step < CYCLE_STEPS,
    ensures
        r == brightness_of(animate, step),
        animate && step <= 8 ==> r == 9 - step && 1 <= r <= 9,
        animate && (9 <= step <= 12 || 21 <= step) ==> r == 0,
        animate && 13 <= step <= 20 ==> r == 21 - step && 1 <= r <= 8,
        !animate ==> r == 0,
{
    if animate {
        if step <= 8 {
            9 - step
        } else if step <= 12 {
            0
        } else if step <= 20 {
            21 - step
        } else {
            0
        }
    } else {
        0
    }
}

/// Renders the frame for a picture at a given animation state.
pub fn render_image(image: Images, animate: bool, step: u8) -> (r: Frame)
    requires
        step < CYCLE_STEPS,
    ensures
        r@ == render(image, animate, step),
{
    match image {
        Images::Heart => heart_image(inner_brightness(animate, step)),
        Images::Rust => rust_image(),
        Images::Author => author_image(step),
    }
}

/// State of the animation task: the picture shown, where the breathing cycle
/// stands, whether it runs, and the edge detectors of the two buttons
/// (A starts and stops the animation, B changes the picture).
#[derive(Clone, Copy, Debug, PartialEq, Eq, Structural)]
pub struct Animation {
    pub images: Images,
    pub step: u8,
    pub animate: bool,
    pub button_a: Button,
    pub button_b: Button,
}

/// What one animation tick hands back: the frame to publish, and the changes
/// worth reporting.
#[derive(Clone, Copy, Debug)]
pub struct Tick {
    pub frame: Frame,
    /// The new picture, when button B switched it.
    pub shown: Option<Images>,
    /// Whether the animation now runs, when button A started or stopped it.
    pub animating: Option<bool>,
}

impl Animation {
    /// The step counter stays within the cycle.
    pub open spec fn wf(self) -> bool {
        self.step < CYCLE_STEPS
    }

    /// The picture after a tick where button B sampled `b_pressed`.
    pub open spec fn image_next(self, b_pressed: bool) -> Images {
        if self.button_b.edge(b_pressed) {
            self.images.next()
        } else {
            self.images
        }
    }

    /// Whether the animation runs after a tick where button A sampled `a_pressed`.
    pub open spec fn animate_next(self, a_pressed: bool) -> bool {
        if self.button_a.edge(a_pressed) {
            !self.animate
        } else {
            self.animate
        }
    }

    /// The step that a tick renders: 0 when button A was just released.
    pub open spec fn step_shown(self, a_pressed: bool) -> u8 {
        if self.button_a.edge(a_pressed) {
            0
        } else {
            self.step
        }
    }

    /// The frame that a tick renders.
    pub open spec fn frame_shown(self, a_pressed: bool, b_pressed: bool) -> Seq<Seq<u8>> {
        render(
            self.image_next(b_pressed),
            self.animate_next(a_pressed),
            self.step_shown(a_pressed),
        )
    }

    /// The state after a tick with button samples `a_pressed` and `b_pressed`.
    pub open spec fn after_tick(self, a_pressed: bool, b_pressed: bool) -> Animation {
        let animate = self.animate_next(a_pressed);
        let step = self.step_shown(a_pressed);
        Animation {
            images: self.image_next(b_pressed),
            step: if animate {
                next_step(step)
            } else {
                step
            },
            animate,
            button_a: Button { was_pressed: a_pressed },
            button_b: Button { was_pressed: b_pressed },
        }
    }

    /// The state at power-on: the heart, animated, from the start of its cycle.
    pub fn new() -> (r: Animation)
        ensures
            r.wf(),
            r.images == Images::Heart,
            r.step == 0,
            r.animate,
            !r.button_a.was_pressed,
            !r.button_b.was_pressed,
    {
        Animation {
            images: Images::Heart,
            step: 0,
            animate: true,
            button_a: Button::new(),
            button_b: Button::new(),
        }
    }
}

/// One tick of the animation task, given the current samples of buttons A and
/// B (`true` when held down).
///
/// A release of B advances the picture; a release of A starts or stops the
/// animation and restarts its cycle. The frame for the resulting state is
/// rendered, and the step then advances if the animation runs.
pub fn rtc0(state: &mut Animation, button_a_pressed: bool, button_b_pressed: bool) -> (r: Tick)
    requires
        old(state).wf(),
    ensures
        final(state).wf(),
        *final(state) == old(state).after_tick(button_a_pressed, button_b_pressed),
        r.frame@ == old(state).frame_shown(button_a_pressed, button_b_pressed),
        r.shown == (if old(state).button_b.edge(button_b_pressed) {
            Some(final(state).images)
        } else {
            None
        }),
        r.animating == (if old(state).button_a.edge(button_a_pressed) {
            Some(final(state).animate)
        } else {
            None
        }),
{
    let mut shown = None;
    if state.button_b.check_rising_edge(button_b_pressed) {
        let new_image = state.images.toggle();
        state.images = new_image;
        shown = Some(new_image);
    }
    let mut animating = None;
    if state.button_a.check_rising_edge(button_a_pressed) {
        state.animate = !state.animate;
        state.step = 0;
        animating = Some(state.animate);
    }
    let frame = render_image(state.images, state.animate, state.step);
    if state.animate {
        state.step = state.step + 1;
        if state.step == CYCLE_STEPS {
            state.step = 0;
        }
    }
    Tick { frame, shown, animating }
}

/// Animated steps run through the whole cycle and return: from `step`, `n`
/// animated ticks later the counter stands at `(step + n) mod 25`.
pub proof fn lemma_step_cycle(step: u8, n: nat)
    requires
        step < CYCLE_STEPS,
    ensures
        step_after(step, n) == (step + n) % (CYCLE_STEPS as int),
        step_after(step, CYCLE_STEPS as nat) == step,
        n < CYCLE_STEPS ==> step_after(0, n) == n,
{
    lemma_step_cycle_from(step, n);
    lemma_step_cycle_from(step, CYCLE_STEPS as nat);
    lemma_step_cycle_from(0, n);
}

proof fn lemma_step_cycle_from(step: u8, n: nat)
    requires
        step < CYCLE_STEPS,
    ensures
        step_after(step, n) == (step + n) % (CYCLE_STEPS as int),
    decreases n,
{
    if n > 0 {
        lemma_step_cycle_from(step, (n - 1) as nat);
    }
}

/// While the animation runs and button A is not released, each tick moves the
/// step one place along the cycle, wrapping from 24 to 0.
pub proof fn lemma_tick_advances_step(s: Animation, a_pressed: bool, b_pressed: bool)
    requires
        s.wf(),
        s.animate,
        !s.button_a.edge(a_pressed),
    ensures
        s.after_tick(a_pressed, b_pressed).step == next_step(s.step),
        s.after_tick(a_pressed, b_pressed).wf(),
        s.step == CYCLE_STEPS - 1 ==> s.after_tick(a_pressed, b_pressed).step == 0,
{
}

/// A release of button A always restarts the cycle: the tick renders step 0,
/// so a restarted heart begins at brightness 9, and the counter then stands at
/// 1 if the animation runs, 0 if it stopped.
pub proof fn lemma_toggle_restarts_cycle(s: Animation, a_pressed: bool, b_pressed: bool)
    requires
        s.wf(),
        s.button_a.edge(a_pressed),
    ensures
        s.step_shown(a_pressed) == 0,
        s.after_tick(a_pressed, b_pressed).animate == !s.animate,
        s.after_tick(a_pressed, b_pressed).step == (if s.animate {
            0u8
        } else {
            1u8
        }),
        !s.animate ==> brightness_of(s.animate_next(a_pressed), s.step_shown(a_pressed)) == 9,
{
}

/// Pictures cycle with period three: `n` presses of button B lead where
/// `n mod 3` presses do, and three lead back to the start.
pub proof fn lemma_image_cycle(image: Images, n: nat)
    ensures
        image_after(image, n) == image_after(image, n % 3),
        image_after(image, 3) == image,
    decreases n,
{
    reveal_with_fuel(image_after, 4);
    if n >= 3 {
        lemma_image_cycle(image, (n - 3) as nat);
        lemma_image_after_add(image, (n - 3) as nat, 3);
        assert((n - 3) as nat % 3 == n % 3);
    }
}

proof fn lemma_image_after_add(image: Images, n: nat, m: nat)
    ensures
        image_after(image, n + m) == image_after(image_after(image, n), m),
    decreases m,
{
    if m > 0 {
        lemma_image_after_add(image, n, (m - 1) as nat);
    }
}

/// A release of button B moves the picture one place along the cycle, and the
/// frame of that tick is the new picture's; the Rust logo looks the same
/// whatever the step and whether the animation runs.
pub proof fn lemma_picture_button_advances(s: Animation, a_pressed: bool, b_pressed: bool)
    requires
        s.button_b.edge(b_pressed),
    ensures
        s.after_tick(a_pressed, b_pressed).images == image_after(s.images, 1),
        s.images == Images::Heart ==> s.frame_shown(a_pressed, b_pressed) == rust_grid(),
{
    reveal_with_fuel(image_after, 2);
}

} // verus!
