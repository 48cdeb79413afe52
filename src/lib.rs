//! Logic of a two-task LED-matrix animation for a 5×5 greyscale display:
//! picture generation, button edge detection, the animation state machine,
//! and the hand-off of finished frames to the display refresh task.

pub mod animation;
pub mod button;
pub mod display;
pub mod images;

pub use animation::{rtc0, Animation, Tick};
pub use button::Button;
pub use display::{timer1, FrameSlot};
pub use images::{Frame, Images};
