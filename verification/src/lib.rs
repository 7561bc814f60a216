//! Verified discrete core of an articulatory voice synthesizer.
//!
//! The crate holds the parts of the synthesizer whose behaviour is a matter
//! of integers, indices and data movement: the noise generators, the layout
//! of the waveguide sections, the gesture sequencer and the sample container
//! framing.  Every item is generic in the sample type where samples only
//! pass through, so the numeric kernels can be layered on top.

pub mod delay;
pub mod events;
pub mod gesture;
pub mod glot;
pub mod monowav;
pub mod nose;
pub mod ring;
pub mod rng;
mod rows;
pub mod tract;

pub use crate::delay::Delay;
pub use crate::events::{
    EventfulGesture, GestureEvent, GestureEventData, GestureEventQueue, GestureEventType,
    QueueError, EVENT_QUEUE_SIZE,
};
pub use crate::gesture::{
    behavior_from_integer, vb_gesture_append, Behavior, Gesture, GestureVertex, LinearGesture,
    LinearGestureBuilder,
};
pub use crate::glot::{AspirationNoise, LCG_MAX};
pub use crate::monowav::MonoWav;
pub use crate::nose::Nose;
pub use crate::rng::LinearCongruentialGenerator;
pub use crate::tract::{Tract, TractError, DRM_REGIONS};
