//! Timing core for a hold-to-charge assist overlay.
//!
//! The library measures how long a single trigger is held, quantizes the
//! elapsed time into 60ths-of-a-second frames, classifies the running frame
//! count into named intensity zones, and decides which progress events and
//! audio cues are due on each sample.  Everything here is pure state and
//! arithmetic: the embedding program supplies timestamps from its monotonic
//! clock and performs the event emission, input capture and tone playback
//! that the decisions call for.

pub mod audio;
pub mod hold;
pub mod hud;
pub mod laws;
pub mod zone;
