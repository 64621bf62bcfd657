//! Verified core of a two-page audio spectrum display: the encoder and
//! button state machine, the plot layout with its differential column
//! redraw, the spectrum interpolation plan and the audio-interface frame
//! settings. Everything here is integer logic; the floating-point signal
//! processing and the hardware access live in the application.

pub mod analysis;
pub mod control;
pub mod draw;
pub mod pcm1808;
pub mod plot;
