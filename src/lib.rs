//! Core of a camera appliance's audio intercom: the VBAN packet format, the
//! jitter buffer, the sidetone ring, the look-ahead limiter, the per-period
//! processing of the audio engine and its session supervision; and the pixel
//! conversions of its video path.
pub mod capture;
pub mod config;
pub mod display;
pub mod engine;
pub mod intercom;
pub mod limiter;
pub mod ndi;
pub mod ndi_display;
pub mod session;
pub mod sidetone;
pub mod vban;
