//! Accompaniment for vocal exercises: major triads, played one after the
//! other over a singer's range, live or into an MP3 file.
//!
//! The library names notes and builds triads (`notes`, `chord`), scripts the
//! gestures of a performance (`script`), decides the actions of a playback
//! run against the synthesis engine (`driver`), and transcodes the rendered
//! samples to MP3 (`pcm`, `encoder`, `transcode`). It performs no
//! input or output of its own, and it holds no floating-point value: time is
//! counted in nanoseconds, stereo positions in controller steps, and a sample
//! is taken as the bit pattern of its single.

pub mod chord;
pub mod config;
pub mod driver;
pub mod encoder;
pub mod notes;
pub mod pcm;
pub mod script;
pub mod transcode;
