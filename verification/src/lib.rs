//! A verified wavetable sine oscillator.
//!
//! The crate synthesizes a fixed-frequency sine wave by table lookup: a
//! one-time generator fills a 65536-entry table with one period of a sine
//! wave, and a per-instance oscillator advances an exact integer phase
//! accumulator once per sample, reading the table. Audio samples cross the
//! crate boundary as the bit patterns of 32-bit floats, so that the whole
//! audio path — phase recurrence, wraparound, table indexing and block
//! processing — is verified; only the one-time sine evaluation during table
//! construction is trusted (see `wavetable`).

#![allow(non_snake_case)]
#![allow(non_camel_case_types)]

pub mod control;
pub mod oscillator;
pub mod wavetable;

pub use control::Meta;
pub use control::ParamIndex;
pub use control::UI;
pub use oscillator::ConfigError;
pub use oscillator::FaustDsp;
pub use oscillator::ProcessError;
pub use oscillator::mydsp;
pub use wavetable::Wavetable;
pub use wavetable::mydspSIG0;
pub use wavetable::newmydspSIG0;
