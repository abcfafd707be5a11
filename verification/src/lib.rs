//! Duck race: the rules of a four-lane arcade racer.
//!
//! A player picks a duck and presses GO; four motor-driven ducks run at speeds that vary
//! mid-race; the first to trip its finish switch wins; the machine re-homes. Everything
//! that decides or computes lives here, on plain values. Pins, clocks, the random source,
//! the flash chip and the tasks that wait on them belong to the firmware around the library.

pub mod audio;
pub mod bringup;
pub mod calibrate;
pub mod clock;
pub mod config;
pub mod game;
pub mod inputs;
pub mod leds;
pub mod motors;
pub mod race;
pub mod rules;
pub mod turn;
