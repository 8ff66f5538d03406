//! The engine of a colour picker for the terminal.
//!
//! The picker lets its user dial in a colour in one of several colour models,
//! shows it, and hands it out in several textual encodings. This library is
//! everything of it that computes: the conversions between the colour models,
//! the reading and writing of colours as text, the questions to the terminal
//! and the reading of its answers, and what each key does to a session. It
//! neither reads nor writes; a program around it does.
//!
//! Every function is verified against a contract over mathematical models:
//! numbers are integers, texts are sequences of characters, and a colour is
//! its four channels.
//!
//! Real quantities are fixed-point numbers with four digits after the point
//! (see [`math`]). The conversions are stated as exact formulas on these
//! numbers, and [`round_trip`] proves how little a colour loses on the way
//! through another model and back.

pub mod math;
pub mod error;
pub mod text;
pub mod color_names;
pub mod color_conversions;
pub mod round_trip;
pub mod color_representation;
pub mod config;
pub mod output_type;
pub mod state;
pub mod keymaps;
pub mod terminal;
pub mod cli;
pub mod ui;
