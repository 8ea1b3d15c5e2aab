//! chord2key: a verified input-remapping engine.
//!
//! The library converts a stream of digital-button and analog-axis events
//! from a game controller into keyboard and mouse output actions, driven by
//! a declarative mapping of chords (simultaneous input combinations),
//! modifiers (one-shot toggles) and mouse profiles (analog-to-velocity
//! conversion).

pub mod actions;
pub mod actuator;
pub mod assoc;
pub mod attribute_set;
mod bitbuf;
pub mod chord_map;
pub mod configuration;
pub mod constants;
pub mod events;
pub mod mapper;
pub mod modifier_map;
pub mod mouse_map;
pub mod output_state;
pub mod thresholds;
