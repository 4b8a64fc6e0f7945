//! Decision core of an input-mode indicator: when each overlay marker is
//! visible, where it is drawn, and when the slow and the fast polling cadence
//! fire.
//!
//! - `engine`: the verdict for one indicator and the edge that turns it into
//!   a show or hide action.
//! - `scheduler`: the two cadences and the visibility state of both markers.
//! - `config`: the settings and their defaults.
//! - `config_text`: the settings as a text of sections and `key = value`
//!   lines.
//! - `color`, `text`: colours and the bytes they are read from.
//!
//! Nothing here reads a sensor, draws or sleeps: the caller does, and hands
//! over plain values.

pub mod color;
pub mod config;
pub mod config_text;
pub mod engine;
pub mod scheduler;
pub mod text;
