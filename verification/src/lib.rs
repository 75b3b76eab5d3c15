//! Library for resolving a declarative keyboard-lighting configuration into
//! per-key colors and an argument list for an external lighting driver.
//!
//! The crate models the configuration (categories, keys, color overrides,
//! modes), the precedence rule that turns it into a final color per key, and
//! the mode-dependent argument building. Reading and writing the
//! configuration file and launching the driver are left to the surrounding
//! program.

pub mod color;
pub mod invoke;
pub mod key;
pub mod mode;
pub mod resolve;
pub mod settings;
