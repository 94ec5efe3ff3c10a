//! Conversion between Gregorian (solar) dates and Chinese lunisolar dates.
//!
//! `calendar` states the Gregorian rules and the supported range, and holds the
//! calls into the calendar tables; `convert` builds the two public conversions
//! on top of them.

pub mod calendar;
pub mod convert;

pub use convert::{lunar_to_solar, solar_to_lunar, DateResponse};
