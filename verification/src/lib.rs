//! Metric-style shortening of magnitudes: `120450` becomes `120.4K`.
//!
//! The crate holds the integer core of the shortening: the magnitude tiers
//! and their order, the tables from a power of ten to a tier and to its
//! symbol, the snapping of an exponent to its bucket, and the composition of
//! the display string.

pub mod short_number;

pub use short_number::prefix::{classify, get_prefixes, get_prefixes_enum, suffix_symbol, Prefix};
pub use short_number::{display, snap_power, LEAST_EXPONENT};
