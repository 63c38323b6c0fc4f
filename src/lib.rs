//! Conversion between iCalendar / JSCalendar and vCard / JSContact text,
//! with format detection, round-trip checking and occurrence expansion.

pub mod codec;
pub mod convert;
pub mod detect;
pub mod occurrence;
pub mod source;
pub mod text;
