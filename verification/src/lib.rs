//! Decoders for three line-oriented rhythm-game chart dialects.
pub mod c2s;
pub mod kind;
pub mod metadata;
pub mod number;
pub mod sus;
pub mod text;
pub mod ugc;

pub use self::kind::{AirDirection, ChuniChart, ChuniNoteType};
