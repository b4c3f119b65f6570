//! The record dialect: one record per line, fields separated by white space.
pub mod chart;
pub mod error;
pub mod note;
pub mod vocabulary;

pub use self::chart::{Bpm, C2SChart, C2SMetadata, Sfl, TimeSignature};
pub use self::error::{C2sError, Field};
pub use self::note::{Note, WrappedNoteInfo};
pub use self::vocabulary::{c2s_note_type_to_string, note_type_of, string_to_note_type};
