//! Typed four-character codes and the Apple event classes built on them.

pub mod four_char_code;
pub mod event_class;

pub use event_class::AEEventClass;
pub use four_char_code::FourCharCode;
