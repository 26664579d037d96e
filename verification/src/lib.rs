//! Editing core of an APA 7 citation form: grapheme-aware field editing,
//! the citation schemas, template rendering and the editor state machine.

pub mod citation;
pub mod date;
pub mod fields;
pub mod grapheme;
pub mod layout;
pub mod logic;
pub mod schema;
pub mod text;

pub use citation::{clipboard_html, ApaFormat};
pub use fields::{replace_string_contents, ApaFiller};
pub use logic::{Key, Logic, LogicState};
pub use schema::{ApaFormatType, Lang};
