//! Streaming extraction of lead paragraphs from an encyclopedia XML dump.
pub mod text;
pub mod truncate;
pub mod markup;
pub mod page;
pub mod scanner;
