//! Column extraction from lines of delimited text.
//!
//! A line is split on runs of a delimiter and the field at a one-based
//! position is selected; position zero selects the whole line.

pub mod column;
pub mod columns;
pub mod delimiter;
pub mod engine;
pub mod error;

pub use column::{column_of, field_at, parse_column, select_field};
pub use columns::{columns_of, emitted, parse_columns, parse_lines, served};
pub use delimiter::{accepted, delimiter_pattern, fields_of, pattern_for, Delimiter};
pub use engine::{
    escaped, is_meta_character, regex_compiles, regex_default, regex_pattern, regex_split,
    views_of,
};
pub use error::ParseError;
