//! Extraction of structured metadata (artist, album title, release year,
//! media format) from a single free-text directory-name label of the
//! conventional shape `Artist - Album Title (Year) [Media]`.
//!
//! The label grammar is stated as specification functions over sequences of
//! characters (`classes` and `pattern`), and the executable extractor in
//! `parsers` is proved to return exactly the fields that the grammar assigns
//! to the label.

pub mod classes;
pub mod parsers;
pub mod pattern;
