//! Normalises bibliography entries into fixed records and renders each record
//! as a front-matter block followed by its abstract.

pub mod batch;
pub mod entry;
pub mod fields;
pub mod number;
pub mod paper;
pub mod text;
