//! Map functions that workers apply to the lines of their input files.

pub mod word_count;
