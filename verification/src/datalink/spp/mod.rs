//! Space packet handling on the data link side.

pub mod segmentation;
