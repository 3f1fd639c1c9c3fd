//! Splitting user data into a sequence of segmented space packets.

pub mod segmenter;
