//! What holds of the library as a whole.
pub mod conduct;
pub mod descriptors;
pub mod duties;
pub mod framing;
pub mod words;
