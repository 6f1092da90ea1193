pub mod decoder;
pub mod normalizer;
pub mod transcript;
pub mod timestamp;
