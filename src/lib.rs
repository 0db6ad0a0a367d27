//! Backend logic of a desktop music player: scanning a folder for audio
//! files, classifying an online query, and decoding the resolver's output.
pub mod error;
pub mod query;
pub mod resolver;
pub mod scan;
pub mod text;
