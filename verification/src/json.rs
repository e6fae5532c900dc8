//! JSON as the documents need it: text to write, values to build and to
//! read, and the calls into the encoder that both rest on.

pub mod encoder;
pub mod reading;
pub mod text;
pub mod tree;
