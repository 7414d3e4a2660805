pub mod binary;
pub mod binary_codec;
