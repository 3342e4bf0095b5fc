pub mod fs;
pub mod source;
