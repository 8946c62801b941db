pub mod address;
pub mod decode;
pub mod error;
pub mod instructions;
pub mod laws;
pub mod path;
pub mod pipeline;
pub mod record;
pub mod submit;
