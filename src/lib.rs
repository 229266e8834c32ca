pub mod buffer;
pub mod config;
pub mod decode;
pub mod ring;
pub mod session;
