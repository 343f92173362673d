//! The commands of the command-line tool: what each one computes.

pub mod base;
pub mod color;
pub mod url;
pub mod base64;
pub mod hash;
pub mod timestamp;
pub mod text_case;
pub mod qrcode;
pub mod uuid;
pub mod argon2;
pub mod bcrypt;
