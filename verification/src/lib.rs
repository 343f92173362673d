//! Developer toolbox: number bases, colors, base64, URL encoding, digests,
//! timestamps, QR codes, UUIDs, password hashes and text cases.

pub mod text;
pub mod hexfmt;
pub mod radix;
pub mod pretty;
pub mod cmd;
pub mod locale;
pub mod ui;
