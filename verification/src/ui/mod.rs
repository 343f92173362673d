//! The desktop application's logic: navigation, assets and the state of each
//! tool's panel. Drawing and input stay with the window toolkit.

pub mod nav;
pub mod assets;
pub mod number_base_panel;
pub mod url_panel;
pub mod base64_panel;
pub mod toast;
pub mod hash_panel;
pub mod uuid_panel;
pub mod password_hash_panel;
pub mod text_case_panel;
pub mod qrcode_panel;
pub mod timestamp_panel;
pub mod color_panel;
