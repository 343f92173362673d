//! The texts of the desktop application in one language, and the choice of
//! the language from the system's locale.

use crate::text::chars_of;
use vstd::prelude::*;

verus! {

/// The name of the application.
pub const APP_NAME: &'static str = "FaFa";

/// Every text the desktop application shows, in one language.
pub struct L10n {
    pub app_name: &'static str,
    pub menu_about: &'static str,
    pub menu_quit: &'static str,

    // Common
    pub error_hint: &'static str,
    pub action_clear: &'static str,
    pub copy_success: &'static str,
    pub label_result: &'static str,

    // About window
    pub about_window_title: &'static str,
    pub about_version_prefix: &'static str,
    pub about_description: &'static str,

    // Sidebar
    pub nav_hash: &'static str,
    pub nav_password_hash: &'static str,
    pub nav_qrcode: &'static str,
    pub nav_timestamp: &'static str,
    pub nav_url: &'static str,
    pub nav_number_base: &'static str,
    pub nav_uuid: &'static str,
    pub nav_base64: &'static str,
    pub nav_color: &'static str,
    pub nav_text_case: &'static str,

    // Hash
    pub hash_input_placeholder: &'static str,
    pub hash_md5: &'static str,
    pub hash_sha1: &'static str,
    pub hash_sha256: &'static str,
    pub hash_sha512: &'static str,
    pub hash_sha3_256: &'static str,
    pub hash_sha3_512: &'static str,
    pub hash_blake3: &'static str,

    // Password Hash
    pub hash_password_input: &'static str,
    pub hash_password_hash: &'static str,
    pub hash_password_result: &'static str,
    pub hash_password_error: &'static str,
    pub hash_password_algorithm: &'static str,
    pub hash_password_argon2: &'static str,
    pub hash_password_bcrypt: &'static str,

    // QR Code
    pub qrcode_input_placeholder: &'static str,
    pub qrcode_generate: &'static str,
    pub qrcode_hint: &'static str,
    pub qrcode_ec_caption: &'static str,
    pub qrcode_ec_l: &'static str,
    pub qrcode_ec_m: &'static str,
    pub qrcode_ec_q: &'static str,
    pub qrcode_ec_h: &'static str,
    pub qrcode_error_too_long: &'static str,

    // Timestamp
    pub timestamp_label: &'static str,
    pub timestamp_placeholder: &'static str,
    pub timestamp_unit_seconds: &'static str,
    pub timestamp_unit_milliseconds: &'static str,
    pub timestamp_timezone: &'static str,
    pub timestamp_convert_to_datetime: &'static str,
    pub timestamp_datetime_label: &'static str,
    pub timestamp_datetime_placeholder: &'static str,
    pub timestamp_convert_to_timestamp: &'static str,
    pub timestamp_format: &'static str,
    pub timestamp_now: &'static str,
    pub timestamp_error_timestamp: &'static str,
    pub timestamp_error_datetime: &'static str,
    pub timestamp_error_datetime_tz: &'static str,
    pub timestamp_unit_label: &'static str,

    // URL
    pub url_input_placeholder: &'static str,
    pub url_encode: &'static str,
    pub url_decode: &'static str,

    // Number Base
    pub number_base_input_placeholder: &'static str,
    pub number_base_input_base: &'static str,
    pub number_base_binary: &'static str,
    pub number_base_octal: &'static str,
    pub number_base_decimal: &'static str,
    pub number_base_hex: &'static str,
    pub number_base_convert: &'static str,

    // UUID
    pub uuid_v4: &'static str,
    pub uuid_v7: &'static str,
    pub uuid_new: &'static str,
    pub uuid_style: &'static str,
    pub uuid_version: &'static str,
    pub uuid_dashed: &'static str,
    pub uuid_simple: &'static str,
    pub uuid_count: &'static str,
    pub uuid_count_placeholder: &'static str,
    pub uuid_count_hint: &'static str,
    pub uuid_unit: &'static str,

    // Base64
    pub base64_input_placeholder: &'static str,
    pub base64_encode: &'static str,
    pub base64_decode: &'static str,
    pub base64_error: &'static str,
    pub base64_alphabet: &'static str,
    pub base64_standard: &'static str,
    pub base64_url_safe: &'static str,
    pub base64_padding: &'static str,
    pub base64_padded: &'static str,
    pub base64_unpadded: &'static str,

    // Color
    pub color_input_placeholder: &'static str,
    pub color_convert: &'static str,
    pub color_hex: &'static str,
    pub color_rgb: &'static str,
    pub color_hsl: &'static str,
    pub color_hsla: &'static str,
    pub color_rgba: &'static str,
    pub color_rgba_hex: &'static str,
    pub color_argb_hex: &'static str,
    pub color_error: &'static str,

    // Text Case
    pub text_case_input_placeholder: &'static str,
    pub text_case_convert: &'static str,
    pub text_case_camel: &'static str,
    pub text_case_pascal: &'static str,
    pub text_case_snake: &'static str,
    pub text_case_shouty_snake: &'static str,
    pub text_case_kebab: &'static str,
    pub text_case_shouty_kebab: &'static str,
    pub text_case_train: &'static str,
    pub text_case_title_case: &'static str,
}
/// The languages the desktop application is written in.
#[derive(Clone, Copy, Debug, PartialEq, Eq, Structural)]
pub enum Locale {
    /// English (United States).
    EnUs,
    /// Chinese (Simplified, China).
    ZhCn,
}

/// `c` in lowercase when it is an ASCII capital letter, else `c`.
pub open spec fn ascii_lower(c: char) -> char {
    if 'A' <= c <= 'Z' {
        ((c as u32) + 32) as char
    } else {
        c
    }
}

/// Whether a locale tag names Chinese: it starts with `zh`, in any case.
pub open spec fn is_chinese_tag(tag: Seq<char>) -> bool {
    tag.len() >= 2 && ascii_lower(tag[0]) == 'z' && ascii_lower(tag[1]) == 'h'
}

/// The language for a locale tag such as `zh-CN` or `en-US`: Chinese for a
/// tag that starts with `zh` (in any case), English otherwise and when the
/// system gives no tag.
pub open spec fn locale_for(tag: Option<Seq<char>>) -> Locale {
    match tag {
        Some(t) => if is_chinese_tag(t) {
            Locale::ZhCn
        } else {
            Locale::EnUs
        },
        None => Locale::EnUs,
    }
}

fn lower(c: char) -> (res: char)
    ensures
        res == ascii_lower(c),
{
    if 'A' <= c && c <= 'Z' {
        let k = (c as u32) + 32;
        assert(0x61 <= k <= 0x7a);
        char_from_ascii(k)
    } else {
        c
    }
}

fn char_from_ascii(k: u32) -> (res: char)
    requires
        k < 128,
    ensures
        res as u32 == k,
{
    (k as u8) as char
}

/// The language for the locale tag the system reports, if any.
pub fn locale_from_tag(tag: Option<&str>) -> (res: Locale)
    ensures
        res == locale_for(
            match tag {
                Some(t) => Some(t@),
                None => None,
            },
        ),
{
    match tag {
        Some(t) => {
            let chars = chars_of(t);
            if chars.len() >= 2 && lower(chars[0]) == 'z' && lower(chars[1]) == 'h' {
                Locale::ZhCn
            } else {
                Locale::EnUs
            }
        },
        None => Locale::EnUs,
    }
}

/// The texts in use, shared by the whole application.
pub struct L10nState {
    pub l10n: &'static L10n,
}

} // verus!
