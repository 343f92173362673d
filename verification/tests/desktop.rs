use fafa::cmd::base::Radix;
use fafa::cmd::hash::Algorithm;
use fafa::cmd::qrcode::Level;
use fafa::cmd::uuid::Version;
use fafa::locale::{locale_from_tag, L10n, L10nState, Locale, APP_NAME};
use fafa::ui::assets::Assets;
use fafa::ui::base64_panel::Base64Panel;
use fafa::ui::color_panel::{hex_cuts_ok, parse_hex, ColorFormat, HexParts};
use fafa::ui::hash_panel::{locale_key as hash_locale_key, HashPanel};
use fafa::ui::nav::NavDestination;
use fafa::ui::number_base_panel::{base_label, input_bases, NumberBasePanel};
use fafa::ui::password_hash_panel::{HashAlgorithm, PasswordHashPanel};
use fafa::ui::qrcode_panel::{ec_id, ec_label, QrCodePanel};
use fafa::ui::text_case_panel::TextCasePanel;
use fafa::ui::timestamp_panel::{offsets, parse_datetime, ParseError, TimestampPanel};
use fafa::ui::toast::ToastState;
use fafa::ui::url_panel::UrlPanel;
use fafa::ui::uuid_panel::{count_from_text, UuidPanel};

fn texts() -> &'static L10n {
    Box::leak(Box::new(L10n {
        app_name: "app_name",
        menu_about: "menu_about",
        menu_quit: "menu_quit",
        error_hint: "error_hint",
        action_clear: "action_clear",
        copy_success: "copy_success",
        label_result: "label_result",
        about_window_title: "about_window_title",
        about_version_prefix: "about_version_prefix",
        about_description: "about_description",
        nav_hash: "nav_hash",
        nav_password_hash: "nav_password_hash",
        nav_qrcode: "nav_qrcode",
        nav_timestamp: "nav_timestamp",
        nav_url: "nav_url",
        nav_number_base: "nav_number_base",
        nav_uuid: "nav_uuid",
        nav_base64: "nav_base64",
        nav_color: "nav_color",
        nav_text_case: "nav_text_case",
        hash_input_placeholder: "hash_input_placeholder",
        hash_md5: "hash_md5",
        hash_sha1: "hash_sha1",
        hash_sha256: "hash_sha256",
        hash_sha512: "hash_sha512",
        hash_sha3_256: "hash_sha3_256",
        hash_sha3_512: "hash_sha3_512",
        hash_blake3: "hash_blake3",
        hash_password_input: "hash_password_input",
        hash_password_hash: "hash_password_hash",
        hash_password_result: "hash_password_result",
        hash_password_error: "hash_password_error",
        hash_password_algorithm: "hash_password_algorithm",
        hash_password_argon2: "hash_password_argon2",
        hash_password_bcrypt: "hash_password_bcrypt",
        qrcode_input_placeholder: "qrcode_input_placeholder",
        qrcode_generate: "qrcode_generate",
        qrcode_hint: "qrcode_hint",
        qrcode_ec_caption: "qrcode_ec_caption",
        qrcode_ec_l: "qrcode_ec_l",
        qrcode_ec_m: "qrcode_ec_m",
        qrcode_ec_q: "qrcode_ec_q",
        qrcode_ec_h: "qrcode_ec_h",
        qrcode_error_too_long: "qrcode_error_too_long",
        timestamp_label: "timestamp_label",
        timestamp_placeholder: "timestamp_placeholder",
        timestamp_unit_seconds: "timestamp_unit_seconds",
        timestamp_unit_milliseconds: "timestamp_unit_milliseconds",
        timestamp_timezone: "timestamp_timezone",
        timestamp_convert_to_datetime: "timestamp_convert_to_datetime",
        timestamp_datetime_label: "timestamp_datetime_label",
        timestamp_datetime_placeholder: "timestamp_datetime_placeholder",
        timestamp_convert_to_timestamp: "timestamp_convert_to_timestamp",
        timestamp_format: "timestamp_format",
        timestamp_now: "timestamp_now",
        timestamp_error_timestamp: "timestamp_error_timestamp",
        timestamp_error_datetime: "timestamp_error_datetime",
        timestamp_error_datetime_tz: "timestamp_error_datetime_tz",
        timestamp_unit_label: "timestamp_unit_label",
        url_input_placeholder: "url_input_placeholder",
        url_encode: "url_encode",
        url_decode: "url_decode",
        number_base_input_placeholder: "number_base_input_placeholder",
        number_base_input_base: "number_base_input_base",
        number_base_binary: "number_base_binary",
        number_base_octal: "number_base_octal",
        number_base_decimal: "number_base_decimal",
        number_base_hex: "number_base_hex",
        number_base_convert: "number_base_convert",
        uuid_v4: "uuid_v4",
        uuid_v7: "uuid_v7",
        uuid_new: "uuid_new",
        uuid_style: "uuid_style",
        uuid_version: "uuid_version",
        uuid_dashed: "uuid_dashed",
        uuid_simple: "uuid_simple",
        uuid_count: "uuid_count",
        uuid_count_placeholder: "uuid_count_placeholder",
        uuid_count_hint: "uuid_count_hint",
        uuid_unit: "uuid_unit",
        base64_input_placeholder: "base64_input_placeholder",
        base64_encode: "base64_encode",
        base64_decode: "base64_decode",
        base64_error: "base64_error",
        base64_alphabet: "base64_alphabet",
        base64_standard: "base64_standard",
        base64_url_safe: "base64_url_safe",
        base64_padding: "base64_padding",
        base64_padded: "base64_padded",
        base64_unpadded: "base64_unpadded",
        color_input_placeholder: "color_input_placeholder",
        color_convert: "color_convert",
        color_hex: "color_hex",
        color_rgb: "color_rgb",
        color_hsl: "color_hsl",
        color_hsla: "color_hsla",
        color_rgba: "color_rgba",
        color_rgba_hex: "color_rgba_hex",
        color_argb_hex: "color_argb_hex",
        color_error: "color_error",
        text_case_input_placeholder: "text_case_input_placeholder",
        text_case_convert: "text_case_convert",
        text_case_camel: "text_case_camel",
        text_case_pascal: "text_case_pascal",
        text_case_snake: "text_case_snake",
        text_case_shouty_snake: "text_case_shouty_snake",
        text_case_kebab: "text_case_kebab",
        text_case_shouty_kebab: "text_case_shouty_kebab",
        text_case_train: "text_case_train",
        text_case_title_case: "text_case_title_case",
    }))
}

#[test]
fn locale_follows_the_system_tag() {
    assert_eq!(locale_from_tag(Some("zh-CN")), Locale::ZhCn);
    assert_eq!(locale_from_tag(Some("ZH_tw")), Locale::ZhCn);
    assert_eq!(locale_from_tag(Some("zH")), Locale::ZhCn);
    assert_eq!(locale_from_tag(Some("en-US")), Locale::EnUs);
    assert_eq!(locale_from_tag(Some("z")), Locale::EnUs);
    assert_eq!(locale_from_tag(None), Locale::EnUs);
    assert_eq!(APP_NAME, "FaFa");
    let state = L10nState { l10n: texts() };
    assert_eq!(state.l10n.app_name, "app_name");
}

#[test]
fn nav_lists_every_tool_once() {
    let all = NavDestination::all();
    assert_eq!(all.len(), 10);
    assert_eq!(all[0], NavDestination::Hash);
    assert_eq!(all[9], NavDestination::TextCase);
    for i in 0..10 {
        for j in (i + 1)..10 {
            assert_ne!(all[i], all[j]);
        }
    }
    assert_eq!(NavDestination::Hash.icon_path(), "icons/hash.svg");
    assert_eq!(NavDestination::TextCase.icon_path(), "icons/case-sensitive.svg");
    let l10n = texts();
    assert_eq!(NavDestination::QrCode.locale_key(l10n), "nav_qrcode");
    assert_eq!(NavDestination::NumberBase.locale_key(l10n), "nav_number_base");
}

#[test]
fn assets_listing() {
    let paths: Vec<String> = ["fonts/a.ttf", "fonts/readme.txt", "icons/hash.svg", "fonts/b.ttf"]
        .iter()
        .map(|s| s.to_string())
        .collect();
    assert_eq!(Assets::list(&paths, "fonts"), vec!["fonts/a.ttf", "fonts/readme.txt", "fonts/b.ttf"]);
    assert_eq!(Assets::list(&paths, "icons/"), vec!["icons/hash.svg"]);
    assert!(Assets::list(&paths, "images").is_empty());
    assert_eq!(Assets::font_paths(&paths), vec!["fonts/a.ttf", "fonts/b.ttf"]);
    assert!(!Assets::is_lookup(""));
    assert!(Assets::is_lookup("icons/hash.svg"));
}

#[test]
fn number_base_panel_converts() {
    let l10n = texts();
    let mut panel = NumberBasePanel::new();
    assert_eq!(panel.input_base, Radix::Decimal);
    panel.convert_base(l10n, "  10 ");
    assert_eq!(
        panel.results,
        vec![
            ("number_base_binary".to_string(), "1010".to_string()),
            ("number_base_octal".to_string(), "12".to_string()),
            ("number_base_decimal".to_string(), "10".to_string()),
            ("number_base_hex".to_string(), "a".to_string()),
        ]
    );
    assert_eq!(panel.error, None);
    panel.convert_base(l10n, "   ");
    assert_eq!(panel.results.len(), 4);
    panel.select_input_base(l10n, Radix::Hex, "0xff");
    assert_eq!(panel.results[2].1, "255");
    panel.convert_base(l10n, "xyz");
    assert!(panel.results.is_empty());
    assert_eq!(panel.error.as_deref(), Some("error_hint"));
    panel.select_input_base(l10n, Radix::Binary, " ");
    assert_eq!(panel.input_base, Radix::Binary);
    assert!(panel.results.is_empty());
    assert_eq!(panel.error, None);
    panel.convert_base(l10n, "0b11");
    assert_eq!(panel.results[2].1, "3");
    panel.clear();
    assert!(panel.results.is_empty());
    assert_eq!(panel.input_base, Radix::Binary);
}

#[test]
fn url_panel_encodes_and_decodes() {
    let mut panel = UrlPanel::new();
    assert_eq!(panel.result, None);
    panel.url_encode("a b&c");
    assert_eq!(panel.result.as_deref(), Some("a%20b%26c"));
    panel.url_decode("a%20b%26c");
    assert_eq!(panel.result.as_deref(), Some("a b&c"));
    panel.url_decode("%C3");
    assert_eq!(panel.result.as_deref(), Some("%C3"));
    panel.clear();
    assert_eq!(panel.result, None);
}

#[test]
fn base64_panel_options() {
    let l10n = texts();
    let mut panel = Base64Panel::new();
    assert!(!panel.url_safe && panel.padded);
    panel.encode("hello");
    assert_eq!(panel.result.as_ref().unwrap().value, "aGVsbG8=");
    assert!(!panel.result.as_ref().unwrap().is_binary);
    panel.select_padded(false);
    assert!(panel.result.is_none());
    panel.encode("hello");
    assert_eq!(panel.result.as_ref().unwrap().value, "aGVsbG8");
    panel.select_url_safe(true);
    panel.encode("?>?");
    assert_eq!(panel.result.as_ref().unwrap().value, "Pz4_");
    panel.decode(l10n, "Pz4_");
    assert_eq!(panel.result.as_ref().unwrap().value, "?>?");
    panel.decode(l10n, "!!");
    assert!(panel.result.is_none());
    assert_eq!(panel.error.as_deref(), Some("base64_error"));
    panel.decode(l10n, "AP8");
    assert_eq!(panel.result.as_ref().unwrap().value, "00FF");
    assert!(panel.result.as_ref().unwrap().is_binary);
    assert_eq!(panel.error.as_deref(), Some("base64_error"));
    panel.clear();
    assert!(panel.result.is_none() && panel.error.is_none());
    assert!(panel.url_safe && !panel.padded);
}

#[test]
fn hash_panel_follows_the_selection() {
    let mut panel = HashPanel::new();
    assert_eq!(panel.selected, vec![true; 7]);
    panel.compute_hash("");
    assert!(!panel.has_computed);
    panel.toggle_algorithm(Algorithm::Sha1);
    panel.toggle_algorithm(Algorithm::Sha512);
    panel.toggle_algorithm(Algorithm::Sha3_512);
    panel.toggle_algorithm(Algorithm::Blake3);
    panel.toggle_algorithm(Algorithm::Sha3_256);
    panel.toggle_algorithm(Algorithm::Blake3);
    panel.compute_hash("abc");
    assert!(panel.has_computed);
    assert_eq!(panel.input_text, "abc");
    let algos: Vec<Algorithm> = panel.results.iter().map(|r| r.0).collect();
    assert_eq!(algos, vec![Algorithm::Md5, Algorithm::Sha256, Algorithm::Blake3]);
    assert_eq!(panel.results[0].1, "900150983cd24fb0d6963f7d28e17f72");
    assert_eq!(panel.results[1].1, "ba7816bf8f01cfea414140de5dae2223b00361a396177a9cb410ff61f20015ad");
    panel.clear();
    assert!(panel.results.is_empty() && !panel.has_computed && panel.input_text.is_empty());
    assert!(!panel.selected[1]);
    assert_eq!(hash_locale_key(Algorithm::Sha3_256, texts()), "hash_sha3_256");
    let before = panel.selected.clone();
    panel.toggle_algorithm(Algorithm::Md5);
    panel.toggle_algorithm(Algorithm::Md5);
    assert_eq!(panel.selected, before);
}

#[test]
fn uuid_panel_counts() {
    assert_eq!(count_from_text("5"), 5);
    assert_eq!(count_from_text(" 7 "), 7);
    assert_eq!(count_from_text("0"), 1);
    assert_eq!(count_from_text("1000"), 100);
    assert_eq!(count_from_text("abc"), 1);
    assert_eq!(count_from_text(""), 1);
    assert_eq!(count_from_text("-3"), 1);
    assert_eq!(count_from_text("+3"), 3);
    assert_eq!(count_from_text("99999999999999999999999"), 1);
    let mut panel = UuidPanel::new();
    assert_eq!(panel.version, Version::V4);
    assert!(panel.dashed);
    panel.generate("3");
    let made = panel.result.clone().unwrap();
    assert_eq!(made.len(), 3);
    assert!(made.iter().all(|u| u.len() == 36 && u.chars().nth(14) == Some('4')));
    panel.select_version(Version::V7);
    assert!(panel.result.is_none());
    panel.select_style(false);
    panel.generate("2");
    let made = panel.result.clone().unwrap();
    assert!(made.iter().all(|u| u.len() == 32 && u.chars().nth(12) == Some('7')));
    panel.clear();
    assert!(panel.result.is_none());
}

#[test]
fn password_hash_panel() {
    let l10n = texts();
    let mut panel = PasswordHashPanel::new();
    assert_eq!(panel.algorithm, HashAlgorithm::Argon2);
    panel.generate_hash(l10n, "");
    assert!(panel.pwd_hash_result.is_none());
    panel.generate_hash(l10n, "pw");
    assert!(panel.pwd_hash_result.as_ref().unwrap().starts_with("$argon2id$"));
    let verifier = ::argon2::Argon2::default();
    assert!(::argon2::PasswordVerifier::<str>::verify_password(
        &verifier,
        b"pw",
        panel.pwd_hash_result.as_ref().unwrap().as_str()
    )
    .is_ok());
    assert!(panel.pwd_error.is_none());
    panel.select_algorithm(HashAlgorithm::Bcrypt);
    assert!(panel.pwd_hash_result.is_none());
    panel.generate_hash(l10n, "pw");
    assert!(panel.pwd_hash_result.as_ref().unwrap().starts_with("$2b$12$"));
    assert!(::bcrypt::verify("pw", panel.pwd_hash_result.as_ref().unwrap()).unwrap());
    panel.clear();
    assert!(panel.pwd_hash_result.is_none() && panel.pwd_error.is_none());
    assert_eq!(panel.algorithm, HashAlgorithm::Bcrypt);
}

#[test]
fn text_case_panel_converts_trimmed_input() {
    let l10n = texts();
    let mut panel = TextCasePanel::new(l10n);
    assert_eq!(panel.results.len(), 8);
    assert!(panel.results.iter().all(|r| r.value.is_empty()));
    assert_eq!(panel.results[0].label, "text_case_camel");
    panel.convert_case(l10n, "  hello world  ");
    let values: Vec<&str> = panel.results.iter().map(|r| r.value.as_str()).collect();
    assert_eq!(
        values,
        vec!["helloWorld", "HelloWorld", "hello_world", "HELLO_WORLD", "hello-world", "HELLO-WORLD", "Hello-World", "Hello World"]
    );
    panel.convert_case(l10n, "   ");
    assert_eq!(panel.results[0].value, "helloWorld");
    panel.clear();
    assert!(panel.results.iter().all(|r| r.value.is_empty()));
    assert_eq!(panel.results[7].label, "text_case_title_case");
}

#[test]
fn qrcode_panel_states() {
    let l10n = texts();
    let mut panel = QrCodePanel::new();
    assert_eq!(panel.ec_level, Level::M);
    panel.regenerate(l10n, "hello");
    assert_eq!(panel.grid.as_ref().unwrap().width, 21);
    assert!(panel.error.is_none());
    panel.select_ec(l10n, Level::H, &"x".repeat(8000));
    assert!(panel.grid.is_none());
    assert_eq!(panel.error.as_deref(), Some("qrcode_error_too_long"));
    assert_eq!(panel.ec_level, Level::H);
    panel.regenerate(l10n, "");
    assert!(panel.grid.is_none() && panel.error.is_none());
    panel.regenerate(l10n, "hello");
    panel.clear();
    assert!(panel.grid.is_none() && panel.error.is_none());
}

#[test]
fn timestamp_panel_unix_time() {
    let l10n = texts();
    let mut panel = TimestampPanel::new();
    assert_eq!(panel.tz_offset, 8);
    panel.ts_to_datetime(l10n, " 0 ");
    let r = panel.ts_result.as_ref().unwrap();
    assert_eq!(r.tz_name, "UTC+8");
    assert_eq!(r.tz_time, "1970-01-01 08:00:00");
    assert_eq!(r.utc_time, "1970-01-01 00:00:00");
    panel.select_ts_unit(l10n, true, "1500");
    let r = panel.ts_result.as_ref().unwrap();
    assert_eq!(r.tz_time, "1970-01-01 08:00:01.500");
    panel.ts_to_datetime(l10n, "-1");
    let r = panel.ts_result.as_ref().unwrap();
    assert_eq!(r.utc_time, "1969-12-31 23:59:59.-01");
    panel.ts_to_datetime(l10n, "abc");
    assert!(panel.ts_result.is_none());
    assert_eq!(panel.ts_error.as_deref(), Some("timestamp_error_timestamp"));
    panel.ts_to_datetime(l10n, "");
    assert!(panel.ts_result.is_none() && panel.ts_error.is_none());
}

#[test]
fn timestamp_panel_date_time() {
    let l10n = texts();
    let mut panel = TimestampPanel::new();
    panel.dt_to_timestamp(l10n, "1970-01-01 08:00:00.250");
    assert_eq!(panel.dt_result.unwrap().seconds, 0);
    assert_eq!(panel.dt_result.unwrap().millis, 250);
    panel.dt_to_timestamp(l10n, "not a date");
    assert!(panel.dt_result.is_none());
    assert_eq!(panel.dt_error.as_deref(), Some("timestamp_error_datetime"));
    assert_eq!(parse_datetime("2024-01-01 00:00:00", 0), Ok((1704067200, 1704067200000)));
    assert_eq!(parse_datetime("2024-13-01 00:00:00", 0), Err(ParseError::Format));
    assert_eq!(parse_datetime("9999-12-31 23:59:59", -12), Err(ParseError::Tz));
    assert_eq!(parse_datetime("1970-01-01 00:00:00.5", 1), Ok((-3600, -3599500)));
    panel.select_offset(l10n, 0, "0", "1970-01-01 00:00:01");
    assert_eq!(panel.tz_offset, 0);
    assert_eq!(panel.ts_result.as_ref().unwrap().tz_name, "UTC");
    assert_eq!(panel.dt_result.unwrap().seconds, 1);
    panel.toggle_tz_menu();
    assert!(panel.tz_menu_open);
    panel.close_tz_menu();
    assert!(!panel.tz_menu_open);
    let value = panel.now(l10n);
    assert!(value.parse::<i64>().unwrap() > 1_600_000_000);
    assert!(panel.ts_result.is_some());
    panel.clear();
    assert!(panel.ts_result.is_none() && panel.dt_result.is_none());
    assert_eq!(offsets(), (-12..=14).collect::<Vec<i32>>());
}

#[test]
fn toast_timer_only_clears_its_own_message() {
    let mut toast = ToastState::new();
    let first = toast.show("copied".to_string());
    assert_eq!(toast.message.as_deref(), Some("copied"));
    let second = toast.show("copied again".to_string());
    assert_ne!(first, second);
    toast.expire(first);
    assert_eq!(toast.message.as_deref(), Some("copied again"));
    toast.expire(second);
    assert_eq!(toast.message, None);
}

#[test]
fn color_panel_hex_reader() {
    assert!(hex_cuts_ok("#ff8000"));
    assert_eq!(parse_hex("#ff8000"), Some(HexParts { r: 255, g: 128, b: 0, alpha: None }));
    assert_eq!(parse_hex("##ff800080"), Some(HexParts { r: 255, g: 128, b: 0, alpha: Some(128) }));
    assert_eq!(parse_hex("+f+f+f"), Some(HexParts { r: 15, g: 15, b: 15, alpha: None }));
    assert_eq!(parse_hex("ff80"), None);
    assert_eq!(parse_hex("gg8000"), None);
    assert!(hex_cuts_ok("éé00"));
    assert_eq!(parse_hex("éé00"), None);
    assert!(!hex_cuts_ok("aé000"));
}

#[test]
fn labels_of_options() {
    let l10n = texts();
    assert_eq!(ec_label(Level::Q, l10n), "qrcode_ec_q");
    assert_eq!(ec_id(Level::H), "h");
    assert_eq!(base_label(Radix::Hex, l10n), "number_base_hex");
    assert_eq!(input_bases(), [Radix::Binary, Radix::Octal, Radix::Decimal, Radix::Hex]);
    assert_eq!(ColorFormat::all(), [ColorFormat::Hex, ColorFormat::Rgb, ColorFormat::Hsl]);
    assert_eq!(ColorFormat::Rgb.label(l10n), "color_rgb");
}
