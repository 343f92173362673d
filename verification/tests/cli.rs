use fafa::cmd::argon2 as argon2_cmd;
use fafa::cmd::base::{self, compute_num, Radix};
use fafa::cmd::base64 as b64;
use fafa::cmd::bcrypt as bcrypt_cmd;
use fafa::cmd::color::{self, ColorError, ColorInput};
use fafa::cmd::hash::{self, Algorithm, HashError};
use fafa::cmd::qrcode::{self, compute_ascii, DarkRun, Level, QrCommandError, QrGrid};
use fafa::cmd::text_case::{self, space_words, spaced_title};
use fafa::cmd::timestamp::{self, fixed_tz, format_offset, split_epoch, split_frac, Command, TimestampError};
use fafa::cmd::url;
use fafa::cmd::uuid::{self as uuid_cmd, Version};
use fafa::pretty::{gen_padding, swatch, Report, ReportLine};
use fafa::radix::IntErrorKind;

fn texts(report: &Report) -> Vec<String> {
    report
        .lines
        .iter()
        .map(|l| match l {
            ReportLine::Text(t) => t.clone(),
            ReportLine::Pair { key, value, .. } => format!("{key}={value}"),
        })
        .collect()
}

fn pairs(report: &Report) -> Vec<(String, String, usize)> {
    report
        .lines
        .iter()
        .map(|l| match l {
            ReportLine::Pair { key, value, width } => (key.clone(), value.clone(), *width),
            ReportLine::Text(t) => panic!("unexpected text line {t}"),
        })
        .collect()
}

#[test]
fn padding_fills_to_width() {
    assert_eq!(gen_padding("ab", 5), "   ");
    assert_eq!(gen_padding("abcdef", 5), "");
    assert_eq!(gen_padding("", 3), "   ");
    assert_eq!(gen_padding("héé", 4), " ");
}

#[test]
fn swatch_is_truecolor_background() {
    assert_eq!(swatch(1, 2, 3), "\x1b[48;2;1;2;3m  \x1b[49m");
    assert_eq!(swatch(255, 0, 128), "\x1b[48;2;255;0;128m  \x1b[49m");
}

#[test]
fn base_conversion_of_decimal() {
    let report = base::run(base::Args { number: "255".to_string(), from: Radix::Decimal }).unwrap();
    assert_eq!(report.header, "Base Conversion");
    assert_eq!(
        pairs(&report),
        vec![
            ("Binary(2)".to_string(), "11111111".to_string(), 16),
            ("Octal(8)".to_string(), "377".to_string(), 16),
            ("Decimal(10)".to_string(), "255".to_string(), 16),
            ("Hex(16)".to_string(), "ff".to_string(), 16),
        ]
    );
}

#[test]
fn base_conversion_with_prefixes() {
    assert_eq!(compute_num("0xFF", Radix::Hex), Ok(255));
    assert_eq!(compute_num("0Xff", Radix::Hex), Ok(255));
    assert_eq!(compute_num("0b101", Radix::Binary), Ok(5));
    assert_eq!(compute_num("0B101", Radix::Binary), Ok(5));
    assert_eq!(compute_num("17", Radix::Octal), Ok(15));
    assert_eq!(compute_num("+42", Radix::Decimal), Ok(42));
}

#[test]
fn base_conversion_of_negative_is_twos_complement() {
    let report = base::run(base::Args { number: "-1".to_string(), from: Radix::Decimal }).unwrap();
    let p = pairs(&report);
    assert_eq!(p[0].1, "1".repeat(64));
    assert_eq!(p[1].1, "1777777777777777777777");
    assert_eq!(p[2].1, "-1");
    assert_eq!(p[3].1, "ffffffffffffffff");
}

#[test]
fn base_conversion_errors() {
    assert_eq!(compute_num("", Radix::Decimal), Err(IntErrorKind::Empty));
    assert_eq!(compute_num("12a", Radix::Decimal), Err(IntErrorKind::InvalidDigit));
    assert_eq!(compute_num("102", Radix::Binary), Err(IntErrorKind::InvalidDigit));
    assert_eq!(compute_num("9223372036854775808", Radix::Decimal), Err(IntErrorKind::PosOverflow));
    assert_eq!(compute_num("-9223372036854775809", Radix::Decimal), Err(IntErrorKind::NegOverflow));
    assert_eq!(compute_num("9223372036854775807", Radix::Decimal), Ok(i64::MAX));
    assert_eq!(compute_num("-9223372036854775808", Radix::Decimal), Ok(i64::MIN));
    assert!(base::run(base::Args { number: "zz".to_string(), from: Radix::Hex }).is_err());
}

#[test]
fn decimal_text_parses_back() {
    for n in [0i64, 1, -1, 42, -42, i64::MAX, i64::MIN] {
        let report = base::run(base::Args { number: n.to_string(), from: Radix::Decimal }).unwrap();
        let p = pairs(&report);
        assert_eq!(compute_num(&p[2].1, Radix::Decimal), Ok(n));
        if n >= 0 {
            assert_eq!(compute_num(&p[0].1, Radix::Binary), Ok(n));
            assert_eq!(compute_num(&p[1].1, Radix::Octal), Ok(n));
            assert_eq!(compute_num(&p[3].1, Radix::Hex), Ok(n));
        }
    }
}

#[test]
fn hash_digests_of_abc() {
    let cases = [
        (Algorithm::Md5, "900150983cd24fb0d6963f7d28e17f72"),
        (Algorithm::Sha1, "a9993e364706816aba3e25717850c26c9cd0d89d"),
        (Algorithm::Sha256, "ba7816bf8f01cfea414140de5dae2223b00361a396177a9cb410ff61f20015ad"),
        (
            Algorithm::Sha512,
            "ddaf35a193617abacc417349ae20413112e6fa4e89a97ea20a9eeee64b55d39a2192992a274fc1a836ba3c23a3feebbd454d4423643ce80e2a9ac94fa54ca49f",
        ),
        (Algorithm::Sha3_256, "3a985da74fe225b2045c172d6bd390bd855f086e3e9d525b46bfe24511431532"),
        (
            Algorithm::Sha3_512,
            "b751850b1a57168a5693cd924b6b096e08f621827444f70d884f5d0240d2712e10e116e9192af3c91a7ec57647e3934057340b4cf408d5a56592f8274eec53f0",
        ),
        (Algorithm::Blake3, "6437b3ac38465133ffb63b75273a8db548c558465d79db03fd359c6cd5bd9d85"),
    ];
    for (algo, expected) in cases {
        assert_eq!(hash::compute(algo, "abc"), expected);
    }
}

#[test]
fn hash_report_lists_every_algorithm() {
    let report = hash::run(None, hash::Args { input: "abc".to_string() }).unwrap();
    assert_eq!(report.header, "🔐 Hash");
    let p = pairs(&report);
    let names: Vec<&str> = p.iter().map(|x| x.0.as_str()).collect();
    assert_eq!(names, vec!["MD5", "SHA1", "SHA256", "SHA512", "SHA3-256", "SHA3-512", "BLAKE3"]);
    assert!(p.iter().all(|x| x.2 == 12));
    assert_eq!(p[0].1, "900150983cd24fb0d6963f7d28e17f72");
}

#[test]
fn hash_report_with_one_algorithm() {
    let report = hash::run(Some(Algorithm::Sha1), hash::Args { input: "abc".to_string() }).unwrap();
    assert_eq!(report.header, "SHA1");
    assert_eq!(texts(&report), vec!["a9993e364706816aba3e25717850c26c9cd0d89d".to_string()]);
}

#[test]
fn hash_of_empty_input_is_refused() {
    assert!(matches!(hash::run(None, hash::Args { input: String::new() }), Err(HashError::EmptyInput)));
}

#[test]
fn base64_encodes() {
    assert_eq!(b64::encode("hello", false, true), "aGVsbG8=");
    assert_eq!(b64::encode("hello", false, false), "aGVsbG8");
    assert_eq!(b64::encode("?>?", false, true), "Pz4/");
    assert_eq!(b64::encode("?>?", true, true), "Pz4_");
    assert_eq!(b64::encode("", false, true), "");
    let report = b64::run_encode(b64::EncodeArgs { text: "hi".to_string(), url_safe: false, no_padding: false });
    assert_eq!(report.header, "Base64 Encode");
    assert_eq!(texts(&report), vec!["aGk=".to_string()]);
}

#[test]
fn base64_decodes_padded_or_not() {
    assert_eq!(b64::decode("aGVsbG8=", false).unwrap(), "hello");
    assert_eq!(b64::decode("aGVsbG8", false).unwrap(), "hello");
    assert_eq!(b64::decode("Pz4_", true).unwrap(), "?>?");
    assert!(b64::decode("Pz4_", false).is_err());
    assert!(b64::decode("!!", false).is_err());
}

#[test]
fn base64_decode_of_binary_shows_hex() {
    assert_eq!(b64::decode("/w==", false).unwrap(), "FF");
    assert_eq!(b64::decode("AP8=", false).unwrap(), "00FF");
    let report = b64::run_decode(b64::DecodeArgs { text: "aGk=".to_string(), url_safe: false }).unwrap();
    assert_eq!(report.header, "Base64 Decode");
    assert_eq!(texts(&report), vec!["hi".to_string()]);
    assert!(b64::run_decode(b64::DecodeArgs { text: "*".to_string(), url_safe: false }).is_err());
}

#[test]
fn base64_roundtrip() {
    for t in ["", "a", "ab", "abc", "你好, world", "?>?~"] {
        for url_safe in [false, true] {
            for padded in [false, true] {
                assert_eq!(b64::decode(&b64::encode(t, url_safe, padded), url_safe).unwrap(), t);
            }
        }
    }
}

#[test]
fn url_encodes_and_decodes() {
    assert_eq!(url::encode("foo bar?"), "foo%20bar%3F");
    assert_eq!(url::encode("aZ09-_.~"), "aZ09%2D%5F%2E%7E");
    assert_eq!(url::encode("你"), "%E4%BD%A0");
    assert_eq!(url::decode("%E4%BD%A0"), "你");
    assert_eq!(url::decode("a%20b"), "a b");
    assert_eq!(url::decode("%FF"), "%FF");
    assert_eq!(url::decode("%zz"), "%zz");
    let report = url::run_encode(url::EncodeArgs { text: "a b".to_string() });
    assert_eq!(report.header, "URL Encode");
    assert_eq!(texts(&report), vec!["a%20b".to_string()]);
    let report = url::run_decode(url::DecodeArgs { text: "a%20b".to_string() });
    assert_eq!(report.header, "URL Decode");
    assert_eq!(texts(&report), vec!["a b".to_string()]);
}

#[test]
fn url_roundtrip() {
    for t in ["", "plain", "with space", "100%", "ümlaut & 你好"] {
        assert_eq!(url::decode(&url::encode(t)), t);
    }
}

#[test]
fn color_hex_parses() {
    match color::parse("#FF8000").unwrap() {
        ColorInput::Hex(c) => {
            assert_eq!((c.r, c.g, c.b, c.alpha), (255, 128, 0, None));
        }
        _ => panic!("expected a hex colour"),
    }
    match color::parse("  #ff800080 ").unwrap() {
        ColorInput::Hex(c) => assert_eq!((c.r, c.g, c.b, c.alpha), (255, 128, 0, Some(128))),
        _ => panic!("expected a hex colour"),
    }
    assert_eq!(color::parse("#12345").err(), Some(ColorError::HexDigitCount));
    assert_eq!(color::parse("#12345g").err(), Some(ColorError::InvalidHexDigit));
    assert_eq!(color::parse("blue").err(), Some(ColorError::UnsupportedFormat));
}

#[test]
fn color_rgb_and_hsl_parse() {
    match color::parse("rgb(1, 2, 3)").unwrap() {
        ColorInput::Rgb(p) => assert_eq!((p.r, p.g, p.b, p.alpha), (1, 2, 3, None)),
        _ => panic!("expected rgb"),
    }
    match color::parse("RGBA(10,20,30,0.5)").unwrap() {
        ColorInput::Rgb(p) => {
            assert_eq!((p.r, p.g, p.b), (10, 20, 30));
            assert_eq!(p.alpha.as_deref(), Some("0.5"));
        }
        _ => panic!("expected rgb"),
    }
    assert_eq!(color::parse("rgb(1,2)").err(), Some(ColorError::RgbComponentCount));
    assert_eq!(
        color::parse("rgb(1,256,3)").err(),
        Some(ColorError::InvalidRgbComponent("256".to_string()))
    );
    assert_eq!(color::parse("rgb 1,2,3").err(), Some(ColorError::InvalidRgbFormat));
    match color::parse("hsl(120, 50%, 25%)").unwrap() {
        ColorInput::Hsl(p) => {
            assert_eq!(p.hue, "120");
            assert_eq!(p.saturation, "50");
            assert_eq!(p.lightness, "25");
            assert_eq!(p.alpha, None);
        }
        _ => panic!("expected hsl"),
    }
    assert_eq!(color::parse("hsl(1,2)").err(), Some(ColorError::HslComponentCount));
    assert_eq!(color::parse("hsl 1,2,3").err(), Some(ColorError::InvalidHslFormat));
}

#[test]
fn color_error_messages() {
    assert_eq!(ColorError::HexDigitCount.message(), "hex color must have 6 or 8 hex digits");
    assert_eq!(
        ColorError::InvalidRgbComponent("x".to_string()).message(),
        "invalid rgb component: x"
    );
}

#[test]
fn color_hex_texts() {
    assert_eq!(color::to_hex(255, 128, 0), "#FF8000");
    assert_eq!(color::to_rgba_hex(1, 2, 3, 255), "#010203FF");
    assert_eq!(color::to_argb_hex(255, 1, 2, 3), "#FF010203");
}

#[test]
fn color_hex_roundtrip() {
    for (r, g, b) in [(0u8, 0u8, 0u8), (255, 128, 1), (18, 52, 86)] {
        match color::parse(&color::to_hex(r, g, b)).unwrap() {
            ColorInput::Hex(c) => assert_eq!((c.r, c.g, c.b, c.alpha), (r, g, b, None)),
            _ => panic!("expected hex"),
        }
    }
}

#[test]
fn timestamp_offsets() {
    assert!(matches!(fixed_tz(15), Err(TimestampError::OffsetOutOfRange)));
    assert!(matches!(fixed_tz(-13), Err(TimestampError::OffsetOutOfRange)));
    assert!(matches!(fixed_tz(14), Ok(50400)));
    assert!(matches!(fixed_tz(-12), Ok(-43200)));
    assert_eq!(format_offset(8), "UTC+8");
    assert_eq!(format_offset(-5), "UTC-5");
    assert_eq!(format_offset(0), "UTC");
}

#[test]
fn timestamp_split_epoch_floors() {
    assert_eq!(split_epoch(1500, true), (1, 500_000_000));
    assert_eq!(split_epoch(-1, true), (-1, 999_000_000));
    assert_eq!(split_epoch(-1000, true), (-1, 0));
    assert_eq!(split_epoch(-1001, true), (-2, 999_000_000));
    assert_eq!(split_epoch(77, false), (77, 0));
}

#[test]
fn timestamp_split_fraction() {
    assert_eq!(split_frac("2024-01-01 00:00:00.5"), ("2024-01-01 00:00:00".to_string(), 500));
    assert_eq!(split_frac("2024-01-01 00:00:00.12345"), ("2024-01-01 00:00:00".to_string(), 123));
    assert_eq!(split_frac("2024-01-01 00:00:00"), ("2024-01-01 00:00:00".to_string(), 0));
    assert_eq!(split_frac("2024-01-01 00:00:00."), ("2024-01-01 00:00:00.".to_string(), 0));
    assert_eq!(split_frac("a.b"), ("a.b".to_string(), 0));
}

#[test]
fn timestamp_from_epoch() {
    let report = timestamp::run(timestamp::Args {
        command: Command::From { epoch: 0, millis: false, offset: 8 },
    })
    .ok()
    .unwrap();
    assert_eq!(report.header, "Timestamp to date");
    assert_eq!(
        texts(&report),
        vec!["1970-01-01 08:00:00 UTC+8".to_string(), "1970-01-01 00:00:00 UTC".to_string()]
    );
    let report = timestamp::run(timestamp::Args {
        command: Command::From { epoch: 1500, millis: true, offset: -5 },
    })
    .ok()
    .unwrap();
    assert_eq!(
        texts(&report),
        vec![
            "1969-12-31 19:00:01.500 UTC-5".to_string(),
            "1970-01-01 00:00:01.500 UTC".to_string()
        ]
    );
}

#[test]
fn timestamp_to_epoch() {
    let report = timestamp::run(timestamp::Args {
        command: Command::To { datetime: "2024-01-01 00:00:00".to_string(), offset: 0 },
    })
    .ok()
    .unwrap();
    assert_eq!(report.header, "Date to timestamp");
    assert_eq!(texts(&report), vec!["1704067200".to_string(), "1704067200000".to_string()]);
    let report = timestamp::run(timestamp::Args {
        command: Command::To { datetime: "2024-01-01 08:00:00.123".to_string(), offset: 8 },
    })
    .ok()
    .unwrap();
    assert_eq!(texts(&report), vec!["1704067200".to_string(), "1704067200123".to_string()]);
}

#[test]
fn timestamp_errors() {
    assert!(matches!(
        timestamp::run(timestamp::Args { command: Command::Now { millis: false, offset: 20 } }),
        Err(TimestampError::OffsetOutOfRange)
    ));
    assert!(matches!(
        timestamp::run(timestamp::Args {
            command: Command::To { datetime: "yesterday".to_string(), offset: 0 }
        }),
        Err(TimestampError::Jiff(_))
    ));
    assert!(matches!(
        timestamp::run(timestamp::Args {
            command: Command::From { epoch: i64::MAX, millis: false, offset: 0 }
        }),
        Err(TimestampError::Jiff(_))
    ));
}

#[test]
fn timestamp_now_is_a_number() {
    let report = timestamp::run(timestamp::Args { command: Command::Now { millis: true, offset: 8 } })
        .ok()
        .unwrap();
    assert_eq!(report.header, "Timestamp (now)");
    let t = texts(&report);
    assert_eq!(t.len(), 1);
    assert!(t[0].parse::<i64>().unwrap() > 1_600_000_000_000);
}

#[test]
fn text_case_report() {
    let report = text_case::run(text_case::Args { text: "hello world".to_string() }).unwrap();
    assert_eq!(report.header, "Text Case");
    let p = pairs(&report);
    let expected = [
        ("lowerCamelCase", "helloWorld"),
        ("UpperCamelCase", "HelloWorld"),
        ("snake_case", "hello_world"),
        ("SHOUTY_SNAKE_CASE", "HELLO_WORLD"),
        ("kebab-case", "hello-world"),
        ("SHOUTY-KEBAB-CASE", "HELLO-WORLD"),
        ("Train-Case", "Hello-World"),
        ("Title Case", "Hello World"),
    ];
    assert_eq!(p.len(), 8);
    for (i, (k, v)) in expected.iter().enumerate() {
        assert_eq!(p[i].0, *k);
        assert_eq!(p[i].1, *v);
        assert_eq!(p[i].2, 20);
    }
}

#[test]
fn text_case_of_empty_text_prints_nothing() {
    assert!(text_case::run(text_case::Args { text: String::new() }).is_none());
}

#[test]
fn spaced_title_words() {
    assert_eq!(space_words("HelloWorld"), "Hello World");
    assert_eq!(space_words("ABC"), "A B C");
    assert_eq!(space_words(""), "");
    assert_eq!(spaced_title("some_text here"), "Some Text Here");
}

#[test]
fn qr_code_drawing() {
    let ascii = compute_ascii("hello", Level::M).ok().unwrap();
    assert!(ascii.contains('\u{2588}') || ascii.contains('\u{2580}') || ascii.contains('\u{2584}'));
    let report = qrcode::run(qrcode::Args { text: "hello".to_string(), level: Level::M }).ok().unwrap();
    assert_eq!(report.header, "QR Code M 15%");
    let t = texts(&report);
    assert_eq!(t.len(), 1);
    assert_eq!(t[0], qrcode::compute_svg("hello", Level::M).ok().unwrap());
    assert!(t[0].starts_with("<?xml"));
    assert!(t[0].contains("<svg"));
    assert!(t[0].trim_end().ends_with("</svg>"));
    assert_eq!(Level::H.label(), "H 30%");
    assert_eq!(Level::L.label(), "L 7%");
}

#[test]
fn qr_code_errors() {
    assert!(matches!(
        qrcode::run(qrcode::Args { text: String::new(), level: Level::L }),
        Err(QrCommandError::EmptyText)
    ));
    let long = "x".repeat(8000);
    assert!(compute_ascii(&long, Level::H).is_err());
    assert!(matches!(
        qrcode::run(qrcode::Args { text: long, level: Level::H }),
        Err(QrCommandError::Qr(_))
    ));
}

#[test]
fn qr_code_grid_of_version_one() {
    let grid = qrcode::grid_for("hi", Level::L).unwrap();
    assert_eq!(grid.width, 21);
    assert_eq!(grid.dark.len(), 441);
    assert!(grid.dark[0]);
}

#[test]
fn dark_runs_are_maximal() {
    let grid = QrGrid {
        width: 3,
        dark: vec![true, true, false, false, false, false, true, false, true],
    };
    let runs = qrcode::dark_runs(&grid);
    assert_eq!(
        runs,
        vec![
            DarkRun { row: 0, start: 0, end: 2 },
            DarkRun { row: 2, start: 0, end: 1 },
            DarkRun { row: 2, start: 2, end: 3 },
        ]
    );
    let full = QrGrid { width: 2, dark: vec![true; 4] };
    assert_eq!(
        qrcode::dark_runs(&full),
        vec![DarkRun { row: 0, start: 0, end: 2 }, DarkRun { row: 1, start: 0, end: 2 }]
    );
    let empty = QrGrid { width: 2, dark: vec![false; 4] };
    assert!(qrcode::dark_runs(&empty).is_empty());
}

#[test]
fn dark_runs_cover_every_dark_module() {
    let grid = qrcode::grid_for("coverage", Level::Q).unwrap();
    let runs = qrcode::dark_runs(&grid);
    let w = grid.width;
    let mut painted = vec![false; w * w];
    for r in &runs {
        for x in r.start..r.end {
            assert!(!painted[r.row * w + x]);
            painted[r.row * w + x] = true;
        }
    }
    assert_eq!(painted, grid.dark);
}

fn check_uuid(text: &str, version: char, hyphens: bool) {
    if hyphens {
        assert_eq!(text.len(), 36);
        let dashes: Vec<usize> = text.char_indices().filter(|(_, c)| *c == '-').map(|(i, _)| i).collect();
        assert_eq!(dashes, vec![8, 13, 18, 23]);
        assert_eq!(text.chars().nth(14), Some(version));
        assert!("89ab".contains(text.chars().nth(19).unwrap()));
    } else {
        assert_eq!(text.len(), 32);
        assert_eq!(text.chars().nth(12), Some(version));
        assert!("89ab".contains(text.chars().nth(16).unwrap()));
    }
    assert!(text.chars().all(|c| c == '-' || c.is_ascii_digit() || ('a'..='f').contains(&c)));
}

#[test]
fn uuid_report() {
    let report = uuid_cmd::run(uuid_cmd::Args { count: 3, version: Version::V4, no_hyphens: false });
    assert_eq!(report.header, "# UUID V4");
    let t = texts(&report);
    assert_eq!(t.len(), 3);
    for u in &t {
        check_uuid(u, '4', true);
    }
    assert_ne!(t[0], t[1]);
    let report = uuid_cmd::run(uuid_cmd::Args { count: 2, version: Version::V7, no_hyphens: true });
    assert_eq!(report.header, "# UUID V7");
    for u in &texts(&report) {
        check_uuid(u, '7', false);
    }
    let none = uuid_cmd::run(uuid_cmd::Args { count: 0, version: Version::V7, no_hyphens: true });
    assert!(none.lines.is_empty());
}

#[test]
fn uuid_text_of_fixed_bytes() {
    let bytes = [0x12, 0x34, 0x56, 0x78, 0x9a, 0xbc, 0x4d, 0xef, 0x80, 0x01, 0x02, 0x03, 0x04, 0x05, 0x06, 0x07];
    assert_eq!(uuid_cmd::uuid_string(bytes, true), "12345678-9abc-4def-8001-020304050607");
    assert_eq!(uuid_cmd::uuid_string(bytes, false), "123456789abc4def8001020304050607");
}

#[test]
fn argon2_hash_shape() {
    let report = argon2_cmd::run(argon2_cmd::Args { password: "secret".to_string() }).ok().unwrap();
    assert_eq!(report.header, "Argon2");
    let t = texts(&report);
    assert_eq!(t.len(), 1);
    assert!(t[0].starts_with("$argon2id$v=19$m=19456,t=2,p=1$"));
    assert_eq!(t[0].len(), 97);
    assert_eq!(t[0].as_bytes()[53], b'$');
    let verifier = ::argon2::Argon2::default();
    assert!(::argon2::PasswordVerifier::<str>::verify_password(&verifier, b"secret", t[0].as_str()).is_ok());
    assert!(::argon2::PasswordVerifier::<str>::verify_password(&verifier, b"x", t[0].as_str()).is_err());
    assert!(matches!(
        argon2_cmd::run(argon2_cmd::Args { password: String::new() }),
        Err(argon2_cmd::Argon2CommandError::EmptyPassword)
    ));
    assert_eq!(argon2_cmd::Argon2Failure::OutOfMemory.message(), "out of memory");
    assert_eq!(argon2_cmd::Argon2Failure::PasswordTooLong.message(), "invalid password");
}

#[test]
fn bcrypt_hash_shape() {
    let report = bcrypt_cmd::run(bcrypt_cmd::Args { password: "secret".to_string() }).ok().unwrap();
    assert_eq!(report.header, "Bcrypt");
    let t = texts(&report);
    assert_eq!(t.len(), 1);
    assert!(t[0].starts_with("$2b$12$"));
    assert_eq!(t[0].len(), 60);
    assert_eq!(::bcrypt::verify("secret", &t[0]).unwrap(), true);
    assert_eq!(::bcrypt::verify("x", &t[0]).unwrap(), false);
    assert!(matches!(
        bcrypt_cmd::run(bcrypt_cmd::Args { password: String::new() }),
        Err(bcrypt_cmd::BcryptCommandError::EmptyPassword)
    ));
}

#[test]
fn int_error_messages() {
    assert_eq!(IntErrorKind::Empty.message(), "cannot parse integer from empty string");
    assert_eq!(IntErrorKind::InvalidDigit.message(), "invalid digit found in string");
    assert_eq!(IntErrorKind::PosOverflow.message(), "number too large to fit in target type");
    assert_eq!(IntErrorKind::NegOverflow.message(), "number too small to fit in target type");
}

#[test]
fn qr_fit_at_a_level_means_fit_below() {
    let levels = [Level::L, Level::M, Level::Q, Level::H];
    let long = "a".repeat(3000);
    for level in levels {
        assert!(compute_ascii(&long, level).is_err());
    }
    for text in ["hello", &"a".repeat(1200), &"7".repeat(3000)] {
        for (i, level) in levels.iter().enumerate() {
            if compute_ascii(text, *level).is_ok() {
                for lower in &levels[..=i] {
                    assert!(compute_ascii(text, *lower).is_ok());
                }
            }
        }
    }
    assert!(compute_ascii(&"a".repeat(1500), Level::L).is_ok());
    assert!(compute_ascii(&"a".repeat(1500), Level::H).is_err());
    assert!(compute_ascii(&"7".repeat(7089), Level::L).is_ok());
    assert!(compute_ascii(&"7".repeat(7090), Level::L).is_err());
    assert!(qrcode::compute_svg(&"a".repeat(3000), Level::L).is_err());
}
