use mm_client::authorization::base64;
use mm_client::move_request::MoveTarget;
use mm_client::request::Credentials;
use mm_client::Client;

fn header_of(key: &str, secret: &str) -> String {
    Credentials { key: key.to_string(), secret: secret.to_string() }.authorization()
}

/// The header that reqwest writes for the same credentials.
fn reqwest_header_of(key: &str, secret: &str) -> String {
    let built = reqwest::blocking::Client::new()
        .get("http://127.0.0.1:1234/")
        .basic_auth(key, Some(secret))
        .build()
        .unwrap();
    built.headers()["authorization"].to_str().unwrap().to_string()
}

/// Base64 by shifting bits, to hold the library's arithmetic against.
fn by_bits(bytes: &[u8]) -> String {
    let digits = b"ABCDEFGHIJKLMNOPQRSTUVWXYZabcdefghijklmnopqrstuvwxyz0123456789+/";
    let mut text = String::new();
    for group in bytes.chunks(3) {
        let mut bits: u32 = 0;
        for index in 0..3 {
            bits = (bits << 8) | u32::from(*group.get(index).unwrap_or(&0));
        }
        for index in 0..4 {
            if index <= group.len() {
                text.push(digits[((bits >> (18 - 6 * index)) & 0x3f) as usize] as char);
            } else {
                text.push('=');
            }
        }
    }
    text
}

#[test]
fn base64_of_the_known_vectors() {
    assert_eq!(base64(b""), "");
    assert_eq!(base64(b"f"), "Zg==");
    assert_eq!(base64(b"fo"), "Zm8=");
    assert_eq!(base64(b"foo"), "Zm9v");
    assert_eq!(base64(b"foob"), "Zm9vYg==");
    assert_eq!(base64(b"fooba"), "Zm9vYmE=");
    assert_eq!(base64(b"foobar"), "Zm9vYmFy");
}

#[test]
fn base64_of_every_digit() {
    assert_eq!(base64(&[0x00, 0x10, 0x83]), "ABCD");
    assert_eq!(base64(&[0xff, 0xff, 0xff]), "////");
    assert_eq!(base64(&[0xff, 0xfe, 0xfd]), "//79");
    assert_eq!(base64(&[0xfb, 0xef, 0xbe]), "++++");
    assert_eq!(base64(&[0x00]), "AA==");
    assert_eq!(base64(&[0xff]), "/w==");
    assert_eq!(base64(&[0xff, 0xff]), "//8=");
    let all: Vec<u8> = (0..=255).collect();
    for start in 0..all.len() {
        for end in start..all.len().min(start + 7) {
            assert_eq!(base64(&all[start..end]), by_bits(&all[start..end]));
        }
    }
    assert_eq!(base64(&all), by_bits(&all));
}

#[test]
fn authorization_of_hello_and_world() {
    assert_eq!(header_of("hello", "world"), "Basic aGVsbG86d29ybGQ=");
    assert_eq!(
        Client::new("hello", "world").url("https://x/").authorization(),
        "Basic aGVsbG86d29ybGQ="
    );
}

#[test]
fn authorization_is_what_reqwest_writes() {
    let pairs = [
        ("hello", "world"),
        ("", ""),
        ("a", ""),
        ("", "b"),
        ("ab", "c"),
        ("user", "pass:word"),
        ("k\u{e9}y", "s\u{4e2d}cret \u{1f600}"),
        ("API_KEY", "API_SECRET"),
        ("0123456789abcdef0123456789abcdef", "~!@#$%^&*()_+{}|<>?"),
    ];
    for (key, secret) in pairs {
        assert_eq!(header_of(key, secret), reqwest_header_of(key, secret));
    }
}

#[test]
fn json_strings_escape_what_serde_json_escapes() {
    let texts = [
        "",
        "plain",
        "\"",
        "\\",
        "\u{8}\u{9}\u{a}\u{c}\u{d}",
        "\u{0}\u{1}\u{b}\u{e}\u{f}\u{10}\u{1a}\u{1f}",
        " \u{7f}/'",
        "caf\u{e9} \u{4e2d}\u{6587} \u{1f600}",
        "a\"b\\c\nd\te",
    ];
    for text in texts {
        let target = MoveTarget { show: Some(text.to_string()), season: None };
        assert_eq!(
            target.to_json(),
            format!("{{\"show\":{}}}", serde_json::to_string(text).unwrap())
        );
    }
    let target = MoveTarget { show: None, season: Some("\u{1}\u{1f}\"\\\n".to_string()) };
    assert_eq!(target.to_json(), "{\"season\":\"\\u0001\\u001f\\\"\\\\\\n\"}");
    let target = MoveTarget { show: None, season: Some("\u{8}\u{9}\u{c}\u{d}\u{7f}".to_string()) };
    assert_eq!(target.to_json(), "{\"season\":\"\\b\\t\\f\\r\u{7f}\"}");
}
