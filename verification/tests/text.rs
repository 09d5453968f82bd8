use pico_hsm_api_connector::clock::UtcTime;
use pico_hsm_api_connector::codec::hex_sha256;
use pico_hsm_api_connector::integrity::{integrity_payload, INTEGRITY_DOMAIN};
use pico_hsm_api_connector::settings::{days_var, load_env, parse_integer, required_var};
use pico_hsm_api_connector::text::{decimal_text, hex_text, is_blank, same_text};

#[test]
fn texts_are_compared_by_characters() {
    assert!(same_text("", ""));
    assert!(same_text("grün", "grün"));
    assert!(!same_text("a", "b"));
    assert!(!same_text("a", "ab"));
}

#[test]
fn white_space_is_blank() {
    assert!(is_blank(""));
    assert!(is_blank(" \t\r\n"));
    assert!(is_blank("\u{a0}\u{2003}"));
    assert!(!is_blank(" x "));
    assert!(!is_blank("\u{200b}"));
}

#[test]
fn numbers_and_bytes_are_written_out() {
    assert_eq!(decimal_text(0), "0");
    assert_eq!(decimal_text(1234567890), "1234567890");
    assert_eq!(decimal_text(-5), "-5");
    assert_eq!(decimal_text(i64::MIN), "-9223372036854775808");
    assert_eq!(decimal_text(i64::MAX), "9223372036854775807");
    assert_eq!(hex_text(&[0x00, 0x0f, 0xa0, 0xff]), "000fa0ff");
    assert_eq!(hex_text(&[]), "");
}

#[test]
fn fingerprints_have_their_value() {
    assert_eq!(
        hex_sha256(b"abc"),
        "ba7816bf8f01cfea414140de5dae2223b00361a396177a9cb410ff61f20015ad"
    );
}

#[test]
fn integrity_payload_binds_label_iv_and_ct() {
    let a = integrity_payload("k1", b"0123456789abcdef", b"ciphertext");
    let b = integrity_payload("k2", b"0123456789abcdef", b"ciphertext");
    let c = integrity_payload("k1", b"0123456789abcdef", b"other");
    assert_ne!(a, b);
    assert_ne!(a, c);
    assert!(a.windows(INTEGRITY_DOMAIN.len()).any(|w| w == INTEGRITY_DOMAIN.as_bytes()));
}

#[test]
fn integrity_payload_has_its_value() {
    let mut expected: Vec<u8> = Vec::new();
    let domain: &[u8] = b"pico-hsm-api-connector/integrity-v1";
    let iv: &[u8] = b"iv";
    for part in [domain, "k".as_bytes(), iv, &[7u8; 300]] {
        expected.extend_from_slice(&(part.len() as u64).to_be_bytes());
        expected.extend_from_slice(part);
    }
    assert_eq!(integrity_payload("k", b"iv", &[7u8; 300]), expected);
}

#[test]
fn field_boundaries_cannot_shift() {
    assert_ne!(integrity_payload("k", b"ab", b"c"), integrity_payload("k", b"a", b"bc"));
    assert_ne!(integrity_payload("ka", b"b", b"c"), integrity_payload("k", b"ab", b"c"));
}

#[test]
fn times_have_dates_within_bounds() {
    assert_eq!(UtcTime::new(0, 0).unwrap().rfc3339(), "1970-01-01T00:00:00.000Z");
    assert_eq!(UtcTime::new(1767225600, 123_456_789).unwrap().rfc3339(), "2026-01-01T00:00:00.123Z");
    assert_eq!(UtcTime::new(-1, 0).unwrap().rfc3339(), "1969-12-31T23:59:59.000Z");
    assert!(UtcTime::new(8_210_266_876_799, 0).is_some());
    assert!(UtcTime::new(8_210_266_876_800, 0).is_none());
    assert!(UtcTime::new(-8_334_601_228_800, 0).is_some());
    assert!(UtcTime::new(-8_334_601_228_801, 0).is_none());
    assert!(UtcTime::new(0, 1_000_000_000).is_none());
    assert!(UtcTime::now().since(&UtcTime::new(0, 0).unwrap()).exceeds_days(20_000));
}

#[test]
fn only_whole_days_are_counted() {
    let t = |secs: i64, nanos: u32| UtcTime::new(secs, nanos).unwrap();
    assert_eq!(t(86_400, 0).since(&t(0, 0)).num_days(), 1);
    assert_eq!(t(86_399, 999_999_999).since(&t(0, 0)).num_days(), 0);
    assert_eq!(t(86_400, 0).since(&t(0, 1)).num_days(), 0);
    assert_eq!(t(0, 0).since(&t(86_399, 0)).num_days(), 0);
    assert_eq!(t(0, 0).since(&t(2 * 86_400, 0)).num_days(), -2);
}

#[test]
fn days_are_exceeded_by_a_moment() {
    let t = |secs: i64, nanos: u32| UtcTime::new(secs, nanos).unwrap();
    assert!(!t(86_400, 0).since(&t(0, 0)).exceeds_days(1));
    assert!(t(86_400, 1).since(&t(0, 0)).exceeds_days(1));
    assert!(!t(86_400, 0).since(&t(0, 1)).exceeds_days(1));
    assert!(!t(0, 0).since(&t(86_400, 0)).exceeds_days(-1));
    assert!(t(0, 1).since(&t(86_400, 0)).exceeds_days(-1));
    assert!(!t(8_210_266_876_799, 0).since(&t(0, 0)).exceeds_days(i64::MAX));
    assert!(t(0, 0).since(&t(8_210_266_876_799, 0)).exceeds_days(i64::MIN));
}

type Lookups = Vec<(String, Result<String, String>)>;

fn vars(pairs: &[(&str, &str)]) -> Lookups {
    pairs.iter().map(|(n, v)| (n.to_string(), Ok(v.to_string()))).collect()
}

fn all_required() -> Lookups {
    vars(&[
        ("GATEWAY_LISTEN_ADDR", "127.0.0.1:8443"),
        ("GATEWAY_SERVER_CERT", "server.pem"),
        ("GATEWAY_SERVER_KEY", "server-key.pem"),
        ("GATEWAY_CLIENT_CA", "ca.pem"),
        ("GATEWAY_CLIENTS_CONFIG", "clients.yaml"),
        ("GATEWAY_PKCS11_MODULE", "module.so"),
        ("GATEWAY_HSM_PIN", "pin"),
        ("GATEWAY_AUDIT_LOG", "audit.jsonl"),
        ("GATEWAY_INTEGRITY_KEY_LABEL", "gateway-integrity-key"),
    ])
}

#[test]
fn settings_come_from_their_variables() {
    let cfg = load_env(&all_required()).unwrap();
    assert_eq!(cfg.listen_addr, "127.0.0.1:8443");
    assert_eq!(cfg.server_cert, "server.pem");
    assert_eq!(cfg.server_key, "server-key.pem");
    assert_eq!(cfg.client_ca, "ca.pem");
    assert_eq!(cfg.clients_config, "clients.yaml");
    assert_eq!(cfg.pkcs11_module, "module.so");
    assert_eq!(cfg.hsm_pin, "pin");
    assert_eq!(cfg.audit_log, "audit.jsonl");
    assert_eq!(cfg.integrity_key_label, "gateway-integrity-key");
    assert_eq!(cfg.max_client_cert_validity_days, 90);
    assert_eq!(cfg.cert_expiry_warn_days, 14);
}

#[test]
fn every_variable_but_the_days_is_required() {
    for i in 0..9 {
        let mut some = all_required();
        let (name, _) = some.remove(i);
        assert_eq!(
            load_env(&some).err().unwrap().text(),
            format!("environment variable {name} is not set")
        );
    }
    let none = load_env(&vec![]).err().unwrap().text();
    assert_eq!(none, "environment variable GATEWAY_LISTEN_ADDR is not set");
    assert_eq!(required_var(&vars(&[("A", "x")]), "A").unwrap(), "x");
    let missing = required_var(&vars(&[("A", "x")]), "B").unwrap_err();
    assert_eq!(missing.text(), "environment variable B is not set");
    assert_eq!(missing.cause(), "environment variable not found");
    let unreadable = vec![("B".to_string(), Err("not valid unicode".to_string()))];
    let e = required_var(&unreadable, "B").unwrap_err();
    assert_eq!(e.text(), "environment variable B is not set");
    assert_eq!(e.cause(), "not valid unicode");
    assert_eq!(days_var(&unreadable, "B", 7).unwrap(), 7);
}

#[test]
fn days_are_integers() {
    let mut set = all_required();
    set.extend(vars(&[
        ("GATEWAY_MAX_CLIENT_CERT_VALIDITY_DAYS", "+30"),
        ("GATEWAY_CERT_EXPIRY_WARN_DAYS", "-1"),
    ]));
    let cfg = load_env(&set).unwrap();
    assert_eq!(cfg.max_client_cert_validity_days, 30);
    assert_eq!(cfg.cert_expiry_warn_days, -1);
    set.retain(|(name, _)| name != "GATEWAY_CERT_EXPIRY_WARN_DAYS");
    set.extend(vars(&[("GATEWAY_CERT_EXPIRY_WARN_DAYS", " 14")]));
    let e = load_env(&set).err().unwrap();
    assert_eq!(
        e.text(),
        "GATEWAY_CERT_EXPIRY_WARN_DAYS must be an integer (days), was \" 14\""
    );
    assert_eq!(e.cause(), "invalid digit found in string");
    assert_eq!(days_var(&vec![], "X", 7).unwrap(), 7);
    assert_eq!(days_var(&vars(&[("X", "5")]), "X", 7).unwrap(), 5);
}

#[test]
fn integers_are_read_as_std_reads_them() {
    let texts = [
        "", "+", "-", "0", "007", "+5", "-5", "--5", "5 ", " 5", "1_000", "12a", "٣",
        "9223372036854775807", "9223372036854775808", "-9223372036854775808",
        "-9223372036854775809", "92233720368547758070", "99999999999999999999999999",
        "00000000000000000000000000000000001", "18446744073709551616",
        "99999999999999999999x", "9223372036854775807x", "9223372036854775808x",
        "-99999999999999999999x", "-9223372036854775808x", "+-5", "-+5", "x", "-x",
        "922337203685477580x",
    ];
    for text in texts {
        let read = parse_integer(text).map_err(|fault| fault.text().to_string());
        assert_eq!(read, text.parse::<i64>().map_err(|e| e.to_string()), "{text:?}");
    }
}
