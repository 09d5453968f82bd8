use base64::engine::general_purpose::STANDARD;
use base64::Engine;
use pico_hsm_api_connector::audit::Outcome;
use pico_hsm_api_connector::cert::{
    cert_cn, cert_policy_numbers, peer_leaf_cert, CertError, CertFields,
};
use pico_hsm_api_connector::clock::{TimeSpan, UtcTime};
use pico_hsm_api_connector::config::AuthzTable;
use pico_hsm_api_connector::hsm::HsmClient;
use pico_hsm_api_connector::protocol::Response;
use pico_hsm_api_connector::server::{Admission, Gateway};
use x509_parser::prelude::{FromDer, X509Certificate};

/// Subject `O=org, CN=app-a`, valid from 2026-01-01 to 2026-01-31.
const APP_A: &str = "MIHXMIGKoAMCAQICAQcwBQYDK2VwMA0xCzAJBgNVBAMMAmNhMB4XDTI2MDEwMTAwMDAwMFoXDTI2MDEzMTAwMDAwMFowHjEMMAoGA1UECgwDb3JnMQ4wDAYDVQQDDAVhcHAtYTAqMAUGAytlcAMhAAOhB7/zzhC+HXDdGOdLwJln5NYwm6UNXx3chmQSVTG4MAUGAytlcANBAOQz4qgSe5q0ZYb9xqBQhdv/3ZhJh1NOyMnT4Sfc67wpM0ASKpoU961+gnDG2ZYOaoKxR10BiaD+EdNt7blVHwg=";

/// Subject `CN=app-a`, valid for 200 days from 2026-01-01.
const LONG_LIVED: &str = "MIHIMHygAwIBAgIBBzAFBgMrZXAwDTELMAkGA1UEAwwCY2EwHhcNMjYwMTAxMDAwMDAwWhcNMjYwNzIwMDAwMDAwWjAQMQ4wDAYDVQQDDAVhcHAtYTAqMAUGAytlcAMhAAOhB7/zzhC+HXDdGOdLwJln5NYwm6UNXx3chmQSVTG4MAUGAytlcANBABBrAF5uBIkkoRzr72V4hMOXf/4PU2Kb2gn+g0nOGLBnEI2KnNGNVuYzNiq6UaGpUikkfaRXhqVfd+pmAEZ/CgM=";

/// Subject `O=org`.
const NO_CN: &str = "MIHGMHqgAwIBAgIBBzAFBgMrZXAwDTELMAkGA1UEAwwCY2EwHhcNMjYwMTAxMDAwMDAwWhcNMjYwMTMxMDAwMDAwWjAOMQwwCgYDVQQKDANvcmcwKjAFBgMrZXADIQADoQe/884Qvh1w3RjnS8CZZ+TWMJulDV8d3IZkElUxuDAFBgMrZXADQQC75OvUe6S0sfKdwXpYZz7UkMtJEYYasRJobVEtCywIvqEghK4rCjf/YWRa1fHMW0K+u+J1oTBLqbgCS4Aw8K4G";

/// Subject `CN=app-a`, valid for 90 days from 2026-01-01.
const NINETY_DAYS: &str = "MIHIMHygAwIBAgIBBzAFBgMrZXAwDTELMAkGA1UEAwwCY2EwHhcNMjYwMTAxMDAwMDAwWhcNMjYwNDAxMDAwMDAwWjAQMQ4wDAYDVQQDDAVhcHAtYTAqMAUGAytlcAMhAAOhB7/zzhC+HXDdGOdLwJln5NYwm6UNXx3chmQSVTG4MAUGAytlcANBAP4MLoXWSRGNp4YG1vEZFJp5fUncH7ui8GsBRiynK3FmQxkRuzMre1WGAK2i/c81mdBa86jIId133k2mlw6ITAc=";

/// Subject `CN=app-a`, valid for 90 days and one second from 2026-01-01.
const A_SECOND_OVER: &str = "MIHIMHygAwIBAgIBBzAFBgMrZXAwDTELMAkGA1UEAwwCY2EwHhcNMjYwMTAxMDAwMDAwWhcNMjYwNDAxMDAwMDAxWjAQMQ4wDAYDVQQDDAVhcHAtYTAqMAUGAytlcAMhAAOhB7/zzhC+HXDdGOdLwJln5NYwm6UNXx3chmQSVTG4MAUGAytlcANBAGc4PYLd3znxM7cQvULIZMVBWQPWY6O4TABeG7D3oN/DTje2XgpckLlAyFbkjCYx2YldbjAFbU+80OnCDHMR3Q0=";

const JAN_1: i64 = 1767225600;
const JAN_31: i64 = 1769817600;

fn der(text: &str) -> Vec<u8> {
    STANDARD.decode(text).unwrap()
}

fn at(secs: i64) -> UtcTime {
    UtcTime::new(secs, 0).unwrap()
}

fn fields(common_name: Option<&[u8]>, not_before: i64, not_after: i64) -> CertFields {
    CertFields { common_name: common_name.map(|cn| cn.to_vec()), not_before, not_after }
}

fn gateway() -> Gateway {
    let hsm = HsmClient::connect(&vec![0]).unwrap();
    Gateway::new(AuthzTable::default(), hsm, "gateway-integrity-key".to_string(), 90, 14)
}

#[test]
fn the_leaf_is_read() {
    let leaf = peer_leaf_cert(&Some(vec![der(APP_A), b"ignored".to_vec()])).unwrap();
    assert_eq!(leaf.common_name.as_deref(), Some("app-a".as_bytes()));
    assert_eq!(leaf.not_before, JAN_1);
    assert_eq!(leaf.not_after, JAN_31);
    assert_eq!(cert_cn(&leaf).unwrap(), "app-a");
    let (validity, left) = cert_policy_numbers(&leaf, &at(JAN_31 - 3 * 86_400)).unwrap();
    assert_eq!(validity.num_days(), 30);
    assert_eq!(left.num_days(), 3);
}

#[test]
fn a_chain_without_a_usable_leaf_is_an_error() {
    assert_eq!(peer_leaf_cert(&None).unwrap_err(), CertError::NotPresented);
    assert_eq!(peer_leaf_cert(&Some(vec![])).unwrap_err(), CertError::EmptyChain);
    let garbage = Some(vec![b"not a certificate".to_vec()]);
    let unparsable = peer_leaf_cert(&garbage).unwrap_err();
    assert_eq!(unparsable.text(), "cannot parse client certificate");
    let cause = X509Certificate::from_der(b"not a certificate").unwrap_err().to_string();
    assert_eq!(unparsable.cause(), Some(cause.as_str()));
    assert_eq!(unparsable, CertError::Unparsable { cause });
    let no_cn = peer_leaf_cert(&Some(vec![der(NO_CN)])).unwrap();
    assert_eq!(cert_cn(&no_cn).unwrap_err(), CertError::NoCn);
}

#[test]
fn the_cn_is_text_and_not_blank() {
    assert_eq!(cert_cn(&fields(None, 0, 0)).unwrap_err(), CertError::NoCn);
    let not_utf8 = cert_cn(&fields(Some(b"a\xff"), 0, 0)).unwrap_err();
    assert_eq!(not_utf8.text(), "client certificate CN is not UTF-8");
    assert_eq!(not_utf8.cause(), Some("invalid utf-8 sequence of 1 bytes from index 1"));
    assert_eq!(CertError::NoCn.cause(), None);
    assert_eq!(cert_cn(&fields(Some(b" \t"), 0, 0)).unwrap_err(), CertError::CnEmpty);
    assert_eq!(cert_cn(&fields(Some(b""), 0, 0)).unwrap_err(), CertError::CnEmpty);
    assert_eq!(cert_cn(&fields(Some(" ü ".as_bytes()), 0, 0)).unwrap(), " ü ");
}

#[test]
fn policy_numbers_are_spans_of_time() {
    let numbers = |from: i64, to: i64, now: i64| cert_policy_numbers(&fields(None, from, to), &at(now));
    assert_eq!(
        numbers(0, 91 * 86_400 - 1, 86_400).unwrap(),
        (at(91 * 86_400 - 1).since(&at(0)), at(91 * 86_400 - 1).since(&at(86_400)))
    );
    let (validity, left) = numbers(0, 86_400, 3 * 86_400).unwrap();
    assert_eq!(validity.num_days(), 1);
    assert_eq!(left.num_days(), -2);
    assert_eq!(numbers(i64::MAX, 0, 0).unwrap_err(), CertError::NotBeforeOutOfRange);
    assert_eq!(numbers(0, i64::MAX, 0).unwrap_err(), CertError::NotAfterOutOfRange);
}

#[test]
fn certificate_errors_have_their_words() {
    let words = [
        (CertError::NotPresented, "no client certificate presented"),
        (CertError::EmptyChain, "empty client certificate chain"),
        (CertError::Unparsable { cause: "c".to_string() }, "cannot parse client certificate"),
        (CertError::NoCn, "client certificate has no CN"),
        (CertError::CnNotUtf8 { cause: "c".to_string() }, "client certificate CN is not UTF-8"),
        (CertError::CnEmpty, "client certificate CN is empty"),
        (CertError::NotBeforeOutOfRange, "client certificate not_before out of range"),
        (CertError::NotAfterOutOfRange, "client certificate not_after out of range"),
    ];
    for (e, text) in words {
        assert_eq!(e.text(), text);
    }
}

#[test]
fn a_short_lived_certificate_is_accepted() {
    let (cn, admission) =
        gateway().handle_connection_at(&Some(vec![der(APP_A)]), &at(JAN_1)).unwrap();
    assert_eq!(cn, "app-a");
    assert!(matches!(admission, Admission::Accepted { warning: None }));
}

#[test]
fn a_certificate_that_expires_soon_is_warned_of() {
    let now = at(JAN_31 - 14 * 86_400);
    let (_, admission) = gateway().handle_connection_at(&Some(vec![der(APP_A)]), &now).unwrap();
    match admission {
        Admission::Accepted { warning: Some(entry) } => {
            assert_eq!(entry.cn, "app-a");
            assert_eq!(entry.operation, "connect");
            assert_eq!(entry.key_label, "");
            assert_eq!(entry.outcome, Outcome::CertExpiringSoon);
            assert_eq!(entry.detail, "expires in 14d");
        }
        other => panic!("{other:?}"),
    }
    let earlier = at(JAN_31 - 15 * 86_400);
    let (_, admission) = gateway().handle_connection_at(&Some(vec![der(APP_A)]), &earlier).unwrap();
    assert!(matches!(admission, Admission::Accepted { warning: None }));
}

#[test]
fn a_long_lived_certificate_is_rejected() {
    let (cn, admission) = gateway().handle_connection(&Some(vec![der(LONG_LIVED)])).unwrap();
    assert_eq!(cn, "app-a");
    match admission {
        Admission::Rejected { entry, response } => {
            assert_eq!(entry.cn, "app-a");
            assert_eq!(entry.operation, "connect");
            assert_eq!(entry.key_label, "");
            assert_eq!(entry.outcome, Outcome::Denied);
            assert_eq!(entry.detail, "cert_policy_violation: validity exceeds maximum");
            assert!(matches!(
                response,
                Response::Error { message } if message == "cert_policy_violation"
            ));
        }
        other => panic!("{other:?}"),
    }
}

/// A span of days and seconds.
fn span(days: i64, secs: i64) -> TimeSpan {
    at(days * 86_400 + secs).since(&at(0))
}

#[test]
fn the_policy_is_exact_at_its_bounds() {
    let g = gateway();
    let admission = |validity: TimeSpan, left: TimeSpan| g.enforce_cert_policy("a", &validity, &left);
    assert!(matches!(
        admission(span(90, 0), span(15, 0)),
        Admission::Accepted { warning: None }
    ));
    assert!(matches!(admission(span(91, 0), span(91, 0)), Admission::Rejected { .. }));
    assert!(matches!(
        admission(span(90, 0), span(14, 0)),
        Admission::Accepted { warning: Some(_) }
    ));
    match admission(span(1, 0), span(-2, 0)) {
        Admission::Accepted { warning: Some(entry) } => assert_eq!(entry.detail, "expires in -2d"),
        other => panic!("{other:?}"),
    }
}

#[test]
fn a_part_of_a_day_over_the_maximum_is_too_long() {
    let g = gateway();
    for over in [span(90, 1), span(90, 86_399)] {
        match g.enforce_cert_policy("a", &over, &over) {
            Admission::Rejected { entry, response } => {
                assert_eq!(entry.outcome, Outcome::Denied);
                assert!(matches!(
                    response,
                    Response::Error { message } if message == "cert_policy_violation"
                ));
            }
            other => panic!("{other:?}"),
        }
    }
    let under = span(90, -1);
    assert!(matches!(
        g.enforce_cert_policy("a", &under, &under),
        Admission::Accepted { warning: None }
    ));
}

#[test]
fn a_part_of_a_day_before_the_warning_is_too_early() {
    let chain = Some(vec![der(APP_A)]);
    let warned = |now: UtcTime| match gateway().handle_connection_at(&chain, &now).unwrap().1 {
        Admission::Accepted { warning } => warning.map(|entry| entry.detail),
        other => panic!("{other:?}"),
    };
    let due = JAN_31 - 14 * 86_400;
    assert_eq!(warned(at(due - 1)), None);
    assert_eq!(warned(UtcTime::new(due - 1, 999_999_999).unwrap()), None);
    assert_eq!(warned(at(due)).as_deref(), Some("expires in 14d"));
    assert_eq!(warned(UtcTime::new(due, 1).unwrap()).as_deref(), Some("expires in 13d"));
    assert_eq!(warned(at(JAN_31 - 3 * 86_400 - 1)).as_deref(), Some("expires in 3d"));
}

#[test]
fn a_connection_without_a_certificate_is_an_error() {
    assert_eq!(gateway().handle_connection(&None).unwrap_err(), CertError::NotPresented);
    let no_cn = Some(vec![der(NO_CN)]);
    assert_eq!(gateway().handle_connection(&no_cn).unwrap_err(), CertError::NoCn);
}

#[test]
fn a_certificate_is_rejected_for_one_second() {
    let admission = |text: &str| {
        gateway().handle_connection_at(&Some(vec![der(text)]), &at(JAN_1)).unwrap().1
    };
    assert!(matches!(admission(NINETY_DAYS), Admission::Accepted { warning: None }));
    assert!(matches!(admission(A_SECOND_OVER), Admission::Rejected { .. }));
}
