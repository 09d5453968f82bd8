use pico_hsm_api_connector::audit::{
    check_entry, entry_hash, read_line, verify_chain, AuditLog, ChainFault, Entry, LogLine,
    Outcome, GENESIS,
};
use base64::engine::general_purpose::STANDARD;
use base64::Engine;
use pico_hsm_api_connector::clock::UtcTime;
use serde_json::Value;
use sha2::{Digest, Sha256};

const OUTCOMES: [(Outcome, &str); 5] = [
    (Outcome::Intent, "intent"),
    (Outcome::Authorized, "authorized"),
    (Outcome::Denied, "denied"),
    (Outcome::Error, "error"),
    (Outcome::CertExpiringSoon, "cert_expiring_soon"),
];

fn to_json(e: &Entry) -> String {
    let outcome = OUTCOMES.iter().find(|o| o.0 == e.outcome).unwrap().1;
    let mut map = serde_json::Map::new();
    let fields = [
        ("ts", e.ts.as_str()),
        ("cn", e.cn.as_str()),
        ("operation", e.operation.as_str()),
        ("key_label", e.key_label.as_str()),
        ("outcome", outcome),
        ("detail", e.detail.as_str()),
        ("prev_hash_b64", e.prev_hash_b64.as_str()),
        ("hash_b64", e.hash_b64.as_str()),
    ];
    for (name, value) in fields {
        map.insert(name.to_string(), Value::String(value.to_string()));
    }
    Value::Object(map).to_string()
}

fn from_json(line: &str) -> Result<Entry, String> {
    let v: Value = serde_json::from_str(line).map_err(|e| e.to_string())?;
    let text = |name: &str| match v.get(name).and_then(|f| f.as_str()) {
        Some(s) => Ok(s.to_string()),
        None => Err(format!("missing field `{name}`")),
    };
    let name = text("outcome")?;
    let outcome = OUTCOMES.iter().find(|o| o.1 == name).ok_or("unknown outcome")?.0;
    Ok(Entry {
        ts: text("ts")?,
        cn: text("cn")?,
        operation: text("operation")?,
        key_label: text("key_label")?,
        outcome,
        detail: text("detail")?,
        prev_hash_b64: text("prev_hash_b64")?,
        hash_b64: text("hash_b64")?,
    })
}

fn lines(text: &str) -> Vec<LogLine> {
    text.lines().map(|line| read_line(line, from_json(line))).collect()
}

fn append(
    log: &mut AuditLog,
    file: &mut String,
    cn: &str,
    operation: &str,
    key_label: &str,
    outcome: Outcome,
    detail: &str,
) {
    let entry = log.append(cn, operation, key_label, outcome, detail);
    file.push_str(&to_json(&entry));
    file.push('\n');
    log.settle(true);
}

fn at(secs: i64, nanos: u32) -> UtcTime {
    UtcTime::new(secs, nanos).unwrap()
}

#[test]
fn roundtrip_intent_then_authorized() {
    let mut file = String::new();
    let mut log = AuditLog::open(&lines(&file)).unwrap();
    append(&mut log, &mut file, "cn-a", "sign", "k1", Outcome::Intent, "");
    append(&mut log, &mut file, "cn-a", "sign", "k1", Outcome::Authorized, "");
    let last = verify_chain(&lines(&file)).unwrap();
    assert_ne!(last, GENESIS);
    assert_eq!(log.last_hash_b64(), last);
    assert_eq!(AuditLog::open(&lines(&file)).unwrap().last_hash_b64(), last);
}

#[test]
fn detects_tampering() {
    let mut text = String::new();
    let mut log = AuditLog::open(&lines(&text)).unwrap();
    append(&mut log, &mut text, "cn-a", "encrypt", "k1", Outcome::Intent, "");
    drop(log);
    // Flip a byte in the stored line.
    text = text.replace("cn-a", "cn-b");
    assert!(verify_chain(&lines(&text)).is_err());
    // And re-opening must refuse as well.
    assert!(AuditLog::open(&lines(&text)).is_err());
}

#[test]
fn detects_gap_after_truncation() {
    let mut text = String::new();
    let mut log = AuditLog::open(&lines(&text)).unwrap();
    append(&mut log, &mut text, "cn-a", "sign", "k1", Outcome::Intent, "");
    append(&mut log, &mut text, "cn-a", "sign", "k1", Outcome::Authorized, "");
    drop(log);
    // Keep only the second line -> prev hash points at nothing.
    let mut kept = text.lines();
    let _first = kept.next().unwrap();
    let second = kept.next().unwrap().to_string();
    assert!(verify_chain(&lines(&format!("{second}\n"))).is_err());
}

#[test]
fn missing_file_is_empty_chain() {
    assert_eq!(verify_chain(&lines("")).unwrap(), GENESIS);
}

#[test]
fn open_unwritable_path_fails() {
    // A directory opens as a file does, and fails on the first line.
    let found = vec![LogLine::Unreadable { cause: "Is a directory (os error 21)".to_string() }];
    assert!(AuditLog::open(&found).is_err());
}

#[test]
fn entry_hash_has_its_value() {
    let ts = "2026-01-01T00:00:00.000Z";
    assert_eq!(
        entry_hash("GENESIS", ts, "cn-a", "sign", "k1", Outcome::Intent, ""),
        "qpLiwQaIOBR0+NKtPne5IvzpkY3lRByvXdTl2hMSZYE="
    );
}

#[test]
fn entries_are_dated_and_chained() {
    let mut log = AuditLog::open(&vec![]).unwrap();
    let first = log.append_at(&at(1767225600, 0), "cn-a", "sign", "k1", Outcome::Intent, "");
    log.settle(true);
    assert_eq!(first.ts, "2026-01-01T00:00:00.000Z");
    assert_eq!(first.cn, "cn-a");
    assert_eq!(first.operation, "sign");
    assert_eq!(first.key_label, "k1");
    assert_eq!(first.outcome, Outcome::Intent);
    assert_eq!(first.detail, "");
    assert_eq!(first.prev_hash_b64, GENESIS);
    assert_eq!(first.hash_b64, "qpLiwQaIOBR0+NKtPne5IvzpkY3lRByvXdTl2hMSZYE=");
    let second = log.append_at(
        &at(1767225601, 500_999_999),
        "cn-a",
        "sign",
        "k1",
        Outcome::CertExpiringSoon,
        "expires in 3d",
    );
    log.settle(true);
    assert_eq!(second.ts, "2026-01-01T00:00:01.500Z");
    assert_eq!(second.prev_hash_b64, first.hash_b64);
    assert_eq!(second.hash_b64, "RLtV6fba+8shoHpsZn6GnEyzDUvOhdycLrbn8Im8/No=");
    assert_eq!(log.last_hash_b64(), second.hash_b64);
}

#[test]
fn an_entry_that_was_not_written_leaves_no_trace() {
    let mut file = String::new();
    let mut log = AuditLog::open(&vec![]).unwrap();
    append(&mut log, &mut file, "a", "sign", "k", Outcome::Intent, "");
    let before = log.last_hash_b64().to_string();
    let lost = log.append("a", "sign", "k", Outcome::Authorized, "");
    assert_eq!(lost.prev_hash_b64, before);
    log.settle(false);
    assert_eq!(log.last_hash_b64(), before);
    append(&mut log, &mut file, "a", "sign", "k", Outcome::Error, "x");
    assert_eq!(verify_chain(&lines(&file)).unwrap(), log.last_hash_b64());
}

#[test]
fn blank_lines_do_not_count() {
    let mut file = String::from("\n   \n");
    let mut log = AuditLog::open(&lines(&file)).unwrap();
    append(&mut log, &mut file, "a", "sign", "k", Outcome::Intent, "");
    file.push_str("\t\n");
    append(&mut log, &mut file, "a", "sign", "k", Outcome::Authorized, "");
    assert_eq!(verify_chain(&lines(&file)).unwrap(), log.last_hash_b64());
}

#[test]
fn faults_name_their_line_and_have_their_words() {
    let mut file = String::new();
    let mut log = AuditLog::open(&vec![]).unwrap();
    append(&mut log, &mut file, "a", "sign", "k", Outcome::Intent, "");
    append(&mut log, &mut file, "a", "sign", "k", Outcome::Authorized, "");

    let reordered: Vec<&str> = file.lines().rev().collect();
    let gap = verify_chain(&lines(&reordered.join("\n"))).unwrap_err();
    assert_eq!(gap.line, 0);
    assert!(matches!(gap.fault, ChainFault::Gap));
    assert_eq!(gap.text("/log"), "audit log \"/log\" line 0: chain gap (prev hash mismatch)");

    let tampered = file.replace("authorized", "denied");
    let mismatch = verify_chain(&lines(&tampered)).unwrap_err();
    assert_eq!(mismatch.line, 1);
    assert!(matches!(mismatch.fault, ChainFault::HashMismatch));
    assert_eq!(
        mismatch.text("/log"),
        "audit log \"/log\" line 1: entry hash mismatch (tampered?)"
    );

    let mut broken = lines(&file);
    broken.push(LogLine::Blank);
    broken.push(LogLine::Invalid { cause: "expected value".to_string() });
    let invalid = verify_chain(&broken).unwrap_err();
    assert_eq!(invalid.line, 3);
    assert_eq!(invalid.text("/log"), "audit log \"/log\" line 3: invalid JSON: expected value");

    let unreadable = verify_chain(&vec![LogLine::Unreadable { cause: "e".to_string() }]).unwrap_err();
    assert_eq!(unreadable.text("/log"), "cannot read audit log \"/log\" line 0: e");
}

#[test]
fn an_entry_is_checked_against_its_place() {
    let entry = || Entry {
        ts: "t".to_string(),
        cn: "c".to_string(),
        operation: "o".to_string(),
        key_label: "k".to_string(),
        outcome: Outcome::Denied,
        detail: "d".to_string(),
        prev_hash_b64: "p".to_string(),
        hash_b64: "h".to_string(),
    };
    assert!(check_entry("p", &entry(), "h").is_none());
    assert!(matches!(check_entry("q", &entry(), "h"), Some(ChainFault::Gap)));
    assert!(matches!(check_entry("q", &entry(), "x"), Some(ChainFault::Gap)));
    assert!(matches!(check_entry("p", &entry(), "x"), Some(ChainFault::HashMismatch)));
}

#[test]
fn every_field_enters_the_hash() {
    let base = entry_hash("p", "t", "c", "o", "l", Outcome::Intent, "d");
    let others = [
        entry_hash("P", "t", "c", "o", "l", Outcome::Intent, "d"),
        entry_hash("p", "T", "c", "o", "l", Outcome::Intent, "d"),
        entry_hash("p", "t", "C", "o", "l", Outcome::Intent, "d"),
        entry_hash("p", "t", "c", "O", "l", Outcome::Intent, "d"),
        entry_hash("p", "t", "c", "o", "L", Outcome::Intent, "d"),
        entry_hash("p", "t", "c", "o", "l", Outcome::Error, "d"),
        entry_hash("p", "t", "c", "o", "l", Outcome::Intent, "D"),
        // The same characters, with the boundary between two fields moved.
        entry_hash("p", "t", "co", "", "l", Outcome::Intent, "d"),
    ];
    for other in others {
        assert_ne!(base, other);
    }
}

#[test]
fn every_outcome_enters_the_hash_by_its_json() {
    for (outcome, name) in OUTCOMES {
        let json = format!("\"{name}\"");
        let mut digest = Sha256::new();
        for part in ["p", "t", "c", "o", "l", json.as_str(), "d"] {
            digest.update((part.len() as u64).to_be_bytes());
            digest.update(part.as_bytes());
        }
        let expected = STANDARD.encode(digest.finalize());
        assert_eq!(entry_hash("p", "t", "c", "o", "l", outcome, "d"), expected);
    }
}

/// A log of four entries, as text.
fn four_entries() -> Vec<String> {
    let mut file = String::new();
    let mut log = AuditLog::open(&vec![]).unwrap();
    for label in ["k0", "k1", "k2", "k3"] {
        append(&mut log, &mut file, "a", "sign", label, Outcome::Intent, "");
    }
    file.lines().map(|line| line.to_string()).collect()
}

#[test]
fn detects_a_gap_in_the_middle() {
    let mut text = four_entries();
    text.remove(1);
    let e = verify_chain(&lines(&text.join("\n"))).unwrap_err();
    assert_eq!(e.line, 1);
    assert!(matches!(e.fault, ChainFault::Gap));
}

#[test]
fn detects_an_entry_that_was_hashed_anew() {
    let mut text = four_entries();
    let mut changed = from_json(&text[1]).unwrap();
    changed.cn = "b".to_string();
    changed.hash_b64 = entry_hash(
        &changed.prev_hash_b64,
        &changed.ts,
        &changed.cn,
        &changed.operation,
        &changed.key_label,
        changed.outcome,
        &changed.detail,
    );
    text[1] = to_json(&changed);
    let e = verify_chain(&lines(&text.join("\n"))).unwrap_err();
    assert_eq!(e.line, 2);
    assert!(matches!(e.fault, ChainFault::Gap));
}

#[test]
fn the_last_hash_pins_the_log() {
    let now = at(0, 0);
    let last_hash = |first: &str| {
        let mut log = AuditLog::open(&vec![]).unwrap();
        for label in [first, "k1", "k2"] {
            log.append_at(&now, "a", "sign", label, Outcome::Intent, "");
            log.settle(true);
        }
        log.last_hash_b64().to_string()
    };
    assert_eq!(last_hash("k0"), last_hash("k0"));
    assert_ne!(last_hash("k0"), last_hash("k9"));
}

#[test]
fn detects_every_reorder() {
    let text = four_entries();
    assert!(verify_chain(&lines(&text.join("\n"))).is_ok());
    for i in 0..4 {
        for j in 0..i {
            let mut other = text.clone();
            other.swap(i, j);
            let e = verify_chain(&lines(&other.join("\n"))).unwrap_err();
            assert_eq!(e.line, j);
            assert!(matches!(e.fault, ChainFault::Gap));
        }
    }
}
