use pico_hsm_api_connector::config::{
    AuthzTable, ClientEntry, ConfigError, FileConfig, Operation, PermissionEntry, PermissionFault,
};
use pico_hsm_api_connector::protocol::op_name;
use serde_yaml::Value;

const INTEGRITY: &str = "gateway-integrity-key";

const OPERATIONS: [Operation; 6] = [
    Operation::Sign,
    Operation::Verify,
    Operation::Encrypt,
    Operation::Decrypt,
    Operation::DeriveAndEncrypt,
    Operation::DeriveAndDecrypt,
];

fn texts(value: &Value) -> Vec<String> {
    let items = value.as_sequence().unwrap();
    items.iter().map(|v| v.as_str().unwrap().to_string()).collect()
}

fn permission(value: &Value) -> PermissionEntry {
    let name = value.get("operation").unwrap().as_str().unwrap();
    PermissionEntry {
        operation: *OPERATIONS.iter().find(|op| op_name(**op) == name).unwrap(),
        key_labels: value.get("key_labels").map(texts).unwrap_or_default(),
        peer_public_keys: value.get("peer_public_keys").map(texts),
    }
}

fn client(value: &Value) -> ClientEntry {
    let permissions = value.get("permissions").and_then(|v| v.as_sequence());
    ClientEntry {
        cn: value.get("cn").unwrap().as_str().unwrap().to_string(),
        description: value.get("description").map(|v| v.as_str().unwrap().to_string()),
        permissions: permissions.map(|list| list.iter().map(permission).collect()).unwrap_or_default(),
    }
}

fn file_config(yaml: &str) -> FileConfig {
    let value: Value = serde_yaml::from_str(yaml).unwrap();
    let clients = value.get("clients").and_then(|v| v.as_sequence());
    FileConfig {
        clients: clients.map(|list| list.iter().map(client).collect()).unwrap_or_default(),
    }
}

fn table(yaml: &str) -> Result<AuthzTable, ConfigError> {
    AuthzTable::from_config(&file_config(yaml), INTEGRITY)
}

fn refusal(yaml: &str) -> String {
    table(yaml).unwrap_err().text()
}

#[test]
fn allows_configured_combination() {
    let t = table(
        r#"
clients:
  - cn: "app-a"
    permissions:
      - operation: encrypt
        key_labels: ["k1"]
"#,
    )
    .unwrap();
    assert!(t.is_authorized("app-a", Operation::Encrypt, "k1"));
}

#[test]
fn denies_wrong_key_label() {
    let t = table(
        r#"
clients:
  - cn: "app-a"
    permissions:
      - operation: encrypt
        key_labels: ["k1"]
"#,
    )
    .unwrap();
    assert!(!t.is_authorized("app-a", Operation::Encrypt, "other"));
}

#[test]
fn denies_wrong_operation() {
    let t = table(
        r#"
clients:
  - cn: "app-a"
    permissions:
      - operation: encrypt
        key_labels: ["k1"]
"#,
    )
    .unwrap();
    assert!(!t.is_authorized("app-a", Operation::Decrypt, "k1"));
}

#[test]
fn denies_unknown_client() {
    let t = table(
        r#"
clients:
  - cn: "app-a"
    permissions:
      - operation: sign
        key_labels: ["k1"]
"#,
    )
    .unwrap();
    assert!(!t.is_authorized("nobody", Operation::Sign, "k1"));
}

#[test]
fn rejects_empty_key_labels_at_load_time() {
    let res = table(
        r#"
clients:
  - cn: "app-a"
    permissions:
      - operation: sign
        key_labels: []
"#,
    );
    assert!(res.is_err());
}

#[test]
fn rejects_derive_without_allowlist() {
    let res = table(
        r#"
clients:
  - cn: "app-c"
    permissions:
      - operation: derive_and_encrypt
        key_labels: ["dk"]
"#,
    );
    assert!(res.is_err());
}

#[test]
fn rejects_allowlist_on_non_derive() {
    let res = table(
        r#"
clients:
  - cn: "app-a"
    permissions:
      - operation: encrypt
        key_labels: ["k1"]
        peer_public_keys: ["cA=="]
"#,
    );
    assert!(res.is_err());
}

#[test]
fn rejects_integrity_label() {
    let res = table(
        r#"
clients:
  - cn: "app-a"
    permissions:
      - operation: sign
        key_labels: ["gateway-integrity-key"]
"#,
    );
    assert!(res.is_err());
}

#[test]
fn rejects_non_base64_peer_key() {
    let res = table(
        r#"
clients:
  - cn: "app-c"
    permissions:
      - operation: derive_and_encrypt
        key_labels: ["dk"]
        peer_public_keys: ["!!!not-base64!!!"]
"#,
    );
    assert!(res.is_err());
}

#[test]
fn peer_key_allowlist_enforced() {
    let t = table(
        r#"
clients:
  - cn: "app-c"
    permissions:
      - operation: derive_and_encrypt
        key_labels: ["dk"]
        peer_public_keys: ["cA=="]
"#,
    )
    .unwrap();
    assert!(t.is_authorized("app-c", Operation::DeriveAndEncrypt, "dk"));
    assert!(t.is_peer_key_authorized("app-c", Operation::DeriveAndEncrypt, "dk", "cA=="));
    assert!(!t.is_peer_key_authorized("app-c", Operation::DeriveAndEncrypt, "dk", "other=="));
}

#[test]
fn an_empty_table_grants_nothing() {
    let t = AuthzTable::default();
    assert!(!t.is_authorized("app-a", Operation::Sign, "k1"));
    assert!(!t.is_peer_key_authorized("app-a", Operation::DeriveAndEncrypt, "k1", "cA=="));
    assert!(!table("clients: []").unwrap().is_authorized("app-a", Operation::Sign, "k1"));
}

#[test]
fn names_and_labels_are_trimmed() {
    let t = table(
        r#"
clients:
  - cn: "  app-a "
    permissions:
      - operation: derive_and_decrypt
        key_labels: [" k1", "k2\t"]
        peer_public_keys: [" cA== "]
"#,
    )
    .unwrap();
    assert!(t.is_authorized("app-a", Operation::DeriveAndDecrypt, "k1"));
    assert!(t.is_authorized("app-a", Operation::DeriveAndDecrypt, "k2"));
    assert!(!t.is_authorized("  app-a ", Operation::DeriveAndDecrypt, "k1"));
    assert!(t.is_peer_key_authorized("app-a", Operation::DeriveAndDecrypt, "k1", "cA=="));
    assert!(!t.is_peer_key_authorized("app-a", Operation::DeriveAndDecrypt, "k1", " cA== "));
}

#[test]
fn the_last_allowlist_for_a_grant_holds() {
    let t = table(
        r#"
clients:
  - cn: "app-c"
    permissions:
      - operation: derive_and_encrypt
        key_labels: ["dk"]
        peer_public_keys: ["cA=="]
      - operation: derive_and_encrypt
        key_labels: ["dk"]
        peer_public_keys: ["cQ=="]
"#,
    )
    .unwrap();
    assert!(t.is_peer_key_authorized("app-c", Operation::DeriveAndEncrypt, "dk", "cQ=="));
    assert!(!t.is_peer_key_authorized("app-c", Operation::DeriveAndEncrypt, "dk", "cA=="));
}

#[test]
fn wrapping_does_not_grant_unwrapping() {
    let t = table(
        r#"
clients:
  - cn: "app-c"
    permissions:
      - operation: derive_and_encrypt
        key_labels: ["dk"]
        peer_public_keys: ["cA=="]
"#,
    )
    .unwrap();
    assert!(!t.is_authorized("app-c", Operation::DeriveAndDecrypt, "dk"));
    assert!(!t.is_peer_key_authorized("app-c", Operation::DeriveAndDecrypt, "dk", "cA=="));
}

#[test]
fn refusals_of_clients_have_their_words() {
    assert_eq!(refusal("clients: [{cn: \" \"}]"), "client entry with empty cn");
    assert_eq!(
        refusal("clients: [{cn: \"a\"}, {cn: \" a\"}]"),
        "duplicate client cn \"a\""
    );
}

#[test]
fn refusals_of_labels_have_their_words() {
    let refused = |labels: &str| {
        refusal(&format!(
            "clients: [{{cn: a, permissions: [{{operation: sign, key_labels: {labels}}}]}}]"
        ))
    };
    assert_eq!(refused("[]"), "a Sign: key_labels must not be empty");
    assert_eq!(refused("[\"k\", \" \"]"), "a Sign: key_labels contains an empty label");
    assert_eq!(
        refused("[\"k\", \" gateway-integrity-key \"]"),
        "a Sign: key label \"gateway-integrity-key\" is the gateway integrity key and must never be granted to clients"
    );
    assert_eq!(refused("[\"k\", \"k \"]"), "a Sign: duplicate key label \"k\"");
}

#[test]
fn refusals_of_peer_keys_have_their_words() {
    let refused = |keys: &str| {
        refusal(&format!(
            "clients: [{{cn: a, permissions: [{{operation: derive_and_encrypt, key_labels: [k], peer_public_keys: {keys}}}]}}]"
        ))
    };
    assert_eq!(refused("[]"), "a DeriveAndEncrypt: peer_public_keys must not be empty");
    assert_eq!(
        refused("[\"cA==\", \" \"]"),
        "a DeriveAndEncrypt: peer_public_keys contains an empty entry"
    );
    assert_eq!(
        refused("[\"cA\"]"),
        "a DeriveAndEncrypt: peer_public_keys contains an entry that is not valid base64"
    );
    assert_eq!(
        refused("[\"cA==\", \" cA==\"]"),
        "a DeriveAndEncrypt: duplicate peer public key entry"
    );
    assert_eq!(
        refusal("clients: [{cn: a, permissions: [{operation: derive_and_decrypt, key_labels: [k]}]}]"),
        "a DeriveAndDecrypt: peer_public_keys allowlist is mandatory for derive operations (no wildcard)"
    );
    assert_eq!(
        refusal("clients: [{cn: a, permissions: [{operation: verify, key_labels: [k], peer_public_keys: []}]}]"),
        "a Verify: peer_public_keys is only allowed on derive operations"
    );
}

#[test]
fn the_first_fault_is_the_one_reported() {
    let e = table(
        r#"
clients:
  - cn: "a"
    permissions:
      - operation: sign
        key_labels: ["k"]
      - operation: encrypt
        key_labels: [" ", "gateway-integrity-key"]
  - cn: "a"
"#,
    )
    .unwrap_err();
    assert!(matches!(
        e,
        ConfigError::Permission { operation: Operation::Encrypt, fault: PermissionFault::EmptyLabel, .. }
    ));
}

#[test]
fn an_integrity_label_with_white_space_is_found_as_written() {
    let cfg = file_config(
        "clients: [{cn: a, permissions: [{operation: sign, key_labels: [\" ik \"]}]}]",
    );
    assert_eq!(
        AuthzTable::from_config(&cfg, " ik ").unwrap_err().text(),
        "a Sign: key label \" ik \" is the gateway integrity key and must never be granted to clients"
    );
    assert_eq!(
        AuthzTable::from_config(&cfg, "ik").unwrap_err().text(),
        "a Sign: key label \"ik\" is the gateway integrity key and must never be granted to clients"
    );
    assert!(AuthzTable::from_config(&cfg, "other").unwrap().is_authorized("a", Operation::Sign, "ik"));
}

#[test]
fn a_permission_adds_to_the_others() {
    let t = table(
        r#"
clients:
  - cn: "a"
    permissions:
      - operation: derive_and_encrypt
        key_labels: ["k1", "k2"]
        peer_public_keys: ["cA=="]
      - operation: derive_and_encrypt
        key_labels: ["k2"]
        peer_public_keys: ["cQ=="]
      - operation: sign
        key_labels: ["k1"]
"#,
    )
    .unwrap();
    let op = Operation::DeriveAndEncrypt;
    assert!(t.is_authorized("a", op, "k1") && t.is_authorized("a", op, "k2"));
    assert!(t.is_peer_key_authorized("a", op, "k1", "cA=="));
    assert!(!t.is_peer_key_authorized("a", op, "k1", "cQ=="));
    assert!(t.is_peer_key_authorized("a", op, "k2", "cQ=="));
    assert!(!t.is_peer_key_authorized("a", op, "k2", "cA=="));
    assert!(t.is_authorized("a", Operation::Sign, "k1"));
    assert!(!t.is_peer_key_authorized("a", Operation::Sign, "k1", "cA=="));
}

#[test]
fn a_permission_is_added_or_leaves_the_table_as_it_was() {
    let entry = |operation: Operation, label: &str, peers: Option<&str>| PermissionEntry {
        operation,
        key_labels: vec![label.to_string()],
        peer_public_keys: peers.map(|key| vec![key.to_string()]),
    };
    let op = Operation::DeriveAndEncrypt;
    let mut t = AuthzTable::default();
    t.add_permission("a", &entry(op, " k ", Some(" cA== ")), INTEGRITY).unwrap();
    assert!(t.is_authorized("a", op, "k"));
    assert!(t.is_peer_key_authorized("a", op, "k", "cA=="));
    let fault = t.add_permission("a", &entry(op, "k", Some("!")), INTEGRITY).unwrap_err();
    assert!(matches!(fault, PermissionFault::PeerKeyNotBase64));
    assert!(t.is_peer_key_authorized("a", op, "k", "cA=="));
    t.add_permission("a", &entry(op, "k", Some("cQ==")), INTEGRITY).unwrap();
    assert!(!t.is_peer_key_authorized("a", op, "k", "cA=="));
    assert!(t.is_peer_key_authorized("a", op, "k", "cQ=="));
    assert!(t.add_permission("a", &entry(Operation::Sign, " ik ", None), " ik ").is_err());
    assert!(!t.is_authorized("a", Operation::Sign, "ik"));
}
