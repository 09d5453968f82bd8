use pico_hsm_api_connector::audit::Outcome;
use pico_hsm_api_connector::config::{
    AuthzTable, ClientEntry, FileConfig, Operation, PermissionEntry,
};
use pico_hsm_api_connector::execute::{check_mechanism, decode_fields, Fields, Plan, Sealer};
use pico_hsm_api_connector::hsm::{HsmAction, HsmCall, HsmClient, HsmEvent, HsmReply};
use pico_hsm_api_connector::integrity::integrity_payload;
use pico_hsm_api_connector::protocol::{Request, Response};
use pico_hsm_api_connector::server::{
    AuditRecord, Exchange, Gateway, GatewayAction, GatewayEvent, Refusal,
};

const INTEGRITY: &str = "gateway-integrity-key";
const IV: &[u8] = b"0123456789abcdef";
/// `IV` in base64.
const IV_B64: &str = "MDEyMzQ1Njc4OWFiY2RlZg==";
/// SHA-256 of the byte `p`.
const FINGERPRINT: &str = "148de9c5a7a44d19e56cd9ae1a554bf67847afb0c58f6e12fa29ac7ddfca9940";

fn permission(operation: Operation, peers: Option<&str>) -> PermissionEntry {
    PermissionEntry {
        operation,
        key_labels: vec!["k".to_string()],
        peer_public_keys: peers.map(|key| vec![key.to_string()]),
    }
}

fn gateway() -> Gateway {
    let cfg = FileConfig {
        clients: vec![ClientEntry {
            cn: "app".to_string(),
            description: None,
            permissions: vec![
                permission(Operation::Sign, None),
                permission(Operation::Verify, None),
                permission(Operation::Encrypt, None),
                permission(Operation::Decrypt, None),
                permission(Operation::DeriveAndEncrypt, Some("cQ==")),
                permission(Operation::DeriveAndDecrypt, Some("cQ==")),
            ],
        }],
    };
    let authz = AuthzTable::from_config(&cfg, INTEGRITY).unwrap();
    Gateway::new(authz, HsmClient::connect(&vec![3]).unwrap(), INTEGRITY.to_string(), 90, 14)
}

fn s(text: &str) -> String {
    text.to_string()
}

fn sign(label: &str, mechanism: &str, data: &str) -> Request {
    Request::Sign { key_label: s(label), mechanism: s(mechanism), data_b64: s(data) }
}

fn encrypt(data: &str) -> Request {
    Request::Encrypt { key_label: s("k"), mechanism: s("aes_cbc_pad"), data_b64: s(data) }
}

fn decrypt(data: &str, iv: &str, integrity: &str) -> Request {
    Request::Decrypt {
        key_label: s("k"),
        mechanism: s("aes_cbc_pad"),
        data_b64: s(data),
        iv_b64: s(iv),
        integrity_b64: s(integrity),
    }
}

fn derive_and_encrypt(peer: &str) -> Request {
    Request::DeriveAndEncrypt {
        key_label: s("k"),
        derive_mechanism: s("ecdh1_derive"),
        target_mechanism: s("aes_cbc_pad"),
        peer_public_key_b64: s(peer),
        data_b64: s("eA=="),
    }
}

fn derive_and_decrypt(peer: &str) -> Request {
    Request::DeriveAndDecrypt {
        key_label: s("k"),
        derive_mechanism: s("ecdh1_derive"),
        target_mechanism: s("aes_cbc_pad"),
        peer_public_key_b64: s(peer),
        iv_b64: s(IV_B64),
        integrity_b64: s("c2ln"),
        data_b64: s("Y3Q="),
    }
}

fn entry(action: GatewayAction) -> AuditRecord {
    match action {
        GatewayAction::Audit { record } => record,
        other => panic!("{other:?}"),
    }
}

fn call(action: GatewayAction) -> HsmCall {
    match action {
        GatewayAction::Hsm { call } => call,
        other => panic!("{other:?}"),
    }
}

fn reply(action: GatewayAction) -> Response {
    match action {
        GatewayAction::Reply { response } => response,
        other => panic!("{other:?}"),
    }
}

fn error(response: Response) -> String {
    match response {
        Response::Error { message } => message,
        other => panic!("{other:?}"),
    }
}

fn reason(response: Response) -> String {
    match response {
        Response::Denied { reason } => reason,
        other => panic!("{other:?}"),
    }
}

fn success(response: Response) -> (Option<String>, Option<bool>, Option<String>, Option<String>) {
    match response {
        Response::Success { result_b64, verified, iv_b64, integrity_b64 } => {
            (result_b64, verified, iv_b64, integrity_b64)
        }
        other => panic!("{other:?}"),
    }
}

fn done(reply: HsmReply) -> GatewayEvent {
    GatewayEvent::HsmDone { reply }
}

fn output(bytes: &[u8]) -> GatewayEvent {
    done(HsmReply::Output { bytes: bytes.to_vec() })
}

fn failed(cause: &str) -> GatewayEvent {
    done(HsmReply::Failed { cause: s(cause) })
}

/// Takes an authorized request past its intent.
fn past_intent(g: &Gateway, request: Request) -> (Exchange, GatewayAction) {
    let (x, action) = g.begin("app", request);
    let intent = entry(action);
    assert_eq!(intent.outcome, Outcome::Intent);
    assert_eq!(intent.cn, "app");
    assert_eq!(intent.key_label, "k");
    assert_eq!(intent.detail, "");
    g.step(x, GatewayEvent::Written)
}

/// Closes an exchange: the entry, then the answer.
fn close(g: &Gateway, (x, action): (Exchange, GatewayAction)) -> (AuditRecord, Response) {
    let closing = entry(action);
    let (_, action) = g.step(x, GatewayEvent::Written);
    (closing, reply(action))
}

/// Runs a call up to the action that works with the key.
fn work(mut c: HsmCall) -> HsmAction {
    assert!(matches!(c.step(HsmEvent::Begin), HsmAction::OpenSession { slot: 3 }));
    match c.step(HsmEvent::SessionOpened) {
        HsmAction::FindKey { .. } => c.step(HsmEvent::KeysFound { count: 1 }),
        other => panic!("{other:?}"),
    }
}

fn label_of(mut c: HsmCall) -> String {
    c.step(HsmEvent::Begin);
    match c.step(HsmEvent::SessionOpened) {
        HsmAction::FindKey { label, .. } => String::from_utf8(label).unwrap(),
        other => panic!("{other:?}"),
    }
}

#[test]
fn a_signature_is_asked_for_entered_and_answered() {
    let g = gateway();
    let (x, action) = past_intent(&g, sign("k", "ecdsa_sha256", "aGVsbG8="));
    match work(call(action)) {
        HsmAction::Sign { data, .. } => assert_eq!(data, b"hello"),
        other => panic!("{other:?}"),
    }
    let (closing, response) = close(&g, g.step(x, output(b"sig")));
    assert_eq!(closing.cn, "app");
    assert_eq!(closing.operation, "sign");
    assert_eq!(closing.key_label, "k");
    assert_eq!(closing.outcome, Outcome::Authorized);
    assert_eq!(closing.detail, "");
    assert_eq!(success(response), (Some(s("c2ln")), None, None, None));
}

#[test]
fn a_verdict_is_passed_on() {
    for valid in [true, false] {
        let g = gateway();
        let request = Request::Verify {
            key_label: s("k"),
            mechanism: s("ecdsa_sha256"),
            data_b64: s("aGVsbG8="),
            signature_b64: s("c2ln"),
        };
        let (x, action) = past_intent(&g, request);
        match work(call(action)) {
            HsmAction::Verify { data, signature, .. } => {
                assert_eq!(data, b"hello");
                assert_eq!(signature, b"sig");
            }
            other => panic!("{other:?}"),
        }
        let (closing, response) = close(&g, g.step(x, done(HsmReply::Verdict { valid })));
        assert_eq!(closing.outcome, Outcome::Authorized);
        assert_eq!(success(response), (None, Some(valid), None, None));
    }
}

#[test]
fn a_ciphertext_goes_out_signed_and_opens_again() {
    let g = gateway();
    let (x, action) = past_intent(&g, encrypt("c2VjcmV0"));
    assert_eq!(label_of(call(action)), "k");
    let sealed = HsmReply::Sealed { iv: IV.to_vec(), ciphertext: b"ct".to_vec() };
    let (x, action) = g.step(x, done(sealed));
    match work(call(action)) {
        HsmAction::Sign { data, .. } => assert_eq!(data, integrity_payload("k", IV, b"ct")),
        other => panic!("{other:?}"),
    }
    let (closing, response) = close(&g, g.step(x, output(b"sig")));
    assert_eq!(closing.outcome, Outcome::Authorized);
    let (result_b64, verified, iv_b64, integrity_b64) = success(response);
    assert_eq!(verified, None);
    assert_eq!(iv_b64.as_deref(), Some(IV_B64));
    assert_eq!(integrity_b64.as_deref(), Some("c2ln"));

    // The texts of the answer, sent back.
    let request = decrypt(&result_b64.unwrap(), &iv_b64.unwrap(), &integrity_b64.unwrap());
    let (x, action) = past_intent(&g, request);
    let check = call(action);
    match work(check) {
        HsmAction::Verify { data, signature, .. } => {
            assert_eq!(data, integrity_payload("k", IV, b"ct"));
            assert_eq!(signature, b"sig");
        }
        other => panic!("{other:?}"),
    }
    let (x, action) = g.step(x, done(HsmReply::Verdict { valid: true }));
    match work(call(action)) {
        HsmAction::Decrypt { iv, ciphertext, .. } => {
            assert_eq!(iv, IV);
            assert_eq!(ciphertext, b"ct");
        }
        other => panic!("{other:?}"),
    }
    let (_, response) = close(&g, g.step(x, output(b"secret")));
    assert_eq!(success(response), (Some(s("c2VjcmV0")), None, None, None));
}

#[test]
fn integrity_calls_use_the_integrity_key() {
    let g = gateway();
    let (_, action) = past_intent(&g, decrypt("Y3Q=", IV_B64, "c2ln"));
    assert_eq!(label_of(call(action)), INTEGRITY);
    let (x, _) = past_intent(&g, encrypt("eA=="));
    let sealed = HsmReply::Sealed { iv: IV.to_vec(), ciphertext: b"ct".to_vec() };
    let (_, action) = g.step(x, done(sealed));
    assert_eq!(label_of(call(action)), INTEGRITY);
}

#[test]
fn nothing_is_decrypted_unless_the_signature_is_valid() {
    let events = [
        done(HsmReply::Verdict { valid: false }),
        failed("token removed"),
        output(b"x"),
        GatewayEvent::TaskFailed { cause: s("panicked") },
    ];
    for event in events {
        let g = gateway();
        let (x, _) = past_intent(&g, decrypt("Y3Q=", IV_B64, "c2ln"));
        let (closing, response) = close(&g, g.step(x, event));
        assert_eq!(closing.outcome, Outcome::Denied);
        assert_eq!(closing.detail, "integrity check failed, ciphertext rejected");
        assert_eq!(reason(response), "integrity check failed, ciphertext rejected");
    }
}

#[test]
fn no_unsigned_ciphertext_goes_out() {
    let g = gateway();
    let (x, _) = past_intent(&g, encrypt("eA=="));
    let sealed = HsmReply::Sealed { iv: IV.to_vec(), ciphertext: b"ct".to_vec() };
    let (x, _) = g.step(x, done(sealed));
    let (closing, response) = close(&g, g.step(x, failed("HSM sign failed")));
    assert_eq!(closing.outcome, Outcome::Error);
    assert_eq!(closing.detail, "integrity signing failed: HSM sign failed");
    assert_eq!(error(response), "integrity signing failed: HSM sign failed");
}

#[test]
fn ungranted_requests_are_denied_and_entered() {
    let g = gateway();
    let cases = [
        ("nobody", "k", "denied: nobody may not run sign on \"k\""),
        ("app", "other", "denied: app may not run sign on \"other\""),
        ("app", INTEGRITY, "denied: app may not run sign on \"gateway-integrity-key\""),
    ];
    for (cn, label, text) in cases {
        let (x, action) = g.begin(cn, sign(label, "ecdsa_sha256", "eA=="));
        let refusal = entry(action);
        assert_eq!(refusal.cn, cn);
        assert_eq!(refusal.operation, "sign");
        assert_eq!(refusal.key_label, label);
        assert_eq!(refusal.outcome, Outcome::Denied);
        assert_eq!(refusal.detail, text);
        // Whether the entry could be written makes no difference.
        let (_, action) = g.step(x, GatewayEvent::WriteFailed { cause: s("disk full") });
        assert_eq!(reason(reply(action)), text);
    }
}

#[test]
fn peer_keys_must_be_listed() {
    let g = gateway();
    for request in [derive_and_encrypt("cA=="), derive_and_decrypt("cA==")] {
        let (x, action) = g.begin("app", request);
        let text = format!("denied: peer key {FINGERPRINT} not allowlisted for \"k\"");
        let refusal = entry(action);
        assert_eq!(refusal.outcome, Outcome::Denied);
        assert_eq!(refusal.detail, text);
        let (_, action) = g.step(x, GatewayEvent::Written);
        assert_eq!(reason(reply(action)), text);
    }
    let (x, action) = g.begin("app", derive_and_encrypt("!"));
    assert_eq!(entry(action).detail, "invalid peer_public_key_b64");
    let (_, action) = g.step(x, GatewayEvent::Written);
    assert_eq!(reason(reply(action)), "invalid peer_public_key_b64");
}

#[test]
fn listed_peer_keys_reach_the_token() {
    let g = gateway();
    let (x, action) = past_intent(&g, derive_and_encrypt("cQ=="));
    match work(call(action)) {
        HsmAction::DeriveKey { peer_public_key, .. } => assert_eq!(peer_public_key, b"q"),
        other => panic!("{other:?}"),
    }
    let sealed = HsmReply::Sealed { iv: IV.to_vec(), ciphertext: b"ct".to_vec() };
    let (x, _) = g.step(x, done(sealed));
    let (_, response) = close(&g, g.step(x, output(b"sig")));
    assert_eq!(success(response).2.as_deref(), Some(IV_B64));

    let (x, _) = past_intent(&g, derive_and_decrypt("cQ=="));
    let (x, action) = g.step(x, done(HsmReply::Verdict { valid: true }));
    match work(call(action)) {
        HsmAction::DeriveKey { peer_public_key, .. } => assert_eq!(peer_public_key, b"q"),
        other => panic!("{other:?}"),
    }
    let (_, response) = close(&g, g.step(x, output(b"x")));
    assert_eq!(success(response), (Some(s("eA==")), None, None, None));
}

#[test]
fn an_unwritable_log_rejects_the_request() {
    let g = gateway();
    let (x, action) = g.begin("app", sign("k", "ecdsa_sha256", "eA=="));
    assert_eq!(entry(action).outcome, Outcome::Intent);
    let (x, action) = g.step(x, GatewayEvent::WriteFailed { cause: s("disk full") });
    assert_eq!(error(reply(action)), "audit log unavailable, request rejected: disk full");
    // The exchange is over.
    let (_, action) = g.step(x, GatewayEvent::Written);
    assert_eq!(error(reply(action)), "unexpected event");
}

#[test]
fn a_closing_entry_that_fails_does_not_withhold_the_answer() {
    let g = gateway();
    let (x, _) = past_intent(&g, sign("k", "ecdsa_sha256", "eA=="));
    let (x, _) = g.step(x, output(b"sig"));
    let (_, action) = g.step(x, GatewayEvent::WriteFailed { cause: s("disk full") });
    assert_eq!(success(reply(action)).0.as_deref(), Some("c2ln"));
}

#[test]
fn a_line_that_is_no_request_is_answered_at_once() {
    let g = gateway();
    let answer = g.process_line("app", Err(s("expected value at line 1 column 1"))).unwrap_err();
    assert_eq!(error(answer), "invalid request: expected value at line 1 column 1");
    let (_, action) = g.process_line("app", Ok(encrypt("eA=="))).unwrap();
    assert_eq!(entry(action).operation, "encrypt");
}

/// The error that a request comes to after its intent, without the token.
fn planned_error(request: Request) -> String {
    let g = gateway();
    let (closing, response) = close(&g, past_intent(&g, request));
    assert_eq!(closing.outcome, Outcome::Error);
    let message = error(response);
    assert_eq!(closing.detail, message);
    message
}

#[test]
fn unsupported_mechanisms_are_errors() {
    assert_eq!(
        planned_error(sign("k", "rsa_pkcs", "eA==")),
        "unsupported sign mechanism \"rsa_pkcs\" (MVP: ecdsa_sha256)"
    );
    let verify = Request::Verify {
        key_label: s("k"),
        mechanism: s(""),
        data_b64: s("eA=="),
        signature_b64: s("eA=="),
    };
    assert_eq!(planned_error(verify), "unsupported verify mechanism \"\" (MVP: ecdsa_sha256)");
    let encrypt =
        Request::Encrypt { key_label: s("k"), mechanism: s("aes_gcm"), data_b64: s("eA==") };
    assert_eq!(
        planned_error(encrypt),
        "unsupported encrypt mechanism \"aes_gcm\" (MVP: aes_cbc_pad)"
    );
    let decrypt = Request::Decrypt {
        key_label: s("k"),
        mechanism: s("AES_CBC_PAD"),
        data_b64: s("eA=="),
        iv_b64: s("eA=="),
        integrity_b64: s("eA=="),
    };
    assert_eq!(
        planned_error(decrypt),
        "unsupported decrypt mechanism \"AES_CBC_PAD\" (MVP: aes_cbc_pad)"
    );
    let derive = Request::DeriveAndEncrypt {
        key_label: s("k"),
        derive_mechanism: s("ecdh1_derive"),
        target_mechanism: s("aes_gcm"),
        peer_public_key_b64: s("cQ=="),
        data_b64: s("eA=="),
    };
    assert_eq!(
        planned_error(derive),
        "unsupported derive pair \"ecdh1_derive\"+\"aes_gcm\" (MVP: ecdh1_derive+aes_cbc_pad)"
    );
    let derive = Request::DeriveAndDecrypt {
        key_label: s("k"),
        derive_mechanism: s("x"),
        target_mechanism: s("aes_cbc_pad"),
        peer_public_key_b64: s("cQ=="),
        iv_b64: s("eA=="),
        integrity_b64: s("eA=="),
        data_b64: s("eA=="),
    };
    assert_eq!(
        planned_error(derive),
        "unsupported derive pair \"x\"+\"aes_cbc_pad\" (MVP: ecdh1_derive+aes_cbc_pad)"
    );
    assert!(check_mechanism(&sign("k", "ecdsa_sha256", "!")).is_none());
}

#[test]
fn fields_that_are_not_base64_are_errors() {
    assert_eq!(planned_error(sign("k", "ecdsa_sha256", "!")), "invalid base64 input");
    assert_eq!(planned_error(encrypt("eA")), "invalid base64 input");
    assert_eq!(
        planned_error(decrypt("eA==", "!", "eA==")),
        "invalid data_b64/iv_b64/integrity_b64"
    );
    let verify = Request::Verify {
        key_label: s("k"),
        mechanism: s("ecdsa_sha256"),
        data_b64: s("eA=="),
        signature_b64: s("*"),
    };
    assert_eq!(planned_error(verify), "invalid data_b64/signature_b64");
}

#[test]
fn failures_of_the_token_are_errors() {
    let cases = [
        (sign("k", "ecdsa_sha256", "eA=="), "sign failed: e", "sign task failed: e"),
        (encrypt("eA=="), "encrypt failed: e", "encrypt task failed: e"),
        (derive_and_encrypt("cQ=="), "derive_and_encrypt failed: e", "derive task failed: e"),
    ];
    for (request, text, task_text) in cases {
        let g = gateway();
        let again = match &request {
            Request::Sign { .. } => sign("k", "ecdsa_sha256", "eA=="),
            Request::Encrypt { .. } => encrypt("eA=="),
            _ => derive_and_encrypt("cQ=="),
        };
        let (x, _) = past_intent(&g, request);
        let (closing, response) = close(&g, g.step(x, failed("e")));
        assert_eq!(closing.outcome, Outcome::Error);
        assert_eq!(error(response), text);
        let (x, _) = past_intent(&g, again);
        let (_, response) = close(&g, g.step(x, GatewayEvent::TaskFailed { cause: s("e") }));
        assert_eq!(error(response), task_text);
    }
    for (request, text) in [
        (decrypt("Y3Q=", IV_B64, "c2ln"), "decrypt failed: e"),
        (derive_and_decrypt("cQ=="), "derive_and_decrypt failed: e"),
    ] {
        let g = gateway();
        let (x, _) = past_intent(&g, request);
        let (x, _) = g.step(x, done(HsmReply::Verdict { valid: true }));
        let (_, response) = close(&g, g.step(x, failed("e")));
        assert_eq!(error(response), text);
    }
}

#[test]
fn a_reply_of_another_kind_is_an_error() {
    let g = gateway();
    let (x, _) = past_intent(&g, sign("k", "ecdsa_sha256", "eA=="));
    let (_, response) = close(&g, g.step(x, done(HsmReply::Verdict { valid: true })));
    assert_eq!(error(response), "unexpected HSM reply");
    let (x, _) = past_intent(&g, sign("k", "ecdsa_sha256", "eA=="));
    let (_, response) = close(&g, g.step(x, GatewayEvent::Written));
    assert_eq!(error(response), "unexpected event");
}

#[test]
fn authorization_takes_whether_the_peer_key_decodes() {
    let g = gateway();
    assert_eq!(g.authorize("app", &derive_and_encrypt("cQ=="), true), None);
    assert_eq!(
        g.authorize("app", &derive_and_encrypt("cQ=="), false),
        Some(Refusal::PeerKeyInvalid)
    );
    assert_eq!(
        g.authorize("app", &derive_and_encrypt("cA=="), true),
        Some(Refusal::PeerKeyNotListed)
    );
    assert_eq!(
        g.authorize("other", &derive_and_encrypt("cQ=="), false),
        Some(Refusal::NotGranted)
    );
    assert_eq!(g.authorize("app", &encrypt("!"), false), None);
    assert_eq!(
        Refusal::NotGranted.text("a", Operation::DeriveAndDecrypt, "\"l\"", ""),
        "denied: a may not run derive_and_decrypt on \"l\""
    );
}

#[test]
fn a_plan_is_made_from_the_decoded_fields() {
    let sealer = Sealer { hsm: HsmClient::connect(&vec![3]).unwrap(), integrity_label: s(INTEGRITY) };
    let request = decrypt("Y3Q=", IV_B64, "c2ln");
    let fields = decode_fields(&request);
    assert_eq!(fields.data.as_deref(), Some("ct".as_bytes()));
    assert_eq!(fields.iv.as_deref(), Some(IV));
    assert_eq!(fields.integrity.as_deref(), Some("sig".as_bytes()));
    assert_eq!(fields.signature, None);
    assert!(matches!(sealer.plan(&request, &None, &fields), Plan::Check { .. }));
    let missing = Fields { iv: None, ..decode_fields(&request) };
    assert!(matches!(
        sealer.plan(&request, &None, &missing),
        Plan::Answer { response: Response::Error { message } }
            if message == "invalid data_b64/iv_b64/integrity_b64"
    ));
    assert!(matches!(sealer.execute(&encrypt("eA=="), &None), Plan::Run { .. }));
}

#[test]
fn every_request_is_answered_after_four_events() {
    let requests = [
        sign("k", "ecdsa_sha256", "eA=="),
        sign("k", "other", "eA=="),
        sign("other", "ecdsa_sha256", "eA=="),
        encrypt("eA=="),
        decrypt("Y3Q=", IV_B64, "c2ln"),
        derive_and_encrypt("cQ=="),
        derive_and_decrypt("cQ=="),
    ];
    for request in requests {
        let g = gateway();
        let (mut x, mut action) = g.begin("app", request);
        for _ in 0..4 {
            let event = match action {
                GatewayAction::Reply { .. } => break,
                GatewayAction::Audit { .. } => GatewayEvent::Written,
                GatewayAction::Hsm { call } => match work(call) {
                    HsmAction::Verify { .. } => done(HsmReply::Verdict { valid: true }),
                    HsmAction::GenerateRandom { .. } => {
                        done(HsmReply::Sealed { iv: IV.to_vec(), ciphertext: b"ct".to_vec() })
                    }
                    _ => output(b"x"),
                },
            };
            (x, action) = g.step(x, event);
        }
        assert!(matches!(action, GatewayAction::Reply { .. }));
    }
}

#[test]
fn derived_decryption_gives_back_the_text_that_was_sent() {
    let g = gateway();
    let (x, _) = past_intent(&g, derive_and_encrypt("cQ=="));
    let sealed = HsmReply::Sealed { iv: IV.to_vec(), ciphertext: b"ct".to_vec() };
    let (x, _) = g.step(x, done(sealed));
    let (_, response) = close(&g, g.step(x, output(b"sig")));
    let (result_b64, _, iv_b64, integrity_b64) = success(response);
    let request = Request::DeriveAndDecrypt {
        key_label: s("k"),
        derive_mechanism: s("ecdh1_derive"),
        target_mechanism: s("aes_cbc_pad"),
        peer_public_key_b64: s("cQ=="),
        iv_b64: iv_b64.unwrap(),
        integrity_b64: integrity_b64.unwrap(),
        data_b64: result_b64.unwrap(),
    };
    let (x, _) = past_intent(&g, request);
    let (x, _) = g.step(x, done(HsmReply::Verdict { valid: true }));
    let (_, response) = close(&g, g.step(x, output(b"x")));
    assert_eq!(success(response), (Some(s("eA==")), None, None, None));
}

#[test]
fn only_canonical_base64_is_taken() {
    // Bits left over, padding missing, padding too long, padding inside.
    for text in ["eB==", "eA", "eA=", "eA===", "eA==eA==", "e", "=", "eA==\n"] {
        assert_eq!(planned_error(encrypt(text)), "invalid base64 input", "{text:?}");
    }
    let fields = decode_fields(&encrypt("+/+/"));
    assert_eq!(fields.data, Some(vec![0xfb, 0xff, 0xbf]));
    assert_eq!(decode_fields(&encrypt("")).data, Some(vec![]));
}
