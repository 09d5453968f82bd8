use pico_hsm_api_connector::hsm::{
    HsmAction, HsmCall, HsmClient, HsmError, HsmEvent, HsmReply, KeyClass, KeyRef,
    DERIVED_AES_LEN, KDF_SHARED_DATA,
};

const IV: [u8; 16] = *b"0123456789abcdef";

fn client() -> HsmClient {
    HsmClient::connect(&vec![7, 9]).unwrap()
}

/// Begins the call, opens the session and gives the search for the key.
fn search(call: &mut HsmCall) -> (KeyClass, Vec<u8>) {
    match call.step(HsmEvent::Begin) {
        HsmAction::OpenSession { slot } => assert_eq!(slot, 7),
        other => panic!("{other:?}"),
    }
    match call.step(HsmEvent::SessionOpened) {
        HsmAction::FindKey { class, label } => (class, label),
        other => panic!("{other:?}"),
    }
}

fn one_hit(call: &mut HsmCall) -> HsmAction {
    search(call);
    call.step(HsmEvent::KeysFound { count: 1 })
}

fn output(bytes: &[u8]) -> HsmEvent {
    HsmEvent::Output { bytes: bytes.to_vec() }
}

fn failed(cause: &str) -> HsmEvent {
    HsmEvent::Failed { cause: cause.to_string() }
}

fn failure(action: HsmAction) -> String {
    match action {
        HsmAction::Done { reply: HsmReply::Failed { cause } } => cause,
        other => panic!("{other:?}"),
    }
}

#[test]
fn the_first_slot_with_a_token_is_taken() {
    let mut call = client().sign_ecdsa_sha256("k", b"d");
    assert!(matches!(call.step(HsmEvent::Begin), HsmAction::OpenSession { slot: 7 }));
    let e = HsmClient::connect(&vec![]).unwrap_err();
    assert_eq!(e, HsmError::NoToken);
    assert_eq!(e.text(), "no HSM token found — is the Pico plugged in?");
}

#[test]
fn keys_are_searched_by_label_and_class() {
    let c = client();
    let cases = [
        (c.sign_ecdsa_sha256("kü", b"d"), KeyClass::Private),
        (c.verify_ecdsa_sha256("kü", b"d", b"s"), KeyClass::Public),
        (c.encrypt_aes_cbc_pad("kü", b"p"), KeyClass::Secret),
        (c.decrypt_aes_cbc_pad("kü", b"c", &IV), KeyClass::Secret),
        (c.derive_and_encrypt("kü", b"peer", b"p"), KeyClass::Private),
        (c.derive_and_decrypt("kü", b"peer", b"c", &IV), KeyClass::Private),
    ];
    for (mut call, class) in cases {
        assert_eq!(search(&mut call), (class, "kü".as_bytes().to_vec()));
    }
}

#[test]
fn sign_gives_the_signature() {
    let mut call = client().sign_ecdsa_sha256("k", b"data");
    match one_hit(&mut call) {
        HsmAction::Sign { key, data } => {
            assert_eq!(key, KeyRef::Found);
            assert_eq!(data, b"data");
        }
        other => panic!("{other:?}"),
    }
    match call.step(output(b"sig")) {
        HsmAction::Done { reply: HsmReply::Output { bytes } } => assert_eq!(bytes, b"sig"),
        other => panic!("{other:?}"),
    }
}

#[test]
fn verify_gives_the_verdict() {
    for (event, expected) in [(HsmEvent::SignatureValid, true), (HsmEvent::SignatureInvalid, false)] {
        let mut call = client().verify_ecdsa_sha256("k", b"data", b"sig");
        match one_hit(&mut call) {
            HsmAction::Verify { key, data, signature } => {
                assert_eq!(key, KeyRef::Found);
                assert_eq!(data, b"data");
                assert_eq!(signature, b"sig");
            }
            other => panic!("{other:?}"),
        }
        match call.step(event) {
            HsmAction::Done { reply: HsmReply::Verdict { valid } } => assert_eq!(valid, expected),
            other => panic!("{other:?}"),
        }
    }
    let mut call = client().verify_ecdsa_sha256("k", b"data", b"sig");
    one_hit(&mut call);
    assert_eq!(failure(call.step(failed("token removed"))), "HSM verify failed for \"k\": token removed");
}

#[test]
fn encrypt_draws_a_fresh_iv() {
    let mut call = client().encrypt_aes_cbc_pad("k", b"plain");
    assert!(matches!(one_hit(&mut call), HsmAction::GenerateRandom { len: 16 }));
    match call.step(HsmEvent::RandomDrawn { bytes: IV.to_vec() }) {
        HsmAction::Encrypt { key, iv, plaintext } => {
            assert_eq!(key, KeyRef::Found);
            assert_eq!(iv, IV);
            assert_eq!(plaintext, b"plain");
        }
        other => panic!("{other:?}"),
    }
    match call.step(output(b"ct")) {
        HsmAction::Done { reply: HsmReply::Sealed { iv, ciphertext } } => {
            assert_eq!(iv, IV);
            assert_eq!(ciphertext, b"ct");
        }
        other => panic!("{other:?}"),
    }
}

#[test]
fn decrypt_uses_the_given_iv() {
    let mut call = client().decrypt_aes_cbc_pad("k", b"ct", &IV);
    match one_hit(&mut call) {
        HsmAction::Decrypt { key, iv, ciphertext } => {
            assert_eq!(key, KeyRef::Found);
            assert_eq!(iv, IV);
            assert_eq!(ciphertext, b"ct");
        }
        other => panic!("{other:?}"),
    }
    assert!(matches!(
        call.step(output(b"plain")),
        HsmAction::Done { reply: HsmReply::Output { bytes } } if bytes == b"plain"
    ));
}

#[test]
fn derived_keys_are_used_in_their_session() {
    let mut call = client().derive_and_encrypt("k", b"peer", b"plain");
    match one_hit(&mut call) {
        HsmAction::DeriveKey { peer_public_key, shared_data, template } => {
            assert_eq!(peer_public_key, b"peer");
            assert_eq!(shared_data, KDF_SHARED_DATA.as_bytes());
            assert_eq!(shared_data, b"pico-hsm-api-connector/kdf-v1");
            assert_eq!(template.value_len, DERIVED_AES_LEN);
            assert_eq!(template.value_len, 32);
            assert!(!template.token);
            assert!(template.sensitive && template.encrypt && template.decrypt);
        }
        other => panic!("{other:?}"),
    }
    assert!(matches!(call.step(HsmEvent::KeyDerived), HsmAction::GenerateRandom { len: 16 }));
    assert!(matches!(
        call.step(HsmEvent::RandomDrawn { bytes: IV.to_vec() }),
        HsmAction::Encrypt { key: KeyRef::Derived, iv: IV, .. }
    ));
    assert!(matches!(call.step(output(b"ct")), HsmAction::Done { reply: HsmReply::Sealed { .. } }));

    let mut call = client().derive_and_decrypt("k", b"peer", b"ct", &IV);
    assert!(matches!(one_hit(&mut call), HsmAction::DeriveKey { .. }));
    assert!(matches!(
        call.step(HsmEvent::KeyDerived),
        HsmAction::Decrypt { key: KeyRef::Derived, iv: IV, .. }
    ));
    assert!(matches!(call.step(output(b"p")), HsmAction::Done { reply: HsmReply::Output { .. } }));
}

#[test]
fn no_key_is_guessed() {
    let mut call = client().sign_ecdsa_sha256("k", b"d");
    search(&mut call);
    assert_eq!(failure(call.step(HsmEvent::KeysFound { count: 0 })), "key \"k\": not found");
    let mut call = client().sign_ecdsa_sha256("k", b"d");
    search(&mut call);
    assert_eq!(
        failure(call.step(HsmEvent::KeysFound { count: 2 })),
        "key \"k\": ambiguous (multiple objects with this label+class)"
    );
    // The call is over.
    assert_eq!(failure(call.step(HsmEvent::KeysFound { count: 1 })), "unexpected HSM event");
}

#[test]
fn an_iv_of_the_wrong_length_opens_no_session() {
    let mut call = client().decrypt_aes_cbc_pad("k", b"ct", &IV[..15]);
    assert_eq!(failure(call.step(HsmEvent::Begin)), "decrypt: iv must be 16 bytes");
    let mut call = client().derive_and_decrypt("k", b"peer", b"ct", &[]);
    assert_eq!(failure(call.step(HsmEvent::Begin)), "derive_and_decrypt: iv must be 16 bytes");
    let mut call = client().encrypt_aes_cbc_pad("k", b"p");
    one_hit(&mut call);
    assert_eq!(
        failure(call.step(HsmEvent::RandomDrawn { bytes: vec![1, 2, 3] })),
        "HSM RNG returned wrong length"
    );
}

#[test]
fn failures_say_what_failed() {
    let c = client();
    let mut call = c.sign_ecdsa_sha256("k", b"d");
    call.step(HsmEvent::Begin);
    assert_eq!(failure(call.step(failed("no session"))), "no session");
    let mut call = c.sign_ecdsa_sha256("k", b"d");
    search(&mut call);
    assert_eq!(failure(call.step(failed("search"))), "search");
    let mut call = c.derive_and_encrypt("k", b"peer", b"p");
    one_hit(&mut call);
    assert_eq!(failure(call.step(failed("e"))), "HSM ECDH derive failed for \"k\": e");
    let mut call = c.encrypt_aes_cbc_pad("k", b"p");
    one_hit(&mut call);
    assert_eq!(failure(call.step(failed("e"))), "HSM RNG failed: e");

    let cases = [
        (c.sign_ecdsa_sha256("k", b"d"), "HSM sign failed for \"k\": e"),
        (c.decrypt_aes_cbc_pad("k", b"c", &IV), "HSM decrypt failed for \"k\": e"),
    ];
    for (mut call, expected) in cases {
        one_hit(&mut call);
        assert_eq!(failure(call.step(failed("e"))), expected);
    }
    let mut call = c.encrypt_aes_cbc_pad("k", b"p");
    one_hit(&mut call);
    call.step(HsmEvent::RandomDrawn { bytes: IV.to_vec() });
    assert_eq!(failure(call.step(failed("e"))), "HSM encrypt failed for \"k\": e");
    let mut call = c.derive_and_encrypt("k", b"peer", b"p");
    one_hit(&mut call);
    call.step(HsmEvent::KeyDerived);
    call.step(HsmEvent::RandomDrawn { bytes: IV.to_vec() });
    assert_eq!(failure(call.step(failed("e"))), "HSM derive_and_encrypt failed for \"k\": e");
    let mut call = c.derive_and_decrypt("k", b"peer", b"c", &IV);
    one_hit(&mut call);
    call.step(HsmEvent::KeyDerived);
    assert_eq!(failure(call.step(failed("e"))), "HSM derive_and_decrypt failed for \"k\": e");
}

#[test]
fn an_answer_out_of_turn_ends_the_call() {
    let mut call = client().sign_ecdsa_sha256("k", b"d");
    assert_eq!(failure(call.step(output(b"x"))), "unexpected HSM event");
    let mut call = client().verify_ecdsa_sha256("k", b"d", b"s");
    one_hit(&mut call);
    assert_eq!(failure(call.step(output(b"x"))), "unexpected HSM event");
    let mut call = client().sign_ecdsa_sha256("k", b"d");
    one_hit(&mut call);
    assert_eq!(failure(call.step(HsmEvent::SignatureValid)), "unexpected HSM event");
}

#[test]
fn every_call_ends_after_six_answers() {
    let c = client();
    let mut calls = [
        c.sign_ecdsa_sha256("k", b"d"),
        c.verify_ecdsa_sha256("k", b"d", b"s"),
        c.encrypt_aes_cbc_pad("k", b"p"),
        c.decrypt_aes_cbc_pad("k", b"c", &IV),
        c.derive_and_encrypt("k", b"peer", b"p"),
        c.derive_and_decrypt("k", b"peer", b"c", &IV),
    ];
    for call in calls.iter_mut() {
        let answers = [
            HsmEvent::Begin,
            HsmEvent::SessionOpened,
            HsmEvent::KeysFound { count: 1 },
            HsmEvent::KeyDerived,
            HsmEvent::RandomDrawn { bytes: IV.to_vec() },
            output(b"x"),
        ];
        let mut last = None;
        for answer in answers {
            last = Some(call.step(answer));
        }
        assert!(matches!(last, Some(HsmAction::Done { .. })));
    }
}
