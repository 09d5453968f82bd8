use pico_hsm_api_connector::config::Operation;
use pico_hsm_api_connector::protocol::{
    denied, err, ok_result, op_name, sealed_result, verified_result, Request, Response,
};
use serde_json::Value;

fn field(value: &Value, name: &str) -> Result<String, String> {
    match value.get(name).and_then(|v| v.as_str()) {
        Some(text) => Ok(text.to_string()),
        None => Err(format!("missing field `{name}`")),
    }
}

fn parse(json: &str) -> Result<Request, String> {
    let v: Value = serde_json::from_str(json).map_err(|e| e.to_string())?;
    let op = field(&v, "op")?;
    let key_label = field(&v, "key_label")?;
    if op == op_name(Operation::Sign) {
        Ok(Request::Sign {
            key_label,
            mechanism: field(&v, "mechanism")?,
            data_b64: field(&v, "data_b64")?,
        })
    } else if op == op_name(Operation::Verify) {
        Ok(Request::Verify {
            key_label,
            mechanism: field(&v, "mechanism")?,
            data_b64: field(&v, "data_b64")?,
            signature_b64: field(&v, "signature_b64")?,
        })
    } else if op == op_name(Operation::Encrypt) {
        Ok(Request::Encrypt {
            key_label,
            mechanism: field(&v, "mechanism")?,
            data_b64: field(&v, "data_b64")?,
        })
    } else if op == op_name(Operation::Decrypt) {
        Ok(Request::Decrypt {
            key_label,
            mechanism: field(&v, "mechanism")?,
            data_b64: field(&v, "data_b64")?,
            iv_b64: field(&v, "iv_b64")?,
            integrity_b64: field(&v, "integrity_b64")?,
        })
    } else if op == op_name(Operation::DeriveAndEncrypt) {
        Ok(Request::DeriveAndEncrypt {
            key_label,
            derive_mechanism: field(&v, "derive_mechanism")?,
            target_mechanism: field(&v, "target_mechanism")?,
            peer_public_key_b64: field(&v, "peer_public_key_b64")?,
            data_b64: field(&v, "data_b64")?,
        })
    } else if op == op_name(Operation::DeriveAndDecrypt) {
        Ok(Request::DeriveAndDecrypt {
            key_label,
            derive_mechanism: field(&v, "derive_mechanism")?,
            target_mechanism: field(&v, "target_mechanism")?,
            peer_public_key_b64: field(&v, "peer_public_key_b64")?,
            iv_b64: field(&v, "iv_b64")?,
            integrity_b64: field(&v, "integrity_b64")?,
            data_b64: field(&v, "data_b64")?,
        })
    } else {
        Err(format!("unknown variant `{op}`"))
    }
}

#[test]
fn parses_all_six_ops() {
    let cases = [
        (r#"{"op":"sign","key_label":"k","mechanism":"ecdsa_sha256","data_b64":"eA=="}"#, Operation::Sign),
        (r#"{"op":"verify","key_label":"k","mechanism":"ecdsa_sha256","data_b64":"eA==","signature_b64":"cw=="}"#, Operation::Verify),
        (r#"{"op":"encrypt","key_label":"k","mechanism":"aes_cbc_pad","data_b64":"eA=="}"#, Operation::Encrypt),
        (r#"{"op":"decrypt","key_label":"k","mechanism":"aes_cbc_pad","data_b64":"eA==","iv_b64":"aQ==","integrity_b64":"cw=="}"#, Operation::Decrypt),
        (r#"{"op":"derive_and_encrypt","key_label":"k","derive_mechanism":"ecdh1_derive","target_mechanism":"aes_cbc_pad","peer_public_key_b64":"cA==","data_b64":"eA=="}"#, Operation::DeriveAndEncrypt),
        (r#"{"op":"derive_and_decrypt","key_label":"k","derive_mechanism":"ecdh1_derive","target_mechanism":"aes_cbc_pad","peer_public_key_b64":"cA==","iv_b64":"aQ==","integrity_b64":"cw==","data_b64":"eA=="}"#, Operation::DeriveAndDecrypt),
    ];
    for (json, expected) in cases {
        let req: Request = parse(json).unwrap();
        assert_eq!(req.operation(), expected);
    }
}

#[test]
fn rejects_unknown_op() {
    let res: Result<Request, _> = parse(r#"{"op":"generate_key","key_label":"k"}"#);
    assert!(res.is_err());
}

#[test]
fn peer_key_only_on_derive() {
    let sign: Request =
        parse(r#"{"op":"sign","key_label":"k","mechanism":"m","data_b64":"eA=="}"#).unwrap();
    assert_eq!(sign.peer_public_key_b64(), None);
    let derive: Request = parse(
        r#"{"op":"derive_and_encrypt","key_label":"k","derive_mechanism":"d","target_mechanism":"t","peer_public_key_b64":"cA==","data_b64":"eA=="}"#,
    )
    .unwrap();
    assert_eq!(derive.peer_public_key_b64(), Some("cA=="));
}

#[test]
fn integrity_input_only_on_decrypt() {
    let encrypt =
        parse(r#"{"op":"encrypt","key_label":"k","mechanism":"m","data_b64":"eA=="}"#).unwrap();
    assert_eq!(encrypt.integrity_input(), None);
    assert_eq!(encrypt.key_label(), "k");
    let decrypt = parse(
        r#"{"op":"decrypt","key_label":"k2","mechanism":"m","data_b64":"d","iv_b64":"i","integrity_b64":"s"}"#,
    )
    .unwrap();
    assert_eq!(decrypt.integrity_input(), Some(("i", "s", "d")));
    assert_eq!(decrypt.key_label(), "k2");
    let derive = parse(
        r#"{"op":"derive_and_decrypt","key_label":"k3","derive_mechanism":"d","target_mechanism":"t","peer_public_key_b64":"p","iv_b64":"i3","integrity_b64":"s3","data_b64":"d3"}"#,
    )
    .unwrap();
    assert_eq!(derive.integrity_input(), Some(("i3", "s3", "d3")));
    assert_eq!(derive.peer_public_key_b64(), Some("p"));
    assert_eq!(derive.key_label(), "k3");
}

#[test]
fn operations_have_distinct_wire_names() {
    let names = [
        op_name(Operation::Sign),
        op_name(Operation::Verify),
        op_name(Operation::Encrypt),
        op_name(Operation::Decrypt),
        op_name(Operation::DeriveAndEncrypt),
        op_name(Operation::DeriveAndDecrypt),
    ];
    assert_eq!(
        names,
        ["sign", "verify", "encrypt", "decrypt", "derive_and_encrypt", "derive_and_decrypt"]
    );
}

#[test]
fn responses_carry_what_they_are_made_of() {
    match ok_result("cg==".to_string()) {
        Response::Success { result_b64, verified, iv_b64, integrity_b64 } => {
            assert_eq!(result_b64.as_deref(), Some("cg=="));
            assert_eq!(verified, None);
            assert_eq!(iv_b64, None);
            assert_eq!(integrity_b64, None);
        }
        other => panic!("{other:?}"),
    }
    match verified_result(false) {
        Response::Success { result_b64, verified, iv_b64, integrity_b64 } => {
            assert_eq!(result_b64, None);
            assert_eq!(verified, Some(false));
            assert_eq!(iv_b64, None);
            assert_eq!(integrity_b64, None);
        }
        other => panic!("{other:?}"),
    }
    match sealed_result("c".to_string(), "i".to_string(), "s".to_string()) {
        Response::Success { result_b64, verified, iv_b64, integrity_b64 } => {
            assert_eq!(result_b64.as_deref(), Some("c"));
            assert_eq!(verified, None);
            assert_eq!(iv_b64.as_deref(), Some("i"));
            assert_eq!(integrity_b64.as_deref(), Some("s"));
        }
        other => panic!("{other:?}"),
    }
    assert!(matches!(denied("r".to_string()), Response::Denied { reason } if reason == "r"));
    assert!(matches!(err("m".to_string()), Response::Error { message } if message == "m"));
}
