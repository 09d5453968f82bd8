//! Requests and responses of the wire protocol: one JSON object per line.
//!
//! Exactly six operations exist. There are deliberately no variants for object
//! management, PIN handling, firmware update, or backup and restore.

use vstd::prelude::*;

use crate::config::Operation;

verus! {

/// A request of a client.
#[derive(Debug)]
pub enum Request {
    Sign { key_label: String, mechanism: String, data_b64: String },
    Verify { key_label: String, mechanism: String, data_b64: String, signature_b64: String },
    Encrypt { key_label: String, mechanism: String, data_b64: String },
    /// `iv_b64` and `integrity_b64` come from the matching `encrypt` response.
    /// The integrity signature is verified before anything is decrypted.
    Decrypt {
        key_label: String,
        mechanism: String,
        data_b64: String,
        iv_b64: String,
        integrity_b64: String,
    },
    /// Derives a key from `key_label` and the counterparty's public key, and
    /// encrypts `data_b64` with it. The derived key never leaves the HSM.
    DeriveAndEncrypt {
        key_label: String,
        derive_mechanism: String,
        target_mechanism: String,
        peer_public_key_b64: String,
        data_b64: String,
    },
    /// `iv_b64` and `integrity_b64` come from the matching `derive_and_encrypt`
    /// response.
    DeriveAndDecrypt {
        key_label: String,
        derive_mechanism: String,
        target_mechanism: String,
        peer_public_key_b64: String,
        iv_b64: String,
        integrity_b64: String,
        data_b64: String,
    },
}

/// A request, with the characters of its texts.
pub enum RequestModel {
    Sign { key_label: Seq<char>, mechanism: Seq<char>, data_b64: Seq<char> },
    Verify {
        key_label: Seq<char>,
        mechanism: Seq<char>,
        data_b64: Seq<char>,
        signature_b64: Seq<char>,
    },
    Encrypt { key_label: Seq<char>, mechanism: Seq<char>, data_b64: Seq<char> },
    Decrypt {
        key_label: Seq<char>,
        mechanism: Seq<char>,
        data_b64: Seq<char>,
        iv_b64: Seq<char>,
        integrity_b64: Seq<char>,
    },
    DeriveAndEncrypt {
        key_label: Seq<char>,
        derive_mechanism: Seq<char>,
        target_mechanism: Seq<char>,
        peer_public_key_b64: Seq<char>,
        data_b64: Seq<char>,
    },
    DeriveAndDecrypt {
        key_label: Seq<char>,
        derive_mechanism: Seq<char>,
        target_mechanism: Seq<char>,
        peer_public_key_b64: Seq<char>,
        iv_b64: Seq<char>,
        integrity_b64: Seq<char>,
        data_b64: Seq<char>,
    },
}

impl View for Request {
    type V = RequestModel;

    open spec fn view(&self) -> RequestModel {
        match self {
            Request::Sign { key_label, mechanism, data_b64 } => RequestModel::Sign {
                key_label: key_label@,
                mechanism: mechanism@,
                data_b64: data_b64@,
            },
            Request::Verify { key_label, mechanism, data_b64, signature_b64 } => RequestModel::Verify {
                key_label: key_label@,
                mechanism: mechanism@,
                data_b64: data_b64@,
                signature_b64: signature_b64@,
            },
            Request::Encrypt { key_label, mechanism, data_b64 } => RequestModel::Encrypt {
                key_label: key_label@,
                mechanism: mechanism@,
                data_b64: data_b64@,
            },
            Request::Decrypt { key_label, mechanism, data_b64, iv_b64, integrity_b64 } =>
                RequestModel::Decrypt {
                key_label: key_label@,
                mechanism: mechanism@,
                data_b64: data_b64@,
                iv_b64: iv_b64@,
                integrity_b64: integrity_b64@,
            },
            Request::DeriveAndEncrypt {
                key_label,
                derive_mechanism,
                target_mechanism,
                peer_public_key_b64,
                data_b64,
            } => RequestModel::DeriveAndEncrypt {
                key_label: key_label@,
                derive_mechanism: derive_mechanism@,
                target_mechanism: target_mechanism@,
                peer_public_key_b64: peer_public_key_b64@,
                data_b64: data_b64@,
            },
            Request::DeriveAndDecrypt {
                key_label,
                derive_mechanism,
                target_mechanism,
                peer_public_key_b64,
                iv_b64,
                integrity_b64,
                data_b64,
            } => RequestModel::DeriveAndDecrypt {
                key_label: key_label@,
                derive_mechanism: derive_mechanism@,
                target_mechanism: target_mechanism@,
                peer_public_key_b64: peer_public_key_b64@,
                iv_b64: iv_b64@,
                integrity_b64: integrity_b64@,
                data_b64: data_b64@,
            },
        }
    }
}

impl RequestModel {
    /// The operation that the request asks for.
    pub open spec fn operation(self) -> Operation {
        match self {
            RequestModel::Sign { .. } => Operation::Sign,
            RequestModel::Verify { .. } => Operation::Verify,
            RequestModel::Encrypt { .. } => Operation::Encrypt,
            RequestModel::Decrypt { .. } => Operation::Decrypt,
            RequestModel::DeriveAndEncrypt { .. } => Operation::DeriveAndEncrypt,
            RequestModel::DeriveAndDecrypt { .. } => Operation::DeriveAndDecrypt,
        }
    }

    /// The label of the key that the request names.
    pub open spec fn key_label(self) -> Seq<char> {
        match self {
            RequestModel::Sign { key_label, .. } => key_label,
            RequestModel::Verify { key_label, .. } => key_label,
            RequestModel::Encrypt { key_label, .. } => key_label,
            RequestModel::Decrypt { key_label, .. } => key_label,
            RequestModel::DeriveAndEncrypt { key_label, .. } => key_label,
            RequestModel::DeriveAndDecrypt { key_label, .. } => key_label,
        }
    }

    /// The counterparty's public key, on the derive variants.
    pub open spec fn peer_public_key_b64(self) -> Option<Seq<char>> {
        match self {
            RequestModel::DeriveAndEncrypt { peer_public_key_b64, .. } => Some(peer_public_key_b64),
            RequestModel::DeriveAndDecrypt { peer_public_key_b64, .. } => Some(peer_public_key_b64),
            _ => None,
        }
    }

    /// `(iv_b64, integrity_b64, data_b64)`, on the decrypt variants.
    pub open spec fn integrity_input(self) -> Option<(Seq<char>, Seq<char>, Seq<char>)> {
        match self {
            RequestModel::Decrypt { iv_b64, integrity_b64, data_b64, .. } => Some(
                (iv_b64, integrity_b64, data_b64),
            ),
            RequestModel::DeriveAndDecrypt { iv_b64, integrity_b64, data_b64, .. } => Some(
                (iv_b64, integrity_b64, data_b64),
            ),
            _ => None,
        }
    }
}

impl Request {
    /// The operation that the request asks for.
    pub fn operation(&self) -> (r: Operation)
        ensures
            r == self@.operation(),
    {
        match self {
            Request::Sign { .. } => Operation::Sign,
            Request::Verify { .. } => Operation::Verify,
            Request::Encrypt { .. } => Operation::Encrypt,
            Request::Decrypt { .. } => Operation::Decrypt,
            Request::DeriveAndEncrypt { .. } => Operation::DeriveAndEncrypt,
            Request::DeriveAndDecrypt { .. } => Operation::DeriveAndDecrypt,
        }
    }

    /// `Some` only for the derive variants. The value is subject to its own
    /// authorization level (`AuthzTable::is_peer_key_authorized`).
    pub fn peer_public_key_b64(&self) -> (r: Option<&str>)
        ensures
            match r {
                Some(key) => self@.peer_public_key_b64() == Some(key@),
                None => self@.peer_public_key_b64() is None,
            },
    {
        match self {
            Request::DeriveAndEncrypt { peer_public_key_b64, .. } => Some(
                peer_public_key_b64.as_str(),
            ),
            Request::DeriveAndDecrypt { peer_public_key_b64, .. } => Some(
                peer_public_key_b64.as_str(),
            ),
            _ => None,
        }
    }

    /// The inputs of the integrity check, `(iv_b64, integrity_b64, data_b64)`:
    /// `Some` only for the decrypt variants.
    pub fn integrity_input(&self) -> (r: Option<(&str, &str, &str)>)
        ensures
            match r {
                Some(t) => self@.integrity_input() == Some((t.0@, t.1@, t.2@)),
                None => self@.integrity_input() is None,
            },
    {
        match self {
            Request::Decrypt { iv_b64, integrity_b64, data_b64, .. } => Some(
                (iv_b64.as_str(), integrity_b64.as_str(), data_b64.as_str()),
            ),
            Request::DeriveAndDecrypt { iv_b64, integrity_b64, data_b64, .. } => Some(
                (iv_b64.as_str(), integrity_b64.as_str(), data_b64.as_str()),
            ),
            _ => None,
        }
    }

    /// The label of the key that the request names.
    pub fn key_label(&self) -> (r: &str)
        ensures
            r@ == self@.key_label(),
    {
        match self {
            Request::Sign { key_label, .. } => key_label.as_str(),
            Request::Verify { key_label, .. } => key_label.as_str(),
            Request::Encrypt { key_label, .. } => key_label.as_str(),
            Request::Decrypt { key_label, .. } => key_label.as_str(),
            Request::DeriveAndEncrypt { key_label, .. } => key_label.as_str(),
            Request::DeriveAndDecrypt { key_label, .. } => key_label.as_str(),
        }
    }
}

/// The answer to a request.
#[derive(Debug)]
pub enum Response {
    /// `iv_b64` and `integrity_b64` are set only on `encrypt` and
    /// `derive_and_encrypt`: the caller must store them with the ciphertext and
    /// send them back for the matching decrypt call.
    Success {
        result_b64: Option<String>,
        verified: Option<bool>,
        iv_b64: Option<String>,
        integrity_b64: Option<String>,
    },
    Denied { reason: String },
    Error { message: String },
}

/// A response, with the characters of its texts.
pub enum ResponseModel {
    Success {
        result_b64: Option<Seq<char>>,
        verified: Option<bool>,
        iv_b64: Option<Seq<char>>,
        integrity_b64: Option<Seq<char>>,
    },
    Denied { reason: Seq<char> },
    Error { message: Seq<char> },
}

/// The characters of an optional text.
pub open spec fn optional_text(text: Option<String>) -> Option<Seq<char>> {
    match text {
        Some(s) => Some(s@),
        None => None,
    }
}

impl View for Response {
    type V = ResponseModel;

    open spec fn view(&self) -> ResponseModel {
        match self {
            Response::Success { result_b64, verified, iv_b64, integrity_b64 } => ResponseModel::Success {
                result_b64: optional_text(*result_b64),
                verified: *verified,
                iv_b64: optional_text(*iv_b64),
                integrity_b64: optional_text(*integrity_b64),
            },
            Response::Denied { reason } => ResponseModel::Denied { reason: reason@ },
            Response::Error { message } => ResponseModel::Error { message: message@ },
        }
    }
}

/// An `ok` answer that carries one result.
pub open spec fn ok_model(result_b64: Seq<char>) -> ResponseModel {
    ResponseModel::Success {
        result_b64: Some(result_b64),
        verified: None,
        iv_b64: None,
        integrity_b64: None,
    }
}

/// An `ok` answer to a verification.
pub open spec fn verified_model(valid: bool) -> ResponseModel {
    ResponseModel::Success { result_b64: None, verified: Some(valid), iv_b64: None, integrity_b64: None }
}

/// An `ok` answer that carries a sealed ciphertext.
pub open spec fn sealed_model(
    result_b64: Seq<char>,
    iv_b64: Seq<char>,
    integrity_b64: Seq<char>,
) -> ResponseModel {
    ResponseModel::Success {
        result_b64: Some(result_b64),
        verified: None,
        iv_b64: Some(iv_b64),
        integrity_b64: Some(integrity_b64),
    }
}

/// An `ok` answer that carries one result.
pub fn ok_result(result_b64: String) -> (r: Response)
    ensures
        r@ == ok_model(result_b64@),
{
    Response::Success { result_b64: Some(result_b64), verified: None, iv_b64: None, integrity_b64: None }
}

/// An `ok` answer to a verification.
pub fn verified_result(valid: bool) -> (r: Response)
    ensures
        r@ == verified_model(valid),
{
    Response::Success { result_b64: None, verified: Some(valid), iv_b64: None, integrity_b64: None }
}

/// An `ok` answer that carries a sealed ciphertext.
pub fn sealed_result(result_b64: String, iv_b64: String, integrity_b64: String) -> (r: Response)
    ensures
        r@ == sealed_model(result_b64@, iv_b64@, integrity_b64@),
{
    Response::Success {
        result_b64: Some(result_b64),
        verified: None,
        iv_b64: Some(iv_b64),
        integrity_b64: Some(integrity_b64),
    }
}

/// A refusal.
pub fn denied(reason: String) -> (r: Response)
    ensures
        r@ == (ResponseModel::Denied { reason: reason@ }),
{
    Response::Denied { reason }
}

/// A failure.
pub fn err(message: String) -> (r: Response)
    ensures
        r@ == (ResponseModel::Error { message: message@ }),
{
    Response::Error { message }
}

/// The name of an operation on the wire and in the audit log.
pub open spec fn wire_name(op: Operation) -> Seq<char> {
    match op {
        Operation::Sign => "sign"@,
        Operation::Verify => "verify"@,
        Operation::Encrypt => "encrypt"@,
        Operation::Decrypt => "decrypt"@,
        Operation::DeriveAndEncrypt => "derive_and_encrypt"@,
        Operation::DeriveAndDecrypt => "derive_and_decrypt"@,
    }
}

/// The name of an operation on the wire and in the audit log.
pub fn op_name(op: Operation) -> (r: &'static str)
    ensures
        r@ == wire_name(op),
{
    match op {
        Operation::Sign => "sign",
        Operation::Verify => "verify",
        Operation::Encrypt => "encrypt",
        Operation::Decrypt => "decrypt",
        Operation::DeriveAndEncrypt => "derive_and_encrypt",
        Operation::DeriveAndDecrypt => "derive_and_decrypt",
    }
}

/// The names tell the six operations apart.
pub proof fn law_wire_names_are_distinct(a: Operation, b: Operation)
    requires
        wire_name(a) == wire_name(b),
    ensures
        a == b,
{
    reveal_strlit("sign");
    reveal_strlit("verify");
    reveal_strlit("encrypt");
    reveal_strlit("decrypt");
    reveal_strlit("derive_and_encrypt");
    reveal_strlit("derive_and_decrypt");
    let x = wire_name(a);
    let y = wire_name(b);
    assert("sign"@.len() == 4 && "verify"@.len() == 6 && "encrypt"@.len() == 7);
    assert("decrypt"@.len() == 7 && "derive_and_encrypt"@.len() == 18);
    assert("derive_and_decrypt"@.len() == 18);
    assert("encrypt"@[0] == 'e' && "decrypt"@[0] == 'd');
    assert("derive_and_encrypt"@[11] == 'e' && "derive_and_decrypt"@[11] == 'd');
    assert(x.len() == y.len() && x[0] == y[0] && x[11] == y[11]);
}

/// A request asks for the operation it is a variant of, on the label it names.
pub proof fn law_request_says_operation_and_label(req: RequestModel)
    ensures
        match req {
            RequestModel::Sign { key_label, .. } => req.operation() is Sign && req.key_label()
                == key_label,
            RequestModel::Verify { key_label, .. } => req.operation() is Verify && req.key_label()
                == key_label,
            RequestModel::Encrypt { key_label, .. } => req.operation() is Encrypt
                && req.key_label() == key_label,
            RequestModel::Decrypt { key_label, .. } => req.operation() is Decrypt
                && req.key_label() == key_label,
            RequestModel::DeriveAndEncrypt { key_label, .. } => req.operation() is DeriveAndEncrypt
                && req.key_label() == key_label,
            RequestModel::DeriveAndDecrypt { key_label, .. } => req.operation() is DeriveAndDecrypt
                && req.key_label() == key_label,
        },
{
}

/// A counterparty's key is named by the requests that derive a key and by no other, and
/// the inputs of the integrity check are given by those that decrypt and by no other,
/// each as the text that was sent.
pub proof fn law_request_says_peer_and_integrity(req: RequestModel)
    ensures
        match req {
            RequestModel::DeriveAndEncrypt { peer_public_key_b64, .. } => {
                &&& req.peer_public_key_b64() == Some(peer_public_key_b64)
                &&& req.integrity_input() is None
            },
            RequestModel::DeriveAndDecrypt {
                peer_public_key_b64,
                iv_b64,
                integrity_b64,
                data_b64,
                ..
            } => {
                &&& req.peer_public_key_b64() == Some(peer_public_key_b64)
                &&& req.integrity_input() == Some((iv_b64, integrity_b64, data_b64))
            },
            RequestModel::Decrypt { iv_b64, integrity_b64, data_b64, .. } => {
                &&& req.peer_public_key_b64() is None
                &&& req.integrity_input() == Some((iv_b64, integrity_b64, data_b64))
            },
            _ => req.peer_public_key_b64() is None && req.integrity_input() is None,
        },
{
}

/// An answer that carries a result, a verdict or a sealed ciphertext carries that and
/// nothing else.
pub proof fn law_answers_carry_what_they_are_for(
    result: Seq<char>,
    iv: Seq<char>,
    integrity: Seq<char>,
    valid: bool,
)
    ensures
        ok_model(result) == (ResponseModel::Success {
            result_b64: Some(result),
            verified: None,
            iv_b64: None,
            integrity_b64: None,
        }),
        verified_model(valid) == (ResponseModel::Success {
            result_b64: None,
            verified: Some(valid),
            iv_b64: None,
            integrity_b64: None,
        }),
        sealed_model(result, iv, integrity) == (ResponseModel::Success {
            result_b64: Some(result),
            verified: None,
            iv_b64: Some(iv),
            integrity_b64: Some(integrity),
        }),
{
}

/// The names of the operations on the wire.
pub proof fn law_wire_names(op: Operation)
    ensures
        wire_name(op) == (match op {
            Operation::Sign => "sign"@,
            Operation::Verify => "verify"@,
            Operation::Encrypt => "encrypt"@,
            Operation::Decrypt => "decrypt"@,
            Operation::DeriveAndEncrypt => "derive_and_encrypt"@,
            Operation::DeriveAndDecrypt => "derive_and_decrypt"@,
        }),
{
}

/// What the models say of a request is what the request holds.
pub proof fn law_request_model_is_faithful(req: Request)
    ensures
        match req {
            Request::Sign { key_label, mechanism, data_b64 } => req@ == (RequestModel::Sign {
                key_label: key_label@,
                mechanism: mechanism@,
                data_b64: data_b64@,
            }),
            Request::Verify { key_label, mechanism, data_b64, signature_b64 } => req@ == (
            RequestModel::Verify {
                key_label: key_label@,
                mechanism: mechanism@,
                data_b64: data_b64@,
                signature_b64: signature_b64@,
            }),
            Request::Encrypt { key_label, mechanism, data_b64 } => req@ == (RequestModel::Encrypt {
                key_label: key_label@,
                mechanism: mechanism@,
                data_b64: data_b64@,
            }),
            Request::Decrypt { key_label, mechanism, data_b64, iv_b64, integrity_b64 } => req@ == (
            RequestModel::Decrypt {
                key_label: key_label@,
                mechanism: mechanism@,
                data_b64: data_b64@,
                iv_b64: iv_b64@,
                integrity_b64: integrity_b64@,
            }),
            Request::DeriveAndEncrypt {
                key_label,
                derive_mechanism,
                target_mechanism,
                peer_public_key_b64,
                data_b64,
            } => req@ == (RequestModel::DeriveAndEncrypt {
                key_label: key_label@,
                derive_mechanism: derive_mechanism@,
                target_mechanism: target_mechanism@,
                peer_public_key_b64: peer_public_key_b64@,
                data_b64: data_b64@,
            }),
            Request::DeriveAndDecrypt {
                key_label,
                derive_mechanism,
                target_mechanism,
                peer_public_key_b64,
                iv_b64,
                integrity_b64,
                data_b64,
            } => req@ == (RequestModel::DeriveAndDecrypt {
                key_label: key_label@,
                derive_mechanism: derive_mechanism@,
                target_mechanism: target_mechanism@,
                peer_public_key_b64: peer_public_key_b64@,
                iv_b64: iv_b64@,
                integrity_b64: integrity_b64@,
                data_b64: data_b64@,
            }),
        },
{
}

/// What the models say of a response is what the response holds.
pub proof fn law_response_model_is_faithful(r: Response, text: String)
    ensures
        optional_text(Some(text)) == Some(text@),
        optional_text(None) is None,
        match r {
            Response::Success { result_b64, verified, iv_b64, integrity_b64 } => r@ == (
            ResponseModel::Success {
                result_b64: optional_text(result_b64),
                verified,
                iv_b64: optional_text(iv_b64),
                integrity_b64: optional_text(integrity_b64),
            }),
            Response::Denied { reason } => r@ == (ResponseModel::Denied { reason: reason@ }),
            Response::Error { message } => r@ == (ResponseModel::Error { message: message@ }),
        },
{
}

} // verus!
