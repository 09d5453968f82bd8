//! What an authorized request asks of the token, and what its replies are worth.

use vstd::prelude::*;
use vstd::string::*;

use crate::codec::{b64_decode, b64_decoded, canonical};
use crate::hsm::{idle_call, HsmCall, HsmCallModel, HsmClient, HsmJobModel, HsmStageModel};
use crate::integrity::{integrity_payload, payload};
use crate::protocol::{err, Request, RequestModel, Response, ResponseModel};
use crate::text::{debug_quoted, join3, quote, same_text};

verus! {

/// The mechanism of `sign` and `verify`.
pub const MECH_ECDSA_SHA256: &'static str = "ecdsa_sha256";

/// The mechanism of `encrypt` and `decrypt`, and what derived keys are used for.
pub const MECH_AES_CBC_PAD: &'static str = "aes_cbc_pad";

/// The mechanism that derives a key.
pub const MECH_ECDH1_DERIVE: &'static str = "ecdh1_derive";

/// The bytes that a request's fields stand for: `None` where the request has no
/// such field, or where it is not base64.
#[derive(Debug)]
pub struct Fields {
    pub data: Option<Vec<u8>>,
    pub signature: Option<Vec<u8>>,
    pub iv: Option<Vec<u8>>,
    pub integrity: Option<Vec<u8>>,
}

/// The fields' bytes.
pub struct FieldsModel {
    pub data: Option<Seq<u8>>,
    pub signature: Option<Seq<u8>>,
    pub iv: Option<Seq<u8>>,
    pub integrity: Option<Seq<u8>>,
}

/// The bytes of an optional field.
pub open spec fn optional_bytes(bytes: Option<Vec<u8>>) -> Option<Seq<u8>> {
    match bytes {
        Some(b) => Some(b@),
        None => None,
    }
}

impl View for Fields {
    type V = FieldsModel;

    open spec fn view(&self) -> FieldsModel {
        FieldsModel {
            data: optional_bytes(self.data),
            signature: optional_bytes(self.signature),
            iv: optional_bytes(self.iv),
            integrity: optional_bytes(self.integrity),
        }
    }
}

/// The text of a request's payload field.
pub open spec fn data_b64(req: RequestModel) -> Seq<char> {
    match req {
        RequestModel::Sign { data_b64, .. } => data_b64,
        RequestModel::Verify { data_b64, .. } => data_b64,
        RequestModel::Encrypt { data_b64, .. } => data_b64,
        RequestModel::Decrypt { data_b64, .. } => data_b64,
        RequestModel::DeriveAndEncrypt { data_b64, .. } => data_b64,
        RequestModel::DeriveAndDecrypt { data_b64, .. } => data_b64,
    }
}

/// The bytes that a request's fields stand for.
pub open spec fn decoded_fields(req: RequestModel) -> FieldsModel {
    FieldsModel {
        data: b64_decoded(data_b64(req)),
        signature: match req {
            RequestModel::Verify { signature_b64, .. } => b64_decoded(signature_b64),
            _ => None,
        },
        iv: match req.integrity_input() {
            Some(input) => b64_decoded(input.0),
            None => None,
        },
        integrity: match req.integrity_input() {
            Some(input) => b64_decoded(input.1),
            None => None,
        },
    }
}

/// Decodes the base64 fields of a request.
pub fn decode_fields(req: &Request) -> (r: Fields)
    ensures
        r@ == decoded_fields(req@),
        canonical(data_b64(req@)),
{
    let data = match req {
        Request::Sign { data_b64, .. } => b64_decode(data_b64.as_str()),
        Request::Verify { data_b64, .. } => b64_decode(data_b64.as_str()),
        Request::Encrypt { data_b64, .. } => b64_decode(data_b64.as_str()),
        Request::Decrypt { data_b64, .. } => b64_decode(data_b64.as_str()),
        Request::DeriveAndEncrypt { data_b64, .. } => b64_decode(data_b64.as_str()),
        Request::DeriveAndDecrypt { data_b64, .. } => b64_decode(data_b64.as_str()),
    };
    let signature = match req {
        Request::Verify { signature_b64, .. } => b64_decode(signature_b64.as_str()),
        _ => None,
    };
    match req.integrity_input() {
        Some((iv_b64, integrity_b64, _)) => Fields {
            data,
            signature,
            iv: b64_decode(iv_b64),
            integrity: b64_decode(integrity_b64),
        },
        None => Fields { data, signature, iv: None, integrity: None },
    }
}

/// What a request comes to, short of asking the token.
#[derive(Debug)]
pub enum Plan {
    /// The answer is known without the token.
    Answer { response: Response },
    /// One call of the token decides.
    Run { call: HsmCall },
    /// The integrity signature is verified with the first call; only where it is
    /// valid is the second one made.
    Check { check: HsmCall, next: HsmCall },
}

/// A plan, with the models of its parts.
pub enum PlanModel {
    Answer { response: ResponseModel },
    Run { call: HsmCallModel },
    Check { check: HsmCallModel, next: HsmCallModel },
}

impl View for Plan {
    type V = PlanModel;

    open spec fn view(&self) -> PlanModel {
        match self {
            Plan::Answer { response } => PlanModel::Answer { response: response@ },
            Plan::Run { call } => PlanModel::Run { call: call@ },
            Plan::Check { check, next } => PlanModel::Check { check: check@, next: next@ },
        }
    }
}

/// The error text for one mechanism where another one is supported.
pub open spec fn unsupported(what: Seq<char>, mechanism: Seq<char>, supported: Seq<char>) -> Seq<
    char,
> {
    "unsupported "@ + what + " mechanism "@ + debug_quoted(mechanism) + " (MVP: "@ + supported
        + ")"@
}

/// The error text for a pair of mechanisms that is not supported.
pub open spec fn unsupported_pair(derive: Seq<char>, target: Seq<char>) -> Seq<char> {
    "unsupported derive pair "@ + debug_quoted(derive) + "+"@ + debug_quoted(target) + " (MVP: "@
        + MECH_ECDH1_DERIVE@ + "+"@ + MECH_AES_CBC_PAD@ + ")"@
}

/// What is wrong with the mechanisms that a request names.
pub open spec fn mechanism_fault(req: RequestModel) -> Option<Seq<char>> {
    match req {
        RequestModel::Sign { mechanism, .. } => if mechanism != MECH_ECDSA_SHA256@ {
            Some(unsupported("sign"@, mechanism, MECH_ECDSA_SHA256@))
        } else {
            None
        },
        RequestModel::Verify { mechanism, .. } => if mechanism != MECH_ECDSA_SHA256@ {
            Some(unsupported("verify"@, mechanism, MECH_ECDSA_SHA256@))
        } else {
            None
        },
        RequestModel::Encrypt { mechanism, .. } => if mechanism != MECH_AES_CBC_PAD@ {
            Some(unsupported("encrypt"@, mechanism, MECH_AES_CBC_PAD@))
        } else {
            None
        },
        RequestModel::Decrypt { mechanism, .. } => if mechanism != MECH_AES_CBC_PAD@ {
            Some(unsupported("decrypt"@, mechanism, MECH_AES_CBC_PAD@))
        } else {
            None
        },
        RequestModel::DeriveAndEncrypt { derive_mechanism, target_mechanism, .. } => if
            derive_mechanism != MECH_ECDH1_DERIVE@ || target_mechanism != MECH_AES_CBC_PAD@ {
            Some(unsupported_pair(derive_mechanism, target_mechanism))
        } else {
            None
        },
        RequestModel::DeriveAndDecrypt { derive_mechanism, target_mechanism, .. } => if
            derive_mechanism != MECH_ECDH1_DERIVE@ || target_mechanism != MECH_AES_CBC_PAD@ {
            Some(unsupported_pair(derive_mechanism, target_mechanism))
        } else {
            None
        },
    }
}

/// The token's part of the gateway: its slot, and the label of the key that signs
/// integrity payloads.
pub struct SealerModel {
    pub slot: u64,
    pub integrity_label: Seq<char>,
}

impl SealerModel {
    /// The call that signs a ciphertext.
    pub open spec fn seal_call(self, label: Seq<char>, iv: Seq<u8>, ciphertext: Seq<u8>)
        -> HsmCallModel {
        idle_call(
            self.slot,
            HsmJobModel::Sign {
                label: self.integrity_label,
                data: payload(label, iv, ciphertext),
            },
        )
    }

    /// The call that verifies the signature of a ciphertext.
    pub open spec fn check_call(
        self,
        label: Seq<char>,
        iv: Seq<u8>,
        ciphertext: Seq<u8>,
        signature: Seq<u8>,
    ) -> HsmCallModel {
        idle_call(
            self.slot,
            HsmJobModel::Verify {
                label: self.integrity_label,
                data: payload(label, iv, ciphertext),
                signature,
            },
        )
    }
}

/// An answer that needs no token.
pub open spec fn answers_error(message: Seq<char>) -> PlanModel {
    PlanModel::Answer { response: ResponseModel::Error { message } }
}

/// The plan for a decryption: the integrity check first.
pub open spec fn checks_first(
    s: SealerModel,
    label: Seq<char>,
    f: FieldsModel,
    next: spec_fn(Seq<u8>, Seq<u8>) -> HsmJobModel,
) -> PlanModel {
    match (f.data, f.iv, f.integrity) {
        (Some(ciphertext), Some(iv), Some(signature)) => PlanModel::Check {
            check: s.check_call(label, iv, ciphertext, signature),
            next: idle_call(s.slot, next(ciphertext, iv)),
        },
        _ => answers_error("invalid data_b64/iv_b64/integrity_b64"@),
    }
}

/// The counterparty's key that goes to the token.
pub open spec fn peer_or_empty(peer: Option<Seq<u8>>) -> Seq<u8> {
    match peer {
        Some(key) => key,
        None => Seq::empty(),
    }
}

/// What a request comes to, where its fields stand for the bytes `f` and the
/// counterparty's key, if any, for the bytes `peer`.
pub open spec fn planned(
    s: SealerModel,
    req: RequestModel,
    peer: Option<Seq<u8>>,
    f: FieldsModel,
) -> PlanModel {
    match mechanism_fault(req) {
        Some(message) => answers_error(message),
        None => match req {
            RequestModel::Sign { key_label, .. } => match f.data {
                Some(data) => PlanModel::Run {
                    call: idle_call(s.slot, HsmJobModel::Sign { label: key_label, data }),
                },
                None => answers_error("invalid base64 input"@),
            },
            RequestModel::Verify { key_label, .. } => match (f.data, f.signature) {
                (Some(data), Some(signature)) => PlanModel::Run {
                    call: idle_call(
                        s.slot,
                        HsmJobModel::Verify { label: key_label, data, signature },
                    ),
                },
                _ => answers_error("invalid data_b64/signature_b64"@),
            },
            RequestModel::Encrypt { key_label, .. } => match f.data {
                Some(plaintext) => PlanModel::Run {
                    call: idle_call(s.slot, HsmJobModel::Encrypt { label: key_label, plaintext }),
                },
                None => answers_error("invalid base64 input"@),
            },
            RequestModel::Decrypt { key_label, .. } => checks_first(
                s,
                key_label,
                f,
                |ciphertext: Seq<u8>, iv: Seq<u8>|
                    HsmJobModel::Decrypt { label: key_label, ciphertext, iv },
            ),
            RequestModel::DeriveAndEncrypt { key_label, .. } => match f.data {
                Some(plaintext) => PlanModel::Run {
                    call: idle_call(
                        s.slot,
                        HsmJobModel::DeriveAndEncrypt {
                            label: key_label,
                            peer_public_key: peer_or_empty(peer),
                            plaintext,
                        },
                    ),
                },
                None => answers_error("invalid base64 input"@),
            },
            RequestModel::DeriveAndDecrypt { key_label, .. } => checks_first(
                s,
                key_label,
                f,
                |ciphertext: Seq<u8>, iv: Seq<u8>|
                    HsmJobModel::DeriveAndDecrypt {
                        label: key_label,
                        peer_public_key: peer_or_empty(peer),
                        ciphertext,
                        iv,
                    },
            ),
        },
    }
}

fn unsupported_text(what: &str, mechanism: &str, supported: &str) -> (r: String)
    ensures
        r@ == unsupported(what@, mechanism@, supported@),
{
    let quoted = quote(mechanism);
    let mut out = join3("unsupported ", what, " mechanism ");
    out.append(quoted.as_str());
    out.append(" (MVP: ");
    out.append(supported);
    out.append(")");
    out
}

fn unsupported_pair_text(derive: &str, target: &str) -> (r: String)
    ensures
        r@ == unsupported_pair(derive@, target@),
{
    let quoted_derive = quote(derive);
    let quoted_target = quote(target);
    let mut out = join3("unsupported derive pair ", quoted_derive.as_str(), "+");
    out.append(quoted_target.as_str());
    out.append(" (MVP: ");
    out.append(MECH_ECDH1_DERIVE);
    out.append("+");
    out.append(MECH_AES_CBC_PAD);
    out.append(")");
    out
}

/// What is wrong with the mechanisms that a request names.
pub fn check_mechanism(req: &Request) -> (r: Option<String>)
    ensures
        match r {
            Some(message) => mechanism_fault(req@) == Some(message@),
            None => mechanism_fault(req@) is None,
        },
{
    match req {
        Request::Sign { mechanism, .. } => {
            if !same_text(mechanism.as_str(), MECH_ECDSA_SHA256) {
                return Some(unsupported_text("sign", mechanism.as_str(), MECH_ECDSA_SHA256));
            }
        },
        Request::Verify { mechanism, .. } => {
            if !same_text(mechanism.as_str(), MECH_ECDSA_SHA256) {
                return Some(unsupported_text("verify", mechanism.as_str(), MECH_ECDSA_SHA256));
            }
        },
        Request::Encrypt { mechanism, .. } => {
            if !same_text(mechanism.as_str(), MECH_AES_CBC_PAD) {
                return Some(unsupported_text("encrypt", mechanism.as_str(), MECH_AES_CBC_PAD));
            }
        },
        Request::Decrypt { mechanism, .. } => {
            if !same_text(mechanism.as_str(), MECH_AES_CBC_PAD) {
                return Some(unsupported_text("decrypt", mechanism.as_str(), MECH_AES_CBC_PAD));
            }
        },
        Request::DeriveAndEncrypt { derive_mechanism, target_mechanism, .. } => {
            if !same_text(derive_mechanism.as_str(), MECH_ECDH1_DERIVE) || !same_text(
                target_mechanism.as_str(),
                MECH_AES_CBC_PAD,
            ) {
                return Some(
                    unsupported_pair_text(derive_mechanism.as_str(), target_mechanism.as_str()),
                );
            }
        },
        Request::DeriveAndDecrypt { derive_mechanism, target_mechanism, .. } => {
            if !same_text(derive_mechanism.as_str(), MECH_ECDH1_DERIVE) || !same_text(
                target_mechanism.as_str(),
                MECH_AES_CBC_PAD,
            ) {
                return Some(
                    unsupported_pair_text(derive_mechanism.as_str(), target_mechanism.as_str()),
                );
            }
        },
    }
    None
}

fn answer_error(message: &str) -> (r: Plan)
    ensures
        r@ == answers_error(message@),
{
    Plan::Answer { response: err(message.to_owned()) }
}

/// The token as the gateway uses it: the client keys, and the key that signs
/// integrity payloads.
#[derive(Debug)]
pub struct Sealer {
    pub hsm: HsmClient,
    pub integrity_label: String,
}

impl View for Sealer {
    type V = SealerModel;

    open spec fn view(&self) -> SealerModel {
        SealerModel { slot: self.hsm@, integrity_label: self.integrity_label@ }
    }
}

impl Sealer {
    /// The call that signs a ciphertext under a key label.
    pub fn seal_response(&self, key_label: &str, iv: &[u8], ct: &[u8]) -> (r: HsmCall)
        ensures
            r@ == self@.seal_call(key_label@, iv@, ct@),
    {
        let payload = integrity_payload(key_label, iv, ct);
        self.hsm.sign_ecdsa_sha256(self.integrity_label.as_str(), payload.as_slice())
    }

    /// The call that verifies the signature of a ciphertext under a key label.
    pub fn check_integrity(&self, key_label: &str, iv: &[u8], ct: &[u8], sig: &[u8]) -> (r: HsmCall)
        ensures
            r@ == self@.check_call(key_label@, iv@, ct@, sig@),
    {
        let payload = integrity_payload(key_label, iv, ct);
        self.hsm.verify_ecdsa_sha256(self.integrity_label.as_str(), payload.as_slice(), sig)
    }

    /// What an authorized request comes to, where its fields stand for the given
    /// bytes.
    pub fn plan(&self, req: &Request, peer_key: &Option<Vec<u8>>, fields: &Fields) -> (r: Plan)
        ensures
            r@ == planned(self@, req@, optional_bytes(*peer_key), fields@),
    {
        if let Some(message) = check_mechanism(req) {
            return Plan::Answer { response: err(message) };
        }
        let empty: Vec<u8> = Vec::new();
        let peer: &Vec<u8> = match peer_key {
            Some(key) => key,
            None => &empty,
        };
        assert(peer@ =~= peer_or_empty(optional_bytes(*peer_key)));
        match req {
            Request::Sign { key_label, .. } => match &fields.data {
                Some(data) => Plan::Run {
                    call: self.hsm.sign_ecdsa_sha256(key_label.as_str(), data.as_slice()),
                },
                None => answer_error("invalid base64 input"),
            },
            Request::Verify { key_label, .. } => match (&fields.data, &fields.signature) {
                (Some(data), Some(signature)) => Plan::Run {
                    call: self.hsm.verify_ecdsa_sha256(
                        key_label.as_str(),
                        data.as_slice(),
                        signature.as_slice(),
                    ),
                },
                _ => answer_error("invalid data_b64/signature_b64"),
            },
            Request::Encrypt { key_label, .. } => match &fields.data {
                Some(data) => Plan::Run {
                    call: self.hsm.encrypt_aes_cbc_pad(key_label.as_str(), data.as_slice()),
                },
                None => answer_error("invalid base64 input"),
            },
            Request::Decrypt { key_label, .. } => match (
                &fields.data,
                &fields.iv,
                &fields.integrity,
            ) {
                (Some(ct), Some(iv), Some(sig)) => Plan::Check {
                    check: self.check_integrity(
                        key_label.as_str(),
                        iv.as_slice(),
                        ct.as_slice(),
                        sig.as_slice(),
                    ),
                    next: self.hsm.decrypt_aes_cbc_pad(
                        key_label.as_str(),
                        ct.as_slice(),
                        iv.as_slice(),
                    ),
                },
                _ => answer_error("invalid data_b64/iv_b64/integrity_b64"),
            },
            Request::DeriveAndEncrypt { key_label, .. } => match &fields.data {
                Some(data) => Plan::Run {
                    call: self.hsm.derive_and_encrypt(
                        key_label.as_str(),
                        peer.as_slice(),
                        data.as_slice(),
                    ),
                },
                None => answer_error("invalid base64 input"),
            },
            Request::DeriveAndDecrypt { key_label, .. } => match (
                &fields.data,
                &fields.iv,
                &fields.integrity,
            ) {
                (Some(ct), Some(iv), Some(sig)) => Plan::Check {
                    check: self.check_integrity(
                        key_label.as_str(),
                        iv.as_slice(),
                        ct.as_slice(),
                        sig.as_slice(),
                    ),
                    next: self.hsm.derive_and_decrypt(
                        key_label.as_str(),
                        peer.as_slice(),
                        ct.as_slice(),
                        iv.as_slice(),
                    ),
                },
                _ => answer_error("invalid data_b64/iv_b64/integrity_b64"),
            },
        }
    }

    /// What an authorized request comes to.
    pub fn execute(&self, req: &Request, peer_key: &Option<Vec<u8>>) -> (r: Plan)
        ensures
            r@ == planned(self@, req@, optional_bytes(*peer_key), decoded_fields(req@)),
            canonical(data_b64(req@)),
    {
        let fields = decode_fields(req);
        self.plan(req, peer_key, &fields)
    }
}

// ---------------------------------------------------------------------------
// Laws
// ---------------------------------------------------------------------------

/// A call of the token on which nothing was asked yet.
pub open spec fn fresh_call(slot: u64, job: HsmJobModel) -> HsmCallModel {
    HsmCallModel { slot, job, stage: HsmStageModel::Idle }
}

/// An answer with an error, without the token.
pub open spec fn error_plan(message: Seq<char>) -> PlanModel {
    PlanModel::Answer { response: ResponseModel::Error { message } }
}

/// Every field of a request stands for what its base64 text decodes to, all of it, and
/// a request has no other fields than its own.
pub proof fn law_fields_are_what_their_texts_decode_to(req: RequestModel)
    ensures
        match req {
            RequestModel::Sign { data_b64, .. } => decoded_fields(req) == (FieldsModel {
                data: b64_decoded(data_b64),
                signature: None,
                iv: None,
                integrity: None,
            }),
            RequestModel::Verify { data_b64, signature_b64, .. } => decoded_fields(req) == (
            FieldsModel {
                data: b64_decoded(data_b64),
                signature: b64_decoded(signature_b64),
                iv: None,
                integrity: None,
            }),
            RequestModel::Encrypt { data_b64, .. } => decoded_fields(req) == (FieldsModel {
                data: b64_decoded(data_b64),
                signature: None,
                iv: None,
                integrity: None,
            }),
            RequestModel::Decrypt { data_b64, iv_b64, integrity_b64, .. } => decoded_fields(req)
                == (FieldsModel {
                data: b64_decoded(data_b64),
                signature: None,
                iv: b64_decoded(iv_b64),
                integrity: b64_decoded(integrity_b64),
            }),
            RequestModel::DeriveAndEncrypt { data_b64, .. } => decoded_fields(req) == (FieldsModel {
                data: b64_decoded(data_b64),
                signature: None,
                iv: None,
                integrity: None,
            }),
            RequestModel::DeriveAndDecrypt { data_b64, iv_b64, integrity_b64, .. } => decoded_fields(
                req,
            ) == (FieldsModel {
                data: b64_decoded(data_b64),
                signature: None,
                iv: b64_decoded(iv_b64),
                integrity: b64_decoded(integrity_b64),
            }),
        },
{
}

/// The text of a request's payload field is the one that the request was made with.
pub proof fn law_data_text_is_that_of_the_request(req: RequestModel)
    ensures
        match req {
            RequestModel::Sign { data_b64: d, .. } => data_b64(req) == d,
            RequestModel::Verify { data_b64: d, .. } => data_b64(req) == d,
            RequestModel::Encrypt { data_b64: d, .. } => data_b64(req) == d,
            RequestModel::Decrypt { data_b64: d, .. } => data_b64(req) == d,
            RequestModel::DeriveAndEncrypt { data_b64: d, .. } => data_b64(req) == d,
            RequestModel::DeriveAndDecrypt { data_b64: d, .. } => data_b64(req) == d,
        },
{
}

/// A sign request has the token sign exactly the bytes that were sent, under the
/// request's label, where it names ECDSA-SHA256 and they were sent in base64.
pub proof fn law_sign_signs_what_was_sent(
    s: SealerModel,
    key_label: Seq<char>,
    mechanism: Seq<char>,
    data_b64: Seq<char>,
    peer: Option<Seq<u8>>,
    f: FieldsModel,
)
    ensures
        ({
            let plan = planned(
                s,
                RequestModel::Sign { key_label, mechanism, data_b64 },
                peer,
                f,
            );
            if mechanism != "ecdsa_sha256"@ {
                plan == error_plan(
                    "unsupported "@ + "sign"@ + " mechanism "@ + debug_quoted(mechanism)
                        + " (MVP: "@ + "ecdsa_sha256"@ + ")"@,
                )
            } else {
                match f.data {
                    Some(data) => plan == (PlanModel::Run {
                        call: fresh_call(s.slot, HsmJobModel::Sign { label: key_label, data }),
                    }),
                    None => plan == error_plan("invalid base64 input"@),
                }
            }
        }),
{
}

/// A verify request has the token verify exactly the signature that was sent on
/// exactly the bytes that were sent, under the request's label.
pub proof fn law_verify_verifies_what_was_sent(
    s: SealerModel,
    key_label: Seq<char>,
    mechanism: Seq<char>,
    data_b64: Seq<char>,
    signature_b64: Seq<char>,
    peer: Option<Seq<u8>>,
    f: FieldsModel,
)
    ensures
        ({
            let plan = planned(
                s,
                RequestModel::Verify { key_label, mechanism, data_b64, signature_b64 },
                peer,
                f,
            );
            if mechanism != "ecdsa_sha256"@ {
                plan == error_plan(
                    "unsupported "@ + "verify"@ + " mechanism "@ + debug_quoted(mechanism)
                        + " (MVP: "@ + "ecdsa_sha256"@ + ")"@,
                )
            } else {
                match (f.data, f.signature) {
                    (Some(data), Some(signature)) => plan == (PlanModel::Run {
                        call: fresh_call(
                            s.slot,
                            HsmJobModel::Verify { label: key_label, data, signature },
                        ),
                    }),
                    _ => plan == error_plan("invalid data_b64/signature_b64"@),
                }
            }
        }),
{
}

/// An encrypt request has the token encrypt exactly the bytes that were sent, under the
/// request's label.
pub proof fn law_encrypt_encrypts_what_was_sent(
    s: SealerModel,
    key_label: Seq<char>,
    mechanism: Seq<char>,
    data_b64: Seq<char>,
    peer: Option<Seq<u8>>,
    f: FieldsModel,
)
    ensures
        ({
            let plan = planned(
                s,
                RequestModel::Encrypt { key_label, mechanism, data_b64 },
                peer,
                f,
            );
            if mechanism != "aes_cbc_pad"@ {
                plan == error_plan(
                    "unsupported "@ + "encrypt"@ + " mechanism "@ + debug_quoted(mechanism)
                        + " (MVP: "@ + "aes_cbc_pad"@ + ")"@,
                )
            } else {
                match f.data {
                    Some(plaintext) => plan == (PlanModel::Run {
                        call: fresh_call(
                            s.slot,
                            HsmJobModel::Encrypt { label: key_label, plaintext },
                        ),
                    }),
                    None => plan == error_plan("invalid base64 input"@),
                }
            }
        }),
{
}

/// A decrypt request has the token verify, with the integrity key, the signature that
/// was sent on the request's label, initialization vector and ciphertext, and only then
/// decrypt exactly that ciphertext with exactly that initialization vector.
pub proof fn law_decrypt_checks_and_decrypts_what_was_sent(
    s: SealerModel,
    key_label: Seq<char>,
    mechanism: Seq<char>,
    data_b64: Seq<char>,
    iv_b64: Seq<char>,
    integrity_b64: Seq<char>,
    peer: Option<Seq<u8>>,
    f: FieldsModel,
)
    ensures
        ({
            let plan = planned(
                s,
                RequestModel::Decrypt { key_label, mechanism, data_b64, iv_b64, integrity_b64 },
                peer,
                f,
            );
            if mechanism != "aes_cbc_pad"@ {
                plan == error_plan(
                    "unsupported "@ + "decrypt"@ + " mechanism "@ + debug_quoted(mechanism)
                        + " (MVP: "@ + "aes_cbc_pad"@ + ")"@,
                )
            } else {
                match (f.data, f.iv, f.integrity) {
                    (Some(ciphertext), Some(iv), Some(signature)) => plan == (PlanModel::Check {
                        check: fresh_call(
                            s.slot,
                            HsmJobModel::Verify {
                                label: s.integrity_label,
                                data: payload(key_label, iv, ciphertext),
                                signature,
                            },
                        ),
                        next: fresh_call(
                            s.slot,
                            HsmJobModel::Decrypt { label: key_label, ciphertext, iv },
                        ),
                    }),
                    _ => plan == error_plan("invalid data_b64/iv_b64/integrity_b64"@),
                }
            }
        }),
{
}

/// A derive-and-encrypt request has the token encrypt exactly the bytes that were sent
/// with the key derived from the request's label and the counterparty's key.
pub proof fn law_derive_and_encrypt_encrypts_what_was_sent(
    s: SealerModel,
    key_label: Seq<char>,
    derive_mechanism: Seq<char>,
    target_mechanism: Seq<char>,
    peer_public_key_b64: Seq<char>,
    data_b64: Seq<char>,
    peer_public_key: Seq<u8>,
    f: FieldsModel,
)
    ensures
        ({
            let plan = planned(
                s,
                RequestModel::DeriveAndEncrypt {
                    key_label,
                    derive_mechanism,
                    target_mechanism,
                    peer_public_key_b64,
                    data_b64,
                },
                Some(peer_public_key),
                f,
            );
            if derive_mechanism != "ecdh1_derive"@ || target_mechanism != "aes_cbc_pad"@ {
                plan == error_plan(
                    "unsupported derive pair "@ + debug_quoted(derive_mechanism) + "+"@
                        + debug_quoted(target_mechanism) + " (MVP: "@ + "ecdh1_derive"@ + "+"@
                        + "aes_cbc_pad"@ + ")"@,
                )
            } else {
                match f.data {
                    Some(plaintext) => plan == (PlanModel::Run {
                        call: fresh_call(
                            s.slot,
                            HsmJobModel::DeriveAndEncrypt {
                                label: key_label,
                                peer_public_key,
                                plaintext,
                            },
                        ),
                    }),
                    None => plan == error_plan("invalid base64 input"@),
                }
            }
        }),
{
}

/// A derive-and-decrypt request has the token verify, with the integrity key, the
/// signature that was sent on the request's label, initialization vector and ciphertext,
/// and only then decrypt exactly that ciphertext with exactly that initialization vector
/// and the key derived from the request's label and the counterparty's key.
pub proof fn law_derive_and_decrypt_checks_and_decrypts_what_was_sent(
    s: SealerModel,
    key_label: Seq<char>,
    derive_mechanism: Seq<char>,
    target_mechanism: Seq<char>,
    peer_public_key_b64: Seq<char>,
    iv_b64: Seq<char>,
    integrity_b64: Seq<char>,
    data_b64: Seq<char>,
    peer_public_key: Seq<u8>,
    f: FieldsModel,
)
    ensures
        ({
            let plan = planned(
                s,
                RequestModel::DeriveAndDecrypt {
                    key_label,
                    derive_mechanism,
                    target_mechanism,
                    peer_public_key_b64,
                    iv_b64,
                    integrity_b64,
                    data_b64,
                },
                Some(peer_public_key),
                f,
            );
            if derive_mechanism != "ecdh1_derive"@ || target_mechanism != "aes_cbc_pad"@ {
                plan == error_plan(
                    "unsupported derive pair "@ + debug_quoted(derive_mechanism) + "+"@
                        + debug_quoted(target_mechanism) + " (MVP: "@ + "ecdh1_derive"@ + "+"@
                        + "aes_cbc_pad"@ + ")"@,
                )
            } else {
                match (f.data, f.iv, f.integrity) {
                    (Some(ciphertext), Some(iv), Some(signature)) => plan == (PlanModel::Check {
                        check: fresh_call(
                            s.slot,
                            HsmJobModel::Verify {
                                label: s.integrity_label,
                                data: payload(key_label, iv, ciphertext),
                                signature,
                            },
                        ),
                        next: fresh_call(
                            s.slot,
                            HsmJobModel::DeriveAndDecrypt {
                                label: key_label,
                                peer_public_key,
                                ciphertext,
                                iv,
                            },
                        ),
                    }),
                    _ => plan == error_plan("invalid data_b64/iv_b64/integrity_b64"@),
                }
            }
        }),
{
}

/// Where no counterparty's key is at hand, the token gets an empty one, and a request that
/// derives no key is planned without it.
pub proof fn law_missing_peer_key_is_empty(s: SealerModel, req: RequestModel, f: FieldsModel)
    ensures
        planned(s, req, None, f) == planned(s, req, Some(Seq::<u8>::empty()), f),
        forall|peer: Option<Seq<u8>>|
            !(req is DeriveAndEncrypt) && !(req is DeriveAndDecrypt) ==> #[trigger] planned(
                s,
                req,
                peer,
                f,
            ) == planned(s, req, None, f),
{
    if req is DeriveAndDecrypt {
        law_derive_and_decrypt_checks_and_decrypts_what_was_sent(
            s,
            req.key_label(),
            req->DeriveAndDecrypt_derive_mechanism,
            req->DeriveAndDecrypt_target_mechanism,
            req->DeriveAndDecrypt_peer_public_key_b64,
            req->DeriveAndDecrypt_iv_b64,
            req->DeriveAndDecrypt_integrity_b64,
            req->DeriveAndDecrypt_data_b64,
            Seq::empty(),
            f,
        );
    }
}

/// A mechanism is faulted exactly where the plan is an error on its account; what is
/// supported is ECDSA-SHA256 to sign and verify, AES-CBC-PAD to encrypt and decrypt,
/// and ECDH1 with AES-CBC-PAD to derive.
pub proof fn law_supported_mechanisms(req: RequestModel)
    ensures
        mechanism_fault(req) is None <==> match req {
            RequestModel::Sign { mechanism, .. } => mechanism == "ecdsa_sha256"@,
            RequestModel::Verify { mechanism, .. } => mechanism == "ecdsa_sha256"@,
            RequestModel::Encrypt { mechanism, .. } => mechanism == "aes_cbc_pad"@,
            RequestModel::Decrypt { mechanism, .. } => mechanism == "aes_cbc_pad"@,
            RequestModel::DeriveAndEncrypt { derive_mechanism, target_mechanism, .. } => {
                derive_mechanism == "ecdh1_derive"@ && target_mechanism == "aes_cbc_pad"@
            },
            RequestModel::DeriveAndDecrypt { derive_mechanism, target_mechanism, .. } => {
                derive_mechanism == "ecdh1_derive"@ && target_mechanism == "aes_cbc_pad"@
            },
        },
{
}

/// A mechanism that is not supported is answered with an error that says which it was,
/// whatever else the request holds.
pub proof fn law_unsupported_mechanism_is_answered(
    s: SealerModel,
    req: RequestModel,
    peer: Option<Seq<u8>>,
    f: FieldsModel,
)
    ensures
        mechanism_fault(req) matches Some(message) ==> planned(s, req, peer, f) == error_plan(
            message,
        ),
{
}

/// A ciphertext is signed, and its signature verified, with the integrity key, on the
/// payload for its label and initialization vector: the same bytes both times.
pub proof fn law_seal_and_check_agree(
    s: SealerModel,
    label: Seq<char>,
    iv: Seq<u8>,
    ciphertext: Seq<u8>,
    signature: Seq<u8>,
)
    ensures
        s.seal_call(label, iv, ciphertext) == fresh_call(
            s.slot,
            HsmJobModel::Sign {
                label: s.integrity_label,
                data: payload(label, iv, ciphertext),
            },
        ),
        s.check_call(label, iv, ciphertext, signature) == fresh_call(
            s.slot,
            HsmJobModel::Verify {
                label: s.integrity_label,
                data: payload(label, iv, ciphertext),
                signature,
            },
        ),
{
}

/// What the models say of fields is what the fields hold.
pub proof fn law_fields_model_is_faithful(fields: Fields)
    ensures
        fields.data matches Some(b) ==> fields@.data == Some(b@),
        fields.data is None ==> fields@.data is None,
        fields.signature matches Some(b) ==> fields@.signature == Some(b@),
        fields.signature is None ==> fields@.signature is None,
        fields.iv matches Some(b) ==> fields@.iv == Some(b@),
        fields.iv is None ==> fields@.iv is None,
        fields.integrity matches Some(b) ==> fields@.integrity == Some(b@),
        fields.integrity is None ==> fields@.integrity is None,
{
}

/// What the models say of a plan, of the token's part of the gateway and of optional
/// bytes is what these hold.
pub proof fn law_plan_models_are_faithful(plan: Plan, sealer: Sealer, bytes: Option<Vec<u8>>)
    ensures
        match plan {
            Plan::Answer { response } => plan@ == (PlanModel::Answer { response: response@ }),
            Plan::Run { call } => plan@ == (PlanModel::Run { call: call@ }),
            Plan::Check { check, next } => plan@ == (PlanModel::Check {
                check: check@,
                next: next@,
            }),
        },
        sealer@.slot == sealer.hsm@,
        sealer@.integrity_label == sealer.integrity_label@,
        match bytes {
            Some(b) => optional_bytes(bytes) == Some(b@),
            None => optional_bytes(bytes) is None,
        },
{
}

} // verus!
