//! Narrow PKCS#11 layer: what is asked of the token, in which order, and what
//! each answer leads to.
//!
//! Exposes only sign, verify, encrypt, decrypt and derive. There is deliberately
//! no action for object creation or deletion, PIN changes, SO operations or
//! firmware access. Mechanisms: ECDSA-SHA256, AES-CBC-PAD, ECDH1 to AES.
//!
//! A call is a machine: `step` takes what the token answered and gives the next
//! thing to ask of it, until the call is done.

use vstd::prelude::*;
use vstd::string::*;
use vstd::utf8::encode_utf8;

use crate::text::{debug_quoted, join2, join3, quote};

verus! {

/// Domain separation for the ECDH KDF.
pub const KDF_SHARED_DATA: &'static str = "pico-hsm-api-connector/kdf-v1";

/// Length in bytes of the AES key that is derived (AES-256).
pub const DERIVED_AES_LEN: u32 = 32;

/// Length in bytes of an AES-CBC initialization vector.
pub const IV_LEN: u32 = 16;

/// The classes of objects that calls work on.
#[derive(Debug, Clone, Copy, PartialEq, Eq, Structural)]
pub enum KeyClass {
    Private,
    Public,
    Secret,
}

/// The key that an action works with.
#[derive(Debug, Clone, Copy, PartialEq, Eq, Structural)]
pub enum KeyRef {
    /// The one object that the search of this call found.
    Found,
    /// The key that was derived in this call.
    Derived,
}

/// What a call is to do.
#[derive(Debug)]
pub enum HsmJob {
    Sign { label: String, data: Vec<u8> },
    Verify { label: String, data: Vec<u8>, signature: Vec<u8> },
    Encrypt { label: String, plaintext: Vec<u8> },
    Decrypt { label: String, ciphertext: Vec<u8>, iv: Vec<u8> },
    DeriveAndEncrypt { label: String, peer_public_key: Vec<u8>, plaintext: Vec<u8> },
    DeriveAndDecrypt { label: String, peer_public_key: Vec<u8>, ciphertext: Vec<u8>, iv: Vec<u8> },
}

/// A job, with its characters and bytes.
pub enum HsmJobModel {
    Sign { label: Seq<char>, data: Seq<u8> },
    Verify { label: Seq<char>, data: Seq<u8>, signature: Seq<u8> },
    Encrypt { label: Seq<char>, plaintext: Seq<u8> },
    Decrypt { label: Seq<char>, ciphertext: Seq<u8>, iv: Seq<u8> },
    DeriveAndEncrypt { label: Seq<char>, peer_public_key: Seq<u8>, plaintext: Seq<u8> },
    DeriveAndDecrypt {
        label: Seq<char>,
        peer_public_key: Seq<u8>,
        ciphertext: Seq<u8>,
        iv: Seq<u8>,
    },
}

impl View for HsmJob {
    type V = HsmJobModel;

    open spec fn view(&self) -> HsmJobModel {
        match self {
            HsmJob::Sign { label, data } => HsmJobModel::Sign { label: label@, data: data@ },
            HsmJob::Verify { label, data, signature } => HsmJobModel::Verify {
                label: label@,
                data: data@,
                signature: signature@,
            },
            HsmJob::Encrypt { label, plaintext } => HsmJobModel::Encrypt {
                label: label@,
                plaintext: plaintext@,
            },
            HsmJob::Decrypt { label, ciphertext, iv } => HsmJobModel::Decrypt {
                label: label@,
                ciphertext: ciphertext@,
                iv: iv@,
            },
            HsmJob::DeriveAndEncrypt { label, peer_public_key, plaintext } => {
                HsmJobModel::DeriveAndEncrypt {
                    label: label@,
                    peer_public_key: peer_public_key@,
                    plaintext: plaintext@,
                }
            },
            HsmJob::DeriveAndDecrypt { label, peer_public_key, ciphertext, iv } => {
                HsmJobModel::DeriveAndDecrypt {
                    label: label@,
                    peer_public_key: peer_public_key@,
                    ciphertext: ciphertext@,
                    iv: iv@,
                }
            },
        }
    }
}

impl HsmJobModel {
    /// The label of the key that is searched for.
    pub open spec fn label(self) -> Seq<char> {
        match self {
            HsmJobModel::Sign { label, .. } => label,
            HsmJobModel::Verify { label, .. } => label,
            HsmJobModel::Encrypt { label, .. } => label,
            HsmJobModel::Decrypt { label, .. } => label,
            HsmJobModel::DeriveAndEncrypt { label, .. } => label,
            HsmJobModel::DeriveAndDecrypt { label, .. } => label,
        }
    }

    /// The class of the key that is searched for.
    pub open spec fn class(self) -> KeyClass {
        match self {
            HsmJobModel::Sign { .. } => KeyClass::Private,
            HsmJobModel::Verify { .. } => KeyClass::Public,
            HsmJobModel::Encrypt { .. } => KeyClass::Secret,
            HsmJobModel::Decrypt { .. } => KeyClass::Secret,
            HsmJobModel::DeriveAndEncrypt { .. } => KeyClass::Private,
            HsmJobModel::DeriveAndDecrypt { .. } => KeyClass::Private,
        }
    }

    /// The name of the job in error texts.
    pub open spec fn name(self) -> Seq<char> {
        match self {
            HsmJobModel::Sign { .. } => "sign"@,
            HsmJobModel::Verify { .. } => "verify"@,
            HsmJobModel::Encrypt { .. } => "encrypt"@,
            HsmJobModel::Decrypt { .. } => "decrypt"@,
            HsmJobModel::DeriveAndEncrypt { .. } => "derive_and_encrypt"@,
            HsmJobModel::DeriveAndDecrypt { .. } => "derive_and_decrypt"@,
        }
    }

    /// The counterparty's public key, where a key is derived.
    pub open spec fn peer_public_key(self) -> Option<Seq<u8>> {
        match self {
            HsmJobModel::DeriveAndEncrypt { peer_public_key, .. } => Some(peer_public_key),
            HsmJobModel::DeriveAndDecrypt { peer_public_key, .. } => Some(peer_public_key),
            _ => None,
        }
    }

    /// The initialization vector that the job brings along.
    pub open spec fn given_iv(self) -> Option<Seq<u8>> {
        match self {
            HsmJobModel::Decrypt { iv, .. } => Some(iv),
            HsmJobModel::DeriveAndDecrypt { iv, .. } => Some(iv),
            _ => None,
        }
    }

    /// The key that the job's last action works with.
    pub open spec fn key(self) -> KeyRef {
        if self.peer_public_key() is Some {
            KeyRef::Derived
        } else {
            KeyRef::Found
        }
    }
}

/// The attributes that a derived key is created with.
#[derive(Debug, Clone, Copy, PartialEq, Eq, Structural)]
pub struct DerivedKeyTemplate {
    /// An AES secret key of this many bytes.
    pub value_len: u32,
    /// Whether the key outlives the session.
    pub token: bool,
    pub sensitive: bool,
    pub encrypt: bool,
    pub decrypt: bool,
}

/// A session-local AES-256 key that encrypts and decrypts and cannot be read.
pub open spec fn derived_aes_template() -> DerivedKeyTemplate {
    DerivedKeyTemplate {
        value_len: DERIVED_AES_LEN,
        token: false,
        sensitive: true,
        encrypt: true,
        decrypt: true,
    }
}

/// What is asked of the token.
#[derive(Debug)]
pub enum HsmAction {
    /// Open a read-write session on the slot and log in as the user.
    OpenSession { slot: u64 },
    /// Find all objects of the class that carry the label.
    FindKey { class: KeyClass, label: Vec<u8> },
    /// Derive a secret key with ECDH1 and the SHA-256 KDF from the found key.
    DeriveKey { peer_public_key: Vec<u8>, shared_data: Vec<u8>, template: DerivedKeyTemplate },
    /// Draw bytes from the token's random number generator.
    GenerateRandom { len: u32 },
    /// Sign with ECDSA-SHA256.
    Sign { key: KeyRef, data: Vec<u8> },
    /// Verify with ECDSA-SHA256.
    Verify { key: KeyRef, data: Vec<u8>, signature: Vec<u8> },
    /// Encrypt with AES-CBC-PAD.
    Encrypt { key: KeyRef, iv: [u8; 16], plaintext: Vec<u8> },
    /// Decrypt with AES-CBC-PAD.
    Decrypt { key: KeyRef, iv: [u8; 16], ciphertext: Vec<u8> },
    /// The call is over.
    Done { reply: HsmReply },
}

/// What a call came to.
#[derive(Debug)]
pub enum HsmReply {
    /// A signature or a plaintext.
    Output { bytes: Vec<u8> },
    /// Whether a signature is valid.
    Verdict { valid: bool },
    /// A ciphertext, with the initialization vector that was drawn for it.
    Sealed { iv: Vec<u8>, ciphertext: Vec<u8> },
    Failed { cause: String },
}

/// An action, with its bytes.
pub enum HsmActionModel {
    OpenSession { slot: u64 },
    FindKey { class: KeyClass, label: Seq<u8> },
    DeriveKey { peer_public_key: Seq<u8>, shared_data: Seq<u8>, template: DerivedKeyTemplate },
    GenerateRandom { len: u32 },
    Sign { key: KeyRef, data: Seq<u8> },
    Verify { key: KeyRef, data: Seq<u8>, signature: Seq<u8> },
    Encrypt { key: KeyRef, iv: Seq<u8>, plaintext: Seq<u8> },
    Decrypt { key: KeyRef, iv: Seq<u8>, ciphertext: Seq<u8> },
    Done { reply: HsmReplyModel },
}

/// A reply, with its bytes and characters.
pub enum HsmReplyModel {
    Output { bytes: Seq<u8> },
    Verdict { valid: bool },
    Sealed { iv: Seq<u8>, ciphertext: Seq<u8> },
    Failed { cause: Seq<char> },
}

impl View for HsmReply {
    type V = HsmReplyModel;

    open spec fn view(&self) -> HsmReplyModel {
        match self {
            HsmReply::Output { bytes } => HsmReplyModel::Output { bytes: bytes@ },
            HsmReply::Verdict { valid } => HsmReplyModel::Verdict { valid: *valid },
            HsmReply::Sealed { iv, ciphertext } => HsmReplyModel::Sealed {
                iv: iv@,
                ciphertext: ciphertext@,
            },
            HsmReply::Failed { cause } => HsmReplyModel::Failed { cause: cause@ },
        }
    }
}

impl View for HsmAction {
    type V = HsmActionModel;

    open spec fn view(&self) -> HsmActionModel {
        match self {
            HsmAction::OpenSession { slot } => HsmActionModel::OpenSession { slot: *slot },
            HsmAction::FindKey { class, label } => HsmActionModel::FindKey {
                class: *class,
                label: label@,
            },
            HsmAction::DeriveKey { peer_public_key, shared_data, template } => {
                HsmActionModel::DeriveKey {
                    peer_public_key: peer_public_key@,
                    shared_data: shared_data@,
                    template: *template,
                }
            },
            HsmAction::GenerateRandom { len } => HsmActionModel::GenerateRandom { len: *len },
            HsmAction::Sign { key, data } => HsmActionModel::Sign { key: *key, data: data@ },
            HsmAction::Verify { key, data, signature } => HsmActionModel::Verify {
                key: *key,
                data: data@,
                signature: signature@,
            },
            HsmAction::Encrypt { key, iv, plaintext } => HsmActionModel::Encrypt {
                key: *key,
                iv: iv@,
                plaintext: plaintext@,
            },
            HsmAction::Decrypt { key, iv, ciphertext } => HsmActionModel::Decrypt {
                key: *key,
                iv: iv@,
                ciphertext: ciphertext@,
            },
            HsmAction::Done { reply } => HsmActionModel::Done { reply: reply@ },
        }
    }
}

/// What the token answered.
#[derive(Debug)]
pub enum HsmEvent {
    /// The call begins.
    Begin,
    SessionOpened,
    /// How many objects the search found.
    KeysFound { count: usize },
    KeyDerived,
    RandomDrawn { bytes: Vec<u8> },
    /// The signature, ciphertext or plaintext.
    Output { bytes: Vec<u8> },
    SignatureValid,
    SignatureInvalid,
    /// Any other error of the last action.
    Failed { cause: String },
}

/// An event, with its bytes and characters.
pub enum HsmEventModel {
    Begin,
    SessionOpened,
    KeysFound { count: int },
    KeyDerived,
    RandomDrawn { bytes: Seq<u8> },
    Output { bytes: Seq<u8> },
    SignatureValid,
    SignatureInvalid,
    Failed { cause: Seq<char> },
}

impl View for HsmEvent {
    type V = HsmEventModel;

    open spec fn view(&self) -> HsmEventModel {
        match self {
            HsmEvent::Begin => HsmEventModel::Begin,
            HsmEvent::SessionOpened => HsmEventModel::SessionOpened,
            HsmEvent::KeysFound { count } => HsmEventModel::KeysFound { count: *count as int },
            HsmEvent::KeyDerived => HsmEventModel::KeyDerived,
            HsmEvent::RandomDrawn { bytes } => HsmEventModel::RandomDrawn { bytes: bytes@ },
            HsmEvent::Output { bytes } => HsmEventModel::Output { bytes: bytes@ },
            HsmEvent::SignatureValid => HsmEventModel::SignatureValid,
            HsmEvent::SignatureInvalid => HsmEventModel::SignatureInvalid,
            HsmEvent::Failed { cause } => HsmEventModel::Failed { cause: cause@ },
        }
    }
}

/// How far a call has come: what the token is at.
#[derive(Debug)]
enum HsmStage {
    Idle,
    Opening,
    Finding,
    Deriving,
    Drawing,
    Working,
    Sealing { iv: [u8; 16] },
    Finished,
}

/// How far a call has come.
pub enum HsmStageModel {
    /// Nothing was asked yet.
    Idle,
    /// The session is being opened.
    Opening,
    /// The key is being searched for.
    Finding,
    /// The key is being derived.
    Deriving,
    /// The initialization vector is being drawn.
    Drawing,
    /// The token signs, verifies or decrypts.
    Working,
    /// The token encrypts with the initialization vector that was drawn.
    Sealing { iv: Seq<u8> },
    /// The call is over.
    Finished,
}

/// One call of the token, under way.
#[derive(Debug)]
pub struct HsmCall {
    slot: u64,
    job: HsmJob,
    stage: HsmStage,
}

/// The slot, the job and how far it has come.
pub struct HsmCallModel {
    pub slot: u64,
    pub job: HsmJobModel,
    pub stage: HsmStageModel,
}

impl View for HsmCall {
    type V = HsmCallModel;

    closed spec fn view(&self) -> HsmCallModel {
        HsmCallModel {
            slot: self.slot,
            job: self.job@,
            stage: match self.stage {
                HsmStage::Idle => HsmStageModel::Idle,
                HsmStage::Opening => HsmStageModel::Opening,
                HsmStage::Finding => HsmStageModel::Finding,
                HsmStage::Deriving => HsmStageModel::Deriving,
                HsmStage::Drawing => HsmStageModel::Drawing,
                HsmStage::Working => HsmStageModel::Working,
                HsmStage::Sealing { iv } => HsmStageModel::Sealing { iv: iv@ },
                HsmStage::Finished => HsmStageModel::Finished,
            },
        }
    }
}

/// A call on which nothing was asked yet.
pub open spec fn idle_call(slot: u64, job: HsmJobModel) -> HsmCallModel {
    HsmCallModel { slot, job, stage: HsmStageModel::Idle }
}

// ---------------------------------------------------------------------------
// What each answer leads to
// ---------------------------------------------------------------------------

/// The next stage and what is asked of the token on entering it.
pub type HsmMove = (HsmStageModel, HsmActionModel);

/// The call ends with an error.
pub open spec fn hsm_fails(cause: Seq<char>) -> HsmMove {
    (
        HsmStageModel::Finished,
        HsmActionModel::Done { reply: HsmReplyModel::Failed { cause } },
    )
}

/// The call ends with a result.
pub open spec fn hsm_ends(reply: HsmReplyModel) -> HsmMove {
    (HsmStageModel::Finished, HsmActionModel::Done { reply })
}

/// The error text for an action that failed at a stage.
pub open spec fn hsm_failure(c: HsmCallModel, cause: Seq<char>) -> Seq<char> {
    let quoted = debug_quoted(c.job.label());
    match c.stage {
        HsmStageModel::Deriving => "HSM ECDH derive failed for "@ + quoted + ": "@ + cause,
        HsmStageModel::Drawing => "HSM RNG failed: "@ + cause,
        HsmStageModel::Working => "HSM "@ + c.job.name() + " failed for "@ + quoted + ": "@ + cause,
        HsmStageModel::Sealing { .. } => "HSM "@ + c.job.name() + " failed for "@ + quoted + ": "@
            + cause,
        _ => cause,
    }
}

/// The error text for a search that did not find exactly one key.
pub open spec fn key_failure(label: Seq<char>, why: Seq<char>) -> Seq<char> {
    "key "@ + debug_quoted(label) + ": "@ + why
}

/// The call begins: a session is opened, unless the job brings along an
/// initialization vector of the wrong length.
pub open spec fn hsm_begins(c: HsmCallModel) -> HsmMove {
    match c.job.given_iv() {
        Some(iv) if iv.len() != IV_LEN => hsm_fails(
            c.job.name() + ": iv must be 16 bytes"@,
        ),
        _ => (HsmStageModel::Opening, HsmActionModel::OpenSession { slot: c.slot }),
    }
}

/// The key is at hand: what the job does with it.
pub open spec fn hsm_uses_key(job: HsmJobModel) -> HsmMove {
    let key = job.key();
    match job {
        HsmJobModel::Sign { data, .. } => (
            HsmStageModel::Working,
            HsmActionModel::Sign { key, data },
        ),
        HsmJobModel::Verify { data, signature, .. } => (
            HsmStageModel::Working,
            HsmActionModel::Verify { key, data, signature },
        ),
        HsmJobModel::Decrypt { ciphertext, iv, .. } => (
            HsmStageModel::Working,
            HsmActionModel::Decrypt { key, iv, ciphertext },
        ),
        HsmJobModel::DeriveAndDecrypt { ciphertext, iv, .. } => (
            HsmStageModel::Working,
            HsmActionModel::Decrypt { key, iv, ciphertext },
        ),
        HsmJobModel::Encrypt { .. } => (
            HsmStageModel::Drawing,
            HsmActionModel::GenerateRandom { len: IV_LEN },
        ),
        HsmJobModel::DeriveAndEncrypt { .. } => (
            HsmStageModel::Drawing,
            HsmActionModel::GenerateRandom { len: IV_LEN },
        ),
    }
}

/// The search is over: exactly one hit will do.
pub open spec fn hsm_found(job: HsmJobModel, count: int) -> HsmMove {
    if count == 0 {
        hsm_fails(key_failure(job.label(), "not found"@))
    } else if count != 1 {
        hsm_fails(
            key_failure(job.label(), "ambiguous (multiple objects with this label+class)"@),
        )
    } else {
        match job.peer_public_key() {
            Some(peer_public_key) => (
                HsmStageModel::Deriving,
                HsmActionModel::DeriveKey {
                    peer_public_key,
                    shared_data: encode_utf8(KDF_SHARED_DATA@),
                    template: derived_aes_template(),
                },
            ),
            None => hsm_uses_key(job),
        }
    }
}

/// The random bytes are there: an initialization vector, where they are as many
/// as were asked for.
pub open spec fn hsm_drew(job: HsmJobModel, bytes: Seq<u8>) -> HsmMove {
    if bytes.len() != IV_LEN {
        hsm_fails("HSM RNG returned wrong length"@)
    } else {
        match job {
            HsmJobModel::Encrypt { plaintext, .. } => (
                HsmStageModel::Sealing { iv: bytes },
                HsmActionModel::Encrypt { key: KeyRef::Found, iv: bytes, plaintext },
            ),
            HsmJobModel::DeriveAndEncrypt { plaintext, .. } => (
                HsmStageModel::Sealing { iv: bytes },
                HsmActionModel::Encrypt { key: KeyRef::Derived, iv: bytes, plaintext },
            ),
            _ => hsm_fails("unexpected HSM event"@),
        }
    }
}

/// What an answer of the token leads to.
pub open spec fn hsm_move(c: HsmCallModel, event: HsmEventModel) -> HsmMove {
    match (c.stage, event) {
        (HsmStageModel::Finished, _) => hsm_fails("unexpected HSM event"@),
        (_, HsmEventModel::Failed { cause }) => hsm_fails(hsm_failure(c, cause)),
        (HsmStageModel::Idle, HsmEventModel::Begin) => hsm_begins(c),
        (HsmStageModel::Opening, HsmEventModel::SessionOpened) => (
            HsmStageModel::Finding,
            HsmActionModel::FindKey { class: c.job.class(), label: encode_utf8(c.job.label()) },
        ),
        (HsmStageModel::Finding, HsmEventModel::KeysFound { count }) => hsm_found(c.job, count),
        (HsmStageModel::Deriving, HsmEventModel::KeyDerived) => hsm_uses_key(c.job),
        (HsmStageModel::Drawing, HsmEventModel::RandomDrawn { bytes }) => hsm_drew(c.job, bytes),
        (HsmStageModel::Working, HsmEventModel::Output { bytes }) => if c.job is Verify {
            hsm_fails("unexpected HSM event"@)
        } else {
            hsm_ends(HsmReplyModel::Output { bytes })
        },
        (HsmStageModel::Working, HsmEventModel::SignatureValid) => if c.job is Verify {
            hsm_ends(HsmReplyModel::Verdict { valid: true })
        } else {
            hsm_fails("unexpected HSM event"@)
        },
        (HsmStageModel::Working, HsmEventModel::SignatureInvalid) => if c.job is Verify {
            hsm_ends(HsmReplyModel::Verdict { valid: false })
        } else {
            hsm_fails("unexpected HSM event"@)
        },
        (HsmStageModel::Sealing { iv }, HsmEventModel::Output { bytes }) => hsm_ends(
            HsmReplyModel::Sealed { iv, ciphertext: bytes },
        ),
        _ => hsm_fails("unexpected HSM event"@),
    }
}

/// The call after an answer of the token.
pub open spec fn hsm_after(c: HsmCallModel, event: HsmEventModel) -> HsmCallModel {
    HsmCallModel { stage: hsm_move(c, event).0, ..c }
}

// ---------------------------------------------------------------------------
// The token
// ---------------------------------------------------------------------------

/// Why there is no token to talk to.
#[derive(Debug, Clone, Copy, PartialEq, Eq, Structural)]
pub enum HsmError {
    NoToken,
}

impl HsmError {
    /// The words for the error.
    pub fn text(&self) -> (r: &'static str)
        ensures
            r@ == "no HSM token found — is the Pico plugged in?"@,
    {
        "no HSM token found — is the Pico plugged in?"
    }
}

/// The token, by the slot that it sits in.
#[derive(Debug, Clone, Copy, PartialEq, Eq, Structural)]
pub struct HsmClient {
    slot: u64,
}

impl View for HsmClient {
    type V = u64;

    closed spec fn view(&self) -> u64 {
        self.slot
    }
}

fn copy_bytes(bytes: &[u8]) -> (r: Vec<u8>)
    ensures
        r@ == bytes@,
{
    let mut out: Vec<u8> = Vec::new();
    out.extend_from_slice(bytes);
    assert(out@ =~= bytes@);
    out
}

impl HsmClient {
    /// Picks the first of the slots that hold a token.
    pub fn connect(slots_with_token: &Vec<u64>) -> (r: Result<HsmClient, HsmError>)
        ensures
            match r {
                Ok(hsm) => slots_with_token@.len() > 0 && hsm@ == slots_with_token@[0],
                Err(e) => slots_with_token@.len() == 0 && e == HsmError::NoToken,
            },
    {
        if slots_with_token.is_empty() {
            Err(HsmError::NoToken)
        } else {
            Ok(HsmClient { slot: slots_with_token[0] })
        }
    }

    fn call(&self, job: HsmJob) -> (r: HsmCall)
        ensures
            r@ == idle_call(self@, job@),
    {
        HsmCall { slot: self.slot, job, stage: HsmStage::Idle }
    }

    /// Raw ECDSA-SHA256 signature.
    pub fn sign_ecdsa_sha256(&self, label: &str, data: &[u8]) -> (r: HsmCall)
        ensures
            r@ == idle_call(self@, HsmJobModel::Sign { label: label@, data: data@ }),
    {
        self.call(HsmJob::Sign { label: label.to_owned(), data: copy_bytes(data) })
    }

    /// Verification of an ECDSA-SHA256 signature.
    pub fn verify_ecdsa_sha256(&self, label: &str, data: &[u8], signature: &[u8]) -> (r: HsmCall)
        ensures
            r@ == idle_call(
                self@,
                HsmJobModel::Verify { label: label@, data: data@, signature: signature@ },
            ),
    {
        self.call(
            HsmJob::Verify {
                label: label.to_owned(),
                data: copy_bytes(data),
                signature: copy_bytes(signature),
            },
        )
    }

    /// Encryption with AES-CBC-PAD, with an initialization vector that is drawn
    /// from the token for each call and returned with the ciphertext.
    pub fn encrypt_aes_cbc_pad(&self, label: &str, plaintext: &[u8]) -> (r: HsmCall)
        ensures
            r@ == idle_call(
                self@,
                HsmJobModel::Encrypt { label: label@, plaintext: plaintext@ },
            ),
    {
        self.call(HsmJob::Encrypt { label: label.to_owned(), plaintext: copy_bytes(plaintext) })
    }

    /// Decryption with AES-CBC-PAD.
    pub fn decrypt_aes_cbc_pad(&self, label: &str, ciphertext: &[u8], iv: &[u8]) -> (r: HsmCall)
        ensures
            r@ == idle_call(
                self@,
                HsmJobModel::Decrypt { label: label@, ciphertext: ciphertext@, iv: iv@ },
            ),
    {
        self.call(
            HsmJob::Decrypt {
                label: label.to_owned(),
                ciphertext: copy_bytes(ciphertext),
                iv: copy_bytes(iv),
            },
        )
    }

    /// Derivation of a key and encryption with it, in one session. The derived key
    /// never leaves the token.
    pub fn derive_and_encrypt(
        &self,
        label: &str,
        peer_public_key: &[u8],
        plaintext: &[u8],
    ) -> (r: HsmCall)
        ensures
            r@ == idle_call(
                self@,
                HsmJobModel::DeriveAndEncrypt {
                    label: label@,
                    peer_public_key: peer_public_key@,
                    plaintext: plaintext@,
                },
            ),
    {
        self.call(
            HsmJob::DeriveAndEncrypt {
                label: label.to_owned(),
                peer_public_key: copy_bytes(peer_public_key),
                plaintext: copy_bytes(plaintext),
            },
        )
    }

    /// Derivation of a key and decryption with it, in one session.
    pub fn derive_and_decrypt(
        &self,
        label: &str,
        peer_public_key: &[u8],
        ciphertext: &[u8],
        iv: &[u8],
    ) -> (r: HsmCall)
        ensures
            r@ == idle_call(
                self@,
                HsmJobModel::DeriveAndDecrypt {
                    label: label@,
                    peer_public_key: peer_public_key@,
                    ciphertext: ciphertext@,
                    iv: iv@,
                },
            ),
    {
        self.call(
            HsmJob::DeriveAndDecrypt {
                label: label.to_owned(),
                peer_public_key: copy_bytes(peer_public_key),
                ciphertext: copy_bytes(ciphertext),
                iv: copy_bytes(iv),
            },
        )
    }
}

/// Sixteen bytes as an initialization vector.
fn iv_block(bytes: &Vec<u8>) -> (r: Option<[u8; 16]>)
    ensures
        match r {
            Some(iv) => bytes@.len() == IV_LEN && iv@ == bytes@,
            None => bytes@.len() != IV_LEN,
        },
{
    if bytes.len() != 16 {
        return None;
    }
    let iv: [u8; 16] = [
        bytes[0],
        bytes[1],
        bytes[2],
        bytes[3],
        bytes[4],
        bytes[5],
        bytes[6],
        bytes[7],
        bytes[8],
        bytes[9],
        bytes[10],
        bytes[11],
        bytes[12],
        bytes[13],
        bytes[14],
        bytes[15],
    ];
    assert(iv@ =~= bytes@);
    Some(iv)
}

impl HsmJob {
    fn label(&self) -> (r: &str)
        ensures
            r@ == self@.label(),
    {
        match self {
            HsmJob::Sign { label, .. } => label.as_str(),
            HsmJob::Verify { label, .. } => label.as_str(),
            HsmJob::Encrypt { label, .. } => label.as_str(),
            HsmJob::Decrypt { label, .. } => label.as_str(),
            HsmJob::DeriveAndEncrypt { label, .. } => label.as_str(),
            HsmJob::DeriveAndDecrypt { label, .. } => label.as_str(),
        }
    }

    fn class(&self) -> (r: KeyClass)
        ensures
            r == self@.class(),
    {
        match self {
            HsmJob::Sign { .. } => KeyClass::Private,
            HsmJob::Verify { .. } => KeyClass::Public,
            HsmJob::Encrypt { .. } => KeyClass::Secret,
            HsmJob::Decrypt { .. } => KeyClass::Secret,
            HsmJob::DeriveAndEncrypt { .. } => KeyClass::Private,
            HsmJob::DeriveAndDecrypt { .. } => KeyClass::Private,
        }
    }

    fn name(&self) -> (r: &'static str)
        ensures
            r@ == self@.name(),
    {
        match self {
            HsmJob::Sign { .. } => "sign",
            HsmJob::Verify { .. } => "verify",
            HsmJob::Encrypt { .. } => "encrypt",
            HsmJob::Decrypt { .. } => "decrypt",
            HsmJob::DeriveAndEncrypt { .. } => "derive_and_encrypt",
            HsmJob::DeriveAndDecrypt { .. } => "derive_and_decrypt",
        }
    }

    fn peer_public_key(&self) -> (r: Option<&Vec<u8>>)
        ensures
            match r {
                Some(key) => self@.peer_public_key() == Some(key@),
                None => self@.peer_public_key() is None,
            },
    {
        match self {
            HsmJob::DeriveAndEncrypt { peer_public_key, .. } => Some(peer_public_key),
            HsmJob::DeriveAndDecrypt { peer_public_key, .. } => Some(peer_public_key),
            _ => None,
        }
    }

    fn given_iv(&self) -> (r: Option<&Vec<u8>>)
        ensures
            match r {
                Some(iv) => self@.given_iv() == Some(iv@),
                None => self@.given_iv() is None,
            },
    {
        match self {
            HsmJob::Decrypt { iv, .. } => Some(iv),
            HsmJob::DeriveAndDecrypt { iv, .. } => Some(iv),
            _ => None,
        }
    }
}

/// The error text for a search that did not find exactly one key.
fn bail_key(label: &str, why: &str) -> (r: String)
    ensures
        r@ == key_failure(label@, why@),
{
    let quoted = quote(label);
    let head = join2("key ", quoted.as_str());
    join3(head.as_str(), ": ", why)
}

fn failed(cause: String) -> (r: HsmAction)
    ensures
        r@ == hsm_fails(cause@).1,
{
    HsmAction::Done { reply: HsmReply::Failed { cause } }
}

fn unexpected() -> (r: HsmAction)
    ensures
        r@ == hsm_fails("unexpected HSM event"@).1,
{
    failed("unexpected HSM event".to_owned())
}

impl HsmCall {
    #[verifier::type_invariant]
    spec fn valid(self) -> bool {
        &&& self.stage is Idle || self.stage is Finished || (self.job@.given_iv() matches Some(iv)
            ==> iv.len() == IV_LEN)
    }

    /// The error text for an action that failed at the present stage.
    fn failure(&self, cause: &str) -> (r: String)
        ensures
            r@ == hsm_failure(self@, cause@),
    {
        let quoted = quote(self.job.label());
        match &self.stage {
            HsmStage::Deriving => {
                let head = join2("HSM ECDH derive failed for ", quoted.as_str());
                join3(head.as_str(), ": ", cause)
            },
            HsmStage::Drawing => join2("HSM RNG failed: ", cause),
            HsmStage::Working | HsmStage::Sealing { .. } => {
                let head = join3("HSM ", self.job.name(), " failed for ");
                let place = join2(head.as_str(), quoted.as_str());
                join3(place.as_str(), ": ", cause)
            },
            _ => cause.to_owned(),
        }
    }

    /// Opens the session, unless the job's initialization vector has the wrong
    /// length.
    fn open_session(&mut self) -> (r: HsmAction)
        requires
            old(self)@.stage is Idle,
        ensures
            final(self)@ == (HsmCallModel { stage: hsm_begins(old(self)@).0, ..old(self)@ }),
            r@ == hsm_begins(old(self)@).1,
    {
        if let Some(iv) = self.job.given_iv() {
            if iv.len() != 16 {
                let cause = join2(self.job.name(), ": iv must be 16 bytes");
                self.stage = HsmStage::Finished;
                return failed(cause);
            }
        }
        self.stage = HsmStage::Opening;
        HsmAction::OpenSession { slot: self.slot }
    }

    /// Searches for the job's key, by label and class. The class is part of the
    /// search because a key pair is two objects with one label.
    fn find_key_by_label(&mut self) -> (r: HsmAction)
        requires
            old(self)@.stage is Opening,
        ensures
            final(self)@ == (HsmCallModel { stage: HsmStageModel::Finding, ..old(self)@ }),
            r@ == (HsmActionModel::FindKey {
                class: old(self)@.job.class(),
                label: encode_utf8(old(self)@.job.label()),
            }),
    {
        proof {
            use_type_invariant(&*self);
        }
        let class = self.job.class();
        let label = copy_bytes(self.job.label().as_bytes());
        self.stage = HsmStage::Finding;
        HsmAction::FindKey { class, label }
    }

    /// Goes on where exactly one key was found; never guesses which was meant.
    fn key_found(&mut self, count: usize) -> (r: HsmAction)
        requires
            old(self)@.stage is Finding,
        ensures
            final(self)@ == (HsmCallModel {
                stage: hsm_found(old(self)@.job, count as int).0,
                ..old(self)@
            }),
            r@ == hsm_found(old(self)@.job, count as int).1,
    {
        proof {
            use_type_invariant(&*self);
        }
        if count == 0 {
            let cause = bail_key(self.job.label(), "not found");
            self.stage = HsmStage::Finished;
            return failed(cause);
        }
        if count != 1 {
            let cause = bail_key(
                self.job.label(),
                "ambiguous (multiple objects with this label+class)",
            );
            self.stage = HsmStage::Finished;
            return failed(cause);
        }
        match self.job.peer_public_key() {
            Some(peer) => {
                let action = derive_aes_key(peer.as_slice());
                self.stage = HsmStage::Deriving;
                action
            },
            None => self.use_key(KeyRef::Found),
        }
    }

    /// Signs, verifies or decrypts with the key, or draws the initialization
    /// vector to encrypt with.
    fn use_key(&mut self, key: KeyRef) -> (r: HsmAction)
        requires
            old(self)@.stage is Finding || old(self)@.stage is Deriving,
            key == old(self)@.job.key(),
        ensures
            final(self)@ == (HsmCallModel { stage: hsm_uses_key(old(self)@.job).0, ..old(self)@ }),
            r@ == hsm_uses_key(old(self)@.job).1,
    {
        proof {
            use_type_invariant(&*self);
        }
        let action = match &self.job {
            HsmJob::Sign { data, .. } => HsmAction::Sign { key, data: copy_bytes(data.as_slice()) },
            HsmJob::Verify { data, signature, .. } => HsmAction::Verify {
                key,
                data: copy_bytes(data.as_slice()),
                signature: copy_bytes(signature.as_slice()),
            },
            HsmJob::Decrypt { ciphertext, iv, .. } | HsmJob::DeriveAndDecrypt {
                ciphertext,
                iv,
                ..
            } => {
                match iv_block(iv) {
                    Some(iv) => HsmAction::Decrypt {
                        key,
                        iv,
                        ciphertext: copy_bytes(ciphertext.as_slice()),
                    },
                    None => unexpected(),
                }
            },
            HsmJob::Encrypt { .. } | HsmJob::DeriveAndEncrypt { .. } => {
                HsmAction::GenerateRandom { len: IV_LEN }
            },
        };
        match &action {
            HsmAction::GenerateRandom { .. } => {
                self.stage = HsmStage::Drawing;
            },
            _ => {
                self.stage = HsmStage::Working;
            },
        }
        action
    }

    /// Goes on with the key that was derived.
    fn use_derived_key(&mut self) -> (r: HsmAction)
        requires
            old(self)@.stage is Deriving,
        ensures
            final(self)@ == (HsmCallModel { stage: hsm_uses_key(old(self)@.job).0, ..old(self)@ }),
            r@ == hsm_uses_key(old(self)@.job).1,
    {
        let key = match self.job.peer_public_key() {
            Some(_) => KeyRef::Derived,
            None => KeyRef::Found,
        };
        self.use_key(key)
    }

    /// Encrypts with the initialization vector that was drawn.
    fn random_iv(&mut self, bytes: &Vec<u8>) -> (r: HsmAction)
        requires
            old(self)@.stage is Drawing,
        ensures
            final(self)@ == (HsmCallModel {
                stage: hsm_drew(old(self)@.job, bytes@).0,
                ..old(self)@
            }),
            r@ == hsm_drew(old(self)@.job, bytes@).1,
    {
        proof {
            use_type_invariant(&*self);
        }
        let iv = match iv_block(bytes) {
            Some(iv) => iv,
            None => {
                self.stage = HsmStage::Finished;
                return failed("HSM RNG returned wrong length".to_owned());
            },
        };
        match &self.job {
            HsmJob::Encrypt { plaintext, .. } => {
                let plaintext = copy_bytes(plaintext.as_slice());
                self.stage = HsmStage::Sealing { iv };
                HsmAction::Encrypt { key: KeyRef::Found, iv, plaintext }
            },
            HsmJob::DeriveAndEncrypt { plaintext, .. } => {
                let plaintext = copy_bytes(plaintext.as_slice());
                self.stage = HsmStage::Sealing { iv };
                HsmAction::Encrypt { key: KeyRef::Derived, iv, plaintext }
            },
            _ => {
                self.stage = HsmStage::Finished;
                unexpected()
            },
        }
    }

    /// Ends the call with the token's output.
    fn output(&mut self, bytes: Vec<u8>) -> (r: HsmAction)
        requires
            old(self)@.stage is Working || old(self)@.stage is Sealing,
        ensures
            final(self)@ == hsm_after(old(self)@, HsmEventModel::Output { bytes: bytes@ }),
            r@ == hsm_move(old(self)@, HsmEventModel::Output { bytes: bytes@ }).1,
    {
        let reply = match (&self.stage, &self.job) {
            (HsmStage::Sealing { iv }, _) => HsmReply::Sealed {
                iv: copy_bytes(iv.as_slice()),
                ciphertext: bytes,
            },
            (_, HsmJob::Verify { .. }) => HsmReply::Failed {
                cause: "unexpected HSM event".to_owned(),
            },
            _ => HsmReply::Output { bytes },
        };
        self.stage = HsmStage::Finished;
        HsmAction::Done { reply }
    }

    /// Ends the call with the token's verdict on a signature.
    fn verdict(&mut self, valid: bool) -> (r: HsmAction)
        requires
            old(self)@.stage is Working,
        ensures
            final(self)@ == (HsmCallModel { stage: HsmStageModel::Finished, ..old(self)@ }),
            r@ == (if old(self)@.job is Verify {
                hsm_ends(HsmReplyModel::Verdict { valid }).1
            } else {
                hsm_fails("unexpected HSM event"@).1
            }),
    {
        let reply = match &self.job {
            HsmJob::Verify { .. } => HsmReply::Verdict { valid },
            _ => HsmReply::Failed { cause: "unexpected HSM event".to_owned() },
        };
        self.stage = HsmStage::Finished;
        HsmAction::Done { reply }
    }

    /// Takes what the token answered, and gives what is asked of it next.
    pub fn step(&mut self, event: HsmEvent) -> (r: HsmAction)
        ensures
            final(self)@ == hsm_after(old(self)@, event@),
            r@ == hsm_move(old(self)@, event@).1,
    {
        match (&self.stage, event) {
            (HsmStage::Finished, _) => unexpected(),
            (_, HsmEvent::Failed { cause }) => {
                let text = self.failure(cause.as_str());
                self.stage = HsmStage::Finished;
                failed(text)
            },
            (HsmStage::Idle, HsmEvent::Begin) => self.open_session(),
            (HsmStage::Opening, HsmEvent::SessionOpened) => self.find_key_by_label(),
            (HsmStage::Finding, HsmEvent::KeysFound { count }) => self.key_found(count),
            (HsmStage::Deriving, HsmEvent::KeyDerived) => self.use_derived_key(),
            (HsmStage::Drawing, HsmEvent::RandomDrawn { bytes }) => self.random_iv(&bytes),
            (HsmStage::Working, HsmEvent::Output { bytes }) => self.output(bytes),
            (HsmStage::Sealing { .. }, HsmEvent::Output { bytes }) => self.output(bytes),
            (HsmStage::Working, HsmEvent::SignatureValid) => self.verdict(true),
            (HsmStage::Working, HsmEvent::SignatureInvalid) => self.verdict(false),
            _ => {
                self.stage = HsmStage::Finished;
                unexpected()
            },
        }
    }
}

/// Derivation of a session-local AES-256 key with ECDH1 and the SHA-256 KDF.
fn derive_aes_key(peer_public_key: &[u8]) -> (r: HsmAction)
    ensures
        r@ == (HsmActionModel::DeriveKey {
            peer_public_key: peer_public_key@,
            shared_data: encode_utf8(KDF_SHARED_DATA@),
            template: derived_aes_template(),
        }),
{
    HsmAction::DeriveKey {
        peer_public_key: copy_bytes(peer_public_key),
        shared_data: copy_bytes(KDF_SHARED_DATA.as_bytes()),
        template: DerivedKeyTemplate {
            value_len: DERIVED_AES_LEN,
            token: false,
            sensitive: true,
            encrypt: true,
            decrypt: true,
        },
    }
}

} // verus!
