//! The gateway: from a client's certificate and request to audit entries, calls of
//! the token and the answer.
//!
//! Per request: authorization, then the peer-key allowlist, then the `intent`
//! entry, then the token, then the closing entry, then the answer. An exchange is
//! a machine: `begin` and `step` say what to do next, and are told what came of
//! it.

use vstd::prelude::*;
use vstd::string::*;

use crate::audit::Outcome;
use crate::cert::{
    cert_cn, cert_policy_numbers, client_cn, leaf, peer_leaf_cert, policy_numbers, presented,
    CertError, CertErrorModel,
};
use crate::clock::{quotient, representable, TimeSpan, UtcTime, DAY_NANOS};
use crate::codec::{
    b64_decode, b64_decoded, b64_encode, b64_encoded, canonical, hex_sha256, sha256,
};
use crate::config::{AuthzTable, Grants, Operation};
use crate::execute::{
    data_b64, decoded_fields, mechanism_fault, peer_or_empty, planned, Plan, PlanModel, Sealer, SealerModel,
};
use crate::hsm::{
    idle_call, HsmCall, HsmCallModel, HsmClient, HsmJobModel, HsmReply, HsmReplyModel,
};
use crate::protocol::{
    denied, err, ok_model, ok_result, op_name, sealed_model, sealed_result, verified_model,
    verified_result, wire_name, Request, RequestModel, Response, ResponseModel,
};
use crate::server_laws::law_sealed_ciphertext_opens_again;
use crate::text::{debug_quoted, decimal, decimal_text, hex, join2, join3, quote};

verus! {

/// An entry for the audit log, before it is dated and chained.
#[derive(Debug)]
pub struct AuditRecord {
    pub cn: String,
    pub operation: String,
    pub key_label: String,
    pub outcome: Outcome,
    pub detail: String,
}

/// A record, with the characters of its texts.
pub struct AuditRecordModel {
    pub cn: Seq<char>,
    pub operation: Seq<char>,
    pub key_label: Seq<char>,
    pub outcome: Outcome,
    pub detail: Seq<char>,
}

impl View for AuditRecord {
    type V = AuditRecordModel;

    open spec fn view(&self) -> AuditRecordModel {
        AuditRecordModel {
            cn: self.cn@,
            operation: self.operation@,
            key_label: self.key_label@,
            outcome: self.outcome,
            detail: self.detail@,
        }
    }
}

fn record(cn: &str, operation: &str, key_label: &str, outcome: Outcome, detail: &str) -> (r:
    AuditRecord)
    ensures
        r@ == (AuditRecordModel {
            cn: cn@,
            operation: operation@,
            key_label: key_label@,
            outcome,
            detail: detail@,
        }),
{
    AuditRecord {
        cn: cn.to_owned(),
        operation: operation.to_owned(),
        key_label: key_label.to_owned(),
        outcome,
        detail: detail.to_owned(),
    }
}

/// The gateway: who may do what, the token, and the certificate policy.
#[derive(Debug)]
pub struct Gateway {
    authz: AuthzTable,
    sealer: Sealer,
    max_cert_validity_days: i64,
    cert_expiry_warn_days: i64,
}

/// The gateway's grants, token and certificate policy.
pub struct GatewayModel {
    pub grants: Grants,
    pub sealer: SealerModel,
    pub max_cert_validity_days: int,
    pub cert_expiry_warn_days: int,
}

impl View for Gateway {
    type V = GatewayModel;

    closed spec fn view(&self) -> GatewayModel {
        GatewayModel {
            grants: self.authz@,
            sealer: self.sealer@,
            max_cert_validity_days: self.max_cert_validity_days as int,
            cert_expiry_warn_days: self.cert_expiry_warn_days as int,
        }
    }
}

// ---------------------------------------------------------------------------
// Connections
// ---------------------------------------------------------------------------

/// What becomes of a connection.
#[derive(Debug)]
pub enum Admission {
    /// The entry is written, the answer sent, and the connection closed; whether
    /// the entry could be written makes no difference.
    Rejected { entry: AuditRecord, response: Response },
    /// Requests are served, after the warning, if any, was written; whether it could
    /// be written makes no difference.
    Accepted { warning: Option<AuditRecord> },
}

/// What becomes of a connection.
pub enum AdmissionModel {
    Rejected { entry: AuditRecordModel, response: ResponseModel },
    Accepted { warning: Option<AuditRecordModel> },
}

impl View for Admission {
    type V = AdmissionModel;

    open spec fn view(&self) -> AdmissionModel {
        match self {
            Admission::Rejected { entry, response } => AdmissionModel::Rejected {
                entry: entry@,
                response: response@,
            },
            Admission::Accepted { warning } => AdmissionModel::Accepted {
                warning: match warning {
                    Some(entry) => Some(entry@),
                    None => None,
                },
            },
        }
    }
}

/// An entry about a connection.
pub open spec fn connect_entry(cn: Seq<char>, outcome: Outcome, detail: Seq<char>)
    -> AuditRecordModel {
    AuditRecordModel { cn, operation: "connect"@, key_label: ""@, outcome, detail }
}

/// The certificate policy, where a certificate is valid for `validity` nanoseconds
/// in all and for `left` from now on: one that is valid for longer than the maximum
/// is rejected, be it by a moment, and one that expires within the days of the
/// warning is warned of, with the whole days that are left.
pub open spec fn admission(g: GatewayModel, cn: Seq<char>, validity: int, left: int)
    -> AdmissionModel {
    if validity > g.max_cert_validity_days * DAY_NANOS {
        AdmissionModel::Rejected {
            entry: connect_entry(
                cn,
                Outcome::Denied,
                "cert_policy_violation: validity exceeds maximum"@,
            ),
            response: ResponseModel::Error { message: "cert_policy_violation"@ },
        }
    } else if left <= g.cert_expiry_warn_days * DAY_NANOS {
        AdmissionModel::Accepted {
            warning: Some(
                connect_entry(
                    cn,
                    Outcome::CertExpiringSoon,
                    "expires in "@ + decimal(quotient(left, DAY_NANOS as int)) + "d"@,
                ),
            ),
        }
    } else {
        AdmissionModel::Accepted { warning: None }
    }
}

/// The client that a chain of certificates names, and what becomes of its
/// connection.
pub open spec fn connection(
    g: GatewayModel,
    chain: Option<Seq<Vec<u8>>>,
    now: (i64, u32),
) -> Result<(Seq<char>, AdmissionModel), CertErrorModel> {
    match leaf(chain) {
        Err(e) => Err(e),
        Ok(cert) => match client_cn(cert) {
            Err(e) => Err(e),
            Ok(cn) => match policy_numbers(cert, now) {
                Err(e) => Err(e),
                Ok((validity, left)) => Ok((cn, admission(g, cn, validity, left))),
            },
        },
    }
}

/// A result of `connection`, seen through the views.
pub open spec fn connection_view(r: Result<(String, Admission), CertError>) -> Result<
    (Seq<char>, AdmissionModel),
    CertErrorModel,
> {
    match r {
        Ok((cn, admission)) => Ok((cn@, admission@)),
        Err(e) => Err(e@),
    }
}

impl Gateway {
    /// A gateway that grants what the table says.
    pub fn new(
        authz: AuthzTable,
        hsm: HsmClient,
        integrity_label: String,
        max_cert_validity_days: i64,
        cert_expiry_warn_days: i64,
    ) -> (r: Gateway)
        ensures
            r@ == (GatewayModel {
                grants: authz@,
                sealer: SealerModel { slot: hsm@, integrity_label: integrity_label@ },
                max_cert_validity_days: max_cert_validity_days as int,
                cert_expiry_warn_days: cert_expiry_warn_days as int,
            }),
    {
        Gateway {
            authz,
            sealer: Sealer { hsm, integrity_label },
            max_cert_validity_days,
            cert_expiry_warn_days,
        }
    }

    /// Applies the certificate policy.
    pub fn enforce_cert_policy(&self, cn: &str, validity: &TimeSpan, left: &TimeSpan) -> (r:
        Admission)
        ensures
            r@ == admission(self@, cn@, validity@, left@),
    {
        if validity.exceeds_days(self.max_cert_validity_days) {
            Admission::Rejected {
                entry: record(
                    cn,
                    "connect",
                    "",
                    Outcome::Denied,
                    "cert_policy_violation: validity exceeds maximum",
                ),
                response: err("cert_policy_violation".to_owned()),
            }
        } else if !left.exceeds_days(self.cert_expiry_warn_days) {
            let days = decimal_text(left.num_days());
            let detail = join3("expires in ", days.as_str(), "d");
            Admission::Accepted {
                warning: Some(
                    record(cn, "connect", "", Outcome::CertExpiringSoon, detail.as_str()),
                ),
            }
        } else {
            Admission::Accepted { warning: None }
        }
    }

    /// Names the client of a connection and applies the certificate policy, at the
    /// given point in time.
    pub fn handle_connection_at(&self, chain: &Option<Vec<Vec<u8>>>, now: &UtcTime) -> (r: Result<
        (String, Admission),
        CertError,
    >)
        ensures
            connection_view(r) == connection(self@, presented(*chain), now@),
    {
        let cert = match peer_leaf_cert(chain) {
            Ok(cert) => cert,
            Err(e) => {
                return Err(e);
            },
        };
        let cn = match cert_cn(&cert) {
            Ok(cn) => cn,
            Err(e) => {
                return Err(e);
            },
        };
        match cert_policy_numbers(&cert, now) {
            Ok((validity, left)) => {
                let admission = self.enforce_cert_policy(cn.as_str(), &validity, &left);
                Ok((cn, admission))
            },
            Err(e) => Err(e),
        }
    }

    /// Names the client of a connection and applies the certificate policy, now.
    pub fn handle_connection(&self, chain: &Option<Vec<Vec<u8>>>) -> (r: Result<
        (String, Admission),
        CertError,
    >)
        ensures
            exists|now: (i64, u32)|
                0 <= now.0 && representable(now.0 as int) && now.1 < 1_000_000_000
                    && connection_view(r) == #[trigger] connection(self@, presented(*chain), now),
    {
        let now = UtcTime::now();
        self.handle_connection_at(chain, &now)
    }
}

// ---------------------------------------------------------------------------
// Authorization of a request
// ---------------------------------------------------------------------------

/// Why a request is refused before it is worked on.
#[derive(Debug, Clone, Copy, PartialEq, Eq, Structural)]
pub enum Refusal {
    /// The client may not run the operation on the key.
    NotGranted,
    /// The counterparty's key is not base64.
    PeerKeyInvalid,
    /// The counterparty's key is not on the allowlist.
    PeerKeyNotListed,
}

/// Why a request is refused, where `peer_decodes` says whether the counterparty's
/// key, if it names one, is base64.
pub open spec fn refusal(
    grants: Grants,
    cn: Seq<char>,
    req: RequestModel,
    peer_decodes: bool,
) -> Option<Refusal> {
    let key = (cn, req.operation(), req.key_label());
    if !grants.contains_key(key) {
        Some(Refusal::NotGranted)
    } else {
        match req.peer_public_key_b64() {
            None => None,
            Some(peer) => if !peer_decodes {
                Some(Refusal::PeerKeyInvalid)
            } else if !grants[key].contains(peer) {
                Some(Refusal::PeerKeyNotListed)
            } else {
                None
            },
        }
    }
}

/// The words for a refusal, with the label in quotes and the fingerprint of the
/// counterparty's key.
pub open spec fn refusal_words(
    why: Refusal,
    cn: Seq<char>,
    op: Operation,
    quoted_label: Seq<char>,
    fingerprint: Seq<char>,
) -> Seq<char> {
    match why {
        Refusal::NotGranted => "denied: "@ + cn + " may not run "@ + wire_name(op) + " on "@
            + quoted_label,
        Refusal::PeerKeyInvalid => "invalid peer_public_key_b64"@,
        Refusal::PeerKeyNotListed => "denied: peer key "@ + fingerprint + " not allowlisted for "@
            + quoted_label,
    }
}

/// The bytes of the counterparty's key that a request names, where it names one
/// and it is base64.
pub open spec fn peer_key(req: RequestModel) -> Option<Seq<u8>> {
    match req.peer_public_key_b64() {
        Some(text) => b64_decoded(text),
        None => None,
    }
}

/// The fingerprint of the counterparty's key, where a request names one.
pub open spec fn fingerprint(req: RequestModel) -> Seq<char> {
    match peer_key(req) {
        Some(bytes) => hex(sha256(bytes)),
        None => Seq::empty(),
    }
}

/// The reason for which a request is refused before it is worked on.
pub open spec fn refused(g: GatewayModel, cn: Seq<char>, req: RequestModel) -> Option<Seq<char>> {
    match refusal(g.grants, cn, req, peer_key(req) is Some) {
        Some(why) => Some(
            refusal_words(
                why,
                cn,
                req.operation(),
                debug_quoted(req.key_label()),
                fingerprint(req),
            ),
        ),
        None => None,
    }
}

impl Refusal {
    /// The words for the refusal.
    pub fn text(&self, cn: &str, op: Operation, quoted_label: &str, fingerprint: &str) -> (r: String)
        ensures
            r@ == refusal_words(*self, cn@, op, quoted_label@, fingerprint@),
    {
        match self {
            Refusal::NotGranted => {
                let mut out = join3("denied: ", cn, " may not run ");
                out.append(op_name(op));
                out.append(" on ");
                out.append(quoted_label);
                out
            },
            Refusal::PeerKeyInvalid => "invalid peer_public_key_b64".to_owned(),
            Refusal::PeerKeyNotListed => {
                let mut out = join3("denied: peer key ", fingerprint, " not allowlisted for ");
                out.append(quoted_label);
                out
            },
        }
    }
}

impl Gateway {
    /// Authorizes a request: default-deny on client, operation and label, then the
    /// allowlist for the counterparty's key.
    pub fn authorize(&self, cn: &str, req: &Request, peer_decodes: bool) -> (r: Option<Refusal>)
        ensures
            r == refusal(self@.grants, cn@, req@, peer_decodes),
    {
        let op = req.operation();
        let label = req.key_label();
        if !self.authz.is_authorized(cn, op, label) {
            return Some(Refusal::NotGranted);
        }
        match req.peer_public_key_b64() {
            None => None,
            Some(peer) => {
                if !peer_decodes {
                    Some(Refusal::PeerKeyInvalid)
                } else if !self.authz.is_peer_key_authorized(cn, op, label, peer) {
                    Some(Refusal::PeerKeyNotListed)
                } else {
                    None
                }
            },
        }
    }
}

// ---------------------------------------------------------------------------
// Exchanges
// ---------------------------------------------------------------------------

/// What is to be done next.
#[derive(Debug)]
pub enum GatewayAction {
    /// Append the entry to the audit log, and say whether that worked.
    Audit { record: AuditRecord },
    /// Make the call of the token, and say what it came to.
    Hsm { call: HsmCall },
    /// Send the answer; the exchange is over.
    Reply { response: Response },
}

/// An action, with the models of its parts.
pub enum GatewayActionModel {
    Audit { record: AuditRecordModel },
    Hsm { call: HsmCallModel },
    Reply { response: ResponseModel },
}

impl View for GatewayAction {
    type V = GatewayActionModel;

    open spec fn view(&self) -> GatewayActionModel {
        match self {
            GatewayAction::Audit { record } => GatewayActionModel::Audit { record: record@ },
            GatewayAction::Hsm { call } => GatewayActionModel::Hsm { call: call@ },
            GatewayAction::Reply { response } => GatewayActionModel::Reply { response: response@ },
        }
    }
}

/// What came of the last action.
#[derive(Debug)]
pub enum GatewayEvent {
    /// The entry was written and flushed.
    Written,
    /// The entry could not be written.
    WriteFailed { cause: String },
    /// The call of the token is over.
    HsmDone { reply: HsmReply },
    /// The call of the token did not run to its end.
    TaskFailed { cause: String },
}

/// An event, with the models of its parts.
pub enum GatewayEventModel {
    Written,
    WriteFailed { cause: Seq<char> },
    HsmDone { reply: HsmReplyModel },
    TaskFailed { cause: Seq<char> },
}

impl View for GatewayEvent {
    type V = GatewayEventModel;

    open spec fn view(&self) -> GatewayEventModel {
        match self {
            GatewayEvent::Written => GatewayEventModel::Written,
            GatewayEvent::WriteFailed { cause } => GatewayEventModel::WriteFailed { cause: cause@ },
            GatewayEvent::HsmDone { reply } => GatewayEventModel::HsmDone { reply: reply@ },
            GatewayEvent::TaskFailed { cause } => GatewayEventModel::TaskFailed { cause: cause@ },
        }
    }
}

/// How far an exchange has come: what is being done.
#[derive(Debug)]
enum ExchangeStage {
    Refusing { response: Response },
    Intending { plan: Plan },
    Checking { next: HsmCall },
    Running,
    Sealing { iv: Vec<u8>, ciphertext: Vec<u8> },
    Closing { response: Response },
    Answered,
}

/// How far an exchange has come.
pub enum ExchangeStageModel {
    /// The entry for a refused request is being written.
    Refusing { response: ResponseModel },
    /// The `intent` entry is being written; then the plan is carried out.
    Intending { plan: PlanModel },
    /// The integrity signature is being verified.
    Checking { next: HsmCallModel },
    /// The token works on the request.
    Running,
    /// The token signs the ciphertext.
    Sealing { iv: Seq<u8>, ciphertext: Seq<u8> },
    /// The closing entry is being written.
    Closing { response: ResponseModel },
    /// The answer was given.
    Answered,
}

/// One request of one client, under way.
#[derive(Debug)]
pub struct Exchange {
    cn: String,
    request: Request,
    stage: ExchangeStage,
}

/// The client, its request and how far it has come.
pub struct ExchangeModel {
    pub cn: Seq<char>,
    pub request: RequestModel,
    pub stage: ExchangeStageModel,
}

impl View for ExchangeStage {
    type V = ExchangeStageModel;

    closed spec fn view(&self) -> ExchangeStageModel {
        match self {
            ExchangeStage::Refusing { response } => ExchangeStageModel::Refusing {
                response: response@,
            },
            ExchangeStage::Intending { plan } => ExchangeStageModel::Intending { plan: plan@ },
            ExchangeStage::Checking { next } => ExchangeStageModel::Checking { next: next@ },
            ExchangeStage::Running => ExchangeStageModel::Running,
            ExchangeStage::Sealing { iv, ciphertext } => ExchangeStageModel::Sealing {
                iv: iv@,
                ciphertext: ciphertext@,
            },
            ExchangeStage::Closing { response } => ExchangeStageModel::Closing {
                response: response@,
            },
            ExchangeStage::Answered => ExchangeStageModel::Answered,
        }
    }
}

impl View for Exchange {
    type V = ExchangeModel;

    closed spec fn view(&self) -> ExchangeModel {
        ExchangeModel { cn: self.cn@, request: self.request@, stage: self.stage@ }
    }
}

/// The next stage and what is to be done on entering it.
pub type ExchangeMove = (ExchangeStageModel, GatewayActionModel);

/// An entry about a request.
pub open spec fn request_entry(
    cn: Seq<char>,
    req: RequestModel,
    outcome: Outcome,
    detail: Seq<char>,
) -> AuditRecordModel {
    AuditRecordModel {
        cn,
        operation: wire_name(req.operation()),
        key_label: req.key_label(),
        outcome,
        detail,
    }
}

/// The entry that closes a request with the given answer.
pub open spec fn closing_entry(cn: Seq<char>, req: RequestModel, response: ResponseModel)
    -> AuditRecordModel {
    match response {
        ResponseModel::Success { .. } => request_entry(cn, req, Outcome::Authorized, ""@),
        ResponseModel::Denied { reason } => request_entry(cn, req, Outcome::Denied, reason),
        ResponseModel::Error { message } => request_entry(cn, req, Outcome::Error, message),
    }
}

/// What an authorized request comes to.
pub open spec fn plan_of(s: SealerModel, req: RequestModel) -> PlanModel {
    planned(s, req, peer_key(req), decoded_fields(req))
}

/// A request comes in: the refusal is entered, or the intent.
pub open spec fn begins(g: GatewayModel, cn: Seq<char>, req: RequestModel) -> ExchangeMove {
    match refused(g, cn, req) {
        Some(reason) => (
            ExchangeStageModel::Refusing { response: ResponseModel::Denied { reason } },
            GatewayActionModel::Audit { record: request_entry(cn, req, Outcome::Denied, reason) },
        ),
        None => (
            ExchangeStageModel::Intending { plan: plan_of(g.sealer, req) },
            GatewayActionModel::Audit { record: request_entry(cn, req, Outcome::Intent, ""@) },
        ),
    }
}

/// The exchange that a request begins.
pub open spec fn begun(g: GatewayModel, cn: Seq<char>, req: RequestModel) -> ExchangeModel {
    ExchangeModel { cn, request: req, stage: begins(g, cn, req).0 }
}

/// The answer is given.
pub open spec fn answers(response: ResponseModel) -> ExchangeMove {
    (ExchangeStageModel::Answered, GatewayActionModel::Reply { response })
}

/// The answer is known: the closing entry is written first.
pub open spec fn closes(x: ExchangeModel, response: ResponseModel) -> ExchangeMove {
    (
        ExchangeStageModel::Closing { response },
        GatewayActionModel::Audit { record: closing_entry(x.cn, x.request, response) },
    )
}

/// The request fails with an error.
pub open spec fn closes_error(x: ExchangeModel, message: Seq<char>) -> ExchangeMove {
    closes(x, ResponseModel::Error { message })
}

/// The intent is on record: what the plan asks for first.
pub open spec fn starts(x: ExchangeModel, plan: PlanModel) -> ExchangeMove {
    match plan {
        PlanModel::Answer { response } => closes(x, response),
        PlanModel::Run { call } => (ExchangeStageModel::Running, GatewayActionModel::Hsm { call }),
        PlanModel::Check { check, next } => (
            ExchangeStageModel::Checking { next },
            GatewayActionModel::Hsm { call: check },
        ),
    }
}

/// The integrity check is over: only a valid signature lets the ciphertext pass.
pub open spec fn checked(x: ExchangeModel, next: HsmCallModel, valid: bool) -> ExchangeMove {
    if valid {
        (ExchangeStageModel::Running, GatewayActionModel::Hsm { call: next })
    } else {
        closes(
            x,
            ResponseModel::Denied { reason: "integrity check failed, ciphertext rejected"@ },
        )
    }
}

/// The name of the task that a request runs on the token, in error texts.
pub open spec fn task_name(op: Operation) -> Seq<char> {
    match op {
        Operation::DeriveAndEncrypt => "derive"@,
        Operation::DeriveAndDecrypt => "derive"@,
        _ => wire_name(op),
    }
}

/// The token is done with the request.
pub open spec fn ran(s: SealerModel, x: ExchangeModel, reply: HsmReplyModel) -> ExchangeMove {
    let op = x.request.operation();
    match reply {
        HsmReplyModel::Failed { cause } => closes_error(x, wire_name(op) + " failed: "@ + cause),
        HsmReplyModel::Output { bytes } if op is Sign || op is Decrypt || op is DeriveAndDecrypt => {
            closes(x, ok_model(b64_encoded(bytes)))
        },
        HsmReplyModel::Verdict { valid } if op is Verify => closes(x, verified_model(valid)),
        HsmReplyModel::Sealed { iv, ciphertext } if op is Encrypt || op is DeriveAndEncrypt => (
            ExchangeStageModel::Sealing { iv, ciphertext },
            GatewayActionModel::Hsm { call: s.seal_call(x.request.key_label(), iv, ciphertext) },
        ),
        _ => closes_error(x, "unexpected HSM reply"@),
    }
}

/// The ciphertext is signed, or could not be: no unauthenticated ciphertext goes
/// out.
pub open spec fn sealed(
    x: ExchangeModel,
    iv: Seq<u8>,
    ciphertext: Seq<u8>,
    reply: HsmReplyModel,
) -> ExchangeMove {
    match reply {
        HsmReplyModel::Output { bytes } => closes(
            x,
            sealed_model(b64_encoded(ciphertext), b64_encoded(iv), b64_encoded(bytes)),
        ),
        HsmReplyModel::Failed { cause } => closes_error(
            x,
            "integrity signing failed: "@ + cause,
        ),
        _ => closes_error(x, "unexpected HSM reply"@),
    }
}

/// What an event leads to.
pub open spec fn exchange_move(s: SealerModel, x: ExchangeModel, event: GatewayEventModel)
    -> ExchangeMove {
    match x.stage {
        ExchangeStageModel::Refusing { response } => answers(response),
        ExchangeStageModel::Intending { plan } => match event {
            GatewayEventModel::Written => starts(x, plan),
            GatewayEventModel::WriteFailed { cause } => answers(
                ResponseModel::Error {
                    message: "audit log unavailable, request rejected: "@ + cause,
                },
            ),
            _ => answers(ResponseModel::Error { message: "unexpected event"@ }),
        },
        ExchangeStageModel::Checking { next } => checked(
            x,
            next,
            event == (GatewayEventModel::HsmDone { reply: HsmReplyModel::Verdict { valid: true } }),
        ),
        ExchangeStageModel::Running => match event {
            GatewayEventModel::HsmDone { reply } => ran(s, x, reply),
            GatewayEventModel::TaskFailed { cause } => closes_error(
                x,
                task_name(x.request.operation()) + " task failed: "@ + cause,
            ),
            _ => closes_error(x, "unexpected event"@),
        },
        ExchangeStageModel::Sealing { iv, ciphertext } => match event {
            GatewayEventModel::HsmDone { reply } => sealed(x, iv, ciphertext, reply),
            GatewayEventModel::TaskFailed { cause } => closes_error(
                x,
                "integrity signing failed: "@ + cause,
            ),
            _ => closes_error(x, "unexpected event"@),
        },
        ExchangeStageModel::Closing { response } => answers(response),
        ExchangeStageModel::Answered => answers(
            ResponseModel::Error { message: "unexpected event"@ },
        ),
    }
}

/// The exchange after an event.
pub open spec fn exchange_after(s: SealerModel, x: ExchangeModel, event: GatewayEventModel)
    -> ExchangeModel {
    ExchangeModel { stage: exchange_move(s, x, event).0, ..x }
}

/// A request to open a ciphertext with the texts that came with it.
pub open spec fn asks_to_open(
    req: RequestModel,
    label: Seq<char>,
    result_b64: Seq<char>,
    iv_text: Seq<char>,
    integrity_text: Seq<char>,
) -> bool {
    &&& req is Decrypt || req is DeriveAndDecrypt
    &&& req.key_label() == label
    &&& mechanism_fault(req) is None
    &&& req.integrity_input() == Some((iv_text, integrity_text, result_b64))
}

/// The job that opens a ciphertext for a request.
pub open spec fn opening_job(req: RequestModel, iv: Seq<u8>, ciphertext: Seq<u8>) -> HsmJobModel {
    if req is Decrypt {
        HsmJobModel::Decrypt { label: req.key_label(), ciphertext, iv }
    } else {
        HsmJobModel::DeriveAndDecrypt {
            label: req.key_label(),
            peer_public_key: peer_or_empty(peer_key(req)),
            ciphertext,
            iv,
        }
    }
}

/// A request that brings a ciphertext back with the texts it came with has the
/// token verify the signature on just the payload that was signed, and then open
/// just that ciphertext with just that initialization vector.
pub open spec fn opens_again(
    s: SealerModel,
    label: Seq<char>,
    iv: Seq<u8>,
    ciphertext: Seq<u8>,
    signature: Seq<u8>,
) -> bool {
    forall|req: RequestModel|
        asks_to_open(
            req,
            label,
            b64_encoded(ciphertext),
            b64_encoded(iv),
            b64_encoded(signature),
        ) ==> #[trigger] plan_of(s, req) == (PlanModel::Check {
            check: s.check_call(label, iv, ciphertext, signature),
            next: idle_call(s.slot, opening_job(req, iv, ciphertext)),
        })
}

/// What goes out can be read: the base64 text of a result stands for that result,
/// and a sealed ciphertext opens again.
pub open spec fn reads_back(s: SealerModel, x: ExchangeModel, event: GatewayEventModel) -> bool {
    match (x.stage, event) {
        (
            ExchangeStageModel::Running,
            GatewayEventModel::HsmDone { reply: HsmReplyModel::Output { bytes } },
        ) => exchange_move(s, x, event) == closes(x, ok_model(b64_encoded(bytes))) ==> b64_decoded(
            b64_encoded(bytes),
        ) == Some(bytes),
        (
            ExchangeStageModel::Sealing { iv, ciphertext },
            GatewayEventModel::HsmDone { reply: HsmReplyModel::Output { bytes } },
        ) => {
            &&& b64_decoded(b64_encoded(ciphertext)) == Some(ciphertext)
            &&& b64_decoded(b64_encoded(iv)) == Some(iv)
            &&& b64_decoded(b64_encoded(bytes)) == Some(bytes)
            &&& opens_again(s, x.request.key_label(), iv, ciphertext, bytes)
        },
        _ => true,
    }
}

impl Gateway {
    /// Takes a request of a client in. A line that is not a request is answered at
    /// once, without an entry; `parsed` holds why it is none.
    pub fn process_line(&self, cn: &str, parsed: Result<Request, String>) -> (r: Result<
        (Exchange, GatewayAction),
        Response,
    >)
        ensures
            match parsed {
                Ok(request) => r matches Ok((exchange, action)) && exchange@ == begun(
                    self@,
                    cn@,
                    request@,
                ) && action@ == begins(self@, cn@, request@).1 && (refused(
                    self@,
                    cn@,
                    request@,
                ) is None ==> canonical(data_b64(request@))),
                Err(cause) => r matches Err(response) && response@ == (ResponseModel::Error {
                    message: "invalid request: "@ + cause@,
                }),
            },
    {
        match parsed {
            Ok(request) => Ok(self.begin(cn, request)),
            Err(cause) => Err(err(join2("invalid request: ", cause.as_str()))),
        }
    }

    /// Authorizes a request, and enters its refusal or its intent.
    pub fn begin(&self, cn: &str, request: Request) -> (r: (Exchange, GatewayAction))
        ensures
            r.0@ == begun(self@, cn@, request@),
            r.1@ == begins(self@, cn@, request@).1,
            refused(self@, cn@, request@) is None ==> canonical(data_b64(request@)),
    {
        let peer_key = match request.peer_public_key_b64() {
            Some(text) => b64_decode(text),
            None => None,
        };
        let op = request.operation();
        match self.authorize(cn, &request, peer_key.is_some()) {
            Some(why) => {
                let quoted = quote(request.key_label());
                let fingerprint = match &peer_key {
                    Some(bytes) => hex_sha256(bytes.as_slice()),
                    None => String::new(),
                };
                assert(fingerprint@ =~= self::fingerprint(request@));
                let reason = why.text(cn, op, quoted.as_str(), fingerprint.as_str());
                let entry = record(
                    cn,
                    op_name(op),
                    request.key_label(),
                    Outcome::Denied,
                    reason.as_str(),
                );
                let stage = ExchangeStage::Refusing { response: denied(reason) };
                let exchange = Exchange { cn: cn.to_owned(), request, stage };
                (exchange, GatewayAction::Audit { record: entry })
            },
            None => {
                let plan = self.sealer.execute(&request, &peer_key);
                let entry = record(cn, op_name(op), request.key_label(), Outcome::Intent, "");
                let stage = ExchangeStage::Intending { plan };
                let exchange = Exchange { cn: cn.to_owned(), request, stage };
                (exchange, GatewayAction::Audit { record: entry })
            },
        }
    }

    /// Takes what came of the last action, and gives the next one.
    pub fn step(&self, exchange: Exchange, event: GatewayEvent) -> (r: (Exchange, GatewayAction))
        ensures
            r.0@ == exchange_after(self@.sealer, exchange@, event@),
            r.1@ == exchange_move(self@.sealer, exchange@, event@).1,
            reads_back(self@.sealer, exchange@, event@),
    {
        let Exchange { cn, request, stage } = exchange;
        let (stage, action) = match stage {
            ExchangeStage::Refusing { response } | ExchangeStage::Closing { response } => answer(
                response,
            ),
            ExchangeStage::Intending { plan } => match event {
                GatewayEvent::Written => match plan {
                    Plan::Answer { response } => close(cn.as_str(), &request, response),
                    Plan::Run { call } => (ExchangeStage::Running, GatewayAction::Hsm { call }),
                    Plan::Check { check, next } => (
                        ExchangeStage::Checking { next },
                        GatewayAction::Hsm { call: check },
                    ),
                },
                GatewayEvent::WriteFailed { cause } => answer(
                    err(join2("audit log unavailable, request rejected: ", cause.as_str())),
                ),
                _ => answer(err("unexpected event".to_owned())),
            },
            ExchangeStage::Checking { next } => match event {
                GatewayEvent::HsmDone { reply: HsmReply::Verdict { valid: true } } => (
                    ExchangeStage::Running,
                    GatewayAction::Hsm { call: next },
                ),
                _ => close(
                    cn.as_str(),
                    &request,
                    denied("integrity check failed, ciphertext rejected".to_owned()),
                ),
            },
            ExchangeStage::Running => match event {
                GatewayEvent::HsmDone { reply } => self.run_done(cn.as_str(), &request, reply),
                GatewayEvent::TaskFailed { cause } => {
                    let task = task_text(request.operation());
                    let message = join3(task, " task failed: ", cause.as_str());
                    close(cn.as_str(), &request, err(message))
                },
                _ => close(cn.as_str(), &request, err("unexpected event".to_owned())),
            },
            ExchangeStage::Sealing { iv, ciphertext } => match event {
                GatewayEvent::HsmDone { reply } => {
                    let next = seal_done(cn.as_str(), &request, &iv, &ciphertext, &reply);
                    proof {
                        if let HsmReplyModel::Output { bytes } = reply@ {
                            law_sealed_ciphertext_opens_again(
                                self@.sealer,
                                request@.key_label(),
                                iv@,
                                ciphertext@,
                                bytes,
                            );
                        }
                    }
                    next
                },
                GatewayEvent::TaskFailed { cause } => {
                    let message = join2("integrity signing failed: ", cause.as_str());
                    close(cn.as_str(), &request, err(message))
                },
                _ => close(cn.as_str(), &request, err("unexpected event".to_owned())),
            },
            ExchangeStage::Answered => answer(err("unexpected event".to_owned())),
        };
        (Exchange { cn, request, stage }, action)
    }

    /// Answers from what the token came to, or has the ciphertext signed.
    fn run_done(&self, cn: &str, request: &Request, reply: HsmReply) -> (r: (
        ExchangeStage,
        GatewayAction,
    ))
        ensures
            forall|x: ExchangeModel|
                x.cn == cn@ && x.request == request@ ==> (r.0@, r.1@) == #[trigger] ran(
                    self@.sealer,
                    x,
                    reply@,
                ),
            reply@ matches HsmReplyModel::Output { bytes } ==> (request@ is Sign || request@ is Decrypt
                || request@ is DeriveAndDecrypt ==> b64_decoded(b64_encoded(bytes)) == Some(bytes)),
    {
        match (reply, request.operation()) {
            (HsmReply::Failed { cause }, op) => {
                let message = join3(op_name(op), " failed: ", cause.as_str());
                close(cn, request, err(message))
            },
            (
                HsmReply::Output { bytes },
                Operation::Sign | Operation::Decrypt | Operation::DeriveAndDecrypt,
            ) => {
                let text = b64_encode(bytes.as_slice());
                close(cn, request, ok_result(text))
            },
            (HsmReply::Verdict { valid }, Operation::Verify) => {
                close(cn, request, verified_result(valid))
            },
            (
                HsmReply::Sealed { iv, ciphertext },
                Operation::Encrypt | Operation::DeriveAndEncrypt,
            ) => {
                let call = self.sealer.seal_response(
                    request.key_label(),
                    iv.as_slice(),
                    ciphertext.as_slice(),
                );
                (ExchangeStage::Sealing { iv, ciphertext }, GatewayAction::Hsm { call })
            },
            _ => close(cn, request, err("unexpected HSM reply".to_owned())),
        }
    }
}

/// The name of the task that a request runs on the token, in error texts.
fn task_text(op: Operation) -> (r: &'static str)
    ensures
        r@ == task_name(op),
{
    match op {
        Operation::DeriveAndEncrypt | Operation::DeriveAndDecrypt => "derive",
        _ => op_name(op),
    }
}

/// Gives the answer.
fn answer(response: Response) -> (r: (ExchangeStage, GatewayAction))
    ensures
        (r.0@, r.1@) == answers(response@),
{
    (ExchangeStage::Answered, GatewayAction::Reply { response })
}

/// Enters what a request came to, before the answer is given.
fn close(cn: &str, request: &Request, response: Response) -> (r: (ExchangeStage, GatewayAction))
    ensures
        forall|x: ExchangeModel|
            x.cn == cn@ && x.request == request@ ==> (r.0@, r.1@) == #[trigger] closes(
                x,
                response@,
            ),
{
    let op = op_name(request.operation());
    let label = request.key_label();
    let entry = match &response {
        Response::Success { .. } => record(cn, op, label, Outcome::Authorized, ""),
        Response::Denied { reason } => record(cn, op, label, Outcome::Denied, reason.as_str()),
        Response::Error { message } => record(cn, op, label, Outcome::Error, message.as_str()),
    };
    (ExchangeStage::Closing { response }, GatewayAction::Audit { record: entry })
}

/// Answers with the signed ciphertext, or with an error where it could not be
/// signed.
fn seal_done(
    cn: &str,
    request: &Request,
    iv: &Vec<u8>,
    ciphertext: &Vec<u8>,
    reply: &HsmReply,
) -> (r: (ExchangeStage, GatewayAction))
    ensures
        forall|x: ExchangeModel|
            x.cn == cn@ && x.request == request@ ==> (r.0@, r.1@) == #[trigger] sealed(
                x,
                iv@,
                ciphertext@,
                reply@,
            ),
        reply@ matches HsmReplyModel::Output { bytes } ==> b64_decoded(b64_encoded(bytes)) == Some(
            bytes,
        ) && b64_decoded(b64_encoded(iv@)) == Some(iv@) && b64_decoded(b64_encoded(ciphertext@))
            == Some(ciphertext@),
{
    match reply {
        HsmReply::Output { bytes } => {
            let result_b64 = b64_encode(ciphertext.as_slice());
            let iv_b64 = b64_encode(iv.as_slice());
            let integrity_b64 = b64_encode(bytes.as_slice());
            close(cn, request, sealed_result(result_b64, iv_b64, integrity_b64))
        },
        HsmReply::Failed { cause } => {
            let message = join2("integrity signing failed: ", cause.as_str());
            close(cn, request, err(message))
        },
        _ => close(cn, request, err("unexpected HSM reply".to_owned())),
    }
}

} // verus!
