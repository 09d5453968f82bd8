//! What every exchange keeps, whatever the log, the token and the client do, and what it is
//! for: what goes in, what the token is asked, what is entered and what is answered.

use vstd::prelude::*;

use crate::audit::Outcome;
use crate::cert::{certificate, client_cn, leaf, CertError, CertErrorModel};
use crate::clock::{nanoseconds, quotient, representable};
use crate::codec::{b64_decoded, b64_encoded, canonical, sha256};
use crate::config::{config_fault, config_grants, ClientModel, Grants, Operation};
use crate::config_laws::law_integrity_key_is_never_granted;
use crate::execute::{
    data_b64, decoded_fields, mechanism_fault, peer_or_empty, PlanModel, SealerModel,
};
use crate::hsm::{idle_call, HsmCallModel, HsmJobModel, HsmReplyModel, HsmStageModel};
use crate::integrity::payload;
use crate::protocol::{ok_model, sealed_model, wire_name, RequestModel, ResponseModel};
use crate::server::{
    admission, asks_to_open, begins, begun, closing_entry, connection, connection_view,
    exchange_after, exchange_move, fingerprint, opening_job, opens_again, peer_key, plan_of,
    refusal, refusal_words, refused, request_entry, task_name, Admission, AdmissionModel,
    AuditRecord, AuditRecordModel, ExchangeModel, ExchangeStageModel, GatewayAction,
    GatewayActionModel, GatewayEvent, GatewayEventModel, GatewayModel, Refusal,
};
use crate::text::{debug_quoted, decimal, hex};

verus! {

/// An exchange after a list of events.
pub open spec fn served(s: SealerModel, x: ExchangeModel, events: Seq<GatewayEventModel>)
    -> ExchangeModel
    decreases events.len(),
{
    if events.len() == 0 {
        x
    } else {
        exchange_after(s, served(s, x, events.drop_last()), events.last())
    }
}

/// What the gateway did at position `i` of an exchange: at first upon the request,
/// then upon each event.
pub open spec fn did(
    g: GatewayModel,
    cn: Seq<char>,
    req: RequestModel,
    events: Seq<GatewayEventModel>,
    i: int,
) -> GatewayActionModel {
    if i == 0 {
        begins(g, cn, req).1
    } else {
        exchange_move(
            g.sealer,
            served(g.sealer, begun(g, cn, req), events.take(i - 1)),
            events[i - 1],
        ).1
    }
}

/// The request was authorized and its intent is on record.
pub open spec fn intent_on_record(
    g: GatewayModel,
    cn: Seq<char>,
    req: RequestModel,
    events: Seq<GatewayEventModel>,
) -> bool {
    &&& refused(g, cn, req) is None
    &&& did(g, cn, req, events, 0) == (GatewayActionModel::Audit {
        record: request_entry(cn, req, Outcome::Intent, ""@),
    })
    &&& events.len() > 0
    &&& events[0] == GatewayEventModel::Written
}

/// The integrity signature was found to be valid.
pub open spec fn signature_valid() -> GatewayEventModel {
    GatewayEventModel::HsmDone { reply: HsmReplyModel::Verdict { valid: true } }
}

proof fn lemma_served_step(
    s: SealerModel,
    x: ExchangeModel,
    events: Seq<GatewayEventModel>,
    i: int,
)
    requires
        0 <= i < events.len(),
    ensures
        served(s, x, events.take(i + 1)) == exchange_after(
            s,
            served(s, x, events.take(i)),
            events[i],
        ),
{
    assert(events.take(i + 1).drop_last() =~= events.take(i));
    assert(events.take(i + 1).last() == events[i]);
}

proof fn lemma_served_keeps_request(
    s: SealerModel,
    x: ExchangeModel,
    events: Seq<GatewayEventModel>,
)
    ensures
        served(s, x, events).cn == x.cn,
        served(s, x, events).request == x.request,
    decreases events.len(),
{
    if events.len() > 0 {
        lemma_served_keeps_request(s, x, events.drop_last());
    }
}

/// What lies behind an exchange that has come to a stage with its `n`-th event.
spec fn history(
    g: GatewayModel,
    cn: Seq<char>,
    req: RequestModel,
    events: Seq<GatewayEventModel>,
    n: int,
) -> bool {
    let plan = plan_of(g.sealer, req);
    match served(g.sealer, begun(g, cn, req), events.take(n)).stage {
        ExchangeStageModel::Refusing { response } => {
            &&& n == 0
            &&& refused(g, cn, req) is Some
            &&& response == (ResponseModel::Denied { reason: refused(g, cn, req)->0 })
        },
        ExchangeStageModel::Intending { plan: p } => n == 0 && refused(g, cn, req) is None && p
            == plan,
        ExchangeStageModel::Checking { next } => {
            &&& n == 1
            &&& intent_on_record(g, cn, req, events)
            &&& plan matches PlanModel::Check { check, next: planned_next }
            &&& next == planned_next
            &&& did(g, cn, req, events, 1) == (GatewayActionModel::Hsm { call: check })
        },
        ExchangeStageModel::Running => {
            &&& intent_on_record(g, cn, req, events)
            &&& match plan {
                PlanModel::Run { call } => n == 1 && did(g, cn, req, events, 1) == (
                GatewayActionModel::Hsm { call }),
                PlanModel::Check { check, next } => {
                    &&& n == 2
                    &&& did(g, cn, req, events, 1) == (GatewayActionModel::Hsm { call: check })
                    &&& events[1] == signature_valid()
                    &&& did(g, cn, req, events, 2) == (GatewayActionModel::Hsm { call: next })
                },
                PlanModel::Answer { .. } => false,
            }
        },
        ExchangeStageModel::Sealing { iv, ciphertext } => {
            &&& n == 2
            &&& intent_on_record(g, cn, req, events)
            &&& plan matches PlanModel::Run { call }
            &&& did(g, cn, req, events, 1) == (GatewayActionModel::Hsm { call })
            &&& events[1] == (GatewayEventModel::HsmDone {
                reply: HsmReplyModel::Sealed { iv, ciphertext },
            })
            &&& did(g, cn, req, events, 2) == (GatewayActionModel::Hsm {
                call: g.sealer.seal_call(req.key_label(), iv, ciphertext),
            })
            &&& (req is Encrypt || req is DeriveAndEncrypt)
        },
        ExchangeStageModel::Closing { response } => {
            &&& intent_on_record(g, cn, req, events)
            &&& 2 <= n + 1
            &&& did(g, cn, req, events, n) == (GatewayActionModel::Audit {
                record: closing_entry(cn, req, response),
            })
            &&& sealed_on_record(g, cn, req, events, response)
        },
        ExchangeStageModel::Answered => exists|j: int|
            1 <= j <= n && #[trigger] did(g, cn, req, events, j) is Reply,
    }
}

/// Where an answer carries an initialization vector, or answers an encryption, it
/// is a ciphertext of the token's that the token signed.
pub open spec fn sealed_on_record(
    g: GatewayModel,
    cn: Seq<char>,
    req: RequestModel,
    events: Seq<GatewayEventModel>,
    response: ResponseModel,
) -> bool {
    match response {
        ResponseModel::Success { result_b64, iv_b64, integrity_b64, .. } => {
            let encrypts = req is Encrypt || req is DeriveAndEncrypt;
            &&& (iv_b64 is Some <==> encrypts)
            &&& (integrity_b64 is Some <==> encrypts)
            &&& encrypts ==> exists|iv: Seq<u8>, ciphertext: Seq<u8>, signature: Seq<u8>|
                #[trigger] sealed_by(g, cn, req, events, response, iv, ciphertext, signature)
        },
        _ => true,
    }
}

/// The token encrypted, then signed what it had encrypted under the request's
/// label, and the answer holds both.
pub open spec fn sealed_by(
    g: GatewayModel,
    cn: Seq<char>,
    req: RequestModel,
    events: Seq<GatewayEventModel>,
    response: ResponseModel,
    iv: Seq<u8>,
    ciphertext: Seq<u8>,
    signature: Seq<u8>,
) -> bool {
    &&& events.len() >= 3
    &&& did(g, cn, req, events, 1) is Hsm
    &&& events[1] == (GatewayEventModel::HsmDone {
        reply: HsmReplyModel::Sealed { iv, ciphertext },
    })
    &&& did(g, cn, req, events, 2) == (GatewayActionModel::Hsm {
        call: g.sealer.seal_call(req.key_label(), iv, ciphertext),
    })
    &&& events[2] == (GatewayEventModel::HsmDone {
        reply: HsmReplyModel::Output { bytes: signature },
    })
    &&& response == sealed_model(
        b64_encoded(ciphertext),
        b64_encoded(iv),
        b64_encoded(signature),
    )
}

proof fn lemma_history(
    g: GatewayModel,
    cn: Seq<char>,
    req: RequestModel,
    events: Seq<GatewayEventModel>,
    n: int,
)
    requires
        0 <= n <= events.len(),
    ensures
        history(g, cn, req, events, n),
    decreases n,
{
    let x0 = begun(g, cn, req);
    if n == 0 {
        assert(events.take(0) =~= Seq::<GatewayEventModel>::empty());
    } else {
        let m = n - 1;
        lemma_history(g, cn, req, events, m);
        lemma_served_step(g.sealer, x0, events, m);
        lemma_served_keeps_request(g.sealer, x0, events.take(m));
        let before = served(g.sealer, x0, events.take(m));
        let after = served(g.sealer, x0, events.take(n));
        assert(did(g, cn, req, events, n) == exchange_move(g.sealer, before, events[m]).1);
        assert(after.stage == exchange_move(g.sealer, before, events[m]).0);
        if before.stage is Answered {
            let j = choose|j: int| 1 <= j <= m && #[trigger] did(g, cn, req, events, j) is Reply;
            assert(1 <= j <= n && did(g, cn, req, events, j) is Reply);
        } else if after.stage is Answered {
            assert(did(g, cn, req, events, n) is Reply);
        } else if before.stage is Sealing && events[m] is HsmDone
            && events[m]->HsmDone_reply is Output {
            let iv = before.stage->Sealing_iv;
            let ciphertext = before.stage->Sealing_ciphertext;
            let signature = events[m]->HsmDone_reply->Output_bytes;
            assert(sealed_by(
                g,
                cn,
                req,
                events,
                after.stage->Closing_response,
                iv,
                ciphertext,
                signature,
            ));
        }
    }
}

/// Fail-closed: the token is asked nothing before the request was authorized and
/// its `intent` entry was written.
pub proof fn law_token_is_asked_only_after_the_intent(
    g: GatewayModel,
    cn: Seq<char>,
    req: RequestModel,
    events: Seq<GatewayEventModel>,
    i: int,
)
    requires
        0 <= i <= events.len(),
        did(g, cn, req, events, i) is Hsm,
    ensures
        i > 0,
        intent_on_record(g, cn, req, events),
{
    lemma_history(g, cn, req, events, i - 1);
}

/// Default-deny: a request reaches the token only where the client was granted the
/// operation on the key, and the counterparty's key, if it names one, is base64 and
/// on the grant's allowlist.
pub proof fn law_only_granted_requests_reach_the_token(
    g: GatewayModel,
    cn: Seq<char>,
    req: RequestModel,
    events: Seq<GatewayEventModel>,
    i: int,
)
    requires
        0 <= i <= events.len(),
        did(g, cn, req, events, i) is Hsm,
    ensures
        g.grants.contains_key((cn, req.operation(), req.key_label())),
        req.peer_public_key_b64() matches Some(peer) ==> {
            &&& b64_decoded(peer) is Some
            &&& g.grants[(cn, req.operation(), req.key_label())].contains(peer)
        },
{
    law_token_is_asked_only_after_the_intent(g, cn, req, events, i);
}

/// A refused request is entered as `denied` and answered `denied`, for the same
/// reason, whether or not the entry could be written, and never reaches the token.
pub proof fn law_refused_request_is_entered_and_denied(
    g: GatewayModel,
    cn: Seq<char>,
    req: RequestModel,
    events: Seq<GatewayEventModel>,
)
    requires
        refused(g, cn, req) is Some,
    ensures
        did(g, cn, req, events, 0) == (GatewayActionModel::Audit {
            record: request_entry(cn, req, Outcome::Denied, refused(g, cn, req)->0),
        }),
        events.len() > 0 ==> did(g, cn, req, events, 1) == (GatewayActionModel::Reply {
            response: ResponseModel::Denied { reason: refused(g, cn, req)->0 },
        }),
        forall|i: int|
            0 <= i <= events.len() ==> !(#[trigger] did(g, cn, req, events, i) is Hsm),
{
    assert(events.take(0) =~= Seq::<GatewayEventModel>::empty());
    assert forall|i: int| 0 <= i <= events.len() implies !(#[trigger] did(
        g,
        cn,
        req,
        events,
        i,
    ) is Hsm) by {
        if did(g, cn, req, events, i) is Hsm {
            law_token_is_asked_only_after_the_intent(g, cn, req, events, i);
        }
    }
}

/// Fail-closed: where the `intent` entry could not be written, the request is
/// answered with an error and never reaches the token.
pub proof fn law_unwritable_log_rejects_the_request(
    g: GatewayModel,
    cn: Seq<char>,
    req: RequestModel,
    events: Seq<GatewayEventModel>,
    cause: Seq<char>,
)
    requires
        refused(g, cn, req) is None,
        events.len() > 0,
        events[0] == (GatewayEventModel::WriteFailed { cause }),
    ensures
        did(g, cn, req, events, 1) == (GatewayActionModel::Reply {
            response: ResponseModel::Error {
                message: "audit log unavailable, request rejected: "@ + cause,
            },
        }),
        forall|i: int|
            0 <= i <= events.len() ==> !(#[trigger] did(g, cn, req, events, i) is Hsm),
{
    assert(events.take(0) =~= Seq::<GatewayEventModel>::empty());
    assert forall|i: int| 0 <= i <= events.len() implies !(#[trigger] did(
        g,
        cn,
        req,
        events,
        i,
    ) is Hsm) by {
        if did(g, cn, req, events, i) is Hsm {
            law_token_is_asked_only_after_the_intent(g, cn, req, events, i);
        }
    }
}

/// The jobs that decrypt.
pub open spec fn decrypts(job: HsmJobModel) -> bool {
    job is Decrypt || job is DeriveAndDecrypt
}

/// The ciphertext of a job that decrypts.
pub open spec fn ciphertext_of(job: HsmJobModel) -> Seq<u8> {
    match job {
        HsmJobModel::Decrypt { ciphertext, .. } => ciphertext,
        HsmJobModel::DeriveAndDecrypt { ciphertext, .. } => ciphertext,
        _ => Seq::empty(),
    }
}

/// Integrity before decryption: the token decrypts only what it has, in the step
/// before, found to carry a valid integrity signature for this very label,
/// initialization vector and ciphertext.
pub proof fn law_decryption_needs_a_valid_signature(
    g: GatewayModel,
    cn: Seq<char>,
    req: RequestModel,
    events: Seq<GatewayEventModel>,
    i: int,
    call: HsmCallModel,
)
    requires
        0 <= i <= events.len(),
        did(g, cn, req, events, i) == (GatewayActionModel::Hsm { call }),
        decrypts(call.job),
    ensures
        i == 2,
        call.job.label() == req.key_label(),
        decoded_fields(req).integrity is Some,
        call.job.given_iv() is Some,
        did(g, cn, req, events, 1) == (GatewayActionModel::Hsm {
            call: g.sealer.check_call(
                req.key_label(),
                call.job.given_iv()->0,
                ciphertext_of(call.job),
                decoded_fields(req).integrity->0,
            ),
        }),
        events[1] == signature_valid(),
{
    lemma_history(g, cn, req, events, i - 1);
    lemma_served_keeps_request(g.sealer, begun(g, cn, req), events.take(i - 1));
    if i == 1 {
        assert(events.take(0) =~= Seq::<GatewayEventModel>::empty());
    }
}

/// A ciphertext whose signature was not found to be valid, for whatever reason, is
/// entered and answered as denied, and the token is asked nothing more.
pub proof fn law_failed_check_is_denied(
    g: GatewayModel,
    cn: Seq<char>,
    req: RequestModel,
    events: Seq<GatewayEventModel>,
)
    requires
        refused(g, cn, req) is None,
        plan_of(g.sealer, req) is Check,
        events.len() >= 3,
        events[0] == GatewayEventModel::Written,
        events[1] != signature_valid(),
    ensures
        did(g, cn, req, events, 2) == (GatewayActionModel::Audit {
            record: request_entry(
                cn,
                req,
                Outcome::Denied,
                "integrity check failed, ciphertext rejected"@,
            ),
        }),
        did(g, cn, req, events, 3) == (GatewayActionModel::Reply {
            response: ResponseModel::Denied {
                reason: "integrity check failed, ciphertext rejected"@,
            },
        }),
        forall|i: int|
            2 <= i <= events.len() ==> !(#[trigger] did(g, cn, req, events, i) is Hsm),
{
    let x0 = begun(g, cn, req);
    assert(events.take(0) =~= Seq::<GatewayEventModel>::empty());
    lemma_served_step(g.sealer, x0, events, 0);
    lemma_served_step(g.sealer, x0, events, 1);
    lemma_served_keeps_request(g.sealer, x0, events.take(1));
    lemma_served_keeps_request(g.sealer, x0, events.take(2));
    assert forall|i: int| 2 <= i <= events.len() implies !(#[trigger] did(
        g,
        cn,
        req,
        events,
        i,
    ) is Hsm) by {
        lemma_history(g, cn, req, events, i - 1);
    }
}

/// No unauthenticated ciphertext goes out: an `ok` answer to an encryption holds
/// what the token encrypted, with the initialization vector, and the token's
/// signature over both and the key label. No other answer carries an initialization
/// vector or a signature.
pub proof fn law_ciphertext_goes_out_signed(
    g: GatewayModel,
    cn: Seq<char>,
    req: RequestModel,
    events: Seq<GatewayEventModel>,
    i: int,
    response: ResponseModel,
)
    requires
        0 <= i <= events.len(),
        did(g, cn, req, events, i) == (GatewayActionModel::Reply { response }),
    ensures
        sealed_on_record(g, cn, req, events, response),
{
    lemma_history(g, cn, req, events, i - 1);
}

/// Every answer is on record: the entry that was to be written just before it says
/// what was answered. The one exception is the answer that says that the log cannot
/// be written.
pub proof fn law_answer_is_on_record(
    g: GatewayModel,
    cn: Seq<char>,
    req: RequestModel,
    events: Seq<GatewayEventModel>,
    i: int,
    response: ResponseModel,
)
    requires
        0 <= i <= events.len(),
        did(g, cn, req, events, i) == (GatewayActionModel::Reply { response }),
        forall|j: int| 0 <= j < i ==> !(#[trigger] did(g, cn, req, events, j) is Reply),
    ensures
        i > 0,
        ({
            ||| did(g, cn, req, events, i - 1) == (GatewayActionModel::Audit {
                record: closing_entry(cn, req, response),
            })
            ||| i == 1 && refused(g, cn, req) is None && events[0] != GatewayEventModel::Written
                && response is Error
        }),
{
    lemma_history(g, cn, req, events, i - 1);
    if i == 1 {
        assert(events.take(0) =~= Seq::<GatewayEventModel>::empty());
    }
}

/// Every request is answered, after its fourth event at the latest.
pub proof fn law_every_request_is_answered(
    g: GatewayModel,
    cn: Seq<char>,
    req: RequestModel,
    events: Seq<GatewayEventModel>,
)
    requires
        events.len() >= 4,
    ensures
        exists|j: int| 1 <= j <= 4 && #[trigger] did(g, cn, req, events, j) is Reply,
{
    let x0 = begun(g, cn, req);
    assert(events.take(0) =~= Seq::<GatewayEventModel>::empty());
    lemma_served_step(g.sealer, x0, events, 0);
    lemma_served_step(g.sealer, x0, events, 1);
    lemma_served_step(g.sealer, x0, events, 2);
    lemma_served_step(g.sealer, x0, events, 3);
    lemma_history(g, cn, req, events, 1);
    lemma_history(g, cn, req, events, 2);
    lemma_history(g, cn, req, events, 3);
    lemma_history(g, cn, req, events, 4);
    let x3 = served(g.sealer, x0, events.take(3));
    assert(x3.stage is Closing || x3.stage is Answered);
    assert(served(g.sealer, x0, events.take(4)).stage is Answered);
}

/// The token works for a request with no other keys than the one it names and the
/// integrity key, and with the latter on nothing but integrity payloads for the
/// request's own label.
pub proof fn law_token_works_with_named_keys(
    g: GatewayModel,
    cn: Seq<char>,
    req: RequestModel,
    events: Seq<GatewayEventModel>,
    i: int,
    call: HsmCallModel,
)
    requires
        0 <= i <= events.len(),
        did(g, cn, req, events, i) == (GatewayActionModel::Hsm { call }),
    ensures
        call.slot == g.sealer.slot,
        call.stage is Idle,
        ({
            ||| call.job.label() == req.key_label() && names_operation(call.job, req)
            ||| works_on_payload(call.job, g.sealer, req.key_label())
        }),
{
    lemma_history(g, cn, req, events, i - 1);
    lemma_served_keeps_request(g.sealer, begun(g, cn, req), events.take(i - 1));
    if i == 1 {
        assert(events.take(0) =~= Seq::<GatewayEventModel>::empty());
        if let PlanModel::Check { check, next } = plan_of(g.sealer, req) {
            let f = decoded_fields(req);
            assert(call == g.sealer.check_call(
                req.key_label(),
                f.iv->0,
                f.data->0,
                f.integrity->0,
            ));
            assert(is_payload(
                call.job->Verify_data,
                req.key_label(),
                f.iv->0,
                f.data->0,
            ));
        }
    } else {
        let x = served(g.sealer, begun(g, cn, req), events.take(i - 1));
        if x.stage is Running {
            let reply = events[i - 1]->HsmDone_reply;
            let iv = reply->Sealed_iv;
            let ciphertext = reply->Sealed_ciphertext;
            assert(call == g.sealer.seal_call(req.key_label(), iv, ciphertext));
            assert(is_payload(
                call.job->Sign_data,
                req.key_label(),
                iv,
                ciphertext,
            ));
        }
    }
}

/// The job does what the request asks for.
pub open spec fn names_operation(job: HsmJobModel, req: RequestModel) -> bool {
    match req.operation() {
        Operation::Sign => job is Sign,
        Operation::Verify => job is Verify,
        Operation::Encrypt => job is Encrypt,
        Operation::Decrypt => job is Decrypt,
        Operation::DeriveAndEncrypt => job is DeriveAndEncrypt,
        Operation::DeriveAndDecrypt => job is DeriveAndDecrypt,
    }
}

/// Bytes that are the integrity payload of something.
pub open spec fn is_payload(
    data: Seq<u8>,
    label: Seq<char>,
    iv: Seq<u8>,
    ciphertext: Seq<u8>,
) -> bool {
    data == payload(label, iv, ciphertext)
}

/// The job signs or verifies an integrity payload for a label with the integrity
/// key.
pub open spec fn works_on_payload(job: HsmJobModel, s: SealerModel, label: Seq<char>) -> bool {
    match job {
        HsmJobModel::Sign { label: l, data } => l == s.integrity_label && exists|
            iv: Seq<u8>,
            ciphertext: Seq<u8>,
        | #[trigger]
            is_payload(data, label, iv, ciphertext),
        HsmJobModel::Verify { label: l, data, .. } => l == s.integrity_label && exists|
            iv: Seq<u8>,
            ciphertext: Seq<u8>,
        | #[trigger]
            is_payload(data, label, iv, ciphertext),
        _ => false,
    }
}

/// Round trip: where the texts of an answer to an encryption stand for what they
/// were made from, a decryption request that brings them back has the token verify
/// the signature on just the payload that was signed, and then open just that
/// ciphertext with just that initialization vector.
pub proof fn law_sealed_ciphertext_opens_again(
    s: SealerModel,
    label: Seq<char>,
    iv: Seq<u8>,
    ciphertext: Seq<u8>,
    signature: Seq<u8>,
)
    requires
        b64_decoded(b64_encoded(ciphertext)) == Some(ciphertext),
        b64_decoded(b64_encoded(iv)) == Some(iv),
        b64_decoded(b64_encoded(signature)) == Some(signature),
    ensures
        opens_again(s, label, iv, ciphertext, signature),
        s.check_call(label, iv, ciphertext, signature).job->Verify_data == s.seal_call(
            label,
            iv,
            ciphertext,
        ).job->Sign_data,
        s.check_call(label, iv, ciphertext, signature).job.label() == s.seal_call(
            label,
            iv,
            ciphertext,
        ).job.label(),
{
}

/// The integrity key is out of the clients' reach: behind an accepted clients file,
/// whatever a client asks for, the token uses that key on nothing but integrity
/// payloads for the label that the request names.
pub proof fn law_integrity_key_is_out_of_reach(
    g: GatewayModel,
    clients: Seq<ClientModel>,
    cn: Seq<char>,
    req: RequestModel,
    events: Seq<GatewayEventModel>,
    i: int,
    call: HsmCallModel,
)
    requires
        config_fault(clients, g.sealer.integrity_label) is None,
        g.grants == config_grants(clients),
        0 <= i <= events.len(),
        did(g, cn, req, events, i) == (GatewayActionModel::Hsm { call }),
        call.job.label() == g.sealer.integrity_label,
    ensures
        works_on_payload(call.job, g.sealer, req.key_label()),
{
    law_token_works_with_named_keys(g, cn, req, events, i, call);
    law_only_granted_requests_reach_the_token(g, cn, req, events, i);
    law_integrity_key_is_never_granted(
        clients,
        g.sealer.integrity_label,
        cn,
        req.operation(),
    );
}

/// The certificate policy: a connection with a usable certificate is rejected exactly
/// where the certificate is valid for more seconds than the maximum of days has, and
/// one that is not rejected is warned of exactly where no more time is left than the
/// days of the warning. A rejection is entered as `denied` and answered with an error
/// that names it.
pub proof fn law_certificate_policy(
    g: GatewayModel,
    chain: Option<Seq<Vec<u8>>>,
    now: (i64, u32),
    cn: Seq<char>,
    admission: AdmissionModel,
)
    requires
        connection(g, chain, now) == Ok::<(Seq<char>, AdmissionModel), CertErrorModel>((cn, admission)),
    ensures
        leaf(chain) is Ok,
        ({
            let cert = leaf(chain)->Ok_0;
            match admission {
                AdmissionModel::Rejected { entry, response } => {
                    &&& cert.2 - cert.1 > g.max_cert_validity_days * 86_400
                    &&& entry.cn == cn
                    &&& entry.outcome == Outcome::Denied
                    &&& response == (ResponseModel::Error { message: "cert_policy_violation"@ })
                },
                AdmissionModel::Accepted { warning } => {
                    &&& cert.2 - cert.1 <= g.max_cert_validity_days * 86_400
                    &&& warning is Some <==> nanoseconds((cert.2, 0u32)) - nanoseconds(now)
                        <= g.cert_expiry_warn_days * 86_400 * 1_000_000_000
                    &&& warning is Some ==> warning->0.cn == cn && warning->0.outcome
                        == Outcome::CertExpiringSoon
                },
            }
        }),
{
}

/// The job that seals a plaintext for a request.
pub open spec fn sealing_job(req: RequestModel, plaintext: Seq<u8>) -> HsmJobModel {
    if req is Encrypt {
        HsmJobModel::Encrypt { label: req.key_label(), plaintext }
    } else {
        HsmJobModel::DeriveAndEncrypt {
            label: req.key_label(),
            peer_public_key: peer_or_empty(peer_key(req)),
            plaintext,
        }
    }
}

/// Decryption undoes encryption: where an encryption was answered with a sealed
/// ciphertext, and a decryption brings it back under the same label and, where keys
/// are derived, for the same counterparty, the token is asked to verify what it
/// signed and to open what it sealed; and where it finds the signature valid and
/// gives the plaintext back that it was handed, the answer is the very text that was
/// sent for encryption. That base64 reads what it writes, and writes what it reads,
/// is what `begin` and `step` say of the texts they take and give.
pub proof fn law_decryption_undoes_encryption(
    g: GatewayModel,
    cn1: Seq<char>,
    sealing: RequestModel,
    events1: Seq<GatewayEventModel>,
    response: ResponseModel,
    iv: Seq<u8>,
    ciphertext: Seq<u8>,
    signature: Seq<u8>,
    cn2: Seq<char>,
    opening: RequestModel,
    events2: Seq<GatewayEventModel>,
    plaintext: Seq<u8>,
)
    requires
        sealing is Encrypt || sealing is DeriveAndEncrypt,
        sealed_by(g, cn1, sealing, events1, response, iv, ciphertext, signature),
        b64_decoded(data_b64(sealing)) == Some(plaintext),
        canonical(data_b64(sealing)),
        b64_decoded(b64_encoded(ciphertext)) == Some(ciphertext),
        b64_decoded(b64_encoded(iv)) == Some(iv),
        b64_decoded(b64_encoded(signature)) == Some(signature),
        asks_to_open(
            opening,
            sealing.key_label(),
            b64_encoded(ciphertext),
            b64_encoded(iv),
            b64_encoded(signature),
        ),
        opening is Decrypt <==> sealing is Encrypt,
        opening.peer_public_key_b64() == sealing.peer_public_key_b64(),
        refused(g, cn2, opening) is None,
        events2.len() >= 4,
        events2[0] == GatewayEventModel::Written,
        events2[1] == signature_valid(),
        events2[2] == (GatewayEventModel::HsmDone {
            reply: HsmReplyModel::Output { bytes: plaintext },
        }),
    ensures
        did(g, cn1, sealing, events1, 1) == (GatewayActionModel::Hsm {
            call: idle_call(g.sealer.slot, sealing_job(sealing, plaintext)),
        }),
        did(g, cn2, opening, events2, 1) == (GatewayActionModel::Hsm {
            call: g.sealer.check_call(sealing.key_label(), iv, ciphertext, signature),
        }),
        did(g, cn2, opening, events2, 2) == (GatewayActionModel::Hsm {
            call: idle_call(g.sealer.slot, opening_job(opening, iv, ciphertext)),
        }),
        opening_job(opening, iv, ciphertext).label() == sealing_job(sealing, plaintext).label(),
        opening_job(opening, iv, ciphertext).peer_public_key() == sealing_job(
            sealing,
            plaintext,
        ).peer_public_key(),
        did(g, cn2, opening, events2, 3) == (GatewayActionModel::Audit {
            record: request_entry(cn2, opening, Outcome::Authorized, ""@),
        }),
        did(g, cn2, opening, events2, 4) == (GatewayActionModel::Reply {
            response: ok_model(data_b64(sealing)),
        }),
{
    assert(events1.take(0) =~= Seq::<GatewayEventModel>::empty());
    lemma_history(g, cn1, sealing, events1, 0);
    law_sealed_ciphertext_opens_again(g.sealer, sealing.key_label(), iv, ciphertext, signature);
    let x0 = begun(g, cn2, opening);
    assert(events2.take(0) =~= Seq::<GatewayEventModel>::empty());
    lemma_served_step(g.sealer, x0, events2, 0);
    lemma_served_step(g.sealer, x0, events2, 1);
    lemma_served_step(g.sealer, x0, events2, 2);
}

// ---------------------------------------------------------------------------
// Connections
// ---------------------------------------------------------------------------

/// What becomes of a client whose certificate is valid for `validity` nanoseconds in all
/// and for `left` from now on.
pub open spec fn admitted_by_policy(
    g: GatewayModel,
    cn: Seq<char>,
    validity: int,
    left: int,
    a: AdmissionModel,
) -> bool {
    let day: int = 86_400int * 1_000_000_000int;
    if validity > g.max_cert_validity_days * day {
        a == (AdmissionModel::Rejected {
            entry: AuditRecordModel {
                cn,
                operation: "connect"@,
                key_label: ""@,
                outcome: Outcome::Denied,
                detail: "cert_policy_violation: validity exceeds maximum"@,
            },
            response: ResponseModel::Error { message: "cert_policy_violation"@ },
        })
    } else if left <= g.cert_expiry_warn_days * day {
        a == (AdmissionModel::Accepted {
            warning: Some(
                AuditRecordModel {
                    cn,
                    operation: "connect"@,
                    key_label: ""@,
                    outcome: Outcome::CertExpiringSoon,
                    detail: "expires in "@ + decimal(quotient(left, day)) + "d"@,
                },
            ),
        })
    } else {
        a == (AdmissionModel::Accepted { warning: None })
    }
}

/// A client is rejected exactly where its certificate is valid for longer than the
/// maximum of days, and warned of exactly where it is not and no more is left than the
/// days of the warning; the entries carry the client and say why.
pub proof fn law_policy_rejects_warns_or_accepts(
    g: GatewayModel,
    cn: Seq<char>,
    validity: int,
    left: int,
)
    ensures
        admitted_by_policy(g, cn, validity, left, admission(g, cn, validity, left)),
{
}

/// The first certificate of a chain decides on everything: on the client, who is called
/// by its CN, and on the admission, which goes by its validity. Where it does not parse,
/// names no client or has a validity without a date, there is no connection.
pub proof fn law_connection_goes_by_the_first_certificate(
    g: GatewayModel,
    certs: Seq<Vec<u8>>,
    now: (i64, u32),
)
    requires
        certs.len() > 0,
    ensures
        match certificate(certs[0]@) {
            Err(cause) => connection(g, Some(certs), now) == Err::<
                (Seq<char>, AdmissionModel),
                CertErrorModel,
            >(CertErrorModel::Unparsable { cause }),
            Ok((raw, not_before, not_after)) => match client_cn((raw, not_before, not_after)) {
                Err(e) => connection(g, Some(certs), now) == Err::<
                    (Seq<char>, AdmissionModel),
                    CertErrorModel,
                >(e),
                Ok(cn) => if !representable(not_before as int) {
                    connection(g, Some(certs), now) == Err::<
                        (Seq<char>, AdmissionModel),
                        CertErrorModel,
                    >(CertErrorModel::NotBeforeOutOfRange)
                } else if !representable(not_after as int) {
                    connection(g, Some(certs), now) == Err::<
                        (Seq<char>, AdmissionModel),
                        CertErrorModel,
                    >(CertErrorModel::NotAfterOutOfRange)
                } else {
                    &&& connection(g, Some(certs), now) is Ok
                    &&& connection(g, Some(certs), now)->Ok_0.0 == cn
                    &&& admitted_by_policy(
                        g,
                        cn,
                        (not_after - not_before) * 1_000_000_000,
                        (not_after - now.0) * 1_000_000_000 - now.1,
                        connection(g, Some(certs), now)->Ok_0.1,
                    )
                },
            },
        },
{
}

/// Two chains with the same first certificate give the same client and the same
/// admission, whatever certificates follow it.
pub proof fn law_same_first_certificate_same_admission(
    g: GatewayModel,
    a: Seq<Vec<u8>>,
    b: Seq<Vec<u8>>,
    now: (i64, u32),
)
    requires
        a.len() > 0,
        b.len() > 0,
        a[0]@ == b[0]@,
    ensures
        connection(g, Some(a), now) == connection(g, Some(b), now),
{
}

/// Without a certificate there is no connection.
pub proof fn law_no_connection_without_a_certificate(
    g: GatewayModel,
    certs: Seq<Vec<u8>>,
    now: (i64, u32),
)
    ensures
        connection(g, None, now) == Err::<(Seq<char>, AdmissionModel), CertErrorModel>(
            CertErrorModel::NotPresented,
        ),
        certs.len() == 0 ==> connection(g, Some(certs), now) == Err::<
            (Seq<char>, AdmissionModel),
            CertErrorModel,
        >(CertErrorModel::EmptyChain),
{
}

// ---------------------------------------------------------------------------
// Authorization
// ---------------------------------------------------------------------------

/// A request is let through exactly where the client was granted the operation on the
/// key and the counterparty's key, if the request names one, is base64 and on the
/// grant's allowlist.
pub proof fn law_let_through_exactly_where_granted(
    g: GatewayModel,
    cn: Seq<char>,
    req: RequestModel,
    peer_decodes: bool,
)
    ensures
        ({
            let key = (cn, req.operation(), req.key_label());
            &&& refused(g, cn, req) is None <==> g.grants.contains_key(key) && match
                req.peer_public_key_b64() {
                None => true,
                Some(peer) => b64_decoded(peer) is Some && g.grants[key].contains(peer),
            }
            &&& refusal(g.grants, cn, req, peer_decodes) is None <==> g.grants.contains_key(key)
                && match req.peer_public_key_b64() {
                None => true,
                Some(peer) => peer_decodes && g.grants[key].contains(peer),
            }
        }),
{
}

/// A refused request is told why: first that it was not granted, else that the
/// counterparty's key is no base64, else that this key, by the hash of its bytes, is not
/// listed for the label.
pub proof fn law_refusal_says_why(g: GatewayModel, cn: Seq<char>, req: RequestModel)
    ensures
        ({
            let key = (cn, req.operation(), req.key_label());
            if !g.grants.contains_key(key) {
                refused(g, cn, req) == Some(
                    "denied: "@ + cn + " may not run "@ + wire_name(req.operation()) + " on "@
                        + debug_quoted(req.key_label()),
                )
            } else {
                match req.peer_public_key_b64() {
                    None => true,
                    Some(peer) => match b64_decoded(peer) {
                        None => refused(g, cn, req) == Some("invalid peer_public_key_b64"@),
                        Some(bytes) => !g.grants[key].contains(peer) ==> refused(g, cn, req)
                            == Some(
                            "denied: peer key "@ + hex(sha256(bytes)) + " not allowlisted for "@
                                + debug_quoted(req.key_label()),
                        ),
                    },
                }
            }
        }),
{
}

/// The reasons come in that order, and each has its words.
pub proof fn law_reasons_and_their_words(
    grants: Grants,
    cn: Seq<char>,
    req: RequestModel,
    peer_decodes: bool,
    label: Seq<char>,
    print: Seq<char>,
)
    ensures
        ({
            let key = (cn, req.operation(), req.key_label());
            let peer = req.peer_public_key_b64();
            let why = refusal(grants, cn, req, peer_decodes);
            &&& why == Some(Refusal::NotGranted) <==> !grants.contains_key(key)
            &&& why == Some(Refusal::PeerKeyInvalid) <==> grants.contains_key(key) && peer is Some
                && !peer_decodes
            &&& why == Some(Refusal::PeerKeyNotListed) <==> grants.contains_key(key)
                && peer is Some && peer_decodes && !grants[key].contains(peer->0)
        }),
        refusal_words(Refusal::NotGranted, cn, req.operation(), label, print) == "denied: "@ + cn
            + " may not run "@ + wire_name(req.operation()) + " on "@ + label,
        refusal_words(Refusal::PeerKeyInvalid, cn, req.operation(), label, print)
            == "invalid peer_public_key_b64"@,
        refusal_words(Refusal::PeerKeyNotListed, cn, req.operation(), label, print)
            == "denied: peer key "@ + print + " not allowlisted for "@ + label,
{
}

/// The counterparty's key of a request is what its text decodes to, and its fingerprint
/// the hash of that.
pub proof fn law_peer_key_is_what_its_text_decodes_to(req: RequestModel)
    ensures
        match req.peer_public_key_b64() {
            None => peer_key(req) is None && fingerprint(req).len() == 0,
            Some(text) => {
                &&& peer_key(req) == b64_decoded(text)
                &&& b64_decoded(text) matches Some(bytes) ==> fingerprint(req) == hex(sha256(bytes))
                &&& b64_decoded(text) is None ==> fingerprint(req).len() == 0
            },
        },
{
}

// ---------------------------------------------------------------------------
// Entries
// ---------------------------------------------------------------------------

/// The entry of a request: who, what, on which key, and how it went.
pub open spec fn entered(
    cn: Seq<char>,
    req: RequestModel,
    outcome: Outcome,
    detail: Seq<char>,
) -> GatewayActionModel {
    GatewayActionModel::Audit {
        record: AuditRecordModel {
            cn,
            operation: wire_name(req.operation()),
            key_label: req.key_label(),
            outcome,
            detail,
        },
    }
}

/// What a request came to is entered after event `i`, and answered after the next one.
pub open spec fn entered_and_answered(
    g: GatewayModel,
    cn: Seq<char>,
    req: RequestModel,
    events: Seq<GatewayEventModel>,
    i: int,
    response: ResponseModel,
) -> bool {
    &&& did(g, cn, req, events, i) == match response {
        ResponseModel::Success { .. } => entered(cn, req, Outcome::Authorized, ""@),
        ResponseModel::Denied { reason } => entered(cn, req, Outcome::Denied, reason),
        ResponseModel::Error { message } => entered(cn, req, Outcome::Error, message),
    }
    &&& did(g, cn, req, events, i + 1) == (GatewayActionModel::Reply { response })
}

/// An answer that holds a result.
pub open spec fn with_result(bytes: Seq<u8>) -> ResponseModel {
    ResponseModel::Success {
        result_b64: Some(b64_encoded(bytes)),
        verified: None,
        iv_b64: None,
        integrity_b64: None,
    }
}

/// A call of the token that has not begun.
pub open spec fn token_call(g: GatewayModel, job: HsmJobModel) -> GatewayActionModel {
    GatewayActionModel::Hsm {
        call: HsmCallModel { slot: g.sealer.slot, job, stage: HsmStageModel::Idle },
    }
}

/// The call that signs a ciphertext with the integrity key, bound to its label and
/// initialization vector.
pub open spec fn signing_call(
    g: GatewayModel,
    label: Seq<char>,
    iv: Seq<u8>,
    ciphertext: Seq<u8>,
) -> GatewayActionModel {
    token_call(
        g,
        HsmJobModel::Sign {
            label: g.sealer.integrity_label,
            data: payload(label, iv, ciphertext),
        },
    )
}

/// The call that verifies the signature of a ciphertext with the integrity key.
pub open spec fn checking_call(
    g: GatewayModel,
    label: Seq<char>,
    iv: Seq<u8>,
    ciphertext: Seq<u8>,
    signature: Seq<u8>,
) -> GatewayActionModel {
    token_call(
        g,
        HsmJobModel::Verify {
            label: g.sealer.integrity_label,
            data: payload(label, iv, ciphertext),
            signature,
        },
    )
}

/// The token's reply has come.
pub open spec fn replied(reply: HsmReplyModel) -> GatewayEventModel {
    GatewayEventModel::HsmDone { reply }
}

/// An entry about a request carries the client, the operation and the label, and says
/// how it went; the one that closes a request says what was answered.
pub proof fn law_entry_says_what_was_answered(
    cn: Seq<char>,
    req: RequestModel,
    outcome: Outcome,
    detail: Seq<char>,
    response: ResponseModel,
)
    ensures
        entered(cn, req, outcome, detail) == (GatewayActionModel::Audit {
            record: request_entry(cn, req, outcome, detail),
        }),
        (GatewayActionModel::Audit { record: closing_entry(cn, req, response) }) == (
        match response {
            ResponseModel::Success { .. } => entered(cn, req, Outcome::Authorized, ""@),
            ResponseModel::Denied { reason } => entered(cn, req, Outcome::Denied, reason),
            ResponseModel::Error { message } => entered(cn, req, Outcome::Error, message),
        }),
{
}

/// An exchange is about the client and the request that it began with, at its start and
/// after every event.
pub proof fn law_exchange_stays_with_its_request(
    g: GatewayModel,
    cn: Seq<char>,
    req: RequestModel,
    events: Seq<GatewayEventModel>,
)
    ensures
        served(g.sealer, begun(g, cn, req), events).cn == cn,
        served(g.sealer, begun(g, cn, req), events).request == req,
{
    lemma_served_keeps_request(g.sealer, begun(g, cn, req), events);
}

/// A request that is let through is entered as `intent` first, and one that is refused as
/// `denied` with the reason, and then denied for it.
pub proof fn law_first_entry_is_intent_or_refusal(
    g: GatewayModel,
    cn: Seq<char>,
    req: RequestModel,
    events: Seq<GatewayEventModel>,
)
    ensures
        match refused(g, cn, req) {
            None => did(g, cn, req, events, 0) == entered(cn, req, Outcome::Intent, ""@),
            Some(reason) => {
                &&& did(g, cn, req, events, 0) == entered(cn, req, Outcome::Denied, reason)
                &&& events.len() > 0 ==> entered_and_answered(
                    g,
                    cn,
                    req,
                    events,
                    0,
                    ResponseModel::Denied { reason },
                )
            },
        },
{
    assert(events.take(0) =~= Seq::<GatewayEventModel>::empty());
}

// ---------------------------------------------------------------------------
// What is made of the token's replies
// ---------------------------------------------------------------------------

proof fn lemma_stages(
    g: GatewayModel,
    cn: Seq<char>,
    req: RequestModel,
    events: Seq<GatewayEventModel>,
    n: int,
)
    requires
        0 <= n <= events.len(),
    ensures
        events.take(0) == Seq::<GatewayEventModel>::empty(),
        served(g.sealer, begun(g, cn, req), events.take(0)) == begun(g, cn, req),
        forall|i: int|
            0 <= i <= n ==> (#[trigger] served(g.sealer, begun(g, cn, req), events.take(i))).cn
                == cn && served(g.sealer, begun(g, cn, req), events.take(i)).request == req,
{
    assert(events.take(0) =~= Seq::<GatewayEventModel>::empty());
    assert forall|i: int| 0 <= i <= n implies (#[trigger] served(
        g.sealer,
        begun(g, cn, req),
        events.take(i),
    )).cn == cn && served(g.sealer, begun(g, cn, req), events.take(i)).request == req by {
        lemma_served_keeps_request(g.sealer, begun(g, cn, req), events.take(i));
    }
}

/// The token works on the request's own job since event `k`: at once upon the intent, or
/// after it found the integrity signature valid.
pub open spec fn works_since(
    g: GatewayModel,
    cn: Seq<char>,
    req: RequestModel,
    events: Seq<GatewayEventModel>,
    k: int,
) -> bool {
    &&& refused(g, cn, req) is None
    &&& events.len() > k
    &&& events[0] == GatewayEventModel::Written
    &&& ({
        ||| k == 1 && plan_of(g.sealer, req) is Run
        ||| k == 2 && plan_of(g.sealer, req) is Check && events[1] == signature_valid()
    })
}

proof fn lemma_works_since(
    g: GatewayModel,
    cn: Seq<char>,
    req: RequestModel,
    events: Seq<GatewayEventModel>,
    k: int,
)
    requires
        works_since(g, cn, req, events, k),
    ensures
        served(g.sealer, begun(g, cn, req), events.take(k)) == (ExchangeModel {
            cn,
            request: req,
            stage: ExchangeStageModel::Running,
        }),
        match plan_of(g.sealer, req) {
            PlanModel::Run { call } => did(g, cn, req, events, 1) == (GatewayActionModel::Hsm {
                call,
            }),
            PlanModel::Check { check, next } => {
                &&& did(g, cn, req, events, 1) == (GatewayActionModel::Hsm { call: check })
                &&& did(g, cn, req, events, 2) == (GatewayActionModel::Hsm { call: next })
            },
            PlanModel::Answer { .. } => false,
        },
{
    let x0 = begun(g, cn, req);
    lemma_stages(g, cn, req, events, k);
    lemma_served_step(g.sealer, x0, events, 0);
    if k == 2 {
        lemma_served_step(g.sealer, x0, events, 1);
    }
}

/// The token's reply is answered: a result with that result, a verdict with that verdict,
/// a failure with an error that names the operation and the cause. A ciphertext is
/// signed first. A reply that does not fit the operation is an error.
pub proof fn law_reply_of_the_token_is_answered(
    g: GatewayModel,
    cn: Seq<char>,
    req: RequestModel,
    events: Seq<GatewayEventModel>,
    k: int,
    reply: HsmReplyModel,
)
    requires
        works_since(g, cn, req, events, k),
        events.len() > k + 1,
        events[k] == replied(reply),
    ensures
        ({
            let gives_bytes = req is Sign || req is Decrypt || req is DeriveAndDecrypt;
            let encrypts = req is Encrypt || req is DeriveAndEncrypt;
            match reply {
                HsmReplyModel::Output { bytes } => gives_bytes ==> entered_and_answered(
                    g,
                    cn,
                    req,
                    events,
                    k + 1,
                    with_result(bytes),
                ),
                HsmReplyModel::Verdict { valid } => req is Verify ==> entered_and_answered(
                    g,
                    cn,
                    req,
                    events,
                    k + 1,
                    ResponseModel::Success {
                        result_b64: None,
                        verified: Some(valid),
                        iv_b64: None,
                        integrity_b64: None,
                    },
                ),
                HsmReplyModel::Sealed { iv, ciphertext } => encrypts ==> did(
                    g,
                    cn,
                    req,
                    events,
                    k + 1,
                ) == signing_call(g, req.key_label(), iv, ciphertext),
                HsmReplyModel::Failed { cause } => entered_and_answered(
                    g,
                    cn,
                    req,
                    events,
                    k + 1,
                    ResponseModel::Error { message: wire_name(req.operation()) + " failed: "@ + cause },
                ),
            }
        }),
        reply is Output && !(req is Sign || req is Decrypt || req is DeriveAndDecrypt) || reply is Verdict
            && !(req is Verify) || reply is Sealed && !(req is Encrypt || req is DeriveAndEncrypt)
            ==> entered_and_answered(
            g,
            cn,
            req,
            events,
            k + 1,
            ResponseModel::Error { message: "unexpected HSM reply"@ },
        ),
{
    lemma_works_since(g, cn, req, events, k);
    lemma_served_step(g.sealer, begun(g, cn, req), events, k);
}

/// A call of the token that did not run to its end is answered with an error that names
/// the task and the cause; anything else than what the token came to is an error too.
pub proof fn law_lost_call_is_answered(
    g: GatewayModel,
    cn: Seq<char>,
    req: RequestModel,
    events: Seq<GatewayEventModel>,
    k: int,
)
    requires
        works_since(g, cn, req, events, k),
        events.len() > k + 1,
        !(events[k] is HsmDone),
    ensures
        ({
            let task = match req {
                RequestModel::Sign { .. } => "sign"@,
                RequestModel::Verify { .. } => "verify"@,
                RequestModel::Encrypt { .. } => "encrypt"@,
                RequestModel::Decrypt { .. } => "decrypt"@,
                RequestModel::DeriveAndEncrypt { .. } => "derive"@,
                RequestModel::DeriveAndDecrypt { .. } => "derive"@,
            };
            let message = match events[k] {
                GatewayEventModel::TaskFailed { cause } => task + " task failed: "@ + cause,
                _ => "unexpected event"@,
            };
            entered_and_answered(g, cn, req, events, k + 1, ResponseModel::Error { message })
        }),
        task_name(req.operation()) == (match req.operation() {
            Operation::Sign => "sign"@,
            Operation::Verify => "verify"@,
            Operation::Encrypt => "encrypt"@,
            Operation::Decrypt => "decrypt"@,
            Operation::DeriveAndEncrypt => "derive"@,
            Operation::DeriveAndDecrypt => "derive"@,
        }),
{
    lemma_works_since(g, cn, req, events, k);
    lemma_served_step(g.sealer, begun(g, cn, req), events, k);
}

/// A signed ciphertext is answered with the ciphertext, its initialization vector and the
/// signature, each as it came from the token; where it could not be signed, with an error
/// that holds none of them.
pub proof fn law_signed_ciphertext_is_answered(
    g: GatewayModel,
    cn: Seq<char>,
    req: RequestModel,
    events: Seq<GatewayEventModel>,
    iv: Seq<u8>,
    ciphertext: Seq<u8>,
)
    requires
        works_since(g, cn, req, events, 1),
        req is Encrypt || req is DeriveAndEncrypt,
        events.len() > 3,
        events[1] == replied(HsmReplyModel::Sealed { iv, ciphertext }),
    ensures
        ({
            let response = match events[2] {
                GatewayEventModel::HsmDone { reply: HsmReplyModel::Output { bytes } } => {
                    ResponseModel::Success {
                        result_b64: Some(b64_encoded(ciphertext)),
                        verified: None,
                        iv_b64: Some(b64_encoded(iv)),
                        integrity_b64: Some(b64_encoded(bytes)),
                    }
                },
                GatewayEventModel::HsmDone { reply: HsmReplyModel::Failed { cause } } => {
                    ResponseModel::Error { message: "integrity signing failed: "@ + cause }
                },
                GatewayEventModel::HsmDone { .. } => {
                    ResponseModel::Error { message: "unexpected HSM reply"@ }
                },
                GatewayEventModel::TaskFailed { cause } => {
                    ResponseModel::Error { message: "integrity signing failed: "@ + cause }
                },
                _ => ResponseModel::Error { message: "unexpected event"@ },
            };
            entered_and_answered(g, cn, req, events, 3, response)
        }),
{
    lemma_works_since(g, cn, req, events, 1);
    lemma_served_step(g.sealer, begun(g, cn, req), events, 1);
    lemma_served_step(g.sealer, begun(g, cn, req), events, 2);
}

/// A request that needs no token is entered and answered with its error, once the intent
/// is on record.
pub proof fn law_faulty_request_is_answered(
    g: GatewayModel,
    cn: Seq<char>,
    req: RequestModel,
    events: Seq<GatewayEventModel>,
    message: Seq<char>,
)
    requires
        refused(g, cn, req) is None,
        plan_of(g.sealer, req) == (PlanModel::Answer { response: ResponseModel::Error { message } }),
        events.len() > 1,
        events[0] == GatewayEventModel::Written,
    ensures
        did(g, cn, req, events, 0) == entered(cn, req, Outcome::Intent, ""@),
        entered_and_answered(g, cn, req, events, 1, ResponseModel::Error { message }),
{
    lemma_stages(g, cn, req, events, 1);
    lemma_served_step(g.sealer, begun(g, cn, req), events, 0);
}

/// Where nothing is known of the intent entry, the request is rejected with an error.
pub proof fn law_nothing_happens_without_the_intent(
    g: GatewayModel,
    cn: Seq<char>,
    req: RequestModel,
    events: Seq<GatewayEventModel>,
)
    requires
        refused(g, cn, req) is None,
        events.len() > 0,
        events[0] != GatewayEventModel::Written,
    ensures
        did(g, cn, req, events, 1) == (GatewayActionModel::Reply {
            response: ResponseModel::Error {
                message: match events[0] {
                    GatewayEventModel::WriteFailed { cause } => {
                        "audit log unavailable, request rejected: "@ + cause
                    },
                    _ => "unexpected event"@,
                },
            },
        }),
{
    lemma_stages(g, cn, req, events, 0);
}

/// Whatever comes after the answer is an error.
pub proof fn law_nothing_is_served_after_the_answer(
    g: GatewayModel,
    cn: Seq<char>,
    req: RequestModel,
    events: Seq<GatewayEventModel>,
    i: int,
)
    requires
        1 <= i < events.len(),
        did(g, cn, req, events, i) is Reply,
    ensures
        did(g, cn, req, events, i + 1) == (GatewayActionModel::Reply {
            response: ResponseModel::Error { message: "unexpected event"@ },
        }),
{
    lemma_served_step(g.sealer, begun(g, cn, req), events, i - 1);
}

// ---------------------------------------------------------------------------
// The six operations, from the request to the answer
// ---------------------------------------------------------------------------

/// Signing: where a granted request names ECDSA-SHA256 and its data are base64, the
/// intent is entered, the token signs exactly the decoded bytes under the request's
/// label, and the answer is that signature.
pub proof fn law_sign_request_is_served(
    g: GatewayModel,
    cn: Seq<char>,
    key_label: Seq<char>,
    data_b64: Seq<char>,
    data: Seq<u8>,
    events: Seq<GatewayEventModel>,
    signature: Seq<u8>,
)
    requires
        refused(g, cn, RequestModel::Sign { key_label, mechanism: "ecdsa_sha256"@, data_b64 }) is None,
        b64_decoded(data_b64) == Some(data),
        events.len() > 2,
        events[0] == GatewayEventModel::Written,
        events[1] == replied(HsmReplyModel::Output { bytes: signature }),
    ensures
        ({
            let req = RequestModel::Sign { key_label, mechanism: "ecdsa_sha256"@, data_b64 };
            &&& did(g, cn, req, events, 0) == entered(cn, req, Outcome::Intent, ""@)
            &&& did(g, cn, req, events, 1) == token_call(
                g,
                HsmJobModel::Sign { label: key_label, data },
            )
            &&& entered_and_answered(g, cn, req, events, 2, with_result(signature))
        }),
{
    let req = RequestModel::Sign { key_label, mechanism: "ecdsa_sha256"@, data_b64 };
    lemma_works_since(g, cn, req, events, 1);
    law_reply_of_the_token_is_answered(
        g,
        cn,
        req,
        events,
        1,
        HsmReplyModel::Output { bytes: signature },
    );
}

/// Verifying: the token verifies exactly the decoded signature on exactly the decoded
/// bytes under the request's label, and the answer is its verdict.
pub proof fn law_verify_request_is_served(
    g: GatewayModel,
    cn: Seq<char>,
    key_label: Seq<char>,
    data_b64: Seq<char>,
    signature_b64: Seq<char>,
    data: Seq<u8>,
    signature: Seq<u8>,
    events: Seq<GatewayEventModel>,
    valid: bool,
)
    requires
        refused(
            g,
            cn,
            RequestModel::Verify {
                key_label,
                mechanism: "ecdsa_sha256"@,
                data_b64,
                signature_b64,
            },
        ) is None,
        b64_decoded(data_b64) == Some(data),
        b64_decoded(signature_b64) == Some(signature),
        events.len() > 2,
        events[0] == GatewayEventModel::Written,
        events[1] == replied(HsmReplyModel::Verdict { valid }),
    ensures
        ({
            let req = RequestModel::Verify {
                key_label,
                mechanism: "ecdsa_sha256"@,
                data_b64,
                signature_b64,
            };
            &&& did(g, cn, req, events, 0) == entered(cn, req, Outcome::Intent, ""@)
            &&& did(g, cn, req, events, 1) == token_call(
                g,
                HsmJobModel::Verify { label: key_label, data, signature },
            )
            &&& entered_and_answered(
                g,
                cn,
                req,
                events,
                2,
                ResponseModel::Success {
                    result_b64: None,
                    verified: Some(valid),
                    iv_b64: None,
                    integrity_b64: None,
                },
            )
        }),
{
    let req = RequestModel::Verify {
        key_label,
        mechanism: "ecdsa_sha256"@,
        data_b64,
        signature_b64,
    };
    lemma_works_since(g, cn, req, events, 1);
    law_reply_of_the_token_is_answered(g, cn, req, events, 1, HsmReplyModel::Verdict { valid });
}

/// Encrypting: the token encrypts exactly the decoded bytes under the request's label,
/// signs what it encrypted, and the answer holds ciphertext, initialization vector and
/// signature.
pub proof fn law_encrypt_request_is_served(
    g: GatewayModel,
    cn: Seq<char>,
    key_label: Seq<char>,
    data_b64: Seq<char>,
    plaintext: Seq<u8>,
    events: Seq<GatewayEventModel>,
    iv: Seq<u8>,
    ciphertext: Seq<u8>,
    signature: Seq<u8>,
)
    requires
        refused(g, cn, RequestModel::Encrypt { key_label, mechanism: "aes_cbc_pad"@, data_b64 }) is None,
        b64_decoded(data_b64) == Some(plaintext),
        events.len() > 3,
        events[0] == GatewayEventModel::Written,
        events[1] == replied(HsmReplyModel::Sealed { iv, ciphertext }),
        events[2] == replied(HsmReplyModel::Output { bytes: signature }),
    ensures
        ({
            let req = RequestModel::Encrypt { key_label, mechanism: "aes_cbc_pad"@, data_b64 };
            &&& did(g, cn, req, events, 0) == entered(cn, req, Outcome::Intent, ""@)
            &&& did(g, cn, req, events, 1) == token_call(
                g,
                HsmJobModel::Encrypt { label: key_label, plaintext },
            )
            &&& did(g, cn, req, events, 2) == signing_call(g, key_label, iv, ciphertext)
            &&& entered_and_answered(
                g,
                cn,
                req,
                events,
                3,
                ResponseModel::Success {
                    result_b64: Some(b64_encoded(ciphertext)),
                    verified: None,
                    iv_b64: Some(b64_encoded(iv)),
                    integrity_b64: Some(b64_encoded(signature)),
                },
            )
        }),
{
    let req = RequestModel::Encrypt { key_label, mechanism: "aes_cbc_pad"@, data_b64 };
    lemma_works_since(g, cn, req, events, 1);
    law_reply_of_the_token_is_answered(
        g,
        cn,
        req,
        events,
        1,
        HsmReplyModel::Sealed { iv, ciphertext },
    );
    law_signed_ciphertext_is_answered(g, cn, req, events, iv, ciphertext);
}

/// Encrypting with a derived key: the token encrypts exactly the decoded bytes with the
/// key that it derives from the request's label and the counterparty's decoded key.
pub proof fn law_derive_and_encrypt_request_is_served(
    g: GatewayModel,
    cn: Seq<char>,
    key_label: Seq<char>,
    peer_public_key_b64: Seq<char>,
    data_b64: Seq<char>,
    peer_public_key: Seq<u8>,
    plaintext: Seq<u8>,
    events: Seq<GatewayEventModel>,
    iv: Seq<u8>,
    ciphertext: Seq<u8>,
    signature: Seq<u8>,
)
    requires
        refused(
            g,
            cn,
            RequestModel::DeriveAndEncrypt {
                key_label,
                derive_mechanism: "ecdh1_derive"@,
                target_mechanism: "aes_cbc_pad"@,
                peer_public_key_b64,
                data_b64,
            },
        ) is None,
        b64_decoded(peer_public_key_b64) == Some(peer_public_key),
        b64_decoded(data_b64) == Some(plaintext),
        events.len() > 3,
        events[0] == GatewayEventModel::Written,
        events[1] == replied(HsmReplyModel::Sealed { iv, ciphertext }),
        events[2] == replied(HsmReplyModel::Output { bytes: signature }),
    ensures
        ({
            let req = RequestModel::DeriveAndEncrypt {
                key_label,
                derive_mechanism: "ecdh1_derive"@,
                target_mechanism: "aes_cbc_pad"@,
                peer_public_key_b64,
                data_b64,
            };
            &&& did(g, cn, req, events, 0) == entered(cn, req, Outcome::Intent, ""@)
            &&& did(g, cn, req, events, 1) == token_call(
                g,
                HsmJobModel::DeriveAndEncrypt { label: key_label, peer_public_key, plaintext },
            )
            &&& did(g, cn, req, events, 2) == signing_call(g, key_label, iv, ciphertext)
            &&& entered_and_answered(
                g,
                cn,
                req,
                events,
                3,
                ResponseModel::Success {
                    result_b64: Some(b64_encoded(ciphertext)),
                    verified: None,
                    iv_b64: Some(b64_encoded(iv)),
                    integrity_b64: Some(b64_encoded(signature)),
                },
            )
        }),
{
    let req = RequestModel::DeriveAndEncrypt {
        key_label,
        derive_mechanism: "ecdh1_derive"@,
        target_mechanism: "aes_cbc_pad"@,
        peer_public_key_b64,
        data_b64,
    };
    lemma_works_since(g, cn, req, events, 1);
    law_reply_of_the_token_is_answered(
        g,
        cn,
        req,
        events,
        1,
        HsmReplyModel::Sealed { iv, ciphertext },
    );
    law_signed_ciphertext_is_answered(g, cn, req, events, iv, ciphertext);
}

/// Decrypting: the token verifies the decoded signature on the label, the decoded
/// initialization vector and the decoded ciphertext, then decrypts exactly that
/// ciphertext with exactly that initialization vector, and the answer is the plaintext.
pub proof fn law_decrypt_request_is_served(
    g: GatewayModel,
    cn: Seq<char>,
    key_label: Seq<char>,
    data_b64: Seq<char>,
    iv_b64: Seq<char>,
    integrity_b64: Seq<char>,
    ciphertext: Seq<u8>,
    iv: Seq<u8>,
    signature: Seq<u8>,
    events: Seq<GatewayEventModel>,
    plaintext: Seq<u8>,
)
    requires
        refused(
            g,
            cn,
            RequestModel::Decrypt {
                key_label,
                mechanism: "aes_cbc_pad"@,
                data_b64,
                iv_b64,
                integrity_b64,
            },
        ) is None,
        b64_decoded(data_b64) == Some(ciphertext),
        b64_decoded(iv_b64) == Some(iv),
        b64_decoded(integrity_b64) == Some(signature),
        events.len() > 3,
        events[0] == GatewayEventModel::Written,
        events[1] == replied(HsmReplyModel::Verdict { valid: true }),
        events[2] == replied(HsmReplyModel::Output { bytes: plaintext }),
    ensures
        ({
            let req = RequestModel::Decrypt {
                key_label,
                mechanism: "aes_cbc_pad"@,
                data_b64,
                iv_b64,
                integrity_b64,
            };
            &&& did(g, cn, req, events, 0) == entered(cn, req, Outcome::Intent, ""@)
            &&& did(g, cn, req, events, 1) == checking_call(
                g,
                key_label,
                iv,
                ciphertext,
                signature,
            )
            &&& did(g, cn, req, events, 2) == token_call(
                g,
                HsmJobModel::Decrypt { label: key_label, ciphertext, iv },
            )
            &&& entered_and_answered(g, cn, req, events, 3, with_result(plaintext))
        }),
{
    let req = RequestModel::Decrypt {
        key_label,
        mechanism: "aes_cbc_pad"@,
        data_b64,
        iv_b64,
        integrity_b64,
    };
    lemma_works_since(g, cn, req, events, 2);
    law_reply_of_the_token_is_answered(
        g,
        cn,
        req,
        events,
        2,
        HsmReplyModel::Output { bytes: plaintext },
    );
}

/// Decrypting with a derived key: the same, with the key that the token derives from the
/// request's label and the counterparty's decoded key.
pub proof fn law_derive_and_decrypt_request_is_served(
    g: GatewayModel,
    cn: Seq<char>,
    key_label: Seq<char>,
    peer_public_key_b64: Seq<char>,
    iv_b64: Seq<char>,
    integrity_b64: Seq<char>,
    data_b64: Seq<char>,
    peer_public_key: Seq<u8>,
    ciphertext: Seq<u8>,
    iv: Seq<u8>,
    signature: Seq<u8>,
    events: Seq<GatewayEventModel>,
    plaintext: Seq<u8>,
)
    requires
        refused(
            g,
            cn,
            RequestModel::DeriveAndDecrypt {
                key_label,
                derive_mechanism: "ecdh1_derive"@,
                target_mechanism: "aes_cbc_pad"@,
                peer_public_key_b64,
                iv_b64,
                integrity_b64,
                data_b64,
            },
        ) is None,
        b64_decoded(peer_public_key_b64) == Some(peer_public_key),
        b64_decoded(data_b64) == Some(ciphertext),
        b64_decoded(iv_b64) == Some(iv),
        b64_decoded(integrity_b64) == Some(signature),
        events.len() > 3,
        events[0] == GatewayEventModel::Written,
        events[1] == replied(HsmReplyModel::Verdict { valid: true }),
        events[2] == replied(HsmReplyModel::Output { bytes: plaintext }),
    ensures
        ({
            let req = RequestModel::DeriveAndDecrypt {
                key_label,
                derive_mechanism: "ecdh1_derive"@,
                target_mechanism: "aes_cbc_pad"@,
                peer_public_key_b64,
                iv_b64,
                integrity_b64,
                data_b64,
            };
            &&& did(g, cn, req, events, 0) == entered(cn, req, Outcome::Intent, ""@)
            &&& did(g, cn, req, events, 1) == checking_call(
                g,
                key_label,
                iv,
                ciphertext,
                signature,
            )
            &&& did(g, cn, req, events, 2) == token_call(
                g,
                HsmJobModel::DeriveAndDecrypt { label: key_label, peer_public_key, ciphertext, iv },
            )
            &&& entered_and_answered(g, cn, req, events, 3, with_result(plaintext))
        }),
{
    let req = RequestModel::DeriveAndDecrypt {
        key_label,
        derive_mechanism: "ecdh1_derive"@,
        target_mechanism: "aes_cbc_pad"@,
        peer_public_key_b64,
        iv_b64,
        integrity_b64,
        data_b64,
    };
    lemma_works_since(g, cn, req, events, 2);
    law_reply_of_the_token_is_answered(
        g,
        cn,
        req,
        events,
        2,
        HsmReplyModel::Output { bytes: plaintext },
    );
}

/// A request brings a ciphertext back where it decrypts under the label, names what is
/// supported and carries the three texts; it is then opened with the key it asks for.
pub proof fn law_what_it_is_to_bring_a_ciphertext_back(
    req: RequestModel,
    label: Seq<char>,
    result_b64: Seq<char>,
    iv_text: Seq<char>,
    integrity_text: Seq<char>,
    iv: Seq<u8>,
    ciphertext: Seq<u8>,
)
    ensures
        asks_to_open(req, label, result_b64, iv_text, integrity_text) <==> mechanism_fault(
            req,
        ) is None && match req {
            RequestModel::Decrypt { key_label, data_b64, iv_b64, integrity_b64, .. } => {
                &&& key_label == label
                &&& data_b64 == result_b64
                &&& iv_b64 == iv_text
                &&& integrity_b64 == integrity_text
            },
            RequestModel::DeriveAndDecrypt { key_label, data_b64, iv_b64, integrity_b64, .. } => {
                &&& key_label == label
                &&& data_b64 == result_b64
                &&& iv_b64 == iv_text
                &&& integrity_b64 == integrity_text
            },
            _ => false,
        },
        match req {
            RequestModel::Decrypt { key_label, .. } => opening_job(req, iv, ciphertext) == (
            HsmJobModel::Decrypt { label: key_label, ciphertext, iv }),
            RequestModel::DeriveAndDecrypt { key_label, peer_public_key_b64, .. } => b64_decoded(
                peer_public_key_b64,
            ) matches Some(peer_public_key) ==> opening_job(req, iv, ciphertext) == (
            HsmJobModel::DeriveAndDecrypt { label: key_label, peer_public_key, ciphertext, iv }),
            _ => true,
        },
{
}

// ---------------------------------------------------------------------------
// Models
// ---------------------------------------------------------------------------

/// What the models say of a record and of an admission is what these hold.
pub proof fn law_admission_models_are_faithful(
    record: AuditRecord,
    a: Admission,
    r: Result<(String, Admission), CertError>,
)
    ensures
        record@ == (AuditRecordModel {
            cn: record.cn@,
            operation: record.operation@,
            key_label: record.key_label@,
            outcome: record.outcome,
            detail: record.detail@,
        }),
        match a {
            Admission::Rejected { entry, response } => a@ == (AdmissionModel::Rejected {
                entry: entry@,
                response: response@,
            }),
            Admission::Accepted { warning: Some(entry) } => a@ == (AdmissionModel::Accepted {
                warning: Some(entry@),
            }),
            Admission::Accepted { warning: None } => a@ == (AdmissionModel::Accepted {
                warning: None,
            }),
        },
        match r {
            Ok((cn, admission)) => connection_view(r) == Ok::<
                (Seq<char>, AdmissionModel),
                CertErrorModel,
            >((cn@, admission@)),
            Err(e) => connection_view(r) == Err::<(Seq<char>, AdmissionModel), CertErrorModel>(e@),
        },
{
}

/// What the models say of an action and of an event is what these hold.
pub proof fn law_exchange_models_are_faithful(action: GatewayAction, event: GatewayEvent)
    ensures
        match action {
            GatewayAction::Audit { record } => action@ == (GatewayActionModel::Audit {
                record: record@,
            }),
            GatewayAction::Hsm { call } => action@ == (GatewayActionModel::Hsm { call: call@ }),
            GatewayAction::Reply { response } => action@ == (GatewayActionModel::Reply {
                response: response@,
            }),
        },
        match event {
            GatewayEvent::Written => event@ is Written,
            GatewayEvent::WriteFailed { cause } => event@ == (GatewayEventModel::WriteFailed {
                cause: cause@,
            }),
            GatewayEvent::HsmDone { reply } => event@ == (GatewayEventModel::HsmDone {
                reply: reply@,
            }),
            GatewayEvent::TaskFailed { cause } => event@ == (GatewayEventModel::TaskFailed {
                cause: cause@,
            }),
        },
{
}

} // verus!
