//! What every call of the token keeps, whatever the token answers.

use vstd::prelude::*;
use vstd::utf8::encode_utf8;

use crate::hsm::{
    derived_aes_template, hsm_after, hsm_move, idle_call, DerivedKeyTemplate, HsmAction,
    HsmActionModel, HsmCallModel, HsmEvent, HsmEventModel, HsmJobModel, HsmReply, HsmReplyModel,
    HsmStageModel, KeyClass, KeyRef, IV_LEN, KDF_SHARED_DATA,
};
use crate::text::debug_quoted;

verus! {

/// The call after a list of answers.
pub open spec fn hsm_ran(c: HsmCallModel, events: Seq<HsmEventModel>) -> HsmCallModel
    decreases events.len(),
{
    if events.len() == 0 {
        c
    } else {
        hsm_after(hsm_ran(c, events.drop_last()), events.last())
    }
}

/// What was asked of the token upon its answer at position `i`.
pub open spec fn hsm_asked(c: HsmCallModel, events: Seq<HsmEventModel>, i: int) -> HsmActionModel {
    hsm_move(hsm_ran(c, events.take(i)), events[i]).1
}

/// The actions that work with a key.
pub open spec fn works_with_key(action: HsmActionModel) -> bool {
    ||| action is DeriveKey
    ||| action is Sign
    ||| action is Verify
    ||| action is Encrypt
    ||| action is Decrypt
}

/// The search for the job's key was asked for, and the answer at position `j` was
/// one hit.
pub open spec fn one_hit_at(c: HsmCallModel, events: Seq<HsmEventModel>, j: int) -> bool {
    &&& hsm_asked(c, events, j - 1) == (HsmActionModel::FindKey {
        class: c.job.class(),
        label: encode_utf8(c.job.label()),
    })
    &&& events[j] == (HsmEventModel::KeysFound { count: 1 })
}

proof fn lemma_ran_step(c: HsmCallModel, events: Seq<HsmEventModel>, i: int)
    requires
        0 <= i < events.len(),
    ensures
        hsm_ran(c, events.take(i + 1)) == hsm_after(hsm_ran(c, events.take(i)), events[i]),
{
    assert(events.take(i + 1).drop_last() =~= events.take(i));
    assert(events.take(i + 1).last() == events[i]);
}

proof fn lemma_ran_keeps_job(c: HsmCallModel, events: Seq<HsmEventModel>)
    ensures
        hsm_ran(c, events).job == c.job,
        hsm_ran(c, events).slot == c.slot,
    decreases events.len(),
{
    if events.len() > 0 {
        lemma_ran_keeps_job(c, events.drop_last());
    }
}

proof fn lemma_stage_history(c: HsmCallModel, events: Seq<HsmEventModel>, n: int)
    requires
        c.stage is Idle,
        0 <= n <= events.len(),
    ensures
        match hsm_ran(c, events.take(n)).stage {
            HsmStageModel::Finding => n > 0 && hsm_asked(c, events, n - 1) == (
            HsmActionModel::FindKey {
                class: c.job.class(),
                label: encode_utf8(c.job.label()),
            }),
            HsmStageModel::Deriving => exists|j: int| 0 < j < n && #[trigger] one_hit_at(c, events, j),
            HsmStageModel::Drawing => {
                &&& exists|j: int| 0 < j < n && #[trigger] one_hit_at(c, events, j)
                &&& n > 0
                &&& hsm_asked(c, events, n - 1) == (HsmActionModel::GenerateRandom { len: IV_LEN })
            },
            HsmStageModel::Working => {
                &&& exists|j: int| 0 < j < n && #[trigger] one_hit_at(c, events, j)
                &&& n > 0
                &&& works_with_key(hsm_asked(c, events, n - 1))
                &&& !(hsm_asked(c, events, n - 1) is DeriveKey)
                &&& !(hsm_asked(c, events, n - 1) is Encrypt)
                &&& (c.job is Verify <==> hsm_asked(c, events, n - 1) is Verify)
            },
            HsmStageModel::Sealing { iv } => {
                &&& exists|j: int| 0 < j < n && #[trigger] one_hit_at(c, events, j)
                &&& n > 0
                &&& hsm_asked(c, events, n - 1) matches HsmActionModel::Encrypt { iv: used, .. }
                &&& used == iv
            },
            _ => true,
        },
    decreases n,
{
    if n > 0 {
        let m = n - 1;
        lemma_stage_history(c, events, m);
        lemma_ran_step(c, events, m);
        lemma_ran_keeps_job(c, events.take(m));
        let before = hsm_ran(c, events.take(m));
        if before.stage is Finding {
            if events[m] == (HsmEventModel::KeysFound { count: 1 }) {
                assert(one_hit_at(c, events, m));
            }
        } else if before.stage is Deriving || before.stage is Drawing {
            let j = choose|j: int| 0 < j < m && #[trigger] one_hit_at(c, events, j);
            assert(0 < j < n && one_hit_at(c, events, j));
        }
    } else {
        assert(events.take(0) =~= Seq::<HsmEventModel>::empty());
    }
}

/// No key is worked with unless the search for the job's label and class gave
/// exactly one hit.
pub proof fn law_key_is_used_only_after_one_hit(
    c: HsmCallModel,
    events: Seq<HsmEventModel>,
    i: int,
)
    requires
        c.stage is Idle,
        0 <= i < events.len(),
        works_with_key(hsm_asked(c, events, i)),
    ensures
        exists|j: int| 0 < j <= i && #[trigger] one_hit_at(c, events, j),
{
    lemma_stage_history(c, events, i);
    lemma_ran_keeps_job(c, events.take(i));
    let before = hsm_ran(c, events.take(i));
    if before.stage is Finding {
        assert(one_hit_at(c, events, i));
    } else {
        let j = choose|j: int| 0 < j < i && #[trigger] one_hit_at(c, events, j);
        assert(0 < j <= i && one_hit_at(c, events, j));
    }
}

/// The token encrypts only with sixteen bytes that were asked of its random number
/// generator just before.
pub proof fn law_iv_is_drawn_from_the_token(c: HsmCallModel, events: Seq<HsmEventModel>, i: int)
    requires
        c.stage is Idle,
        0 <= i < events.len(),
        hsm_asked(c, events, i) is Encrypt,
    ensures
        hsm_asked(c, events, i)->Encrypt_iv.len() == IV_LEN,
        events[i] == (HsmEventModel::RandomDrawn { bytes: hsm_asked(c, events, i)->Encrypt_iv }),
        i > 0,
        hsm_asked(c, events, i - 1) == (HsmActionModel::GenerateRandom { len: IV_LEN }),
{
    lemma_stage_history(c, events, i);
}

/// A sealed ciphertext is what the token gave for the encryption, and comes with
/// the initialization vector that was used for it.
pub proof fn law_sealed_reply_names_its_iv(
    c: HsmCallModel,
    events: Seq<HsmEventModel>,
    i: int,
    iv: Seq<u8>,
    ciphertext: Seq<u8>,
)
    requires
        c.stage is Idle,
        0 <= i < events.len(),
        hsm_asked(c, events, i) == (HsmActionModel::Done {
            reply: HsmReplyModel::Sealed { iv, ciphertext },
        }),
    ensures
        events[i] == (HsmEventModel::Output { bytes: ciphertext }),
        i > 0,
        hsm_asked(c, events, i - 1) matches HsmActionModel::Encrypt { iv: used, .. } && used == iv,
{
    lemma_stage_history(c, events, i);
}

/// A signature or a plaintext is what the token gave for that action.
pub proof fn law_output_comes_from_the_token(
    c: HsmCallModel,
    events: Seq<HsmEventModel>,
    i: int,
    bytes: Seq<u8>,
)
    requires
        c.stage is Idle,
        0 <= i < events.len(),
        hsm_asked(c, events, i) == (HsmActionModel::Done { reply: HsmReplyModel::Output { bytes } }),
    ensures
        events[i] == (HsmEventModel::Output { bytes }),
        i > 0,
        hsm_asked(c, events, i - 1) is Sign || hsm_asked(c, events, i - 1) is Decrypt,
{
    lemma_stage_history(c, events, i);
    lemma_ran_keeps_job(c, events.take(i));
}

/// Only a mismatch of the signature makes the verdict `false`, and only the token's
/// consent makes it `true`; every other failure is a hard error.
pub proof fn law_verdict_comes_from_the_token(
    c: HsmCallModel,
    events: Seq<HsmEventModel>,
    i: int,
    valid: bool,
)
    requires
        c.stage is Idle,
        0 <= i < events.len(),
        hsm_asked(c, events, i) == (HsmActionModel::Done { reply: HsmReplyModel::Verdict { valid } }),
    ensures
        c.job is Verify,
        i > 0,
        hsm_asked(c, events, i - 1) is Verify,
        events[i] == (if valid {
            HsmEventModel::SignatureValid
        } else {
            HsmEventModel::SignatureInvalid
        }),
{
    lemma_stage_history(c, events, i);
    lemma_ran_keeps_job(c, events.take(i));
}

/// A reply fits its job: signing and decrypting give bytes, verifying a verdict, and
/// encrypting a sealed ciphertext, unless the call failed.
pub proof fn law_reply_fits_the_job(
    c: HsmCallModel,
    events: Seq<HsmEventModel>,
    i: int,
    reply: HsmReplyModel,
)
    requires
        c.stage is Idle,
        0 <= i < events.len(),
        hsm_asked(c, events, i) == (HsmActionModel::Done { reply }),
    ensures
        match reply {
            HsmReplyModel::Output { .. } => c.job is Sign || c.job is Decrypt
                || c.job is DeriveAndDecrypt,
            HsmReplyModel::Verdict { .. } => c.job is Verify,
            HsmReplyModel::Sealed { .. } => c.job is Encrypt || c.job is DeriveAndEncrypt,
            HsmReplyModel::Failed { .. } => true,
        },
{
    lemma_stage_history(c, events, i);
    lemma_ran_keeps_job(c, events.take(i));
    if i > 0 {
        lemma_ran_keeps_job(c, events.take(i - 1));
    }
}

/// Every key that is derived is session-local, sensitive and bound to the KDF's
/// domain, and derived from the job's own counterparty.
pub proof fn law_derived_key_stays_in_the_session(
    c: HsmCallModel,
    events: Seq<HsmEventModel>,
    i: int,
)
    requires
        0 <= i < events.len(),
        hsm_asked(c, events, i) is DeriveKey,
    ensures
        hsm_asked(c, events, i)->template == derived_aes_template(),
        !hsm_asked(c, events, i)->template.token,
        hsm_asked(c, events, i)->template.sensitive,
        hsm_asked(c, events, i)->shared_data == encode_utf8(KDF_SHARED_DATA@),
        c.job.peer_public_key() == Some(hsm_asked(c, events, i)->peer_public_key),
{
    lemma_ran_keeps_job(c, events.take(i));
}

/// An initialization vector of the wrong length ends the call before a session is
/// opened.
pub proof fn law_bad_iv_asks_nothing(c: HsmCallModel, event: HsmEventModel)
    requires
        c.stage is Idle,
        c.job.given_iv() is Some,
        c.job.given_iv()->0.len() != IV_LEN,
    ensures
        hsm_move(c, event).1 is Done,
        hsm_after(c, event).stage is Finished,
{
}

/// The number of answers that a call can still take.
spec fn steps_left(stage: HsmStageModel) -> int {
    match stage {
        HsmStageModel::Idle => 6,
        HsmStageModel::Opening => 5,
        HsmStageModel::Finding => 4,
        HsmStageModel::Deriving => 3,
        HsmStageModel::Drawing => 2,
        HsmStageModel::Working => 1,
        HsmStageModel::Sealing { .. } => 1,
        HsmStageModel::Finished => 0,
    }
}

proof fn lemma_steps_left(c: HsmCallModel, events: Seq<HsmEventModel>)
    requires
        c.stage is Idle,
    ensures
        steps_left(hsm_ran(c, events).stage) <= if events.len() >= 6 {
            0
        } else {
            6 - events.len()
        },
    decreases events.len(),
{
    if events.len() > 0 {
        lemma_steps_left(c, events.drop_last());
    }
}

/// Every call ends: after the sixth answer at the latest there is a reply.
pub proof fn law_every_call_ends(c: HsmCallModel, events: Seq<HsmEventModel>)
    requires
        c.stage is Idle,
        events.len() >= 6,
    ensures
        hsm_ran(c, events).stage is Finished,
        hsm_asked(c, events, events.len() - 1) is Done,
{
    lemma_steps_left(c, events);
    assert(events.take(events.len() - 1) =~= events.drop_last());
}

// ---------------------------------------------------------------------------
// What the token is handed
// ---------------------------------------------------------------------------

/// A session is opened on the slot of the call, and on no other.
pub proof fn law_session_is_opened_on_the_slot(
    c: HsmCallModel,
    events: Seq<HsmEventModel>,
    i: int,
)
    requires
        c.stage is Idle,
        0 <= i < events.len(),
        hsm_asked(c, events, i) is OpenSession,
    ensures
        hsm_asked(c, events, i)->OpenSession_slot == c.slot,
        i == 0,
{
    lemma_ran_keeps_job(c, events.take(i));
    if i > 0 {
        lemma_never_idle_again(c, events, i);
    }
}

proof fn lemma_never_idle_again(c: HsmCallModel, events: Seq<HsmEventModel>, n: int)
    requires
        0 < n <= events.len(),
    ensures
        !(hsm_ran(c, events.take(n)).stage is Idle),
{
    lemma_ran_step(c, events, n - 1);
}

/// The key that is searched for has the label of the job, in UTF-8, and the class
/// that the job needs: a private key to sign or to derive, a public key to verify, a
/// secret key to encrypt or to decrypt.
pub proof fn law_search_is_for_the_key_of_the_job(
    c: HsmCallModel,
    events: Seq<HsmEventModel>,
    i: int,
    class: KeyClass,
    label: Seq<u8>,
)
    requires
        0 <= i < events.len(),
        hsm_asked(c, events, i) == (HsmActionModel::FindKey { class, label }),
    ensures
        match c.job {
            HsmJobModel::Sign { label: l, .. } => class is Private && label == encode_utf8(l),
            HsmJobModel::Verify { label: l, .. } => class is Public && label == encode_utf8(l),
            HsmJobModel::Encrypt { label: l, .. } => class is Secret && label == encode_utf8(l),
            HsmJobModel::Decrypt { label: l, .. } => class is Secret && label == encode_utf8(l),
            HsmJobModel::DeriveAndEncrypt { label: l, .. } => class is Private && label
                == encode_utf8(l),
            HsmJobModel::DeriveAndDecrypt { label: l, .. } => class is Private && label
                == encode_utf8(l),
        },
{
    lemma_ran_keeps_job(c, events.take(i));
}

/// A key is derived only for a job that derives one, from the counterparty's key that
/// the job brings, with the KDF's domain as shared data, as a session-local AES-256
/// key that encrypts and decrypts and cannot be read.
pub proof fn law_derivation_is_from_the_peer_of_the_job(
    c: HsmCallModel,
    events: Seq<HsmEventModel>,
    i: int,
    peer_public_key: Seq<u8>,
    shared_data: Seq<u8>,
    template: DerivedKeyTemplate,
)
    requires
        0 <= i < events.len(),
        hsm_asked(c, events, i) == (HsmActionModel::DeriveKey {
            peer_public_key,
            shared_data,
            template,
        }),
    ensures
        match c.job {
            HsmJobModel::DeriveAndEncrypt { peer_public_key: peer, .. } => peer_public_key == peer,
            HsmJobModel::DeriveAndDecrypt { peer_public_key: peer, .. } => peer_public_key == peer,
            _ => false,
        },
        shared_data == encode_utf8("pico-hsm-api-connector/kdf-v1"@),
        template.value_len == 32,
        !template.token,
        template.sensitive,
        template.encrypt,
        template.decrypt,
{
    lemma_ran_keeps_job(c, events.take(i));
}

/// What is signed is the data of a job that signs, with the key that was found.
pub proof fn law_signature_is_over_the_data_of_the_job(
    c: HsmCallModel,
    events: Seq<HsmEventModel>,
    i: int,
    key: KeyRef,
    data: Seq<u8>,
)
    requires
        0 <= i < events.len(),
        hsm_asked(c, events, i) == (HsmActionModel::Sign { key, data }),
    ensures
        c.job matches HsmJobModel::Sign { data: d, .. } && data == d,
        key is Found,
{
    lemma_ran_keeps_job(c, events.take(i));
}

/// What is verified is the signature of a job that verifies on the data of that job,
/// with the key that was found.
pub proof fn law_verification_is_of_the_signature_of_the_job(
    c: HsmCallModel,
    events: Seq<HsmEventModel>,
    i: int,
    key: KeyRef,
    data: Seq<u8>,
    signature: Seq<u8>,
)
    requires
        0 <= i < events.len(),
        hsm_asked(c, events, i) == (HsmActionModel::Verify { key, data, signature }),
    ensures
        c.job matches HsmJobModel::Verify { data: d, signature: s, .. } && data == d && signature
            == s,
        key is Found,
{
    lemma_ran_keeps_job(c, events.take(i));
}

/// What is encrypted is the plaintext of a job that encrypts: with the key that was
/// found or, where the job derives one, with the key that was derived.
pub proof fn law_encryption_is_of_the_plaintext_of_the_job(
    c: HsmCallModel,
    events: Seq<HsmEventModel>,
    i: int,
    key: KeyRef,
    iv: Seq<u8>,
    plaintext: Seq<u8>,
)
    requires
        0 <= i < events.len(),
        hsm_asked(c, events, i) == (HsmActionModel::Encrypt { key, iv, plaintext }),
    ensures
        match c.job {
            HsmJobModel::Encrypt { plaintext: p, .. } => plaintext == p && key is Found,
            HsmJobModel::DeriveAndEncrypt { plaintext: p, .. } => plaintext == p && key is Derived,
            _ => false,
        },
        iv.len() == 16,
        events[i] == (HsmEventModel::RandomDrawn { bytes: iv }),
{
    lemma_ran_keeps_job(c, events.take(i));
}

/// What is decrypted is the ciphertext of a job that decrypts, with the
/// initialization vector of that job: with the key that was found or, where the job
/// derives one, with the key that was derived.
pub proof fn law_decryption_is_of_the_ciphertext_of_the_job(
    c: HsmCallModel,
    events: Seq<HsmEventModel>,
    i: int,
    key: KeyRef,
    iv: Seq<u8>,
    ciphertext: Seq<u8>,
)
    requires
        0 <= i < events.len(),
        hsm_asked(c, events, i) == (HsmActionModel::Decrypt { key, iv, ciphertext }),
    ensures
        match c.job {
            HsmJobModel::Decrypt { ciphertext: t, iv: v, .. } => ciphertext == t && iv == v
                && key is Found,
            HsmJobModel::DeriveAndDecrypt { ciphertext: t, iv: v, .. } => ciphertext == t && iv == v
                && key is Derived,
            _ => false,
        },
{
    lemma_ran_keeps_job(c, events.take(i));
}

/// Random bytes are drawn for a job that encrypts, sixteen of them.
pub proof fn law_sixteen_random_bytes_are_drawn_to_encrypt(
    c: HsmCallModel,
    events: Seq<HsmEventModel>,
    i: int,
)
    requires
        0 <= i < events.len(),
        hsm_asked(c, events, i) is GenerateRandom,
    ensures
        hsm_asked(c, events, i)->len == 16,
        c.job is Encrypt || c.job is DeriveAndEncrypt,
{
    lemma_ran_keeps_job(c, events.take(i));
}

/// The derivation of the job's key was asked for, and the answer at position `j` was
/// that it is there.
pub open spec fn derived_at(c: HsmCallModel, events: Seq<HsmEventModel>, j: int) -> bool {
    hsm_asked(c, events, j - 1) is DeriveKey && events[j] is KeyDerived
}

/// An action that works with the derived key.
pub open spec fn works_with_derived_key(action: HsmActionModel) -> bool {
    match action {
        HsmActionModel::Sign { key, .. } => key is Derived,
        HsmActionModel::Verify { key, .. } => key is Derived,
        HsmActionModel::Encrypt { key, .. } => key is Derived,
        HsmActionModel::Decrypt { key, .. } => key is Derived,
        _ => false,
    }
}

proof fn lemma_derived_before(c: HsmCallModel, events: Seq<HsmEventModel>, n: int)
    requires
        c.stage is Idle,
        0 <= n <= events.len(),
    ensures
        match hsm_ran(c, events.take(n)).stage {
            HsmStageModel::Deriving => n > 0 && hsm_asked(c, events, n - 1) is DeriveKey,
            HsmStageModel::Drawing => c.job is DeriveAndEncrypt ==> exists|j: int|
                0 < j < n && #[trigger] derived_at(c, events, j),
            _ => true,
        },
    decreases n,
{
    if n > 0 {
        let m = n - 1;
        lemma_derived_before(c, events, m);
        lemma_ran_step(c, events, m);
        lemma_ran_keeps_job(c, events.take(m));
        let before = hsm_ran(c, events.take(m));
        if before.stage is Deriving && events[m] is KeyDerived {
            assert(derived_at(c, events, m));
        }
    } else {
        assert(events.take(0) =~= Seq::<HsmEventModel>::empty());
    }
}

/// The derived key is worked with only once the token has said that it derived it.
pub proof fn law_derived_key_is_used_only_after_derivation(
    c: HsmCallModel,
    events: Seq<HsmEventModel>,
    i: int,
)
    requires
        c.stage is Idle,
        0 <= i < events.len(),
        works_with_derived_key(hsm_asked(c, events, i)),
    ensures
        exists|j: int| 0 < j <= i && #[trigger] derived_at(c, events, j),
{
    lemma_derived_before(c, events, i);
    lemma_ran_keeps_job(c, events.take(i));
    let before = hsm_ran(c, events.take(i));
    if before.stage is Deriving {
        assert(derived_at(c, events, i));
    } else {
        let j = choose|j: int| 0 < j < i && #[trigger] derived_at(c, events, j);
        assert(0 < j <= i && derived_at(c, events, j));
    }
}

// ---------------------------------------------------------------------------
// What a call comes to
// ---------------------------------------------------------------------------

proof fn lemma_stages(c: HsmCallModel, events: Seq<HsmEventModel>, n: int)
    requires
        c.stage is Idle,
        0 <= n < events.len(),
    ensures
        hsm_ran(c, events.take(0)) == c,
        hsm_ran(c, events.take(n + 1)) == hsm_after(hsm_ran(c, events.take(n)), events[n]),
{
    assert(events.take(0) =~= Seq::<HsmEventModel>::empty());
    lemma_ran_step(c, events, n);
}

/// The answers of a token that has the key: the session is open, and the search gave
/// one hit.
pub open spec fn key_is_there(events: Seq<HsmEventModel>) -> bool {
    &&& events.len() >= 3
    &&& events[0] is Begin
    &&& events[1] is SessionOpened
    &&& events[2] == (HsmEventModel::KeysFound { count: 1 })
}

/// Where the token has the key and signs, the call gives the signature.
pub proof fn law_signing_succeeds(
    c: HsmCallModel,
    events: Seq<HsmEventModel>,
    bytes: Seq<u8>,
)
    requires
        c.stage is Idle,
        c.job is Sign,
        key_is_there(events),
        events.len() >= 4,
        events[3] == (HsmEventModel::Output { bytes }),
    ensures
        hsm_asked(c, events, 0) is OpenSession,
        hsm_asked(c, events, 1) is FindKey,
        hsm_asked(c, events, 2) is Sign,
        hsm_asked(c, events, 3) == (HsmActionModel::Done { reply: HsmReplyModel::Output { bytes } }),
{
    lemma_stages(c, events, 0);
    lemma_stages(c, events, 1);
    lemma_stages(c, events, 2);
}

/// Where the token has the key and says whether the signature is valid, the call gives
/// that verdict.
pub proof fn law_verifying_succeeds(c: HsmCallModel, events: Seq<HsmEventModel>)
    requires
        c.stage is Idle,
        c.job is Verify,
        key_is_there(events),
        events.len() >= 4,
        events[3] is SignatureValid || events[3] is SignatureInvalid,
    ensures
        hsm_asked(c, events, 0) is OpenSession,
        hsm_asked(c, events, 1) is FindKey,
        hsm_asked(c, events, 2) is Verify,
        hsm_asked(c, events, 3) == (HsmActionModel::Done {
            reply: HsmReplyModel::Verdict { valid: events[3] is SignatureValid },
        }),
{
    lemma_stages(c, events, 0);
    lemma_stages(c, events, 1);
    lemma_stages(c, events, 2);
}

/// Where the token has the key, draws sixteen random bytes and encrypts, the call
/// gives the ciphertext and those bytes.
pub proof fn law_encrypting_succeeds(
    c: HsmCallModel,
    events: Seq<HsmEventModel>,
    iv: Seq<u8>,
    ciphertext: Seq<u8>,
)
    requires
        c.stage is Idle,
        c.job is Encrypt,
        key_is_there(events),
        events.len() >= 5,
        events[3] == (HsmEventModel::RandomDrawn { bytes: iv }),
        iv.len() == 16,
        events[4] == (HsmEventModel::Output { bytes: ciphertext }),
    ensures
        hsm_asked(c, events, 2) is GenerateRandom,
        hsm_asked(c, events, 3) is Encrypt,
        hsm_asked(c, events, 4) == (HsmActionModel::Done {
            reply: HsmReplyModel::Sealed { iv, ciphertext },
        }),
{
    lemma_stages(c, events, 0);
    lemma_stages(c, events, 1);
    lemma_stages(c, events, 2);
    lemma_stages(c, events, 3);
}

/// The same with a key that the token derives.
pub proof fn law_encrypting_with_a_derived_key_succeeds(
    c: HsmCallModel,
    events: Seq<HsmEventModel>,
    iv: Seq<u8>,
    ciphertext: Seq<u8>,
)
    requires
        c.stage is Idle,
        c.job is DeriveAndEncrypt,
        key_is_there(events),
        events.len() >= 6,
        events[3] is KeyDerived,
        events[4] == (HsmEventModel::RandomDrawn { bytes: iv }),
        iv.len() == 16,
        events[5] == (HsmEventModel::Output { bytes: ciphertext }),
    ensures
        hsm_asked(c, events, 2) is DeriveKey,
        hsm_asked(c, events, 3) is GenerateRandom,
        hsm_asked(c, events, 4) is Encrypt,
        hsm_asked(c, events, 5) == (HsmActionModel::Done {
            reply: HsmReplyModel::Sealed { iv, ciphertext },
        }),
{
    lemma_stages(c, events, 0);
    lemma_stages(c, events, 1);
    lemma_stages(c, events, 2);
    lemma_stages(c, events, 3);
    lemma_stages(c, events, 4);
}

/// Where the job brings sixteen bytes of initialization vector, and the token has the
/// key and decrypts, the call gives the plaintext.
pub proof fn law_decrypting_succeeds(
    c: HsmCallModel,
    events: Seq<HsmEventModel>,
    bytes: Seq<u8>,
)
    requires
        c.stage is Idle,
        c.job matches HsmJobModel::Decrypt { iv, .. } && iv.len() == 16,
        key_is_there(events),
        events.len() >= 4,
        events[3] == (HsmEventModel::Output { bytes }),
    ensures
        hsm_asked(c, events, 0) is OpenSession,
        hsm_asked(c, events, 1) is FindKey,
        hsm_asked(c, events, 2) is Decrypt,
        hsm_asked(c, events, 3) == (HsmActionModel::Done { reply: HsmReplyModel::Output { bytes } }),
{
    lemma_stages(c, events, 0);
    lemma_stages(c, events, 1);
    lemma_stages(c, events, 2);
}

/// The same with a key that the token derives.
pub proof fn law_decrypting_with_a_derived_key_succeeds(
    c: HsmCallModel,
    events: Seq<HsmEventModel>,
    bytes: Seq<u8>,
)
    requires
        c.stage is Idle,
        c.job matches HsmJobModel::DeriveAndDecrypt { iv, .. } && iv.len() == 16,
        key_is_there(events),
        events.len() >= 5,
        events[3] is KeyDerived,
        events[4] == (HsmEventModel::Output { bytes }),
    ensures
        hsm_asked(c, events, 2) is DeriveKey,
        hsm_asked(c, events, 3) is Decrypt,
        hsm_asked(c, events, 4) == (HsmActionModel::Done { reply: HsmReplyModel::Output { bytes } }),
{
    lemma_stages(c, events, 0);
    lemma_stages(c, events, 1);
    lemma_stages(c, events, 2);
    lemma_stages(c, events, 3);
}

/// An initialization vector of another length than sixteen bytes fails the call, and
/// the error says so in the name of the job.
pub proof fn law_bad_iv_is_named(c: HsmCallModel)
    requires
        c.stage is Idle,
    ensures
        match c.job {
            HsmJobModel::Decrypt { iv, .. } => iv.len() != 16 ==> hsm_move(
                c,
                HsmEventModel::Begin,
            ).1 == failed_with("decrypt"@ + ": iv must be 16 bytes"@),
            HsmJobModel::DeriveAndDecrypt { iv, .. } => iv.len() != 16 ==> hsm_move(
                c,
                HsmEventModel::Begin,
            ).1 == failed_with("derive_and_decrypt"@ + ": iv must be 16 bytes"@),
            _ => hsm_move(c, HsmEventModel::Begin).1 is OpenSession,
        },
{
}

/// The end of a call with an error.
pub open spec fn failed_with(cause: Seq<char>) -> HsmActionModel {
    HsmActionModel::Done { reply: HsmReplyModel::Failed { cause } }
}

/// The label of a job.
pub open spec fn job_label(job: HsmJobModel) -> Seq<char> {
    match job {
        HsmJobModel::Sign { label, .. } => label,
        HsmJobModel::Verify { label, .. } => label,
        HsmJobModel::Encrypt { label, .. } => label,
        HsmJobModel::Decrypt { label, .. } => label,
        HsmJobModel::DeriveAndEncrypt { label, .. } => label,
        HsmJobModel::DeriveAndDecrypt { label, .. } => label,
    }
}

proof fn lemma_stage_of_action(c: HsmCallModel, events: Seq<HsmEventModel>, n: int)
    requires
        0 < n <= events.len(),
    ensures
        match hsm_asked(c, events, n - 1) {
            HsmActionModel::OpenSession { .. } => hsm_ran(c, events.take(n)).stage is Opening,
            HsmActionModel::FindKey { .. } => hsm_ran(c, events.take(n)).stage is Finding,
            HsmActionModel::DeriveKey { .. } => hsm_ran(c, events.take(n)).stage is Deriving,
            HsmActionModel::GenerateRandom { .. } => hsm_ran(c, events.take(n)).stage is Drawing,
            HsmActionModel::Encrypt { .. } => hsm_ran(c, events.take(n)).stage is Sealing,
            HsmActionModel::Done { .. } => hsm_ran(c, events.take(n)).stage is Finished,
            _ => hsm_ran(c, events.take(n)).stage is Working,
        },
{
    lemma_ran_step(c, events, n - 1);
}

/// A search that does not give one hit ends the call, and the error names the label
/// and what was wrong; one hit goes on.
pub proof fn law_search_without_one_hit_fails(
    c: HsmCallModel,
    events: Seq<HsmEventModel>,
    i: int,
    count: int,
)
    requires
        0 < i < events.len(),
        hsm_asked(c, events, i - 1) is FindKey,
        events[i] == (HsmEventModel::KeysFound { count }),
        count >= 0,
    ensures
        count == 0 ==> hsm_asked(c, events, i) == failed_with(
            "key "@ + debug_quoted(job_label(c.job)) + ": "@ + "not found"@,
        ),
        count > 1 ==> hsm_asked(c, events, i) == failed_with(
            "key "@ + debug_quoted(job_label(c.job)) + ": "@
                + "ambiguous (multiple objects with this label+class)"@,
        ),
        count == 1 ==> !(hsm_asked(c, events, i) is Done),
{
    lemma_stage_of_action(c, events, i);
    lemma_ran_keeps_job(c, events.take(i));
}

/// Random bytes of another number than sixteen fail the call.
pub proof fn law_wrong_number_of_random_bytes_fails(
    c: HsmCallModel,
    events: Seq<HsmEventModel>,
    i: int,
    bytes: Seq<u8>,
)
    requires
        0 < i < events.len(),
        hsm_asked(c, events, i - 1) is GenerateRandom,
        events[i] == (HsmEventModel::RandomDrawn { bytes }),
    ensures
        bytes.len() != 16 ==> hsm_asked(c, events, i) == failed_with(
            "HSM RNG returned wrong length"@,
        ),
        bytes.len() == 16 ==> hsm_asked(c, events, i) is Encrypt,
{
    lemma_stage_of_action(c, events, i);
    lemma_ran_keeps_job(c, events.take(i));
    lemma_ran_keeps_job(c, events.take(i - 1));
}

/// Where an action fails the call fails, and the error says what failed, for which
/// key, and why: of the session and the search only why.
pub proof fn law_failure_says_what_failed(
    c: HsmCallModel,
    events: Seq<HsmEventModel>,
    i: int,
    cause: Seq<char>,
)
    requires
        0 < i < events.len(),
        !(hsm_asked(c, events, i - 1) is Done),
        events[i] == (HsmEventModel::Failed { cause }),
    ensures
        ({
            let quoted = debug_quoted(job_label(c.job));
            let words = match hsm_asked(c, events, i - 1) {
                HsmActionModel::DeriveKey { .. } => "HSM ECDH derive failed for "@ + quoted + ": "@
                    + cause,
                HsmActionModel::GenerateRandom { .. } => "HSM RNG failed: "@ + cause,
                HsmActionModel::Sign { .. } => "HSM "@ + "sign"@ + " failed for "@ + quoted + ": "@
                    + cause,
                HsmActionModel::Verify { .. } => "HSM "@ + "verify"@ + " failed for "@ + quoted
                    + ": "@ + cause,
                HsmActionModel::Encrypt { .. } => if c.job is Encrypt {
                    "HSM "@ + "encrypt"@ + " failed for "@ + quoted + ": "@ + cause
                } else {
                    "HSM "@ + "derive_and_encrypt"@ + " failed for "@ + quoted + ": "@ + cause
                },
                HsmActionModel::Decrypt { .. } => if c.job is Decrypt {
                    "HSM "@ + "decrypt"@ + " failed for "@ + quoted + ": "@ + cause
                } else {
                    "HSM "@ + "derive_and_decrypt"@ + " failed for "@ + quoted + ": "@ + cause
                },
                _ => cause,
            };
            hsm_asked(c, events, i) == failed_with(words)
        }),
{
    lemma_stage_of_action(c, events, i);
    lemma_ran_keeps_job(c, events.take(i));
    lemma_ran_keeps_job(c, events.take(i - 1));
}

/// The answer is one to what was asked.
pub open spec fn answers_what_was_asked(asked: HsmActionModel, event: HsmEventModel) -> bool {
    match asked {
        HsmActionModel::OpenSession { .. } => event is SessionOpened,
        HsmActionModel::FindKey { .. } => event is KeysFound,
        HsmActionModel::DeriveKey { .. } => event is KeyDerived,
        HsmActionModel::GenerateRandom { .. } => event is RandomDrawn,
        HsmActionModel::Verify { .. } => event is SignatureValid || event is SignatureInvalid,
        HsmActionModel::Done { .. } => false,
        _ => event is Output,
    }
}

/// An answer to something that was not asked fails the call, and so does any answer after
/// its end.
pub proof fn law_answer_to_nothing_asked_fails(
    c: HsmCallModel,
    events: Seq<HsmEventModel>,
    i: int,
)
    requires
        0 < i < events.len(),
        !answers_what_was_asked(hsm_asked(c, events, i - 1), events[i]),
        events[i] is Failed ==> hsm_asked(c, events, i - 1) is Done,
    ensures
        hsm_asked(c, events, i) == failed_with("unexpected HSM event"@),
{
    lemma_stage_of_action(c, events, i);
    lemma_ran_keeps_job(c, events.take(i));
    lemma_ran_keeps_job(c, events.take(i - 1));
}

/// A call that has not begun does nothing but begin.
pub proof fn law_idle_call_only_begins(slot: u64, job: HsmJobModel, event: HsmEventModel)
    requires
        !(event is Begin),
    ensures
        ({
            let c = HsmCallModel { slot, job, stage: HsmStageModel::Idle };
            hsm_move(c, event).1 == failed_with(
                match event {
                    HsmEventModel::Failed { cause } => cause,
                    _ => "unexpected HSM event"@,
                },
            )
        }),
{
}

/// Calls begin with nothing asked, on the slot and with the job that they were made
/// for.
pub proof fn law_calls_begin_idle(slot: u64, job: HsmJobModel)
    ensures
        idle_call(slot, job).slot == slot,
        idle_call(slot, job).job == job,
        idle_call(slot, job).stage is Idle,
{
}

/// What the models say of an action is what the action holds.
pub proof fn law_action_models_are_faithful(action: HsmAction)
    ensures
        match action {
            HsmAction::OpenSession { slot } => action@ == (HsmActionModel::OpenSession { slot }),
            HsmAction::FindKey { class, label } => action@ == (HsmActionModel::FindKey {
                class,
                label: label@,
            }),
            HsmAction::DeriveKey { peer_public_key, shared_data, template } => action@ == (
            HsmActionModel::DeriveKey {
                peer_public_key: peer_public_key@,
                shared_data: shared_data@,
                template,
            }),
            HsmAction::GenerateRandom { len } => action@ == (HsmActionModel::GenerateRandom { len }),
            HsmAction::Sign { key, data } => action@ == (HsmActionModel::Sign { key, data: data@ }),
            HsmAction::Verify { key, data, signature } => action@ == (HsmActionModel::Verify {
                key,
                data: data@,
                signature: signature@,
            }),
            HsmAction::Encrypt { key, iv, plaintext } => action@ == (HsmActionModel::Encrypt {
                key,
                iv: iv@,
                plaintext: plaintext@,
            }),
            HsmAction::Decrypt { key, iv, ciphertext } => action@ == (HsmActionModel::Decrypt {
                key,
                iv: iv@,
                ciphertext: ciphertext@,
            }),
            HsmAction::Done { reply } => action@ == (HsmActionModel::Done { reply: reply@ }),
        },
{
}

/// What the models say of a reply is what the reply holds.
pub proof fn law_reply_models_are_faithful(reply: HsmReply)
    ensures
        match reply {
            HsmReply::Output { bytes } => reply@ == (HsmReplyModel::Output { bytes: bytes@ }),
            HsmReply::Verdict { valid } => reply@ == (HsmReplyModel::Verdict { valid }),
            HsmReply::Sealed { iv, ciphertext } => reply@ == (HsmReplyModel::Sealed {
                iv: iv@,
                ciphertext: ciphertext@,
            }),
            HsmReply::Failed { cause } => reply@ == (HsmReplyModel::Failed { cause: cause@ }),
        },
{
}

/// What the models say of an answer is what the answer holds.
pub proof fn law_event_models_are_faithful(event: HsmEvent)
    ensures
        match event {
            HsmEvent::Begin => event@ is Begin,
            HsmEvent::SessionOpened => event@ is SessionOpened,
            HsmEvent::KeysFound { count } => event@ == (HsmEventModel::KeysFound {
                count: count as int,
            }),
            HsmEvent::KeyDerived => event@ is KeyDerived,
            HsmEvent::RandomDrawn { bytes } => event@ == (HsmEventModel::RandomDrawn {
                bytes: bytes@,
            }),
            HsmEvent::Output { bytes } => event@ == (HsmEventModel::Output { bytes: bytes@ }),
            HsmEvent::SignatureValid => event@ is SignatureValid,
            HsmEvent::SignatureInvalid => event@ is SignatureInvalid,
            HsmEvent::Failed { cause } => event@ == (HsmEventModel::Failed { cause: cause@ }),
        },
{
}

} // verus!
