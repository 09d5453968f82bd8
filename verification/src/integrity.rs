//! What the gateway signs to authenticate a ciphertext (encrypt, then sign).

use vstd::prelude::*;
use vstd::string::*;
use vstd::utf8::{encode_utf8, encode_utf8_decode_utf8};

use crate::codec::{fits, frame, framed, law_framing_is_injective, lemma_framed_push, push_frame};

verus! {

/// Domain separator of the integrity payload.
pub const INTEGRITY_DOMAIN: &'static str = "pico-hsm-api-connector/integrity-v1";

/// The fields of the payload: domain, key label, initialization vector and
/// ciphertext.
pub open spec fn payload_parts(label: Seq<char>, iv: Seq<u8>, ciphertext: Seq<u8>) -> Seq<Seq<u8>> {
    seq![encode_utf8(INTEGRITY_DOMAIN@), encode_utf8(label), iv, ciphertext]
}

/// The integrity payload: each field with its length in front.
pub open spec fn payload(label: Seq<char>, iv: Seq<u8>, ciphertext: Seq<u8>) -> Seq<u8> {
    framed(payload_parts(label, iv, ciphertext))
}

/// The canonical integrity payload. The key label in it prevents that a ciphertext
/// is replayed under another key.
pub fn integrity_payload(key_label: &str, iv: &[u8], ciphertext: &[u8]) -> (r: Vec<u8>)
    ensures
        r@ == payload(key_label@, iv@, ciphertext@),
{
    let mut out: Vec<u8> = Vec::new();
    push_frame(&mut out, INTEGRITY_DOMAIN.as_bytes());
    push_frame(&mut out, key_label.as_bytes());
    push_frame(&mut out, iv);
    push_frame(&mut out, ciphertext);
    proof {
        let p0: Seq<Seq<u8>> = Seq::empty();
        let p1 = p0.push(encode_utf8(INTEGRITY_DOMAIN@));
        let p2 = p1.push(encode_utf8(key_label@));
        let p3 = p2.push(iv@);
        lemma_framed_push(p0, encode_utf8(INTEGRITY_DOMAIN@));
        lemma_framed_push(p1, encode_utf8(key_label@));
        lemma_framed_push(p2, iv@);
        lemma_framed_push(p3, ciphertext@);
        assert(p3.push(ciphertext@) =~= payload_parts(key_label@, iv@, ciphertext@));
        assert(out@ =~= payload(key_label@, iv@, ciphertext@));
    }
    out
}

/// The payload binds label, initialization vector and ciphertext: where one of
/// them differs, so does the payload.
pub proof fn law_payload_binds_label_iv_and_ciphertext(
    label1: Seq<char>,
    iv1: Seq<u8>,
    ciphertext1: Seq<u8>,
    label2: Seq<char>,
    iv2: Seq<u8>,
    ciphertext2: Seq<u8>,
)
    requires
        fits(payload_parts(label1, iv1, ciphertext1)),
        fits(payload_parts(label2, iv2, ciphertext2)),
        payload(label1, iv1, ciphertext1) == payload(label2, iv2, ciphertext2),
    ensures
        label1 == label2,
        iv1 == iv2,
        ciphertext1 == ciphertext2,
{
    let p = payload_parts(label1, iv1, ciphertext1);
    let q = payload_parts(label2, iv2, ciphertext2);
    law_framing_is_injective(p, q);
    assert(p[1] == q[1] && p[2] == q[2] && p[3] == q[3]);
    encode_utf8_decode_utf8(label1);
    encode_utf8_decode_utf8(label2);
}

/// The payload is four frames: of the domain, of the label in UTF-8, of the
/// initialization vector and of the ciphertext, each whole and in this order.
pub proof fn law_payload_layout(label: Seq<char>, iv: Seq<u8>, ciphertext: Seq<u8>)
    ensures
        payload(label, iv, ciphertext) == frame(
            encode_utf8("pico-hsm-api-connector/integrity-v1"@),
        ) + frame(encode_utf8(label)) + frame(iv) + frame(ciphertext),
{
    let p0: Seq<Seq<u8>> = Seq::empty();
    let domain = encode_utf8("pico-hsm-api-connector/integrity-v1"@);
    let p1 = p0.push(domain);
    let p2 = p1.push(encode_utf8(label));
    let p3 = p2.push(iv);
    lemma_framed_push(p0, domain);
    lemma_framed_push(p1, encode_utf8(label));
    lemma_framed_push(p2, iv);
    lemma_framed_push(p3, ciphertext);
    assert(p3.push(ciphertext) =~= payload_parts(label, iv, ciphertext));
    assert(framed(p0) + frame(domain) =~= frame(domain));
}

} // verus!
