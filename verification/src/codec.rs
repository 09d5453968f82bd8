//! Byte encodings: base64 and SHA-256 as the outside crates compute them, and
//! the length-prefixed framing that integrity payloads and audit hashes share.

use base64::engine::general_purpose::STANDARD;
use base64::Engine;
use sha2::{Digest, Sha256};
use vstd::prelude::*;

use crate::text::{hex, hex_text};

verus! {

/// The standard base64 text of some bytes, with padding.
pub uninterp spec fn b64_encoded(bytes: Seq<u8>) -> Seq<char>;

/// The bytes that a text stands for in standard base64 with padding, where it
/// is such a text.
pub uninterp spec fn b64_decoded(text: Seq<char>) -> Option<Seq<u8>>;

/// The SHA-256 digest of some bytes.
pub uninterp spec fn sha256(bytes: Seq<u8>) -> Seq<u8>;

/// A text that is not base64, or is the base64 text of the bytes it stands for.
pub open spec fn canonical(text: Seq<char>) -> bool {
    b64_decoded(text) matches Some(bytes) ==> b64_encoded(bytes) == text
}

/// `Engine::encode` of the crate base64, with its engine `STANDARD`. The
/// contract names the text, says how long it is (four characters for every
/// three bytes begun), and that decoding it gives the bytes back. No slice is so
/// long that this length overflows a `usize`.
#[verifier::external_body]
pub(crate) fn b64_encode(bytes: &[u8]) -> (r: String)
    ensures
        r@ == b64_encoded(bytes@),
        r@.len() == 4 * ((bytes@.len() + 2) / 3),
        b64_decoded(r@) == Some(bytes@),
{
    STANDARD.encode(bytes)
}

/// `Engine::decode` of the crate base64, with its engine `STANDARD`. The
/// contract names the result; a text that is not valid gives `None`. The engine takes
/// no text with wrong padding or with bits left over, so what it takes is the text
/// that encoding the bytes gives.
#[verifier::external_body]
pub(crate) fn b64_decode(text: &str) -> (r: Option<Vec<u8>>)
    ensures
        match r {
            Some(bytes) => b64_decoded(text@) == Some(bytes@) && b64_encoded(bytes@) == text@,
            None => b64_decoded(text@) is None,
        },
{
    match STANDARD.decode(text) {
        Ok(bytes) => Some(bytes),
        Err(_) => None,
    }
}

/// `Sha256::digest` of the crate sha2. The contract names the digest and says
/// that it has 32 bytes.
#[verifier::external_body]
pub(crate) fn sha256_digest(bytes: &[u8]) -> (r: Vec<u8>)
    ensures
        r@ == sha256(bytes@),
        r@.len() == 32,
{
    Sha256::digest(bytes).to_vec()
}

/// The SHA-256 fingerprint of some bytes, in lower-case hexadecimal.
pub fn hex_sha256(bytes: &[u8]) -> (r: String)
    ensures
        r@ == hex(sha256(bytes@)),
{
    let digest = sha256_digest(bytes);
    hex_text(digest.as_slice())
}

/// Eight bytes, most significant first.
#[verifier::opaque]
pub open spec fn be64(n: nat) -> Seq<u8> {
    seq![
        (n / 0x100_0000_0000_0000 % 256) as u8,
        (n / 0x1_0000_0000_0000 % 256) as u8,
        (n / 0x100_0000_0000 % 256) as u8,
        (n / 0x1_0000_0000 % 256) as u8,
        (n / 0x100_0000 % 256) as u8,
        (n / 0x1_0000 % 256) as u8,
        (n / 0x100 % 256) as u8,
        (n % 256) as u8,
    ]
}

/// One field: its length in eight bytes, then the field.
pub open spec fn frame(part: Seq<u8>) -> Seq<u8> {
    be64(part.len()) + part
}

/// The frames of all fields, in order.
pub open spec fn framed(parts: Seq<Seq<u8>>) -> Seq<u8>
    decreases parts.len(),
{
    if parts.len() == 0 {
        Seq::empty()
    } else {
        frame(parts[0]) + framed(parts.drop_first())
    }
}

/// A length fits in the eight bytes of a frame.
pub open spec fn fits(parts: Seq<Seq<u8>>) -> bool {
    forall|i: int| 0 <= i < parts.len() ==> (#[trigger] parts[i]).len() <= u64::MAX
}

proof fn lemma_be64_len(n: nat)
    ensures
        be64(n).len() == 8,
{
    reveal(be64);
}

proof fn lemma_base256(n: nat)
    requires
        n <= u64::MAX,
    ensures
        n == n / 0x100_0000_0000_0000 % 256 * 0x100_0000_0000_0000 + n / 0x1_0000_0000_0000 % 256
            * 0x1_0000_0000_0000 + n / 0x100_0000_0000 % 256 * 0x100_0000_0000 + n / 0x1_0000_0000
            % 256 * 0x1_0000_0000 + n / 0x100_0000 % 256 * 0x100_0000 + n / 0x1_0000 % 256 * 0x1_0000
            + n / 0x100 % 256 * 0x100 + n % 256,
{
    let n1 = n / 256;
    let n2 = n1 / 256;
    let n3 = n2 / 256;
    let n4 = n3 / 256;
    let n5 = n4 / 256;
    let n6 = n5 / 256;
    let n7 = n6 / 256;
    assert(n / 0x1_0000 == n2);
    assert(n / 0x100_0000 == n3);
    assert(n / 0x1_0000_0000 == n4);
    assert(n / 0x100_0000_0000 == n5);
    assert(n / 0x1_0000_0000_0000 == n6);
    assert(n / 0x100_0000_0000_0000 == n7);
    assert(n7 < 256);
}

proof fn lemma_be64_injective(m: nat, n: nat)
    requires
        m <= u64::MAX,
        n <= u64::MAX,
        be64(m) == be64(n),
    ensures
        m == n,
{
    reveal(be64);
    let a = be64(m);
    let b = be64(n);
    assert(a[0] == b[0] && a[1] == b[1] && a[2] == b[2] && a[3] == b[3]);
    assert(a[4] == b[4] && a[5] == b[5] && a[6] == b[6] && a[7] == b[7]);
    lemma_base256(m);
    lemma_base256(n);
}

/// Field boundaries cannot shift: two lists of fields with the same framing are
/// the same list.
pub proof fn law_framing_is_injective(p: Seq<Seq<u8>>, q: Seq<Seq<u8>>)
    requires
        fits(p),
        fits(q),
        framed(p) == framed(q),
    ensures
        p == q,
    decreases p.len(),
{
    if p.len() > 0 {
        lemma_be64_len(p[0].len());
    }
    if q.len() > 0 {
        lemma_be64_len(q[0].len());
    }
    if p.len() == 0 {
        if q.len() > 0 {
            assert(framed(q).len() == frame(q[0]).len() + framed(q.drop_first()).len());
        }
        assert(p =~= q);
    } else if q.len() == 0 {
        assert(framed(p).len() == frame(p[0]).len() + framed(p.drop_first()).len());
    } else {
        let x = framed(p);
        let y = framed(q);
        assert(x.take(8) =~= be64(p[0].len()));
        assert(y.take(8) =~= be64(q[0].len()));
        lemma_be64_injective(p[0].len(), q[0].len());
        let n = (8 + p[0].len()) as int;
        assert(x.subrange(8, n) =~= p[0]);
        assert(y.subrange(8, n) =~= q[0]);
        assert(x.skip(n) =~= framed(p.drop_first()));
        assert(y.skip(n) =~= framed(q.drop_first()));
        let pr = p.drop_first();
        let qr = q.drop_first();
        assert(fits(pr)) by {
            assert forall|i: int| 0 <= i < pr.len() implies (#[trigger] pr[i]).len()
                <= u64::MAX by {
                assert(pr[i] == p[i + 1]);
            }
        }
        assert(fits(qr)) by {
            assert forall|i: int| 0 <= i < qr.len() implies (#[trigger] qr[i]).len()
                <= u64::MAX by {
                assert(qr[i] == q[i + 1]);
            }
        }
        law_framing_is_injective(pr, qr);
        assert(p =~= seq![p[0]] + pr);
        assert(q =~= seq![q[0]] + qr);
    }
}

/// The framing of a list that ends in `last`.
pub(crate) proof fn lemma_framed_push(parts: Seq<Seq<u8>>, last: Seq<u8>)
    ensures
        framed(parts.push(last)) == framed(parts) + frame(last),
    decreases parts.len(),
{
    let all = parts.push(last);
    if parts.len() == 0 {
        assert(all.drop_first() =~= parts);
        assert(framed(all) == frame(last) + framed(parts));
        assert(framed(all) =~= framed(parts) + frame(last));
    } else {
        let rest = parts.drop_first();
        lemma_framed_push(rest, last);
        assert(all[0] == parts[0]);
        assert(all.drop_first() =~= rest.push(last));
        assert(framed(all) =~= framed(parts) + frame(last));
    }
}

/// Appends one frame.
pub(crate) fn push_frame(out: &mut Vec<u8>, part: &[u8])
    ensures
        final(out)@ == old(out)@ + frame(part@),
{
    reveal(be64);
    let n: u64 = part.len() as u64;
    out.push((n / 0x100_0000_0000_0000 % 256) as u8);
    out.push((n / 0x1_0000_0000_0000 % 256) as u8);
    out.push((n / 0x100_0000_0000 % 256) as u8);
    out.push((n / 0x1_0000_0000 % 256) as u8);
    out.push((n / 0x100_0000 % 256) as u8);
    out.push((n / 0x1_0000 % 256) as u8);
    out.push((n / 0x100 % 256) as u8);
    out.push((n % 256) as u8);
    assert(out@ =~= old(out)@ + be64(part@.len()));
    out.extend_from_slice(part);
    assert(out@ =~= old(out)@ + frame(part@));
}

/// A frame is eight bytes that hold the length of the field, the most significant one
/// first, and then the field, unchanged.
pub proof fn law_frame_layout(part: Seq<u8>)
    requires
        part.len() <= u64::MAX,
    ensures
        frame(part).len() == 8 + part.len(),
        frame(part).skip(8) == part,
        frame(part)[0] * 0x100_0000_0000_0000 + frame(part)[1] * 0x1_0000_0000_0000 + frame(part)[2]
            * 0x100_0000_0000 + frame(part)[3] * 0x1_0000_0000 + frame(part)[4] * 0x100_0000
            + frame(part)[5] * 0x1_0000 + frame(part)[6] * 0x100 + frame(part)[7] == part.len(),
{
    reveal(be64);
    lemma_base256(part.len());
    assert(frame(part).skip(8) =~= part);
}

/// The framing of a list is that of its parts, one behind the other: nothing for an
/// empty list, and one frame for one field.
pub proof fn law_framing_is_by_parts(p: Seq<Seq<u8>>, q: Seq<Seq<u8>>, part: Seq<u8>)
    ensures
        framed(p + q) == framed(p) + framed(q),
        framed(Seq::<Seq<u8>>::empty()) == Seq::<u8>::empty(),
        framed(seq![part]) == frame(part),
    decreases p.len(),
{
    let one = seq![part];
    let none = Seq::<Seq<u8>>::empty();
    assert(framed(none) =~= Seq::<u8>::empty());
    assert(one.drop_first() =~= none);
    assert(framed(one) == frame(part) + framed(none));
    assert(framed(one) =~= frame(part));
    if p.len() == 0 {
        assert(p + q =~= q);
        assert(framed(p) + framed(q) =~= framed(q));
    } else {
        law_framing_is_by_parts(p.drop_first(), q, part);
        assert((p + q).drop_first() =~= p.drop_first() + q);
        assert((p + q)[0] == p[0]);
        assert(framed(p + q) =~= framed(p) + framed(q));
    }
}

} // verus!
