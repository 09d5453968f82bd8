//! What the hash chain of the audit log promises.

use vstd::prelude::*;
use vstd::utf8::{encode_utf8, encode_utf8_decode_utf8};

use crate::audit::{
    chain_error_words, chain_fault, chained, continues, covered, entries_of, entry_digest, genuine,
    entry_fault, lemma_chain_grows, line_fault, log_lines, next_entry, outcome_json, settled, tip,
    unsealed, AuditModel, ChainFault, ChainFaultModel, Entry, EntryModel, LineModel, LogLine, Outcome, GENESIS,
};
use crate::codec::{
    b64_encoded, fits, frame, framed, law_framing_is_injective, lemma_framed_push, sha256,
};
use crate::text::decimal;

verus! {

/// Every line is blank or holds an entry.
pub open spec fn readable(lines: Seq<LineModel>) -> bool {
    forall|i: int|
        0 <= i < lines.len() ==> (#[trigger] lines[i]) is Entry || lines[i] is Blank
}

proof fn lemma_no_fault_from(lines: Seq<LineModel>, k: int)
    requires
        0 <= k <= lines.len(),
    ensures
        chain_fault(lines, k) is None <==> forall|i: int|
            k <= i < lines.len() ==> #[trigger] line_fault(lines, i) is None,
    decreases lines.len() - k,
{
    if k < lines.len() {
        lemma_no_fault_from(lines, k + 1);
    }
}

proof fn lemma_faultless_iff_chained(lines: Seq<LineModel>, n: int)
    requires
        0 <= n <= lines.len(),
    ensures
        (forall|i: int| 0 <= i < n ==> #[trigger] line_fault(lines, i) is None) <==> readable(
            lines.take(n),
        ) && chained(entries_of(lines.take(n))),
    decreases n,
{
    if n == 0 {
        assert(lines.take(0) =~= Seq::<LineModel>::empty());
    } else {
        let m = n - 1;
        lemma_faultless_iff_chained(lines, m);
        let some = lines.take(n);
        assert(some.drop_last() =~= lines.take(m));
        assert(some.last() == lines[m]);
        let before = entries_of(lines.take(m));
        let all = entries_of(some);
        assert(readable(some) <==> readable(lines.take(m)) && (lines[m] is Entry
            || lines[m] is Blank)) by {
            assert forall|i: int| readable(some) && 0 <= i < m implies (#[trigger] lines.take(
                m,
            )[i]) is Entry || lines.take(m)[i] is Blank by {
                assert(some[i] == lines.take(m)[i]);
            }
            assert forall|i: int|
                readable(lines.take(m)) && 0 <= i < m implies (#[trigger] some[i]) is Entry
                || some[i] is Blank by {
                assert(some[i] == lines.take(m)[i]);
            }
            if readable(some) {
                assert(some[m] is Entry || some[m] is Blank);
            }
        }
        if let LineModel::Entry(e) = lines[m] {
            assert(all == before.push(e));
            if chained(all) {
                assert forall|i: int| 0 <= i < before.len() implies continues(
                    tip(before.take(i)),
                    #[trigger] before[i],
                ) by {
                    assert(all[i] == before[i]);
                    assert(all.take(i) =~= before.take(i));
                }
                assert(all[before.len() as int] == e);
                assert(all.take(before.len() as int) =~= before);
            }
            if chained(before) && continues(tip(before), e) {
                lemma_chain_grows(before, e);
            }
        }
        if forall|i: int| 0 <= i < n ==> #[trigger] line_fault(lines, i) is None {
            assert(line_fault(lines, m) is None);
        }
    }
}

/// A log verifies exactly where every line that is not blank holds an entry and
/// the entries form a chain.
pub proof fn law_verified_iff_chained(lines: Seq<LineModel>)
    ensures
        chain_fault(lines, 0) is None <==> readable(lines) && chained(entries_of(lines)),
{
    lemma_no_fault_from(lines, 0);
    lemma_faultless_iff_chained(lines, lines.len() as int);
    assert(lines.take(lines.len() as int) =~= lines);
}

/// The lines that entries are written in.
pub open spec fn written_lines(entries: Seq<EntryModel>) -> Seq<LineModel> {
    Seq::new(entries.len(), |i: int| LineModel::Entry(entries[i]))
}

proof fn lemma_written_lines(entries: Seq<EntryModel>)
    ensures
        readable(written_lines(entries)),
        entries_of(written_lines(entries)) == entries,
    decreases entries.len(),
{
    let lines = written_lines(entries);
    if entries.len() > 0 {
        lemma_written_lines(entries.drop_last());
        assert(lines.drop_last() =~= written_lines(entries.drop_last()));
        assert(lines.last() == LineModel::Entry(entries.last()));
        assert(entries.drop_last().push(entries.last()) =~= entries);
    }
}

/// What a log wrote verifies, ends in the log's last hash, and reopens as the same
/// entries.
pub proof fn law_written_log_verifies(entries: Seq<EntryModel>)
    requires
        chained(entries),
    ensures
        chain_fault(written_lines(entries), 0) is None,
        entries_of(written_lines(entries)) == entries,
        tip(entries_of(written_lines(entries))) == tip(entries),
{
    lemma_written_lines(entries);
    law_verified_iff_chained(written_lines(entries));
}

/// A missing or empty log, or one of blank lines alone, is an empty chain that
/// ends in `GENESIS`.
pub proof fn law_blank_log_is_empty_chain(lines: Seq<LineModel>)
    requires
        forall|i: int| 0 <= i < lines.len() ==> (#[trigger] lines[i]) is Blank,
    ensures
        chain_fault(lines, 0) is None,
        tip(entries_of(lines)) == GENESIS@,
{
    lemma_blank_lines_hold_nothing(lines);
    law_verified_iff_chained(lines);
}

proof fn lemma_blank_lines_hold_nothing(lines: Seq<LineModel>)
    requires
        forall|i: int| 0 <= i < lines.len() ==> (#[trigger] lines[i]) is Blank,
    ensures
        entries_of(lines).len() == 0,
    decreases lines.len(),
{
    if lines.len() > 0 {
        let rest = lines.drop_last();
        assert forall|i: int| 0 <= i < rest.len() implies (#[trigger] rest[i]) is Blank by {
            assert(rest[i] == lines[i]);
        }
        assert(lines[lines.len() - 1] is Blank);
        lemma_blank_lines_hold_nothing(rest);
    }
}

/// The lengths of an entry's covered fields fit in their prefixes.
pub open spec fn encodable(e: EntryModel) -> bool {
    fits(covered(e))
}

/// Every entry is encodable.
pub open spec fn all_encodable(entries: Seq<EntryModel>) -> bool {
    forall|i: int| 0 <= i < entries.len() ==> encodable(#[trigger] entries[i])
}

/// Two entries that differ in a covered field and have the same hash text: a
/// collision of SHA-256, or of the text written for its digest.
pub open spec fn collide(a: EntryModel, b: EntryModel) -> bool {
    &&& framed(covered(a)) != framed(covered(b))
    &&& entry_digest(a) == entry_digest(b)
}

proof fn lemma_outcomes_differ(a: Outcome, b: Outcome)
    requires
        outcome_json(a) == outcome_json(b),
    ensures
        a == b,
{
    reveal_strlit("\"intent\"");
    reveal_strlit("\"authorized\"");
    reveal_strlit("\"denied\"");
    reveal_strlit("\"error\"");
    reveal_strlit("\"cert_expiring_soon\"");
    assert("\"intent\""@.len() == 8 && "\"intent\""@[1] == 'i');
    assert("\"authorized\""@.len() == 12);
    assert("\"denied\""@.len() == 8 && "\"denied\""@[1] == 'd');
    assert("\"error\""@.len() == 7);
    assert("\"cert_expiring_soon\""@.len() == 20);
}

/// The hash covers every field: two entries that carry the same proper hash agree
/// in all fields, or they are a collision.
pub proof fn law_hash_covers_every_field(a: EntryModel, b: EntryModel)
    requires
        encodable(a),
        encodable(b),
        a.hash_b64 == entry_digest(a),
        b.hash_b64 == entry_digest(b),
        a.hash_b64 == b.hash_b64,
    ensures
        a == b || collide(a, b),
{
    if !collide(a, b) {
        law_framing_is_injective(covered(a), covered(b));
        let p = covered(a);
        let q = covered(b);
        assert(p[0] == q[0] && p[1] == q[1] && p[2] == q[2] && p[3] == q[3] && p[4] == q[4]
            && p[5] == q[5] && p[6] == q[6]);
        encode_utf8_decode_utf8(a.prev_hash_b64);
        encode_utf8_decode_utf8(b.prev_hash_b64);
        encode_utf8_decode_utf8(a.ts);
        encode_utf8_decode_utf8(b.ts);
        encode_utf8_decode_utf8(a.cn);
        encode_utf8_decode_utf8(b.cn);
        encode_utf8_decode_utf8(a.operation);
        encode_utf8_decode_utf8(b.operation);
        encode_utf8_decode_utf8(a.key_label);
        encode_utf8_decode_utf8(b.key_label);
        encode_utf8_decode_utf8(outcome_json(a.outcome));
        encode_utf8_decode_utf8(outcome_json(b.outcome));
        encode_utf8_decode_utf8(a.detail);
        encode_utf8_decode_utf8(b.detail);
        lemma_outcomes_differ(a.outcome, b.outcome);
        assert(a == b);
    }
}

/// Some entry of one list collides with some entry of another.
pub open spec fn colliding(a: Seq<EntryModel>, b: Seq<EntryModel>) -> bool {
    exists|i: int, j: int|
        0 <= i < a.len() && 0 <= j < b.len() && collide(#[trigger] a[i], #[trigger] b[j])
}

/// The last hash pins the whole log: two chains that end in the same hash hold the
/// same entries, or the hash function was made to collide.
pub proof fn law_last_hash_pins_the_log(a: Seq<EntryModel>, b: Seq<EntryModel>)
    requires
        chained(a),
        chained(b),
        genuine(a),
        genuine(b),
        all_encodable(a),
        all_encodable(b),
        tip(a) == tip(b),
    ensures
        a == b || colliding(a, b),
    decreases a.len() + b.len(),
{
    if a.len() == 0 || b.len() == 0 {
        if a.len() > 0 {
            assert(a[a.len() - 1].hash_b64 != GENESIS@);
        }
        if b.len() > 0 {
            assert(b[b.len() - 1].hash_b64 != GENESIS@);
        }
        assert(a =~= b);
    } else {
        let x = a.last();
        let y = b.last();
        let ar = a.drop_last();
        let br = b.drop_last();
        assert(x == a[a.len() - 1] && y == b[b.len() - 1]);
        assert(a.take(a.len() - 1) =~= ar);
        assert(b.take(b.len() - 1) =~= br);
        law_hash_covers_every_field(x, y);
        if x == y {
            lemma_shorter_chain(a, a.len() - 1);
            lemma_shorter_chain(b, b.len() - 1);
            law_last_hash_pins_the_log(ar, br);
            if ar == br {
                assert(a =~= ar.push(x));
                assert(b =~= br.push(y));
            } else {
                let (i, j) = choose|i: int, j: int|
                    0 <= i < ar.len() && 0 <= j < br.len() && collide(
                        #[trigger] ar[i],
                        #[trigger] br[j],
                    );
                assert(a[i] == ar[i] && b[j] == br[j]);
            }
        }
    }
}

proof fn lemma_shorter_chain(s: Seq<EntryModel>, n: int)
    requires
        0 <= n <= s.len(),
        chained(s),
        genuine(s),
        all_encodable(s),
    ensures
        chained(s.take(n)),
        genuine(s.take(n)),
        all_encodable(s.take(n)),
{
    let t = s.take(n);
    assert forall|i: int| 0 <= i < t.len() implies continues(tip(t.take(i)), #[trigger] t[i])
        && t[i].hash_b64 != GENESIS@ && encodable(t[i]) by {
        assert(t[i] == s[i]);
        assert(t.take(i) =~= s.take(i));
    }
}

/// Tampering is detected: where one entry is changed in any field and nothing else
/// is, the log no longer verifies, or the changed entry collides with the old one.
/// Only the last entry can be exchanged for another, together with its hash.
pub proof fn law_tampering_is_detected(entries: Seq<EntryModel>, i: int, changed: EntryModel)
    requires
        chained(entries),
        all_encodable(entries),
        0 <= i < entries.len(),
        encodable(changed),
        changed != entries[i],
        i + 1 < entries.len() || changed.hash_b64 == entries[i].hash_b64,
    ensures
        !chained(entries.update(i, changed)) || collide(entries[i], changed),
{
    let all = entries.update(i, changed);
    if chained(all) {
        assert(all[i] == changed);
        if i + 1 < entries.len() {
            assert(all[i + 1] == entries[i + 1]);
            assert(all.take(i + 1).last() == changed);
            assert(entries.take(i + 1).last() == entries[i]);
        }
        law_hash_covers_every_field(entries[i], changed);
    }
}

/// A gap is detected: where entries are cut out in front of one that stays, the
/// log no longer verifies, or two of the old entries collide.
pub proof fn law_gap_is_detected(entries: Seq<EntryModel>, from: int, to: int)
    requires
        chained(entries),
        genuine(entries),
        all_encodable(entries),
        0 <= from < to < entries.len(),
    ensures
        !chained(entries.take(from) + entries.skip(to)) || colliding(entries, entries),
{
    let rest = entries.take(from) + entries.skip(to);
    if chained(rest) {
        let a = entries.take(from);
        let b = entries.take(to);
        assert(rest[from] == entries[to]);
        assert(rest.take(from) =~= a);
        lemma_shorter_chain(entries, from);
        lemma_shorter_chain(entries, to);
        assert(tip(a) == entries[to].prev_hash_b64);
        assert(tip(b) == entries[to].prev_hash_b64);
        law_last_hash_pins_the_log(a, b);
        assert(a.len() != b.len());
        let (i, j) = choose|i: int, j: int|
            0 <= i < a.len() && 0 <= j < b.len() && collide(#[trigger] a[i], #[trigger] b[j]);
        assert(entries[i] == a[i] && entries[j] == b[j]);
    }
}

/// A log that lost its first entries is refused outright, with no collision to
/// help it.
pub proof fn law_lost_start_is_detected(entries: Seq<EntryModel>, n: int)
    requires
        chained(entries),
        genuine(entries),
        0 < n < entries.len(),
    ensures
        !chained(entries.skip(n)),
{
    let rest = entries.skip(n);
    assert(rest[0] == entries[n]);
    assert(rest.take(0) =~= Seq::<EntryModel>::empty());
    assert(entries.take(n).last() == entries[n - 1]);
    assert(entries[n - 1].hash_b64 != GENESIS@);
}

/// Reordering is detected: where the same entries stand in another order, the log no
/// longer verifies, or two of them collide.
pub proof fn law_reorder_is_detected(entries: Seq<EntryModel>, other: Seq<EntryModel>)
    requires
        chained(entries),
        genuine(entries),
        all_encodable(entries),
        other.to_multiset() == entries.to_multiset(),
        other != entries,
    ensures
        !chained(other) || colliding(entries, entries),
{
    broadcast use vstd::seq_lib::group_to_multiset_ensures;

    assert(other.to_multiset().len() == other.len());
    assert(entries.to_multiset().len() == entries.len());
    assert forall|i: int| 0 <= i < other.len() implies entries.contains(#[trigger] other[i]) by {
        assert(other.to_multiset().count(other[i]) > 0);
        assert(entries.to_multiset().count(other[i]) > 0);
    }
    if other.len() == 0 {
        assert(other =~= entries);
    } else if chained(other) {
        assert(genuine(other) && all_encodable(other)) by {
            assert forall|i: int| 0 <= i < other.len() implies (#[trigger] other[i]).hash_b64
                != GENESIS@ && encodable(other[i]) by {
                let k = choose|k: int| 0 <= k < entries.len() && entries[k] == other[i];
                assert(entries[k] == other[i]);
            }
        }
        let last = other[other.len() - 1];
        assert(entries.contains(last));
        let k = choose|k: int| 0 <= k < entries.len() && entries[k] == last;
        let start = entries.take(k + 1);
        assert(start.last() == last);
        lemma_shorter_chain(entries, k + 1);
        law_last_hash_pins_the_log(other, start);
        if other == start {
            assert(start =~= entries);
        } else {
            let (i, j) = choose|i: int, j: int|
                0 <= i < other.len() && 0 <= j < start.len() && collide(
                    #[trigger] other[i],
                    #[trigger] start[j],
                );
            assert(entries.contains(other[i]));
            let n = choose|n: int| 0 <= n < entries.len() && entries[n] == other[i];
            assert(entries[n] == other[i] && entries[j] == start[j]);
        }
    }
}

// ---------------------------------------------------------------------------
// What an entry, a chain and a log are made of
// ---------------------------------------------------------------------------

/// An entry's hash is the base64 text of the SHA-256 digest of seven frames: of the
/// previous hash, the time, the client, the operation, the label, the outcome in JSON and
/// the detail, each whole and in this order.
pub proof fn law_hash_is_over_all_fields_in_order(e: EntryModel)
    ensures
        entry_digest(e) == b64_encoded(
            sha256(
                frame(encode_utf8(e.prev_hash_b64)) + frame(encode_utf8(e.ts)) + frame(
                    encode_utf8(e.cn),
                ) + frame(encode_utf8(e.operation)) + frame(encode_utf8(e.key_label)) + frame(
                    encode_utf8(
                        match e.outcome {
                            Outcome::Intent => "\"intent\""@,
                            Outcome::Authorized => "\"authorized\""@,
                            Outcome::Denied => "\"denied\""@,
                            Outcome::Error => "\"error\""@,
                            Outcome::CertExpiringSoon => "\"cert_expiring_soon\""@,
                        },
                    ),
                ) + frame(encode_utf8(e.detail)),
            ),
        ),
{
    let p0: Seq<Seq<u8>> = Seq::empty();
    let p1 = p0.push(encode_utf8(e.prev_hash_b64));
    let p2 = p1.push(encode_utf8(e.ts));
    let p3 = p2.push(encode_utf8(e.cn));
    let p4 = p3.push(encode_utf8(e.operation));
    let p5 = p4.push(encode_utf8(e.key_label));
    let p6 = p5.push(encode_utf8(outcome_json(e.outcome)));
    lemma_framed_push(p0, encode_utf8(e.prev_hash_b64));
    lemma_framed_push(p1, encode_utf8(e.ts));
    lemma_framed_push(p2, encode_utf8(e.cn));
    lemma_framed_push(p3, encode_utf8(e.operation));
    lemma_framed_push(p4, encode_utf8(e.key_label));
    lemma_framed_push(p5, encode_utf8(outcome_json(e.outcome)));
    lemma_framed_push(p6, encode_utf8(e.detail));
    assert(p6.push(encode_utf8(e.detail)) =~= covered(e));
    assert(framed(p0) + frame(encode_utf8(e.prev_hash_b64)) =~= frame(
        encode_utf8(e.prev_hash_b64),
    ));
}

/// Entries form a chain exactly where each carries the hash of the one before it, the
/// first the word `GENESIS`, and its own hash.
pub proof fn law_chain_links_each_entry_to_the_one_before(entries: Seq<EntryModel>)
    ensures
        chained(entries) <==> forall|i: int|
            0 <= i < entries.len() ==> links(entries, #[trigger] entries[i], i),
        tip(entries) == (if entries.len() == 0 {
            "GENESIS"@
        } else {
            entries[entries.len() - 1].hash_b64
        }),
        genuine(entries) <==> forall|i: int|
            0 <= i < entries.len() ==> (#[trigger] entries[i]).hash_b64 != "GENESIS"@,
{
    assert forall|i: int| 0 <= i < entries.len() implies (continues(
        tip(entries.take(i)),
        entries[i],
    ) <==> links(entries, #[trigger] entries[i], i)) by {
        if i > 0 {
            assert(entries.take(i).last() == entries[i - 1]);
        }
    }
}

/// An entry at position `i` carries the hash of the one before it, and its own.
pub open spec fn links(entries: Seq<EntryModel>, e: EntryModel, i: int) -> bool {
    &&& e.prev_hash_b64 == (if i == 0 {
        "GENESIS"@
    } else {
        entries[i - 1].hash_b64
    })
    &&& e.hash_b64 == entry_digest(e)
}

/// The entries of a log are those on its lines, in the order of the lines, every one and
/// each unchanged: a line with an entry adds it, any other line adds none.
pub proof fn law_entries_are_those_on_the_lines(lines: Seq<LineModel>, line: LineModel)
    ensures
        entries_of(Seq::<LineModel>::empty()) == Seq::<EntryModel>::empty(),
        entries_of(lines.push(line)) == (match line {
            LineModel::Entry(e) => entries_of(lines).push(e),
            _ => entries_of(lines),
        }),
{
    assert(lines.push(line).drop_last() =~= lines);
}

proof fn lemma_first_fault(lines: Seq<LineModel>, from: int, k: int, fault: ChainFaultModel)
    requires
        0 <= from <= lines.len(),
        chain_fault(lines, from) == Some((k, fault)),
    ensures
        from <= k < lines.len(),
        line_fault(lines, k) == Some(fault),
        forall|i: int| from <= i < k ==> #[trigger] line_fault(lines, i) is None,
    decreases lines.len() - from,
{
    if from < lines.len() && line_fault(lines, from) is None {
        lemma_first_fault(lines, from + 1, k, fault);
    }
}

/// A log is refused for its first bad line: the lines before it verify, and it could not
/// be read, is not an entry's JSON, does not carry the hash of the entry before it, or
/// does but does not carry its own.
pub proof fn law_first_bad_line_is_named(lines: Seq<LineModel>, k: int, fault: ChainFaultModel)
    requires
        chain_fault(lines, 0) == Some((k, fault)),
    ensures
        0 <= k < lines.len(),
        chain_fault(lines.take(k), 0) is None,
        match lines[k] {
            LineModel::Unreadable { cause } => fault == (ChainFaultModel::Unreadable { cause }),
            LineModel::Invalid { cause } => fault == (ChainFaultModel::InvalidJson { cause }),
            LineModel::Blank => false,
            LineModel::Entry(e) => if e.prev_hash_b64 != tip(entries_of(lines.take(k))) {
                fault is Gap
            } else {
                e.hash_b64 != entry_digest(e) && fault is HashMismatch
            },
        },
{
    lemma_first_fault(lines, 0, k, fault);
    let start = lines.take(k);
    lemma_no_fault_from(start, 0);
    assert forall|i: int| 0 <= i < start.len() implies #[trigger] line_fault(start, i) is None by {
        assert(start[i] == lines[i]);
        assert(start.take(i) =~= lines.take(i));
        assert(line_fault(lines, i) is None);
    }
}

/// The entry that an append makes carries the time, client, operation, label, outcome and
/// detail that it was given, each unchanged, and links to what was written before.
pub proof fn law_entry_carries_what_it_was_given(
    entries: Seq<EntryModel>,
    ts: Seq<char>,
    cn: Seq<char>,
    operation: Seq<char>,
    key_label: Seq<char>,
    outcome: Outcome,
    detail: Seq<char>,
)
    ensures
        ({
            let e = next_entry(entries, ts, cn, operation, key_label, outcome, detail);
            &&& e.ts == ts
            &&& e.cn == cn
            &&& e.operation == operation
            &&& e.key_label == key_label
            &&& e.outcome == outcome
            &&& e.detail == detail
            &&& links(entries.push(e), e, entries.len() as int)
        }),
{
    let e = next_entry(entries, ts, cn, operation, key_label, outcome, detail);
    let bare = EntryModel { hash_b64: Seq::empty(), ..e };
    assert(covered(bare) =~= covered(e));
    if entries.len() > 0 {
        assert(entries.push(e)[entries.len() - 1] == entries.last());
    }
}

/// An entry counts exactly where it was written: then it stands behind the others, and
/// otherwise the log is as it was. Nothing stays pending.
pub proof fn law_only_written_entries_count(log: AuditModel, written: bool)
    ensures
        settled(log, written).pending is None,
        match log.pending {
            Some(e) => written ==> settled(log, written).entries == log.entries.push(e),
            None => settled(log, written).entries == log.entries,
        },
        !written ==> settled(log, written).entries == log.entries,
{
}

/// The words for a refused log give its path, the line and the reason.
pub proof fn law_refusal_of_a_log_has_its_words(
    quoted_path: Seq<char>,
    line: int,
    fault: ChainFaultModel,
)
    ensures
        ({
            let place = "audit log "@ + quoted_path + " line "@ + decimal(line);
            chain_error_words(quoted_path, line, fault) == (match fault {
                ChainFaultModel::Unreadable { cause } => "cannot read "@ + place + ": "@ + cause,
                ChainFaultModel::InvalidJson { cause } => place + ": invalid JSON: "@ + cause,
                ChainFaultModel::Gap => place + ": chain gap (prev hash mismatch)"@,
                ChainFaultModel::HashMismatch => place + ": entry hash mismatch (tampered?)"@,
            })
        }),
{
}

/// What the models say of an entry is what the entry holds.
pub proof fn law_entry_model_is_faithful(e: Entry)
    ensures
        e@.ts == e.ts@,
        e@.cn == e.cn@,
        e@.operation == e.operation@,
        e@.key_label == e.key_label@,
        e@.outcome == e.outcome,
        e@.detail == e.detail@,
        e@.prev_hash_b64 == e.prev_hash_b64@,
        e@.hash_b64 == e.hash_b64@,
{
}

/// What the models say of a line, of a fault and of a log is what these hold, line for
/// line.
pub proof fn law_log_models_are_faithful(line: LogLine, fault: ChainFault, lines: Seq<LogLine>)
    ensures
        match line {
            LogLine::Entry(e) => line@ == LineModel::Entry(e@),
            LogLine::Blank => line@ is Blank,
            LogLine::Invalid { cause } => line@ == (LineModel::Invalid { cause: cause@ }),
            LogLine::Unreadable { cause } => line@ == (LineModel::Unreadable { cause: cause@ }),
        },
        match fault {
            ChainFault::Unreadable { cause } => fault@ == (ChainFaultModel::Unreadable {
                cause: cause@,
            }),
            ChainFault::InvalidJson { cause } => fault@ == (ChainFaultModel::InvalidJson {
                cause: cause@,
            }),
            ChainFault::Gap => fault@ is Gap,
            ChainFault::HashMismatch => fault@ is HashMismatch,
        },
        log_lines(lines).len() == lines.len(),
        forall|i: int| 0 <= i < lines.len() ==> #[trigger] log_lines(lines)[i] == lines[i]@,
{
}

/// An entry is faulted for its place before its content: where it does not carry the
/// hash of the entry before it, and else where it does not hash to what it carries.
pub proof fn law_place_is_checked_before_content(
    prev: Seq<char>,
    e: EntryModel,
    digest: Seq<char>,
)
    ensures
        match entry_fault(prev, e, digest) {
            Some(fault) => if e.prev_hash_b64 == prev {
                fault is HashMismatch && e.hash_b64 != digest
            } else {
                fault is Gap
            },
            None => e.prev_hash_b64 == prev && e.hash_b64 == digest,
        },
{
}

/// A hash is taken of the very fields that are given.
pub proof fn law_hash_is_of_the_fields_given(
    prev: Seq<char>,
    ts: Seq<char>,
    cn: Seq<char>,
    operation: Seq<char>,
    key_label: Seq<char>,
    outcome: Outcome,
    detail: Seq<char>,
)
    ensures
        ({
            let e = unsealed(prev, ts, cn, operation, key_label, outcome, detail);
            &&& e.prev_hash_b64 == prev
            &&& e.ts == ts
            &&& e.cn == cn
            &&& e.operation == operation
            &&& e.key_label == key_label
            &&& e.outcome == outcome
            &&& e.detail == detail
        }),
{
}

} // verus!
