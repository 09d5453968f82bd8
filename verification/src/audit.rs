//! Hash-chained audit log: one entry per line, append-only.
//!
//! Two phases per request: `intent` before the HSM is touched, then `authorized`,
//! `denied` or `error` once the outcome is known. Fail-closed: where the entry that
//! comes before the HSM is touched cannot be written, the request is rejected without
//! any HSM operation. Once the HSM has done its work the answer stands, whatever
//! became of the closing entry: an `intent` alone means that the outcome is unknown.

use vstd::prelude::*;
use vstd::string::*;
use vstd::utf8::encode_utf8;

use crate::audit_laws::law_verified_iff_chained;
use crate::clock::{representable, rfc3339_millis, UtcTime};
use crate::codec::{
    b64_encode, b64_encoded, framed, lemma_framed_push, push_frame, sha256, sha256_digest,
};
use crate::text::{
    count_text, debug_quoted, decimal, is_blank, join2, join3, quote, same_text, trimmed,
};

verus! {

/// Outcome of a single audit entry.
#[derive(Debug, Clone, Copy, PartialEq, Eq, Structural)]
pub enum Outcome {
    Intent,
    Authorized,
    Denied,
    Error,
    CertExpiringSoon,
}

/// An outcome in JSON.
pub open spec fn outcome_json(outcome: Outcome) -> Seq<char> {
    match outcome {
        Outcome::Intent => "\"intent\""@,
        Outcome::Authorized => "\"authorized\""@,
        Outcome::Denied => "\"denied\""@,
        Outcome::Error => "\"error\""@,
        Outcome::CertExpiringSoon => "\"cert_expiring_soon\""@,
    }
}

/// An outcome in JSON.
fn outcome_text(outcome: Outcome) -> (r: &'static str)
    ensures
        r@ == outcome_json(outcome),
{
    match outcome {
        Outcome::Intent => "\"intent\"",
        Outcome::Authorized => "\"authorized\"",
        Outcome::Denied => "\"denied\"",
        Outcome::Error => "\"error\"",
        Outcome::CertExpiringSoon => "\"cert_expiring_soon\"",
    }
}

/// One audit entry. `hash_b64` covers the previous entry's hash and all fields
/// of this one.
#[derive(Debug)]
pub struct Entry {
    pub ts: String,
    pub cn: String,
    pub operation: String,
    pub key_label: String,
    pub outcome: Outcome,
    pub detail: String,
    pub prev_hash_b64: String,
    pub hash_b64: String,
}

/// An entry, with the characters of its texts.
pub struct EntryModel {
    pub ts: Seq<char>,
    pub cn: Seq<char>,
    pub operation: Seq<char>,
    pub key_label: Seq<char>,
    pub outcome: Outcome,
    pub detail: Seq<char>,
    pub prev_hash_b64: Seq<char>,
    pub hash_b64: Seq<char>,
}

impl View for Entry {
    type V = EntryModel;

    open spec fn view(&self) -> EntryModel {
        EntryModel {
            ts: self.ts@,
            cn: self.cn@,
            operation: self.operation@,
            key_label: self.key_label@,
            outcome: self.outcome,
            detail: self.detail@,
            prev_hash_b64: self.prev_hash_b64@,
            hash_b64: self.hash_b64@,
        }
    }
}

/// Stands in for the hash before the first entry.
pub const GENESIS: &'static str = "GENESIS";

/// An entry that does not carry its hash yet.
pub open spec fn unsealed(
    prev: Seq<char>,
    ts: Seq<char>,
    cn: Seq<char>,
    operation: Seq<char>,
    key_label: Seq<char>,
    outcome: Outcome,
    detail: Seq<char>,
) -> EntryModel {
    EntryModel {
        ts,
        cn,
        operation,
        key_label,
        outcome,
        detail,
        prev_hash_b64: prev,
        hash_b64: Seq::empty(),
    }
}

/// What an entry's hash covers, field by field.
pub open spec fn covered(e: EntryModel) -> Seq<Seq<u8>> {
    seq![
        encode_utf8(e.prev_hash_b64),
        encode_utf8(e.ts),
        encode_utf8(e.cn),
        encode_utf8(e.operation),
        encode_utf8(e.key_label),
        encode_utf8(outcome_json(e.outcome)),
        encode_utf8(e.detail),
    ]
}

/// The hash that an entry should carry: the base64 text of the SHA-256 digest of
/// the covered fields, each with its length in front.
pub open spec fn entry_digest(e: EntryModel) -> Seq<char> {
    b64_encoded(sha256(framed(covered(e))))
}

/// The hash of the last of some entries.
pub open spec fn tip(entries: Seq<EntryModel>) -> Seq<char> {
    if entries.len() == 0 {
        GENESIS@
    } else {
        entries.last().hash_b64
    }
}

/// An entry that continues a chain with the given tip.
pub open spec fn continues(prev: Seq<char>, e: EntryModel) -> bool {
    &&& e.prev_hash_b64 == prev
    &&& e.hash_b64 == entry_digest(e)
}

/// Every entry continues the chain of those before it.
pub open spec fn chained(entries: Seq<EntryModel>) -> bool {
    forall|i: int|
        0 <= i < entries.len() ==> continues(tip(entries.take(i)), #[trigger] entries[i])
}

/// No entry's hash can be taken for the start of a chain.
pub open spec fn genuine(entries: Seq<EntryModel>) -> bool {
    forall|i: int| 0 <= i < entries.len() ==> (#[trigger] entries[i]).hash_b64 != GENESIS@
}

/// One line of a log file, as read.
#[derive(Debug)]
pub enum LogLine {
    /// A line that holds an entry.
    Entry(Entry),
    /// A line of white space.
    Blank,
    /// A line that is not the JSON of an entry.
    Invalid { cause: String },
    /// A line that could not be read.
    Unreadable { cause: String },
}

/// A line, with the characters of its texts.
pub enum LineModel {
    Entry(EntryModel),
    Blank,
    Invalid { cause: Seq<char> },
    Unreadable { cause: Seq<char> },
}

impl View for LogLine {
    type V = LineModel;

    open spec fn view(&self) -> LineModel {
        match self {
            LogLine::Entry(e) => LineModel::Entry(e@),
            LogLine::Blank => LineModel::Blank,
            LogLine::Invalid { cause } => LineModel::Invalid { cause: cause@ },
            LogLine::Unreadable { cause } => LineModel::Unreadable { cause: cause@ },
        }
    }
}

/// The lines of a log.
pub open spec fn log_lines(lines: Seq<LogLine>) -> Seq<LineModel> {
    Seq::new(lines.len(), |i: int| lines[i]@)
}

/// The entries that lines hold, in order.
pub open spec fn entries_of(lines: Seq<LineModel>) -> Seq<EntryModel>
    decreases lines.len(),
{
    if lines.len() == 0 {
        Seq::empty()
    } else {
        match lines.last() {
            LineModel::Entry(e) => entries_of(lines.drop_last()).push(e),
            _ => entries_of(lines.drop_last()),
        }
    }
}

/// What is wrong with a line of a log.
#[derive(Debug)]
pub enum ChainFault {
    Unreadable { cause: String },
    InvalidJson { cause: String },
    /// The previous hash is not that of the entry before.
    Gap,
    /// The entry does not have the hash that it carries.
    HashMismatch,
}

/// A fault, with the characters of its texts.
pub enum ChainFaultModel {
    Unreadable { cause: Seq<char> },
    InvalidJson { cause: Seq<char> },
    Gap,
    HashMismatch,
}

impl View for ChainFault {
    type V = ChainFaultModel;

    open spec fn view(&self) -> ChainFaultModel {
        match self {
            ChainFault::Unreadable { cause } => ChainFaultModel::Unreadable { cause: cause@ },
            ChainFault::InvalidJson { cause } => ChainFaultModel::InvalidJson { cause: cause@ },
            ChainFault::Gap => ChainFaultModel::Gap,
            ChainFault::HashMismatch => ChainFaultModel::HashMismatch,
        }
    }
}

/// Why a log is refused: the first line, counted from zero, that is wrong.
#[derive(Debug)]
pub struct ChainError {
    pub line: usize,
    pub fault: ChainFault,
}

/// The words for a refused log, with the path already in quotes.
pub open spec fn chain_error_words(quoted_path: Seq<char>, line: int, fault: ChainFaultModel) -> Seq<
    char,
> {
    let place = "audit log "@ + quoted_path + " line "@ + decimal(line);
    match fault {
        ChainFaultModel::Unreadable { cause } => "cannot read "@ + place + ": "@ + cause,
        ChainFaultModel::InvalidJson { cause } => place + ": invalid JSON: "@ + cause,
        ChainFaultModel::Gap => place + ": chain gap (prev hash mismatch)"@,
        ChainFaultModel::HashMismatch => place + ": entry hash mismatch (tampered?)"@,
    }
}

impl ChainError {
    /// The words for the refusal of the log under the given path.
    pub fn text(&self, path: &str) -> (r: String)
        ensures
            r@ == chain_error_words(debug_quoted(path@), self.line as int, self.fault@),
    {
        let quoted = quote(path);
        let number = count_text(self.line as u64);
        let mut place = join3("audit log ", quoted.as_str(), " line ");
        place.append(number.as_str());
        match &self.fault {
            ChainFault::Unreadable { cause } => {
                let mut out = join3("cannot read ", place.as_str(), ": ");
                out.append(cause.as_str());
                out
            },
            ChainFault::InvalidJson { cause } => {
                join3(place.as_str(), ": invalid JSON: ", cause.as_str())
            },
            ChainFault::Gap => join2(place.as_str(), ": chain gap (prev hash mismatch)"),
            ChainFault::HashMismatch => join2(
                place.as_str(),
                ": entry hash mismatch (tampered?)",
            ),
        }
    }
}

/// The line that a text gives, where `parsed` is the entry that its JSON stands
/// for, or why it stands for none.
pub fn read_line(text: &str, parsed: Result<Entry, String>) -> (r: LogLine)
    ensures
        r@ == (if trimmed(text@).len() == 0 {
            LineModel::Blank
        } else {
            match parsed {
                Ok(e) => LineModel::Entry(e@),
                Err(cause) => LineModel::Invalid { cause: cause@ },
            }
        }),
{
    if is_blank(text) {
        LogLine::Blank
    } else {
        match parsed {
            Ok(entry) => LogLine::Entry(entry),
            Err(cause) => LogLine::Invalid { cause },
        }
    }
}

/// What is wrong with an entry behind a chain with the given tip, where its
/// fields hash to `digest`.
pub open spec fn entry_fault(
    prev: Seq<char>,
    e: EntryModel,
    digest: Seq<char>,
) -> Option<ChainFaultModel> {
    if e.prev_hash_b64 != prev {
        Some(ChainFaultModel::Gap)
    } else if digest != e.hash_b64 {
        Some(ChainFaultModel::HashMismatch)
    } else {
        None
    }
}

/// What is wrong with the line at position `k`, the earlier ones being fine.
pub open spec fn line_fault(lines: Seq<LineModel>, k: int) -> Option<ChainFaultModel> {
    match lines[k] {
        LineModel::Entry(e) => entry_fault(tip(entries_of(lines.take(k))), e, entry_digest(e)),
        LineModel::Blank => None,
        LineModel::Invalid { cause } => Some(ChainFaultModel::InvalidJson { cause }),
        LineModel::Unreadable { cause } => Some(ChainFaultModel::Unreadable { cause }),
    }
}

/// The first fault from line `k` on, with its line.
pub open spec fn chain_fault(lines: Seq<LineModel>, k: int) -> Option<(int, ChainFaultModel)>
    decreases lines.len() - k,
{
    if k >= lines.len() {
        None
    } else {
        match line_fault(lines, k) {
            Some(fault) => Some((k, fault)),
            None => chain_fault(lines, k + 1),
        }
    }
}

/// Computes the hash of an entry from its fields.
pub fn entry_hash(
    prev_hash_b64: &str,
    ts: &str,
    cn: &str,
    op: &str,
    label: &str,
    outcome: Outcome,
    detail: &str,
) -> (r: String)
    ensures
        r@ == entry_digest(unsealed(prev_hash_b64@, ts@, cn@, op@, label@, outcome, detail@)),
        r@ != GENESIS@,
{
    let mut bytes: Vec<u8> = Vec::new();
    let ghost p0: Seq<Seq<u8>> = Seq::empty();
    push_frame(&mut bytes, prev_hash_b64.as_bytes());
    let ghost p1 = p0.push(encode_utf8(prev_hash_b64@));
    push_frame(&mut bytes, ts.as_bytes());
    let ghost p2 = p1.push(encode_utf8(ts@));
    push_frame(&mut bytes, cn.as_bytes());
    let ghost p3 = p2.push(encode_utf8(cn@));
    push_frame(&mut bytes, op.as_bytes());
    let ghost p4 = p3.push(encode_utf8(op@));
    push_frame(&mut bytes, label.as_bytes());
    let ghost p5 = p4.push(encode_utf8(label@));
    push_frame(&mut bytes, outcome_text(outcome).as_bytes());
    let ghost p6 = p5.push(encode_utf8(outcome_json(outcome)));
    push_frame(&mut bytes, detail.as_bytes());
    let ghost p7 = p6.push(encode_utf8(detail@));
    proof {
        lemma_framed_push(p0, encode_utf8(prev_hash_b64@));
        lemma_framed_push(p1, encode_utf8(ts@));
        lemma_framed_push(p2, encode_utf8(cn@));
        lemma_framed_push(p3, encode_utf8(op@));
        lemma_framed_push(p4, encode_utf8(label@));
        lemma_framed_push(p5, encode_utf8(outcome_json(outcome)));
        lemma_framed_push(p6, encode_utf8(detail@));
        assert(bytes@ =~= framed(p7));
    }
    let digest = sha256_digest(bytes.as_slice());
    let r = b64_encode(digest.as_slice());
    proof {
        reveal_strlit("GENESIS");
        assert(GENESIS@.len() == 7);
        assert(covered(unsealed(prev_hash_b64@, ts@, cn@, op@, label@, outcome, detail@)) =~= p7);
    }
    r
}

/// Checks one entry behind a chain with the given tip, where its fields hash to
/// `recomputed`.
pub fn check_entry(expected_prev: &str, entry: &Entry, recomputed: &str) -> (r: Option<ChainFault>)
    ensures
        match r {
            Some(fault) => entry_fault(expected_prev@, entry@, recomputed@) == Some(fault@),
            None => entry_fault(expected_prev@, entry@, recomputed@) is None,
        },
{
    if !same_text(entry.prev_hash_b64.as_str(), expected_prev) {
        Some(ChainFault::Gap)
    } else if !same_text(recomputed, entry.hash_b64.as_str()) {
        Some(ChainFault::HashMismatch)
    } else {
        None
    }
}

/// Verifies the whole chain. Gives the hash of the last entry (`GENESIS` where
/// there is none), or the first gap, reorder or tampering.
pub fn verify_chain(lines: &Vec<LogLine>) -> (r: Result<String, ChainError>)
    ensures
        match r {
            Ok(last) => {
                &&& chain_fault(log_lines(lines@), 0) is None
                &&& last@ == tip(entries_of(log_lines(lines@)))
                &&& genuine(entries_of(log_lines(lines@)))
            },
            Err(e) => chain_fault(log_lines(lines@), 0) == Some((e.line as int, e.fault@)),
        },
{
    let ghost all = log_lines(lines@);
    let mut expected_prev: String = GENESIS.to_owned();
    let mut i: usize = 0;
    assert(all.take(0) =~= Seq::<LineModel>::empty());
    while i < lines.len()
        invariant
            i <= lines@.len(),
            all == log_lines(lines@),
            chain_fault(all, 0) == chain_fault(all, i as int),
            expected_prev@ == tip(entries_of(all.take(i as int))),
            genuine(entries_of(all.take(i as int))),
        decreases lines@.len() - i,
    {
        let line = &lines[i];
        proof {
            assert(all[i as int] == line@);
            assert(all.take(i + 1).drop_last() =~= all.take(i as int));
            assert(all.take(i + 1).last() == line@);
        }
        match line {
            LogLine::Blank => {},
            LogLine::Unreadable { cause } => {
                return Err(
                    ChainError { line: i, fault: ChainFault::Unreadable { cause: cause.clone() } },
                );
            },
            LogLine::Invalid { cause } => {
                return Err(
                    ChainError { line: i, fault: ChainFault::InvalidJson { cause: cause.clone() } },
                );
            },
            LogLine::Entry(entry) => {
                let recomputed = entry_hash(
                    entry.prev_hash_b64.as_str(),
                    entry.ts.as_str(),
                    entry.cn.as_str(),
                    entry.operation.as_str(),
                    entry.key_label.as_str(),
                    entry.outcome,
                    entry.detail.as_str(),
                );
                assert(recomputed@ == entry_digest(entry@));
                if let Some(fault) = check_entry(
                    expected_prev.as_str(),
                    entry,
                    recomputed.as_str(),
                ) {
                    return Err(ChainError { line: i, fault });
                }
                expected_prev = entry.hash_b64.clone();
            },
        }
        i += 1;
    }
    assert(all.take(lines@.len() as int) =~= all);
    Ok(expected_prev)
}

/// What the log holds: the entries that were written, and the one whose line is
/// being written.
pub struct AuditModel {
    pub entries: Seq<EntryModel>,
    pub pending: Option<EntryModel>,
}

/// Append-only audit log. It makes the entries; whoever writes the lines reports
/// back with `settle` before the next entry is made.
pub struct AuditLog {
    last_hash_b64: String,
    pending_hash_b64: Option<String>,
    model: Ghost<AuditModel>,
}

impl View for AuditLog {
    type V = AuditModel;

    closed spec fn view(&self) -> AuditModel {
        self.model@
    }
}

/// The entry with the given fields that continues a chain.
pub open spec fn next_entry(
    entries: Seq<EntryModel>,
    ts: Seq<char>,
    cn: Seq<char>,
    operation: Seq<char>,
    key_label: Seq<char>,
    outcome: Outcome,
    detail: Seq<char>,
) -> EntryModel {
    let e = unsealed(tip(entries), ts, cn, operation, key_label, outcome, detail);
    EntryModel { hash_b64: entry_digest(e), ..e }
}

/// What the log holds once the line of the pending entry is dealt with.
pub open spec fn settled(log: AuditModel, written: bool) -> AuditModel {
    AuditModel {
        entries: match log.pending {
            Some(e) if written => log.entries.push(e),
            _ => log.entries,
        },
        pending: None,
    }
}

pub(crate) proof fn lemma_chain_grows(entries: Seq<EntryModel>, e: EntryModel)
    requires
        chained(entries),
        continues(tip(entries), e),
    ensures
        chained(entries.push(e)),
{
    let all = entries.push(e);
    assert forall|i: int| 0 <= i < all.len() implies continues(
        tip(all.take(i)),
        #[trigger] all[i],
    ) by {
        if i < entries.len() {
            assert(all.take(i) =~= entries.take(i));
            assert(all[i] == entries[i]);
        } else {
            assert(all.take(i) =~= entries);
        }
    }
}

impl AuditLog {
    #[verifier::type_invariant]
    spec fn valid(self) -> bool {
        let log = self.model@;
        &&& chained(log.entries)
        &&& genuine(log.entries)
        &&& self.last_hash_b64@ == tip(log.entries)
        &&& match (log.pending, self.pending_hash_b64) {
            (Some(e), Some(hash)) => {
                &&& continues(tip(log.entries), e)
                &&& hash@ == e.hash_b64
                &&& hash@ != GENESIS@
            },
            (None, None) => true,
            _ => false,
        }
    }

    /// Opens a log on the lines that it holds. Verifies the chain first: a
    /// tampered log is refused, not silently extended.
    pub fn open(lines: &Vec<LogLine>) -> (r: Result<AuditLog, ChainError>)
        ensures
            match r {
                Ok(log) => {
                    &&& chain_fault(log_lines(lines@), 0) is None
                    &&& log@.entries == entries_of(log_lines(lines@))
                    &&& log@.pending is None
                },
                Err(e) => chain_fault(log_lines(lines@), 0) == Some((e.line as int, e.fault@)),
            },
    {
        match verify_chain(lines) {
            Ok(last) => {
                let ghost entries = entries_of(log_lines(lines@));
                proof {
                    law_verified_iff_chained(log_lines(lines@));
                }
                Ok(
                    AuditLog {
                        last_hash_b64: last,
                        pending_hash_b64: None,
                        model: Ghost(AuditModel { entries, pending: None }),
                    },
                )
            },
            Err(e) => Err(e),
        }
    }

    /// Makes the next entry, dated at the given point in time. It counts as
    /// written only once `settle` says so; an entry that was still pending is
    /// dropped.
    pub fn append_at(
        &mut self,
        now: &UtcTime,
        cn: &str,
        operation: &str,
        key_label: &str,
        outcome: Outcome,
        detail: &str,
    ) -> (r: Entry)
        ensures
            r@ == next_entry(
                old(self)@.entries,
                rfc3339_millis(now@.0, now@.1),
                cn@,
                operation@,
                key_label@,
                outcome,
                detail@,
            ),
            r@.cn == cn@ && r@.operation == operation@ && r@.key_label == key_label@,
            r@.outcome == outcome && r@.detail == detail@,
            r@.prev_hash_b64 == tip(old(self)@.entries),
            final(self)@ == (AuditModel { pending: Some(r@), ..old(self)@ }),
    {
        proof {
            use_type_invariant(&*self);
        }
        let ts = now.rfc3339();
        let prev = self.last_hash_b64.clone();
        let hash = entry_hash(
            prev.as_str(),
            ts.as_str(),
            cn,
            operation,
            key_label,
            outcome,
            detail,
        );
        let ghost before = self.model@;
        let entry = Entry {
            ts: ts.clone(),
            cn: cn.to_owned(),
            operation: operation.to_owned(),
            key_label: key_label.to_owned(),
            outcome,
            detail: detail.to_owned(),
            prev_hash_b64: prev,
            hash_b64: hash,
        };
        proof {
            let e = unsealed(
                tip(before.entries),
                ts@,
                cn@,
                operation@,
                key_label@,
                outcome,
                detail@,
            );
            assert(covered(entry@) =~= covered(e));
        }
        *self =
        AuditLog {
            last_hash_b64: self.last_hash_b64.clone(),
            pending_hash_b64: Some(entry.hash_b64.clone()),
            model: Ghost(AuditModel { pending: Some(entry@), ..before }),
        };
        entry
    }

    /// Makes the next entry, dated now.
    pub fn append(
        &mut self,
        cn: &str,
        operation: &str,
        key_label: &str,
        outcome: Outcome,
        detail: &str,
    ) -> (r: Entry)
        ensures
            exists|now: (i64, u32)|
                r@.ts == #[trigger] rfc3339_millis(now.0, now.1) && representable(now.0 as int)
                    && now.0 >= 0 && now.1 < 1_000_000_000,
            r@ == next_entry(
                old(self)@.entries,
                r@.ts,
                cn@,
                operation@,
                key_label@,
                outcome,
                detail@,
            ),
            r@.cn == cn@ && r@.operation == operation@ && r@.key_label == key_label@,
            r@.outcome == outcome && r@.detail == detail@,
            r@.prev_hash_b64 == tip(old(self)@.entries),
            final(self)@ == (AuditModel { pending: Some(r@), ..old(self)@ }),
    {
        let now = UtcTime::now();
        self.append_at(&now, cn, operation, key_label, outcome, detail)
    }

    /// Takes note of what became of the pending entry's line: written and
    /// flushed, or not. Whatever is written forms a chain.
    pub fn settle(&mut self, written: bool)
        ensures
            final(self)@ == settled(old(self)@, written),
            chained(final(self)@.entries),
            genuine(final(self)@.entries),
    {
        proof {
            use_type_invariant(&*self);
        }
        let ghost before = self.model@;
        let last = match &self.pending_hash_b64 {
            Some(hash) => {
                if written {
                    hash.clone()
                } else {
                    self.last_hash_b64.clone()
                }
            },
            None => self.last_hash_b64.clone(),
        };
        proof {
            if before.pending is Some {
                lemma_chain_grows(before.entries, before.pending->0);
            }
        }
        *self =
        AuditLog {
            last_hash_b64: last,
            pending_hash_b64: None,
            model: Ghost(settled(before, written)),
        };
    }

    /// The hash of the last entry that was written, `GENESIS` where there is
    /// none.
    pub fn last_hash_b64(&self) -> (r: &str)
        ensures
            r@ == tip(self@.entries),
    {
        proof {
            use_type_invariant(self);
        }
        self.last_hash_b64.as_str()
    }
}

} // verus!
