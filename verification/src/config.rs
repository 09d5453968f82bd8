//! Client authorization table: default-deny on `(operation, key_label)`,
//! keyed by the CN of the mTLS client certificate.
//!
//! Validation at load time (hard start errors, no silent wildcards):
//! - every permission needs key labels, none of them empty or listed twice
//! - `derive_and_*` entries require a non-empty `peer_public_keys` allowlist
//!   of distinct base64 values
//! - `peer_public_keys` on any other operation is an error
//! - the gateway's integrity key label must not appear anywhere, be it as written
//!   or trimmed: a client with that label could forge integrity signatures
//! - duplicate CNs are rejected

use vstd::prelude::*;
use vstd::string::*;

use crate::codec::{b64_decode, b64_decoded};
use crate::config_laws::law_permission_adds_and_leaves;
use crate::text::{debug_quoted, join2, join3, join5, quote, same_text, trimmed};

verus! {

/// The six operations that the gateway exposes.
#[derive(Debug, Clone, Copy, PartialEq, Eq, Structural, Hash)]
pub enum Operation {
    Sign,
    Verify,
    Encrypt,
    Decrypt,
    DeriveAndEncrypt,
    DeriveAndDecrypt,
}

/// The operations that derive a key from a counterparty's public key.
pub open spec fn derives(op: Operation) -> bool {
    op is DeriveAndEncrypt || op is DeriveAndDecrypt
}

/// The name of an operation's variant.
pub open spec fn variant_name(op: Operation) -> Seq<char> {
    match op {
        Operation::Sign => "Sign"@,
        Operation::Verify => "Verify"@,
        Operation::Encrypt => "Encrypt"@,
        Operation::Decrypt => "Decrypt"@,
        Operation::DeriveAndEncrypt => "DeriveAndEncrypt"@,
        Operation::DeriveAndDecrypt => "DeriveAndDecrypt"@,
    }
}

/// The clients file, as read.
#[derive(Debug)]
pub struct FileConfig {
    pub clients: Vec<ClientEntry>,
}

/// One client of the clients file.
#[derive(Debug)]
pub struct ClientEntry {
    pub cn: String,
    pub description: Option<String>,
    pub permissions: Vec<PermissionEntry>,
}

/// One permission of a client.
#[derive(Debug)]
pub struct PermissionEntry {
    pub operation: Operation,
    pub key_labels: Vec<String>,
    pub peer_public_keys: Option<Vec<String>>,
}

/// What the table makes of a permission entry.
pub struct PermissionModel {
    pub operation: Operation,
    pub key_labels: Seq<Seq<char>>,
    pub peer_public_keys: Option<Seq<Seq<char>>>,
}

/// What the table makes of a client entry; the description plays no part.
pub struct ClientModel {
    pub cn: Seq<char>,
    pub permissions: Seq<PermissionModel>,
}

/// The characters of each text.
pub open spec fn texts(v: Seq<String>) -> Seq<Seq<char>> {
    Seq::new(v.len(), |i: int| v[i]@)
}

/// Each text trimmed.
pub open spec fn trimmed_all(v: Seq<Seq<char>>) -> Seq<Seq<char>> {
    Seq::new(v.len(), |i: int| trimmed(v[i]))
}

impl View for PermissionEntry {
    type V = PermissionModel;

    open spec fn view(&self) -> PermissionModel {
        PermissionModel {
            operation: self.operation,
            key_labels: texts(self.key_labels@),
            peer_public_keys: match self.peer_public_keys {
                Some(keys) => Some(texts(keys@)),
                None => None,
            },
        }
    }
}

impl View for ClientEntry {
    type V = ClientModel;

    open spec fn view(&self) -> ClientModel {
        ClientModel {
            cn: self.cn@,
            permissions: Seq::new(self.permissions@.len(), |i: int| self.permissions@[i]@),
        }
    }
}

impl View for FileConfig {
    type V = Seq<ClientModel>;

    open spec fn view(&self) -> Seq<ClientModel> {
        Seq::new(self.clients@.len(), |i: int| self.clients@[i]@)
    }
}

/// What is wrong with a permission entry.
#[derive(Debug)]
pub enum PermissionFault {
    NoKeyLabels,
    EmptyLabel,
    IntegrityLabel { label: String },
    DuplicateLabel { label: String },
    PeerKeysNotAllowed,
    PeerKeysMissing,
    NoPeerKeys,
    EmptyPeerKey,
    PeerKeyNotBase64,
    DuplicatePeerKey,
}

/// A permission fault, with the label's characters.
pub enum PermissionFaultModel {
    NoKeyLabels,
    EmptyLabel,
    IntegrityLabel { label: Seq<char> },
    DuplicateLabel { label: Seq<char> },
    PeerKeysNotAllowed,
    PeerKeysMissing,
    NoPeerKeys,
    EmptyPeerKey,
    PeerKeyNotBase64,
    DuplicatePeerKey,
}

impl View for PermissionFault {
    type V = PermissionFaultModel;

    open spec fn view(&self) -> PermissionFaultModel {
        match self {
            PermissionFault::NoKeyLabels => PermissionFaultModel::NoKeyLabels,
            PermissionFault::EmptyLabel => PermissionFaultModel::EmptyLabel,
            PermissionFault::IntegrityLabel { label } => PermissionFaultModel::IntegrityLabel {
                label: label@,
            },
            PermissionFault::DuplicateLabel { label } => PermissionFaultModel::DuplicateLabel {
                label: label@,
            },
            PermissionFault::PeerKeysNotAllowed => PermissionFaultModel::PeerKeysNotAllowed,
            PermissionFault::PeerKeysMissing => PermissionFaultModel::PeerKeysMissing,
            PermissionFault::NoPeerKeys => PermissionFaultModel::NoPeerKeys,
            PermissionFault::EmptyPeerKey => PermissionFaultModel::EmptyPeerKey,
            PermissionFault::PeerKeyNotBase64 => PermissionFaultModel::PeerKeyNotBase64,
            PermissionFault::DuplicatePeerKey => PermissionFaultModel::DuplicatePeerKey,
        }
    }
}

/// Why a clients file is refused.
#[derive(Debug)]
pub enum ConfigError {
    EmptyCn,
    DuplicateCn { cn: String },
    Permission { cn: String, operation: Operation, fault: PermissionFault },
}

/// A refusal, with the characters of its texts.
pub enum ConfigErrorModel {
    EmptyCn,
    DuplicateCn { cn: Seq<char> },
    Permission { cn: Seq<char>, operation: Operation, fault: PermissionFaultModel },
}

impl View for ConfigError {
    type V = ConfigErrorModel;

    open spec fn view(&self) -> ConfigErrorModel {
        match self {
            ConfigError::EmptyCn => ConfigErrorModel::EmptyCn,
            ConfigError::DuplicateCn { cn } => ConfigErrorModel::DuplicateCn { cn: cn@ },
            ConfigError::Permission { cn, operation, fault } => ConfigErrorModel::Permission {
                cn: cn@,
                operation: *operation,
                fault: fault@,
            },
        }
    }
}

/// The words for a permission fault.
pub open spec fn permission_fault_words(fault: PermissionFaultModel) -> Seq<char> {
    match fault {
        PermissionFaultModel::NoKeyLabels => "key_labels must not be empty"@,
        PermissionFaultModel::EmptyLabel => "key_labels contains an empty label"@,
        PermissionFaultModel::IntegrityLabel { label } => "key label "@ + debug_quoted(label)
            + " is the gateway integrity key and must never be granted to clients"@,
        PermissionFaultModel::DuplicateLabel { label } => "duplicate key label "@ + debug_quoted(
            label,
        ),
        PermissionFaultModel::PeerKeysNotAllowed => {
            "peer_public_keys is only allowed on derive operations"@
        },
        PermissionFaultModel::PeerKeysMissing => {
            "peer_public_keys allowlist is mandatory for derive operations (no wildcard)"@
        },
        PermissionFaultModel::NoPeerKeys => "peer_public_keys must not be empty"@,
        PermissionFaultModel::EmptyPeerKey => "peer_public_keys contains an empty entry"@,
        PermissionFaultModel::PeerKeyNotBase64 => {
            "peer_public_keys contains an entry that is not valid base64"@
        },
        PermissionFaultModel::DuplicatePeerKey => "duplicate peer public key entry"@,
    }
}

/// The words for a refusal.
pub open spec fn config_error_words(e: ConfigErrorModel) -> Seq<char> {
    match e {
        ConfigErrorModel::EmptyCn => "client entry with empty cn"@,
        ConfigErrorModel::DuplicateCn { cn } => "duplicate client cn "@ + debug_quoted(cn),
        ConfigErrorModel::Permission { cn, operation, fault } => cn + " "@ + variant_name(operation)
            + ": "@ + permission_fault_words(fault),
    }
}

/// The name of an operation's variant.
fn variant_text(op: Operation) -> (r: &'static str)
    ensures
        r@ == variant_name(op),
{
    match op {
        Operation::Sign => "Sign",
        Operation::Verify => "Verify",
        Operation::Encrypt => "Encrypt",
        Operation::Decrypt => "Decrypt",
        Operation::DeriveAndEncrypt => "DeriveAndEncrypt",
        Operation::DeriveAndDecrypt => "DeriveAndDecrypt",
    }
}

impl PermissionFault {
    /// The words for the fault.
    pub fn text(&self) -> (r: String)
        ensures
            r@ == permission_fault_words(self@),
    {
        match self {
            PermissionFault::NoKeyLabels => "key_labels must not be empty".to_owned(),
            PermissionFault::EmptyLabel => "key_labels contains an empty label".to_owned(),
            PermissionFault::IntegrityLabel { label } => {
                let quoted = quote(label.as_str());
                join3(
                    "key label ",
                    quoted.as_str(),
                    " is the gateway integrity key and must never be granted to clients",
                )
            },
            PermissionFault::DuplicateLabel { label } => {
                let quoted = quote(label.as_str());
                join2("duplicate key label ", quoted.as_str())
            },
            PermissionFault::PeerKeysNotAllowed => {
                "peer_public_keys is only allowed on derive operations".to_owned()
            },
            PermissionFault::PeerKeysMissing => {
                "peer_public_keys allowlist is mandatory for derive operations (no wildcard)".to_owned()
            },
            PermissionFault::NoPeerKeys => "peer_public_keys must not be empty".to_owned(),
            PermissionFault::EmptyPeerKey => "peer_public_keys contains an empty entry".to_owned(),
            PermissionFault::PeerKeyNotBase64 => {
                "peer_public_keys contains an entry that is not valid base64".to_owned()
            },
            PermissionFault::DuplicatePeerKey => "duplicate peer public key entry".to_owned(),
        }
    }
}

impl ConfigError {
    /// The words for the refusal.
    pub fn text(&self) -> (r: String)
        ensures
            r@ == config_error_words(self@),
    {
        match self {
            ConfigError::EmptyCn => "client entry with empty cn".to_owned(),
            ConfigError::DuplicateCn { cn } => {
                let quoted = quote(cn.as_str());
                join2("duplicate client cn ", quoted.as_str())
            },
            ConfigError::Permission { cn, operation, fault } => {
                let why = fault.text();
                join5(cn.as_str(), " ", variant_text(*operation), ": ", why.as_str())
            },
        }
    }
}

// ---------------------------------------------------------------------------
// Which file is refused, and for what
// ---------------------------------------------------------------------------

/// What is wrong with the label at position `k`, the earlier ones being fine. The
/// integrity label is found as it is written and without the white space around it.
pub open spec fn label_fault_at(
    labels: Seq<Seq<char>>,
    integrity: Seq<char>,
    k: int,
) -> Option<PermissionFaultModel> {
    let label = trimmed(labels[k]);
    if label.len() == 0 {
        Some(PermissionFaultModel::EmptyLabel)
    } else if label == integrity || labels[k] == integrity {
        Some(PermissionFaultModel::IntegrityLabel { label: integrity })
    } else if trimmed_all(labels).take(k).contains(label) {
        Some(PermissionFaultModel::DuplicateLabel { label })
    } else {
        None
    }
}

/// The first fault among the labels from position `k` on.
pub open spec fn labels_fault(
    labels: Seq<Seq<char>>,
    integrity: Seq<char>,
    k: int,
) -> Option<PermissionFaultModel>
    decreases labels.len() - k,
{
    if k >= labels.len() {
        None
    } else {
        match label_fault_at(labels, integrity, k) {
            Some(fault) => Some(fault),
            None => labels_fault(labels, integrity, k + 1),
        }
    }
}

/// What is wrong with a trimmed allowlist entry, given whether it is base64 and
/// whether it stood in the list before.
pub open spec fn peer_key_fault(
    key: Seq<char>,
    is_base64: bool,
    seen: bool,
) -> Option<PermissionFaultModel> {
    if key.len() == 0 {
        Some(PermissionFaultModel::EmptyPeerKey)
    } else if !is_base64 {
        Some(PermissionFaultModel::PeerKeyNotBase64)
    } else if seen {
        Some(PermissionFaultModel::DuplicatePeerKey)
    } else {
        None
    }
}

/// What is wrong with the allowlist entry at position `k`.
pub open spec fn peer_key_fault_at(keys: Seq<Seq<char>>, k: int) -> Option<PermissionFaultModel> {
    let key = trimmed(keys[k]);
    peer_key_fault(key, b64_decoded(key) is Some, trimmed_all(keys).take(k).contains(key))
}

/// The first fault among the allowlist entries from position `k` on.
pub open spec fn peer_keys_fault(keys: Seq<Seq<char>>, k: int) -> Option<PermissionFaultModel>
    decreases keys.len() - k,
{
    if k >= keys.len() {
        None
    } else {
        match peer_key_fault_at(keys, k) {
            Some(fault) => Some(fault),
            None => peer_keys_fault(keys, k + 1),
        }
    }
}

/// The first fault of a permission entry.
pub open spec fn permission_fault(
    perm: PermissionModel,
    integrity: Seq<char>,
) -> Option<PermissionFaultModel> {
    if perm.key_labels.len() == 0 {
        Some(PermissionFaultModel::NoKeyLabels)
    } else {
        match labels_fault(perm.key_labels, integrity, 0) {
            Some(fault) => Some(fault),
            None => match (perm.peer_public_keys, derives(perm.operation)) {
                (None, false) => None,
                (None, true) => Some(PermissionFaultModel::PeerKeysMissing),
                (Some(_), false) => Some(PermissionFaultModel::PeerKeysNotAllowed),
                (Some(keys), true) => if keys.len() == 0 {
                    Some(PermissionFaultModel::NoPeerKeys)
                } else {
                    peer_keys_fault(keys, 0)
                },
            },
        }
    }
}

/// The first fault among a client's permissions from position `k` on.
pub open spec fn permissions_fault(
    cn: Seq<char>,
    perms: Seq<PermissionModel>,
    integrity: Seq<char>,
    k: int,
) -> Option<ConfigErrorModel>
    decreases perms.len() - k,
{
    if k >= perms.len() {
        None
    } else {
        match permission_fault(perms[k], integrity) {
            Some(fault) => Some(
                ConfigErrorModel::Permission { cn, operation: perms[k].operation, fault },
            ),
            None => permissions_fault(cn, perms, integrity, k + 1),
        }
    }
}

/// The trimmed CNs of the clients.
pub open spec fn trimmed_cns(clients: Seq<ClientModel>) -> Seq<Seq<char>> {
    Seq::new(clients.len(), |i: int| trimmed(clients[i].cn))
}

/// What is wrong with the client at position `k`, the earlier ones being fine.
pub open spec fn client_fault_at(
    clients: Seq<ClientModel>,
    integrity: Seq<char>,
    k: int,
) -> Option<ConfigErrorModel> {
    let cn = trimmed(clients[k].cn);
    if cn.len() == 0 {
        Some(ConfigErrorModel::EmptyCn)
    } else if trimmed_cns(clients).take(k).contains(cn) {
        Some(ConfigErrorModel::DuplicateCn { cn })
    } else {
        permissions_fault(cn, clients[k].permissions, integrity, 0)
    }
}

/// The first fault among the clients from position `k` on.
pub open spec fn clients_fault(
    clients: Seq<ClientModel>,
    integrity: Seq<char>,
    k: int,
) -> Option<ConfigErrorModel>
    decreases clients.len() - k,
{
    if k >= clients.len() {
        None
    } else {
        match client_fault_at(clients, integrity, k) {
            Some(fault) => Some(fault),
            None => clients_fault(clients, integrity, k + 1),
        }
    }
}

/// Why a clients file is refused, if it is.
pub open spec fn config_fault(
    clients: Seq<ClientModel>,
    integrity: Seq<char>,
) -> Option<ConfigErrorModel> {
    clients_fault(clients, integrity, 0)
}

// ---------------------------------------------------------------------------
// What an accepted file grants
// ---------------------------------------------------------------------------

/// Who may do what with which key: `(cn, operation, key_label)`.
pub type GrantKey = (Seq<char>, Operation, Seq<char>);

/// The grants, each with the peer public keys that it allows.
pub type Grants = Map<GrantKey, Set<Seq<char>>>;

/// Whether a permission of a client is about a grant.
pub open spec fn concerns(cn: Seq<char>, perm: PermissionModel, key: GrantKey) -> bool {
    key.0 == cn && key.1 == perm.operation && trimmed_all(perm.key_labels).contains(key.2)
}

/// The peer keys go with the derive operations: no other grant allows any.
pub open spec fn peer_keys_only_on_derive(m: Grants) -> bool {
    forall|key: GrantKey|
        #[trigger] m.contains_key(key) && !derives(key.1) ==> m[key] == Set::<Seq<char>>::empty()
}

/// Whether a grant allows a peer key.
pub open spec fn allows(m: Grants, key: GrantKey, peer: Seq<char>) -> bool {
    m.contains_key(key) && m[key].contains(peer)
}

/// The peer keys that a permission entry allows.
pub open spec fn allowlist(perm: PermissionModel) -> Set<Seq<char>> {
    match perm.peer_public_keys {
        Some(keys) => trimmed_all(keys).to_set(),
        None => Set::empty(),
    }
}

/// `m` with the grants of the first `n` labels of a permission.
pub open spec fn with_labels(m: Grants, cn: Seq<char>, perm: PermissionModel, n: nat) -> Grants
    decreases n,
{
    if n == 0 {
        m
    } else {
        with_labels(m, cn, perm, (n - 1) as nat).insert(
            (cn, perm.operation, trimmed(perm.key_labels[n - 1])),
            allowlist(perm),
        )
    }
}

/// `m` with the grants of a permission. A later listing of the same operation
/// and label replaces the allowlist of an earlier one.
pub open spec fn with_permission(m: Grants, cn: Seq<char>, perm: PermissionModel) -> Grants {
    with_labels(m, cn, perm, perm.key_labels.len())
}

/// `m` with the grants of the first `n` permissions of a client.
pub open spec fn with_permissions(
    m: Grants,
    cn: Seq<char>,
    perms: Seq<PermissionModel>,
    n: nat,
) -> Grants
    decreases n,
{
    if n == 0 {
        m
    } else {
        with_permission(with_permissions(m, cn, perms, (n - 1) as nat), cn, perms[n - 1])
    }
}

/// The grants of the first `n` clients.
pub open spec fn with_clients(clients: Seq<ClientModel>, n: nat) -> Grants
    decreases n,
{
    if n == 0 {
        Map::empty()
    } else {
        let client = clients[n - 1];
        with_permissions(
            with_clients(clients, (n - 1) as nat),
            trimmed(client.cn),
            client.permissions,
            client.permissions.len(),
        )
    }
}

/// The grants of a clients file.
pub open spec fn config_grants(clients: Seq<ClientModel>) -> Grants {
    with_clients(clients, clients.len())
}

// ---------------------------------------------------------------------------
// The table
// ---------------------------------------------------------------------------

/// One entry of the table.
#[derive(Debug)]
struct Grant {
    cn: String,
    operation: Operation,
    key_label: String,
    peer_keys: Vec<String>,
}

impl Grant {
    spec fn key(self) -> GrantKey {
        (self.cn@, self.operation, self.key_label@)
    }
}

/// The map that a list of entries stands for; a later entry replaces an earlier
/// one with the same key.
spec fn grant_map(list: Seq<Grant>) -> Grants
    decreases list.len(),
{
    if list.len() == 0 {
        Map::empty()
    } else {
        grant_map(list.drop_last()).insert(
            list.last().key(),
            texts(list.last().peer_keys@).to_set(),
        )
    }
}

/// In-memory authorization table, built once at startup.
#[derive(Debug)]
pub struct AuthzTable {
    grants: Vec<Grant>,
}

impl View for AuthzTable {
    type V = Grants;

    closed spec fn view(&self) -> Grants {
        grant_map(self.grants@)
    }
}

impl Default for AuthzTable {
    fn default() -> (r: AuthzTable)
        ensures
            r@ == Grants::empty(),
    {
        AuthzTable { grants: Vec::new() }
    }
}

/// Whether a list of texts holds a text.
fn contains_text(list: &Vec<String>, text: &str) -> (r: bool)
    ensures
        r == texts(list@).contains(text@),
{
    let mut i: usize = 0;
    while i < list.len()
        invariant
            i <= list@.len(),
            forall|j: int| 0 <= j < i ==> list@[j]@ != text@,
        decreases list@.len() - i,
    {
        if same_text(list[i].as_str(), text) {
            assert(texts(list@)[i as int] == text@);
            return true;
        }
        i += 1;
    }
    false
}

/// A list with the same texts.
fn copy_texts(list: &Vec<String>) -> (r: Vec<String>)
    ensures
        texts(r@) == texts(list@),
{
    let mut out: Vec<String> = Vec::new();
    let mut i: usize = 0;
    while i < list.len()
        invariant
            i <= list@.len(),
            texts(out@) == texts(list@).take(i as int),
        decreases list@.len() - i,
    {
        let ghost before = out@;
        out.push(list[i].clone());
        proof {
            assert(texts(out@) =~= texts(before).push(list@[i as int]@));
            assert(texts(out@) =~= texts(list@).take(i + 1));
        }
        i += 1;
    }
    assert(texts(list@).take(list@.len() as int) =~= texts(list@));
    out
}

/// Vets the labels of a permission: the trimmed labels, or the first fault.
fn vet_labels(labels: &Vec<String>, integrity_key_label: &str) -> (r: Result<
    Vec<String>,
    PermissionFault,
>)
    ensures
        match r {
            Ok(vetted) => labels_fault(texts(labels@), integrity_key_label@, 0) is None && texts(
                vetted@,
            ) == trimmed_all(texts(labels@)),
            Err(fault) => labels_fault(texts(labels@), integrity_key_label@, 0) == Some(fault@),
        },
{
    let ghost all = texts(labels@);
    let ghost goal = trimmed_all(all);
    let ghost integrity = integrity_key_label@;
    let mut vetted: Vec<String> = Vec::new();
    let mut i: usize = 0;
    while i < labels.len()
        invariant
            i <= labels@.len(),
            all == texts(labels@),
            goal == trimmed_all(all),
            integrity == integrity_key_label@,
            labels_fault(all, integrity, 0) == labels_fault(all, integrity, i as int),
            texts(vetted@) == goal.take(i as int),
        decreases labels@.len() - i,
    {
        let label = labels[i].trim();
        if label.is_empty() {
            return Err(PermissionFault::EmptyLabel);
        }
        if same_text(label, integrity_key_label) || same_text(
            labels[i].as_str(),
            integrity_key_label,
        ) {
            return Err(PermissionFault::IntegrityLabel { label: integrity_key_label.to_owned() });
        }
        if contains_text(&vetted, label) {
            return Err(PermissionFault::DuplicateLabel { label: label.to_owned() });
        }
        let ghost before = vetted@;
        vetted.push(label.to_owned());
        proof {
            assert(texts(vetted@) =~= texts(before).push(label@));
            assert(goal.take(i + 1) =~= goal.take(i as int).push(label@));
        }
        i += 1;
    }
    assert(goal.take(labels@.len() as int) =~= goal);
    Ok(vetted)
}

/// Vets one trimmed allowlist entry, given whether it is base64 and whether it
/// stood in the list before.
pub fn vet_peer_key(key: &str, is_base64: bool, seen: bool) -> (r: Option<PermissionFault>)
    ensures
        match r {
            Some(fault) => peer_key_fault(key@, is_base64, seen) == Some(fault@),
            None => peer_key_fault(key@, is_base64, seen) is None,
        },
{
    if key.is_empty() {
        Some(PermissionFault::EmptyPeerKey)
    } else if !is_base64 {
        Some(PermissionFault::PeerKeyNotBase64)
    } else if seen {
        Some(PermissionFault::DuplicatePeerKey)
    } else {
        None
    }
}

/// Vets an allowlist: the trimmed entries, or the first fault.
fn vet_peer_keys(keys: &Vec<String>) -> (r: Result<Vec<String>, PermissionFault>)
    ensures
        match r {
            Ok(vetted) => peer_keys_fault(texts(keys@), 0) is None && texts(vetted@)
                == trimmed_all(texts(keys@)),
            Err(fault) => peer_keys_fault(texts(keys@), 0) == Some(fault@),
        },
{
    let ghost all = texts(keys@);
    let ghost goal = trimmed_all(all);
    let mut vetted: Vec<String> = Vec::new();
    let mut i: usize = 0;
    while i < keys.len()
        invariant
            i <= keys@.len(),
            all == texts(keys@),
            goal == trimmed_all(all),
            peer_keys_fault(all, 0) == peer_keys_fault(all, i as int),
            texts(vetted@) == goal.take(i as int),
        decreases keys@.len() - i,
    {
        let key = keys[i].trim();
        let is_base64 = b64_decode(key).is_some();
        let seen = contains_text(&vetted, key);
        if let Some(fault) = vet_peer_key(key, is_base64, seen) {
            return Err(fault);
        }
        let ghost before = vetted@;
        vetted.push(key.to_owned());
        proof {
            assert(texts(vetted@) =~= texts(before).push(key@));
            assert(goal.take(i + 1) =~= goal.take(i as int).push(key@));
        }
        i += 1;
    }
    assert(goal.take(keys@.len() as int) =~= goal);
    Ok(vetted)
}

/// Whether an operation derives a key.
fn is_derive(op: Operation) -> (r: bool)
    ensures
        r == derives(op),
{
    matches!(op, Operation::DeriveAndEncrypt | Operation::DeriveAndDecrypt)
}

impl AuthzTable {
    #[verifier::type_invariant]
    spec fn valid(self) -> bool {
        peer_keys_only_on_derive(self@)
    }

    /// Builds the table from a clients file, or says why the file is refused.
    /// `integrity_key_label` is the gateway's own signing key: it must not be
    /// granted to any client.
    pub fn from_config(cfg: &FileConfig, integrity_key_label: &str) -> (r: Result<
        AuthzTable,
        ConfigError,
    >)
        ensures
            match r {
                Ok(table) => config_fault(cfg@, integrity_key_label@) is None && table@
                    == config_grants(cfg@),
                Err(e) => config_fault(cfg@, integrity_key_label@) == Some(e@),
            },
    {
        let ghost clients = cfg@;
        let ghost integrity = integrity_key_label@;
        let mut table = AuthzTable::default();
        let mut seen_cn: Vec<String> = Vec::new();
        let mut i: usize = 0;
        while i < cfg.clients.len()
            invariant
                i <= cfg.clients@.len(),
                clients == cfg@,
                integrity == integrity_key_label@,
                clients_fault(clients, integrity, 0) == clients_fault(clients, integrity, i as int),
                texts(seen_cn@) == trimmed_cns(clients).take(i as int),
                table@ == with_clients(clients, i as nat),
            decreases cfg.clients@.len() - i,
        {
            let client = &cfg.clients[i];
            assert(clients[i as int] == client@);
            let cn = client.cn.trim();
            if cn.is_empty() {
                return Err(ConfigError::EmptyCn);
            }
            if contains_text(&seen_cn, cn) {
                return Err(ConfigError::DuplicateCn { cn: cn.to_owned() });
            }
            let ghost before = seen_cn@;
            seen_cn.push(cn.to_owned());
            proof {
                assert(texts(seen_cn@) =~= texts(before).push(cn@));
                assert(trimmed_cns(clients).take(i + 1) =~= trimmed_cns(clients).take(
                    i as int,
                ).push(cn@));
            }
            let ghost perms = client@.permissions;
            assert(client_fault_at(clients, integrity, i as int) == permissions_fault(
                cn@,
                perms,
                integrity,
                0,
            ));
            let mut j: usize = 0;
            #[verifier::loop_isolation(false)]
            while j < client.permissions.len()
                invariant
                    j <= client.permissions@.len(),
                    perms == client@.permissions,
                    integrity == integrity_key_label@,
                    permissions_fault(cn@, perms, integrity, 0) == permissions_fault(
                        cn@,
                        perms,
                        integrity,
                        j as int,
                    ),
                    table@ == with_permissions(with_clients(clients, i as nat), cn@, perms, j as nat),
                decreases client.permissions@.len() - j,
            {
                let perm = &client.permissions[j];
                assert(perms[j as int] == perm@);
                if let Err(fault) = table.add_permission(cn, perm, integrity_key_label) {
                    return Err(
                        ConfigError::Permission {
                            cn: cn.to_owned(),
                            operation: perm.operation,
                            fault,
                        },
                    );
                }
                j += 1;
            }
            i += 1;
        }
        Ok(table)
    }

    /// Adds the grants of one permission entry, or leaves the table as it was
    /// and says what is wrong with the entry.
    /// On a derive operation the entry's allowlist takes the place of what its grants
    /// allowed before; every other grant stays as it was.
    pub fn add_permission(
        &mut self,
        cn: &str,
        perm: &PermissionEntry,
        integrity_key_label: &str,
    ) -> (r: Result<(), PermissionFault>)
        ensures
            match r {
                Ok(()) => {
                    &&& permission_fault(perm@, integrity_key_label@) is None
                    &&& final(self)@ == with_permission(old(self)@, cn@, perm@)
                    &&& forall|key: GrantKey| #[trigger]
                        final(self)@.contains_key(key) <==> concerns(cn@, perm@, key)
                            || old(self)@.contains_key(key)
                    &&& forall|key: GrantKey, peer: Seq<char>| #[trigger]
                        allows(final(self)@, key, peer) <==> (if concerns(cn@, perm@, key)
                            && derives(perm.operation) {
                            trimmed_all(perm@.peer_public_keys->0).contains(peer)
                        } else {
                            allows(old(self)@, key, peer)
                        })
                },
                Err(fault) => permission_fault(perm@, integrity_key_label@) == Some(fault@)
                    && final(self)@ == old(self)@,
            },
    {
        if perm.key_labels.is_empty() {
            return Err(PermissionFault::NoKeyLabels);
        }
        let labels = match vet_labels(&perm.key_labels, integrity_key_label) {
            Ok(labels) => labels,
            Err(fault) => {
                return Err(fault);
            },
        };
        let vetted = match (&perm.peer_public_keys, is_derive(perm.operation)) {
            (None, false) => Vec::new(),
            (Some(_), false) => {
                return Err(PermissionFault::PeerKeysNotAllowed);
            },
            (None, true) => {
                return Err(PermissionFault::PeerKeysMissing);
            },
            (Some(raw), true) => {
                if raw.is_empty() {
                    return Err(PermissionFault::NoPeerKeys);
                }
                match vet_peer_keys(raw) {
                    Ok(vetted) => vetted,
                    Err(fault) => {
                        return Err(fault);
                    },
                }
            },
        };
        let ghost model = perm@;
        let ghost start = self@;
        proof {
            use_type_invariant(&*self);
        }
        assert(texts(vetted@).to_set() =~= allowlist(model));
        assert(labels@.len() == texts(labels@).len());
        let mut grants: Vec<Grant> = Vec::new();
        std::mem::swap(&mut grants, &mut self.grants);
        let mut i: usize = 0;
        while i < labels.len()
            invariant
                i <= labels@.len(),
                model == perm@,
                labels@.len() == model.key_labels.len(),
                texts(labels@) == trimmed_all(model.key_labels),
                texts(vetted@).to_set() == allowlist(model),
                grant_map(grants@) == with_labels(start, cn@, model, i as nat),
            decreases labels@.len() - i,
        {
            let ghost before = grants@;
            let grant = Grant {
                cn: cn.to_owned(),
                operation: perm.operation,
                key_label: labels[i].clone(),
                peer_keys: copy_texts(&vetted),
            };
            grants.push(grant);
            proof {
                assert(grants@.drop_last() =~= before);
                assert(texts(labels@)[i as int] == trimmed_all(model.key_labels)[i as int]);
            }
            i += 1;
        }
        proof {
            let integrity = integrity_key_label@;
            assert forall|key: GrantKey, peer: Seq<char>| #[trigger]
                allows(with_permission(start, cn@, model), key, peer) <==> (if concerns(
                    cn@,
                    model,
                    key,
                ) && derives(model.operation) {
                    trimmed_all(model.peer_public_keys->0).contains(peer)
                } else {
                    allows(start, key, peer)
                }) by {
                law_permission_adds_and_leaves(start, cn@, model, integrity, key, peer);
            }
            assert forall|key: GrantKey| #[trigger]
                with_permission(start, cn@, model).contains_key(key) <==> concerns(cn@, model, key)
                    || start.contains_key(key) by {
                law_permission_adds_and_leaves(start, cn@, model, integrity, key, Seq::empty());
            }
            law_permission_adds_and_leaves(
                start,
                cn@,
                model,
                integrity,
                (cn@, model.operation, cn@),
                Seq::empty(),
            );
        }
        self.grants = grants;
        Ok(())
    }

    /// Default-deny: unknown clients, operations and labels give `false`.
    pub fn is_authorized(&self, cn: &str, op: Operation, key_label: &str) -> (r: bool)
        ensures
            r == self@.contains_key((cn@, op, key_label@)),
    {
        match self.find(cn, op, key_label) {
            Some(_) => true,
            None => false,
        }
    }

    /// Peer-key check for derive operations. Unknown combinations and the other
    /// operations, which have no allowlist, give `false`.
    pub fn is_peer_key_authorized(
        &self,
        cn: &str,
        op: Operation,
        key_label: &str,
        peer_key_b64: &str,
    ) -> (r: bool)
        ensures
            r == (self@.contains_key((cn@, op, key_label@)) && self@[(
                cn@,
                op,
                key_label@,
            )].contains(peer_key_b64@)),
    {
        match self.find(cn, op, key_label) {
            Some(i) => contains_text(&self.grants[i].peer_keys, peer_key_b64),
            None => false,
        }
    }

    /// The position of the entry that holds for a key: the last one with it.
    fn find(&self, cn: &str, op: Operation, key_label: &str) -> (r: Option<usize>)
        ensures
            match r {
                Some(i) => i < self.grants@.len() && self@.contains_key((cn@, op, key_label@))
                    && self@[(cn@, op, key_label@)] == texts(
                    self.grants@[i as int].peer_keys@,
                ).to_set(),
                None => !self@.contains_key((cn@, op, key_label@)),
            },
    {
        let ghost key = (cn@, op, key_label@);
        let ghost all = self.grants@;
        let mut n: usize = self.grants.len();
        assert(all.take(n as int) =~= all);
        while n > 0
            invariant
                n <= all.len(),
                all == self.grants@,
                key == (cn@, op, key_label@),
                grant_map(all).contains_key(key) == grant_map(all.take(n as int)).contains_key(key),
                grant_map(all).contains_key(key) ==> grant_map(all)[key] == grant_map(
                    all.take(n as int),
                )[key],
            decreases n,
        {
            n -= 1;
            let grant = &self.grants[n];
            proof {
                let top = all.take(n + 1);
                assert(top.drop_last() =~= all.take(n as int));
                assert(top.last() == all[n as int]);
            }
            if grant.operation == op && same_text(grant.cn.as_str(), cn) && same_text(
                grant.key_label.as_str(),
                key_label,
            ) {
                return Some(n);
            }
        }
        None
    }
}

} // verus!
