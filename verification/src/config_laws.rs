//! Laws of the authorization table: what an accepted clients file grants, and
//! what it can never grant.

use vstd::prelude::*;

use crate::codec::b64_decoded;
use crate::config::{
    allowlist, allows, client_fault_at, clients_fault, concerns, config_error_words, config_fault,
    config_grants, derives, label_fault_at, labels_fault, peer_key_fault_at, peer_keys_fault,
    peer_keys_only_on_derive, permission_fault, permission_fault_words, permissions_fault,
    trimmed_all, trimmed_cns, with_clients, with_labels, with_permission, with_permissions,
    ClientEntry, ClientModel, ConfigError, ConfigErrorModel, FileConfig, GrantKey, Grants,
    Operation, PermissionEntry, PermissionFault, PermissionFaultModel, PermissionModel,
};
use crate::text::{debug_quoted, trimmed};

verus! {

/// Permission `j` of client `i` lists the operation and the label for the CN.
pub open spec fn lists(
    clients: Seq<ClientModel>,
    i: int,
    j: int,
    key: GrantKey,
) -> bool {
    &&& 0 <= i < clients.len()
    &&& trimmed(clients[i].cn) == key.0
    &&& 0 <= j < clients[i].permissions.len()
    &&& clients[i].permissions[j].operation == key.1
    &&& trimmed_all(clients[i].permissions[j].key_labels).contains(key.2)
}

/// Some permission of some client lists the operation and the label for the CN.
pub open spec fn listed(clients: Seq<ClientModel>, key: GrantKey) -> bool {
    exists|i: int, j: int| #[trigger] lists(clients, i, j, key)
}

proof fn lemma_labels(m: Grants, cn: Seq<char>, perm: PermissionModel, n: nat, key: GrantKey)
    requires
        n <= perm.key_labels.len(),
    ensures
        with_labels(m, cn, perm, n).contains_key(key) <==> (m.contains_key(key) || (key.0 == cn
            && key.1 == perm.operation && trimmed_all(perm.key_labels).take(n as int).contains(
            key.2,
        ))),
        with_labels(m, cn, perm, n).contains_key(key) ==> with_labels(m, cn, perm, n)[key] == (if key.0
            == cn && key.1 == perm.operation && trimmed_all(perm.key_labels).take(
            n as int,
        ).contains(key.2) {
            allowlist(perm)
        } else {
            m[key]
        }),
    decreases n,
{
    let labels = trimmed_all(perm.key_labels);
    if n > 0 {
        lemma_labels(m, cn, perm, (n - 1) as nat, key);
        let before = labels.take(n - 1);
        let after = labels.take(n as int);
        assert(after =~= before.push(labels[n - 1]));
        if before.contains(key.2) {
            let k = choose|k: int| 0 <= k < before.len() && before[k] == key.2;
            assert(after[k] == key.2);
        }
        assert(after[n - 1] == labels[n - 1]);
        if after.contains(key.2) && key.2 != labels[n - 1] {
            let k = choose|k: int| 0 <= k < after.len() && after[k] == key.2;
            assert(before[k] == key.2);
        }
    }
}

proof fn lemma_permission(m: Grants, cn: Seq<char>, perm: PermissionModel, key: GrantKey)
    ensures
        with_permission(m, cn, perm).contains_key(key) <==> (m.contains_key(key) || concerns(
            cn,
            perm,
            key,
        )),
        with_permission(m, cn, perm).contains_key(key) ==> with_permission(m, cn, perm)[key] == (
        if concerns(cn, perm, key) {
            allowlist(perm)
        } else {
            m[key]
        }),
{
    lemma_labels(m, cn, perm, perm.key_labels.len(), key);
    let labels = trimmed_all(perm.key_labels);
    assert(labels.take(labels.len() as int) =~= labels);
}

/// What a permission adds, replaces and leaves alone: it grants its operation on its
/// labels to its client, and takes no grant away. On a derive operation its
/// allowlist takes the place of what its grants allowed before. Every other grant
/// allows the peer keys that it allowed before.
pub proof fn law_permission_adds_and_leaves(
    m: Grants,
    cn: Seq<char>,
    perm: PermissionModel,
    integrity: Seq<char>,
    key: GrantKey,
    peer: Seq<char>,
)
    requires
        peer_keys_only_on_derive(m),
        permission_fault(perm, integrity) is None,
    ensures
        with_permission(m, cn, perm).contains_key(key) <==> concerns(cn, perm, key)
            || m.contains_key(key),
        allows(with_permission(m, cn, perm), key, peer) <==> (if concerns(cn, perm, key) && derives(
            perm.operation,
        ) {
            trimmed_all(perm.peer_public_keys->0).contains(peer)
        } else {
            allows(m, key, peer)
        }),
        peer_keys_only_on_derive(with_permission(m, cn, perm)),
{
    let after = with_permission(m, cn, perm);
    lemma_permission(m, cn, perm, key);
    assert forall|k: GrantKey| #[trigger] after.contains_key(k) && !derives(k.1) implies after[k]
        == Set::<Seq<char>>::empty() by {
        lemma_permission(m, cn, perm, k);
    }
}

/// The client's permission `j`, among the first `n`, lists the operation and
/// the label.
spec fn client_lists(perms: Seq<PermissionModel>, n: nat, j: int, key: GrantKey) -> bool {
    &&& 0 <= j < n
    &&& perms[j].operation == key.1
    &&& trimmed_all(perms[j].key_labels).contains(key.2)
}

proof fn lemma_permissions(
    m: Grants,
    cn: Seq<char>,
    perms: Seq<PermissionModel>,
    n: nat,
    key: GrantKey,
)
    requires
        n <= perms.len(),
    ensures
        with_permissions(m, cn, perms, n).contains_key(key) <==> (m.contains_key(key) || (key.0
            == cn && exists|j: int| #[trigger] client_lists(perms, n, j, key))),
    decreases n,
{
    if n > 0 {
        let p = (n - 1) as nat;
        lemma_permissions(m, cn, perms, p, key);
        lemma_permission(with_permissions(m, cn, perms, p), cn, perms[p as int], key);
        if exists|j: int| #[trigger] client_lists(perms, p, j, key) {
            let j = choose|j: int| #[trigger] client_lists(perms, p, j, key);
            assert(client_lists(perms, n, j, key));
        }
        if exists|j: int| #[trigger] client_lists(perms, n, j, key) {
            let j = choose|j: int| #[trigger] client_lists(perms, n, j, key);
            assert(j == p || client_lists(perms, p, j, key));
        }
        assert(client_lists(perms, n, p as int, key) <==> perms[p as int].operation == key.1
            && trimmed_all(perms[p as int].key_labels).contains(key.2));
    }
}

proof fn lemma_clients(clients: Seq<ClientModel>, n: nat, key: GrantKey)
    requires
        n <= clients.len(),
    ensures
        with_clients(clients, n).contains_key(key) <==> exists|i: int, j: int|
            i < n && #[trigger] lists(clients, i, j, key),
    decreases n,
{
    if n > 0 {
        let p = (n - 1) as nat;
        let client = clients[p as int];
        let perms = client.permissions;
        let cn = trimmed(client.cn);
        lemma_clients(clients, p, key);
        lemma_permissions(with_clients(clients, p), cn, perms, perms.len(), key);
        if key.0 == cn && exists|j: int| #[trigger] client_lists(perms, perms.len(), j, key) {
            let j = choose|j: int| #[trigger] client_lists(perms, perms.len(), j, key);
            assert(lists(clients, p as int, j, key));
        }
        if exists|i: int, j: int| i < n && #[trigger] lists(clients, i, j, key) {
            let (i, j) = choose|i: int, j: int| i < n && #[trigger] lists(clients, i, j, key);
            if i == p {
                assert(client_lists(perms, perms.len(), j, key));
            } else {
                assert(i < p && lists(clients, i, j, key));
            }
        }
        if exists|i: int, j: int| i < p && #[trigger] lists(clients, i, j, key) {
            let (i, j) = choose|i: int, j: int| i < p && #[trigger] lists(clients, i, j, key);
            assert(i < n && lists(clients, i, j, key));
        }
    }
}

/// Default-deny: a clients file grants what one of its permissions lists for
/// the client, operation and label, and nothing else. In particular a client
/// that is not listed has no grant, and of the two derive operations each needs
/// its own listing.
pub proof fn law_granted_iff_listed(clients: Seq<ClientModel>, key: GrantKey)
    ensures
        config_grants(clients).contains_key(key) <==> listed(clients, key),
{
    lemma_clients(clients, clients.len(), key);
    if config_grants(clients).contains_key(key) {
        let (i, j) = choose|i: int, j: int|
            i < clients.len() && #[trigger] lists(clients, i, j, key);
        assert(lists(clients, i, j, key));
    }
    if listed(clients, key) {
        let (i, j) = choose|i: int, j: int| #[trigger] lists(clients, i, j, key);
        assert(i < clients.len() && lists(clients, i, j, key));
    }
}

/// What holds of every grant of an accepted file.
pub open spec fn sound_grant(m: Grants, integrity: Seq<char>, key: GrantKey) -> bool {
    &&& key.0.len() > 0
    &&& key.2.len() > 0
    &&& key.2 != integrity
    &&& derives(key.1) ==> (exists|p: Seq<char>| #[trigger] m[key].contains(p))
    &&& !derives(key.1) ==> m[key] == Set::<Seq<char>>::empty()
    &&& forall|p: Seq<char>| #[trigger] m[key].contains(p) ==> p.len() > 0 && b64_decoded(p) is Some
}

spec fn sound(m: Grants, integrity: Seq<char>) -> bool {
    forall|key: GrantKey| #[trigger] m.contains_key(key) ==> sound_grant(m, integrity, key)
}

proof fn lemma_labels_fine(labels: Seq<Seq<char>>, integrity: Seq<char>, k: int)
    requires
        0 <= k <= labels.len(),
        labels_fault(labels, integrity, k) is None,
    ensures
        forall|i: int|
            k <= i < labels.len() ==> trimmed(#[trigger] labels[i]).len() > 0 && trimmed(labels[i])
                != integrity && labels[i] != integrity,
    decreases labels.len() - k,
{
    if k < labels.len() {
        assert(label_fault_at(labels, integrity, k) is None);
        lemma_labels_fine(labels, integrity, k + 1);
    }
}

proof fn lemma_peer_keys_fine(keys: Seq<Seq<char>>, k: int)
    requires
        0 <= k <= keys.len(),
        peer_keys_fault(keys, k) is None,
    ensures
        forall|i: int|
            k <= i < keys.len() ==> trimmed(#[trigger] keys[i]).len() > 0 && b64_decoded(
                trimmed(keys[i]),
            ) is Some,
    decreases keys.len() - k,
{
    if k < keys.len() {
        assert(peer_key_fault_at(keys, k) is None);
        lemma_peer_keys_fine(keys, k + 1);
    }
}

proof fn lemma_permission_sound(
    m: Grants,
    cn: Seq<char>,
    perm: PermissionModel,
    integrity: Seq<char>,
)
    requires
        sound(m, integrity),
        cn.len() > 0,
        permission_fault(perm, integrity) is None,
    ensures
        sound(with_permission(m, cn, perm), integrity),
{
    let after = with_permission(m, cn, perm);
    lemma_labels_fine(perm.key_labels, integrity, 0);
    let labels = trimmed_all(perm.key_labels);
    assert forall|key: GrantKey| #[trigger] after.contains_key(key) implies sound_grant(
        after,
        integrity,
        key,
    ) by {
        lemma_permission(m, cn, perm, key);
        if key.0 == cn && key.1 == perm.operation && labels.contains(key.2) {
            let k = choose|k: int| 0 <= k < labels.len() && labels[k] == key.2;
            assert(trimmed(perm.key_labels[k]) == key.2);
            if let Some(keys) = perm.peer_public_keys {
                lemma_peer_keys_fine(keys, 0);
                let list = trimmed_all(keys);
                assert(list.contains(list[0]));
                assert(after[key].contains(list[0]));
                assert forall|p: Seq<char>| #[trigger] after[key].contains(p) implies p.len() > 0
                    && b64_decoded(p) is Some by {
                    let i = choose|i: int| 0 <= i < list.len() && list[i] == p;
                    assert(trimmed(keys[i]) == p);
                }
            }
        } else {
            assert(m.contains_key(key));
            assert(after[key] == m[key]);
            assert(sound_grant(m, integrity, key));
        }
    }
}

proof fn lemma_permissions_sound(
    m: Grants,
    cn: Seq<char>,
    perms: Seq<PermissionModel>,
    integrity: Seq<char>,
    n: nat,
)
    requires
        sound(m, integrity),
        cn.len() > 0,
        n <= perms.len(),
        forall|j: int| 0 <= j < n ==> permission_fault(#[trigger] perms[j], integrity) is None,
    ensures
        sound(with_permissions(m, cn, perms, n), integrity),
    decreases n,
{
    if n > 0 {
        let p = (n - 1) as nat;
        lemma_permissions_sound(m, cn, perms, integrity, p);
        lemma_permission_sound(with_permissions(m, cn, perms, p), cn, perms[p as int], integrity);
    }
}

proof fn lemma_permissions_fine(
    cn: Seq<char>,
    perms: Seq<PermissionModel>,
    integrity: Seq<char>,
    k: int,
)
    requires
        0 <= k <= perms.len(),
        permissions_fault(cn, perms, integrity, k) is None,
    ensures
        forall|j: int|
            k <= j < perms.len() ==> permission_fault(#[trigger] perms[j], integrity) is None,
    decreases perms.len() - k,
{
    if k < perms.len() {
        assert(permission_fault(perms[k], integrity) is None);
        lemma_permissions_fine(cn, perms, integrity, k + 1);
    }
}

proof fn lemma_clients_fine(clients: Seq<ClientModel>, integrity: Seq<char>, k: int)
    requires
        0 <= k <= clients.len(),
        clients_fault(clients, integrity, k) is None,
    ensures
        forall|i: int|
            #![trigger clients[i]]
            k <= i < clients.len() ==> client_fault_at(clients, integrity, i) is None,
    decreases clients.len() - k,
{
    if k < clients.len() {
        assert(client_fault_at(clients, integrity, k) is None);
        lemma_clients_fine(clients, integrity, k + 1);
    }
}

proof fn lemma_clients_sound(clients: Seq<ClientModel>, integrity: Seq<char>, n: nat)
    requires
        n <= clients.len(),
        config_fault(clients, integrity) is None,
    ensures
        sound(with_clients(clients, n), integrity),
    decreases n,
{
    if n > 0 {
        let p = (n - 1) as nat;
        let client = clients[p as int];
        lemma_clients_sound(clients, integrity, p);
        lemma_clients_fine(clients, integrity, 0);
        assert(client_fault_at(clients, integrity, p as int) is None);
        lemma_permissions_fine(trimmed(client.cn), client.permissions, integrity, 0);
        lemma_permissions_sound(
            with_clients(clients, p),
            trimmed(client.cn),
            client.permissions,
            integrity,
            client.permissions.len(),
        );
    }
}

/// The gateway's integrity key is never granted to a client: no accepted file
/// lets anyone run any operation on its label.
pub proof fn law_integrity_key_is_never_granted(
    clients: Seq<ClientModel>,
    integrity: Seq<char>,
    cn: Seq<char>,
    op: Operation,
)
    requires
        config_fault(clients, integrity) is None,
    ensures
        !config_grants(clients).contains_key((cn, op, integrity)),
{
    lemma_clients_sound(clients, integrity, clients.len());
}

/// The integrity label appears nowhere in an accepted file: no permission lists it,
/// as it is written or with white space around it.
pub proof fn law_integrity_label_is_nowhere_listed(
    clients: Seq<ClientModel>,
    integrity: Seq<char>,
    i: int,
    j: int,
    k: int,
)
    requires
        config_fault(clients, integrity) is None,
        0 <= i < clients.len(),
        0 <= j < clients[i].permissions.len(),
        0 <= k < clients[i].permissions[j].key_labels.len(),
    ensures
        clients[i].permissions[j].key_labels[k] != integrity,
        trimmed(clients[i].permissions[j].key_labels[k]) != integrity,
{
    lemma_clients_fine(clients, integrity, 0);
    let client = clients[i];
    assert(client_fault_at(clients, integrity, i) is None);
    lemma_permissions_fine(trimmed(client.cn), client.permissions, integrity, 0);
    assert(permission_fault(client.permissions[j], integrity) is None);
    lemma_labels_fine(client.permissions[j].key_labels, integrity, 0);
}

/// No wildcards: in an accepted file every grant has a client and a label, a
/// grant of a derive operation has a non-empty allowlist of base64 values, and
/// any other grant allows no peer key at all.
pub proof fn law_accepted_grants_are_sound(
    clients: Seq<ClientModel>,
    integrity: Seq<char>,
    key: GrantKey,
)
    requires
        config_fault(clients, integrity) is None,
        config_grants(clients).contains_key(key),
    ensures
        sound_grant(config_grants(clients), integrity, key),
{
    lemma_clients_sound(clients, integrity, clients.len());
}

// ---------------------------------------------------------------------------
// Which file is accepted, and for what it is refused
// ---------------------------------------------------------------------------

/// The first `n` labels are good: not blank, not the integrity label, and no two the same
/// once trimmed.
pub open spec fn good_labels(labels: Seq<Seq<char>>, integrity: Seq<char>, n: int) -> bool {
    &&& forall|k: int|
        0 <= k < n ==> trimmed(#[trigger] labels[k]).len() > 0 && trimmed(labels[k]) != integrity
            && labels[k] != integrity
    &&& forall|j: int, k: int|
        0 <= j < k < n ==> trimmed(#[trigger] labels[j]) != trimmed(#[trigger] labels[k])
}

/// The first `n` allowlist entries are good: not blank, base64, and no two the same once
/// trimmed.
pub open spec fn good_peers(keys: Seq<Seq<char>>, n: int) -> bool {
    &&& forall|k: int|
        0 <= k < n ==> trimmed(#[trigger] keys[k]).len() > 0 && b64_decoded(trimmed(keys[k])) is Some
    &&& forall|j: int, k: int|
        0 <= j < k < n ==> trimmed(#[trigger] keys[j]) != trimmed(#[trigger] keys[k])
}

/// A permission is good: it has labels, all good, and an allowlist, all good and not
/// empty, exactly where its operation derives a key.
pub open spec fn good_permission(perm: PermissionModel, integrity: Seq<char>) -> bool {
    &&& perm.key_labels.len() > 0
    &&& good_labels(perm.key_labels, integrity, perm.key_labels.len() as int)
    &&& match perm.peer_public_keys {
        None => !(perm.operation is DeriveAndEncrypt) && !(perm.operation is DeriveAndDecrypt),
        Some(keys) => {
            &&& perm.operation is DeriveAndEncrypt || perm.operation is DeriveAndDecrypt
            &&& keys.len() > 0
            &&& good_peers(keys, keys.len() as int)
        },
    }
}

/// A client is good: it has a CN, and its permissions are good.
pub open spec fn good_client(client: ClientModel, integrity: Seq<char>) -> bool {
    &&& trimmed(client.cn).len() > 0
    &&& forall|j: int|
        0 <= j < client.permissions.len() ==> good_permission(
            #[trigger] client.permissions[j],
            integrity,
        )
}

/// The first `n` clients are good, and no two have the same CN once trimmed.
pub open spec fn good_clients(clients: Seq<ClientModel>, integrity: Seq<char>, n: int) -> bool {
    &&& forall|i: int| 0 <= i < n ==> good_client(#[trigger] clients[i], integrity)
    &&& forall|i: int, j: int|
        0 <= i < j < n ==> trimmed((#[trigger] clients[i]).cn) != trimmed(
            (#[trigger] clients[j]).cn,
        )
}

/// What is wrong with the label at position `k`, in words of the labels themselves.
pub open spec fn bad_label(
    labels: Seq<Seq<char>>,
    integrity: Seq<char>,
    k: int,
    fault: PermissionFaultModel,
) -> bool {
    let label = trimmed(labels[k]);
    let is_integrity = label == integrity || labels[k] == integrity;
    &&& 0 <= k < labels.len()
    &&& good_labels(labels, integrity, k)
    &&& match fault {
        PermissionFaultModel::EmptyLabel => label.len() == 0,
        PermissionFaultModel::IntegrityLabel { label: l } => label.len() > 0 && is_integrity && l
            == integrity,
        PermissionFaultModel::DuplicateLabel { label: l } => label.len() > 0 && !is_integrity && l
            == label && exists|j: int| 0 <= j < k && trimmed(#[trigger] labels[j]) == label,
        _ => false,
    }
}

/// What is wrong with the allowlist entry at position `k`, in words of the entries
/// themselves.
pub open spec fn bad_peer(keys: Seq<Seq<char>>, k: int, fault: PermissionFaultModel) -> bool {
    let key = trimmed(keys[k]);
    &&& 0 <= k < keys.len()
    &&& good_peers(keys, k)
    &&& match fault {
        PermissionFaultModel::EmptyPeerKey => key.len() == 0,
        PermissionFaultModel::PeerKeyNotBase64 => key.len() > 0 && b64_decoded(key) is None,
        PermissionFaultModel::DuplicatePeerKey => key.len() > 0 && b64_decoded(key) is Some
            && exists|j: int| 0 <= j < k && trimmed(#[trigger] keys[j]) == key,
        _ => false,
    }
}

/// What is wrong with a permission, in words of the permission itself: of the labels the
/// first bad one, and only where all are good, of the allowlist the first bad entry.
pub open spec fn bad_permission(
    perm: PermissionModel,
    integrity: Seq<char>,
    fault: PermissionFaultModel,
) -> bool {
    let labels = perm.key_labels;
    let derive = perm.operation is DeriveAndEncrypt || perm.operation is DeriveAndDecrypt;
    match fault {
        PermissionFaultModel::NoKeyLabels => labels.len() == 0,
        PermissionFaultModel::EmptyLabel => exists|k: int| #[trigger]
            bad_label(labels, integrity, k, fault),
        PermissionFaultModel::IntegrityLabel { .. } => exists|k: int| #[trigger]
            bad_label(labels, integrity, k, fault),
        PermissionFaultModel::DuplicateLabel { .. } => exists|k: int| #[trigger]
            bad_label(labels, integrity, k, fault),
        _ => {
            &&& labels.len() > 0
            &&& good_labels(labels, integrity, labels.len() as int)
            &&& match (perm.peer_public_keys, fault) {
                (Some(_), PermissionFaultModel::PeerKeysNotAllowed) => !derive,
                (None, PermissionFaultModel::PeerKeysMissing) => derive,
                (Some(keys), PermissionFaultModel::NoPeerKeys) => derive && keys.len() == 0,
                (Some(keys), _) => derive && exists|k: int| #[trigger] bad_peer(keys, k, fault),
                _ => false,
            }
        },
    }
}

/// Each text of a list is trimmed on its own.
pub proof fn law_lists_are_trimmed_text_by_text(
    v: Seq<Seq<char>>,
    clients: Seq<ClientModel>,
    op: Operation,
)
    ensures
        trimmed_all(v).len() == v.len(),
        forall|i: int| 0 <= i < v.len() ==> #[trigger] trimmed_all(v)[i] == trimmed(v[i]),
        trimmed_cns(clients).len() == clients.len(),
        forall|i: int|
            0 <= i < clients.len() ==> #[trigger] trimmed_cns(clients)[i] == trimmed(clients[i].cn),
        derives(op) <==> op is DeriveAndEncrypt || op is DeriveAndDecrypt,
{
}

proof fn lemma_label_at(labels: Seq<Seq<char>>, integrity: Seq<char>, k: int)
    requires
        0 <= k < labels.len(),
        good_labels(labels, integrity, k),
    ensures
        match label_fault_at(labels, integrity, k) {
            Some(fault) => bad_label(labels, integrity, k, fault),
            None => good_labels(labels, integrity, k + 1),
        },
{
    let before = trimmed_all(labels).take(k);
    let label = trimmed(labels[k]);
    if before.contains(label) {
        let j = choose|j: int| 0 <= j < before.len() && before[j] == label;
        assert(trimmed(labels[j]) == label);
    } else {
        assert forall|i: int, j: int| 0 <= i < j < k + 1 implies trimmed(#[trigger] labels[i])
            != trimmed(#[trigger] labels[j]) by {
            assert(before[i] == trimmed(labels[i]));
        }
    }
}

proof fn lemma_labels_from(labels: Seq<Seq<char>>, integrity: Seq<char>, k: int)
    requires
        0 <= k <= labels.len(),
        good_labels(labels, integrity, k),
    ensures
        match labels_fault(labels, integrity, k) {
            Some(fault) => exists|i: int| #[trigger] bad_label(labels, integrity, i, fault),
            None => good_labels(labels, integrity, labels.len() as int),
        },
    decreases labels.len() - k,
{
    if k < labels.len() {
        lemma_label_at(labels, integrity, k);
        if label_fault_at(labels, integrity, k) is None {
            lemma_labels_from(labels, integrity, k + 1);
        }
    }
}

proof fn lemma_peer_at(keys: Seq<Seq<char>>, k: int)
    requires
        0 <= k < keys.len(),
        good_peers(keys, k),
    ensures
        match peer_key_fault_at(keys, k) {
            Some(fault) => bad_peer(keys, k, fault),
            None => good_peers(keys, k + 1),
        },
{
    let before = trimmed_all(keys).take(k);
    let key = trimmed(keys[k]);
    if before.contains(key) {
        let j = choose|j: int| 0 <= j < before.len() && before[j] == key;
        assert(trimmed(keys[j]) == key);
    } else {
        assert forall|i: int, j: int| 0 <= i < j < k + 1 implies trimmed(#[trigger] keys[i])
            != trimmed(#[trigger] keys[j]) by {
            assert(before[i] == trimmed(keys[i]));
        }
    }
}

proof fn lemma_peers_from(keys: Seq<Seq<char>>, k: int)
    requires
        0 <= k <= keys.len(),
        good_peers(keys, k),
    ensures
        match peer_keys_fault(keys, k) {
            Some(fault) => exists|i: int| #[trigger] bad_peer(keys, i, fault),
            None => good_peers(keys, keys.len() as int),
        },
    decreases keys.len() - k,
{
    if k < keys.len() {
        lemma_peer_at(keys, k);
        if peer_key_fault_at(keys, k) is None {
            lemma_peers_from(keys, k + 1);
        }
    }
}

/// A permission is refused exactly where it is not good, and for its first fault.
pub proof fn law_permission_is_refused_for_its_first_fault(
    perm: PermissionModel,
    integrity: Seq<char>,
)
    ensures
        match permission_fault(perm, integrity) {
            Some(fault) => bad_permission(perm, integrity, fault) && !good_permission(
                perm,
                integrity,
            ),
            None => good_permission(perm, integrity),
        },
{
    lemma_labels_from(perm.key_labels, integrity, 0);
    if let Some(fault) = labels_fault(perm.key_labels, integrity, 0) {
        let k = choose|k: int| #[trigger] bad_label(perm.key_labels, integrity, k, fault);
        assert(bad_label(perm.key_labels, integrity, k, fault));
        lemma_bad_label_is_not_good(perm.key_labels, integrity, k, fault);
    }
    if let Some(keys) = perm.peer_public_keys {
        lemma_peers_from(keys, 0);
        if let Some(fault) = peer_keys_fault(keys, 0) {
            let k = choose|k: int| #[trigger] bad_peer(keys, k, fault);
            assert(bad_peer(keys, k, fault));
            lemma_bad_peer_is_not_good(keys, k, fault);
        }
    }
}

proof fn lemma_bad_label_is_not_good(
    labels: Seq<Seq<char>>,
    integrity: Seq<char>,
    k: int,
    fault: PermissionFaultModel,
)
    requires
        bad_label(labels, integrity, k, fault),
    ensures
        !good_labels(labels, integrity, labels.len() as int),
{
    if good_labels(labels, integrity, labels.len() as int) {
        assert(trimmed(labels[k]).len() > 0 && trimmed(labels[k]) != integrity && labels[k]
            != integrity);
        let j = choose|j: int| 0 <= j < k && trimmed(#[trigger] labels[j]) == trimmed(labels[k]);
        assert(trimmed(labels[j]) != trimmed(labels[k]));
    }
}

proof fn lemma_bad_peer_is_not_good(keys: Seq<Seq<char>>, k: int, fault: PermissionFaultModel)
    requires
        bad_peer(keys, k, fault),
    ensures
        !good_peers(keys, keys.len() as int),
{
    if good_peers(keys, keys.len() as int) {
        assert(trimmed(keys[k]).len() > 0 && b64_decoded(trimmed(keys[k])) is Some);
        let j = choose|j: int| 0 <= j < k && trimmed(#[trigger] keys[j]) == trimmed(keys[k]);
        assert(trimmed(keys[j]) != trimmed(keys[k]));
    }
}

/// The client at position `i` is what a file is refused for: those before it are good, and
/// it has no CN, or the CN of one before it, or a bad permission behind good ones.
pub open spec fn bad_client(
    clients: Seq<ClientModel>,
    integrity: Seq<char>,
    i: int,
    e: ConfigErrorModel,
) -> bool {
    let own = trimmed(clients[i].cn);
    let repeated = exists|j: int| 0 <= j < i && trimmed((#[trigger] clients[j]).cn) == own;
    &&& 0 <= i < clients.len()
    &&& good_clients(clients, integrity, i)
    &&& match e {
        ConfigErrorModel::EmptyCn => own.len() == 0,
        ConfigErrorModel::DuplicateCn { cn } => own.len() > 0 && repeated && cn == own,
        ConfigErrorModel::Permission { cn, operation, fault } => {
            &&& own.len() > 0
            &&& !repeated
            &&& cn == own
            &&& exists|j: int| #[trigger]
                bad_permission_at(clients[i].permissions, integrity, j, operation, fault)
        },
    }
}

/// The permission at position `j` is bad, and those before it are good.
pub open spec fn bad_permission_at(
    perms: Seq<PermissionModel>,
    integrity: Seq<char>,
    j: int,
    operation: Operation,
    fault: PermissionFaultModel,
) -> bool {
    &&& 0 <= j < perms.len()
    &&& forall|k: int| 0 <= k < j ==> good_permission(#[trigger] perms[k], integrity)
    &&& perms[j].operation == operation
    &&& bad_permission(perms[j], integrity, fault)
    &&& !good_permission(perms[j], integrity)
}

proof fn lemma_permissions_from(
    cn: Seq<char>,
    perms: Seq<PermissionModel>,
    integrity: Seq<char>,
    k: int,
)
    requires
        0 <= k <= perms.len(),
        forall|j: int| 0 <= j < k ==> good_permission(#[trigger] perms[j], integrity),
    ensures
        match permissions_fault(cn, perms, integrity, k) {
            Some(ConfigErrorModel::Permission { cn: c, operation, fault }) => c == cn && exists|
                j: int,
            | #[trigger]
                bad_permission_at(perms, integrity, j, operation, fault),
            Some(_) => false,
            None => forall|j: int|
                0 <= j < perms.len() ==> good_permission(#[trigger] perms[j], integrity),
        },
    decreases perms.len() - k,
{
    if k < perms.len() {
        law_permission_is_refused_for_its_first_fault(perms[k], integrity);
        match permission_fault(perms[k], integrity) {
            Some(fault) => {
                assert(bad_permission_at(perms, integrity, k, perms[k].operation, fault));
            },
            None => {
                lemma_permissions_from(cn, perms, integrity, k + 1);
            },
        }
    }
}

proof fn lemma_client_at(clients: Seq<ClientModel>, integrity: Seq<char>, i: int)
    requires
        0 <= i < clients.len(),
        good_clients(clients, integrity, i),
    ensures
        match client_fault_at(clients, integrity, i) {
            Some(e) => bad_client(clients, integrity, i, e) && !good_clients(
                clients,
                integrity,
                clients.len() as int,
            ),
            None => good_clients(clients, integrity, i + 1),
        },
{
    let before = trimmed_cns(clients).take(i);
    let own = trimmed(clients[i].cn);
    let perms = clients[i].permissions;
    lemma_permissions_from(own, perms, integrity, 0);
    if before.contains(own) {
        let j = choose|j: int| 0 <= j < before.len() && before[j] == own;
        assert(trimmed(clients[j].cn) == own);
        assert(0 <= j < i < clients.len());
        if good_clients(clients, integrity, clients.len() as int) {
            assert(trimmed(clients[j].cn) != trimmed(clients[i].cn));
        }
    } else {
        assert forall|j: int| 0 <= j < i implies trimmed((#[trigger] clients[j]).cn) != own by {
            assert(before[j] == trimmed(clients[j].cn));
        }
    }
    if good_clients(clients, integrity, clients.len() as int) {
        assert(good_client(clients[i], integrity));
        if let Some(ConfigErrorModel::Permission { operation, fault, .. }) = permissions_fault(
            own,
            perms,
            integrity,
            0,
        ) {
            let j = choose|j: int| #[trigger]
                bad_permission_at(perms, integrity, j, operation, fault);
            assert(good_permission(perms[j], integrity));
        }
    }
}

proof fn lemma_clients_from(clients: Seq<ClientModel>, integrity: Seq<char>, i: int)
    requires
        0 <= i <= clients.len(),
        good_clients(clients, integrity, i),
    ensures
        match clients_fault(clients, integrity, i) {
            Some(e) => (exists|k: int| #[trigger] bad_client(clients, integrity, k, e))
                && !good_clients(clients, integrity, clients.len() as int),
            None => good_clients(clients, integrity, clients.len() as int),
        },
    decreases clients.len() - i,
{
    if i < clients.len() {
        lemma_client_at(clients, integrity, i);
        if client_fault_at(clients, integrity, i) is None {
            lemma_clients_from(clients, integrity, i + 1);
        }
    }
}

/// A clients file is accepted exactly where every client and permission in it is good and
/// no CN occurs twice; and it is refused for the first thing that is wrong.
pub proof fn law_file_is_refused_for_its_first_fault(
    clients: Seq<ClientModel>,
    integrity: Seq<char>,
)
    ensures
        config_fault(clients, integrity) is None <==> good_clients(
            clients,
            integrity,
            clients.len() as int,
        ),
        config_fault(clients, integrity) matches Some(e) ==> exists|i: int| #[trigger]
            bad_client(clients, integrity, i, e),
{
    lemma_clients_from(clients, integrity, 0);
}

// ---------------------------------------------------------------------------
// Which peer keys a grant allows
// ---------------------------------------------------------------------------

/// Permission `j` of client `i` lists the grant and no later permission does.
pub open spec fn lists_last(clients: Seq<ClientModel>, i: int, j: int, key: GrantKey) -> bool {
    &&& lists(clients, i, j, key)
    &&& forall|i2: int, j2: int| #[trigger]
        lists(clients, i2, j2, key) ==> i2 < i || (i2 == i && j2 <= j)
}

proof fn lemma_permissions_allow(
    m: Grants,
    cn: Seq<char>,
    perms: Seq<PermissionModel>,
    n: nat,
    j: int,
    key: GrantKey,
)
    requires
        0 <= j < n <= perms.len(),
        concerns(cn, perms[j], key),
        forall|k: int| j < k < n ==> !concerns(cn, #[trigger] perms[k], key),
    ensures
        with_permissions(m, cn, perms, n).contains_key(key),
        with_permissions(m, cn, perms, n)[key] == allowlist(perms[j]),
    decreases n,
{
    let p = (n - 1) as nat;
    lemma_permission(with_permissions(m, cn, perms, p), cn, perms[p as int], key);
    if j < p {
        lemma_permissions_allow(m, cn, perms, p, j, key);
        assert(!concerns(cn, perms[p as int], key));
    }
}

proof fn lemma_permissions_leave(
    m: Grants,
    cn: Seq<char>,
    perms: Seq<PermissionModel>,
    n: nat,
    key: GrantKey,
)
    requires
        n <= perms.len(),
        m.contains_key(key),
        forall|k: int| 0 <= k < n ==> !concerns(cn, #[trigger] perms[k], key),
    ensures
        with_permissions(m, cn, perms, n).contains_key(key),
        with_permissions(m, cn, perms, n)[key] == m[key],
    decreases n,
{
    if n > 0 {
        let p = (n - 1) as nat;
        lemma_permissions_leave(m, cn, perms, p, key);
        lemma_permission(with_permissions(m, cn, perms, p), cn, perms[p as int], key);
        assert(!concerns(cn, perms[p as int], key));
    }
}

proof fn lemma_clients_allow(clients: Seq<ClientModel>, n: nat, i: int, j: int, key: GrantKey)
    requires
        0 <= i < n <= clients.len(),
        lists_last(clients, i, j, key),
    ensures
        with_clients(clients, n).contains_key(key),
        with_clients(clients, n)[key] == allowlist(clients[i].permissions[j]),
    decreases n,
{
    let p = (n - 1) as nat;
    let client = clients[p as int];
    let perms = client.permissions;
    let cn = trimmed(client.cn);
    assert forall|k: int| 0 <= k < perms.len() && (i < p || j < k) implies !concerns(
        cn,
        #[trigger] perms[k],
        key,
    ) by {
        if concerns(cn, perms[k], key) {
            assert(lists(clients, p as int, k, key));
        }
    }
    if i < p {
        lemma_clients_allow(clients, p, i, j, key);
        lemma_permissions_leave(with_clients(clients, p), cn, perms, perms.len(), key);
    } else {
        lemma_permissions_allow(with_clients(clients, p), cn, perms, perms.len(), j, key);
    }
}

/// A grant allows the peer keys that the last permission which lists it has on its
/// allowlist, each trimmed, and no others.
pub proof fn law_last_listing_decides_on_peer_keys(
    clients: Seq<ClientModel>,
    i: int,
    j: int,
    key: GrantKey,
    peer: Seq<char>,
)
    requires
        lists_last(clients, i, j, key),
    ensures
        config_grants(clients).contains_key(key),
        config_grants(clients)[key].contains(peer) <==> match clients[i].permissions[j].peer_public_keys {
            Some(keys) => exists|k: int| 0 <= k < keys.len() && trimmed(#[trigger] keys[k]) == peer,
            None => false,
        },
{
    lemma_clients_allow(clients, clients.len(), i, j, key);
    if let Some(keys) = clients[i].permissions[j].peer_public_keys {
        let list = trimmed_all(keys);
        if list.to_set().contains(peer) {
            let k = choose|k: int| 0 <= k < list.len() && list[k] == peer;
            assert(trimmed(keys[k]) == peer);
        }
        if exists|k: int| 0 <= k < keys.len() && trimmed(#[trigger] keys[k]) == peer {
            let k = choose|k: int| 0 <= k < keys.len() && trimmed(#[trigger] keys[k]) == peer;
            assert(list[k] == peer);
            assert(list.contains(peer));
        }
    }
}

/// A permission is about its client, its operation and each of its labels, trimmed; and a
/// peer key is allowed where the grant is there and has it.
pub proof fn law_what_a_permission_is_about(
    cn: Seq<char>,
    perm: PermissionModel,
    key: GrantKey,
    m: Grants,
    peer: Seq<char>,
)
    ensures
        concerns(cn, perm, key) <==> {
            &&& key.0 == cn
            &&& key.1 == perm.operation
            &&& exists|k: int|
                0 <= k < perm.key_labels.len() && trimmed(#[trigger] perm.key_labels[k]) == key.2
        },
        allows(m, key, peer) <==> m.contains_key(key) && m[key].contains(peer),
{
    let labels = trimmed_all(perm.key_labels);
    if labels.contains(key.2) {
        let k = choose|k: int| 0 <= k < labels.len() && labels[k] == key.2;
        assert(trimmed(perm.key_labels[k]) == key.2);
    }
    if exists|k: int|
        0 <= k < perm.key_labels.len() && trimmed(#[trigger] perm.key_labels[k]) == key.2 {
        let k = choose|k: int|
            0 <= k < perm.key_labels.len() && trimmed(#[trigger] perm.key_labels[k]) == key.2;
        assert(labels[k] == key.2);
    }
}

// ---------------------------------------------------------------------------
// Words and models
// ---------------------------------------------------------------------------

/// The words for a refused file name the client, the operation and the label.
pub proof fn law_refusal_of_a_file_has_its_words(
    cn: Seq<char>,
    operation: Operation,
    fault: PermissionFaultModel,
    label: Seq<char>,
)
    ensures
        config_error_words(ConfigErrorModel::EmptyCn) == "client entry with empty cn"@,
        config_error_words(ConfigErrorModel::DuplicateCn { cn }) == "duplicate client cn "@
            + debug_quoted(cn),
        config_error_words(ConfigErrorModel::Permission { cn, operation, fault }) == cn + " "@ + (
        match operation {
            Operation::Sign => "Sign"@,
            Operation::Verify => "Verify"@,
            Operation::Encrypt => "Encrypt"@,
            Operation::Decrypt => "Decrypt"@,
            Operation::DeriveAndEncrypt => "DeriveAndEncrypt"@,
            Operation::DeriveAndDecrypt => "DeriveAndDecrypt"@,
        }) + ": "@ + permission_fault_words(fault),
        permission_fault_words(PermissionFaultModel::NoKeyLabels) == "key_labels must not be empty"@,
        permission_fault_words(PermissionFaultModel::EmptyLabel)
            == "key_labels contains an empty label"@,
        permission_fault_words(PermissionFaultModel::PeerKeysNotAllowed)
            == "peer_public_keys is only allowed on derive operations"@,
        permission_fault_words(PermissionFaultModel::PeerKeysMissing)
            == "peer_public_keys allowlist is mandatory for derive operations (no wildcard)"@,
        permission_fault_words(PermissionFaultModel::NoPeerKeys)
            == "peer_public_keys must not be empty"@,
        permission_fault_words(PermissionFaultModel::EmptyPeerKey)
            == "peer_public_keys contains an empty entry"@,
        permission_fault_words(PermissionFaultModel::PeerKeyNotBase64)
            == "peer_public_keys contains an entry that is not valid base64"@,
        permission_fault_words(PermissionFaultModel::DuplicatePeerKey)
            == "duplicate peer public key entry"@,
        permission_fault_words(PermissionFaultModel::IntegrityLabel { label }) == "key label "@
            + debug_quoted(label)
            + " is the gateway integrity key and must never be granted to clients"@,
        permission_fault_words(PermissionFaultModel::DuplicateLabel { label })
            == "duplicate key label "@ + debug_quoted(label),
{
}

/// What the models say of a clients file is what the file holds, client for client,
/// permission for permission and text for text.
pub proof fn law_file_model_is_faithful(cfg: FileConfig, i: int, j: int)
    requires
        0 <= i < cfg.clients@.len(),
        0 <= j < cfg.clients@[i].permissions@.len(),
    ensures
        cfg@.len() == cfg.clients@.len(),
        cfg@[i].cn == cfg.clients@[i].cn@,
        cfg@[i].permissions.len() == cfg.clients@[i].permissions@.len(),
        cfg@[i].permissions[j] == cfg.clients@[i].permissions@[j]@,
{
}

/// A file with no clients, and a client with no permissions, have none in the model.
pub proof fn law_file_model_has_nothing_more(cfg: FileConfig, client: ClientEntry)
    ensures
        cfg@.len() == cfg.clients@.len(),
        client@.cn == client.cn@,
        client@.permissions.len() == client.permissions@.len(),
{
}

/// What the models say of a permission is what the permission holds.
pub proof fn law_permission_model_is_faithful(perm: PermissionEntry)
    ensures
        perm@.operation == perm.operation,
        perm@.key_labels.len() == perm.key_labels@.len(),
        forall|k: int|
            0 <= k < perm.key_labels@.len() ==> #[trigger] perm@.key_labels[k]
                == perm.key_labels@[k]@,
        perm.peer_public_keys is None ==> perm@.peer_public_keys is None,
        perm.peer_public_keys matches Some(keys) ==> {
            &&& perm@.peer_public_keys is Some
            &&& perm@.peer_public_keys->0.len() == keys@.len()
            &&& forall|k: int|
                0 <= k < keys@.len() ==> #[trigger] perm@.peer_public_keys->0[k] == keys@[k]@
        },
{
}

/// What the models say of a refusal is what the refusal holds.
pub proof fn law_refusal_models_are_faithful(fault: PermissionFault, e: ConfigError)
    ensures
        match fault {
            PermissionFault::NoKeyLabels => fault@ is NoKeyLabels,
            PermissionFault::EmptyLabel => fault@ is EmptyLabel,
            PermissionFault::IntegrityLabel { label } => fault@ == (
            PermissionFaultModel::IntegrityLabel { label: label@ }),
            PermissionFault::DuplicateLabel { label } => fault@ == (
            PermissionFaultModel::DuplicateLabel { label: label@ }),
            PermissionFault::PeerKeysNotAllowed => fault@ is PeerKeysNotAllowed,
            PermissionFault::PeerKeysMissing => fault@ is PeerKeysMissing,
            PermissionFault::NoPeerKeys => fault@ is NoPeerKeys,
            PermissionFault::EmptyPeerKey => fault@ is EmptyPeerKey,
            PermissionFault::PeerKeyNotBase64 => fault@ is PeerKeyNotBase64,
            PermissionFault::DuplicatePeerKey => fault@ is DuplicatePeerKey,
        },
        match e {
            ConfigError::EmptyCn => e@ is EmptyCn,
            ConfigError::DuplicateCn { cn } => e@ == (ConfigErrorModel::DuplicateCn { cn: cn@ }),
            ConfigError::Permission { cn, operation, fault } => e@ == (
            ConfigErrorModel::Permission { cn: cn@, operation, fault: fault@ }),
        },
{
}

} // verus!
