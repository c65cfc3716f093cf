//! A chat channel: its members, keyed by their X25519 public key, the
//! channel's own handshake key pair, and the symmetric key that encrypts its
//! traffic. A client joins by receiving the channel key sealed under a
//! secret shared with the channel; leaving removes the client and rotates
//! the channel key.
use vstd::prelude::*;
use vstd::std_specs::cmp::PartialEqSpecImpl;

use crate::crypto::{
    decrypt, derive_shared_secret, encrypt, encrypts_to, generate_key_pair,
    generate_symmetric_key, is_x25519_key_pair, Algorithm, KeyPair, KeyPairView,
};
use crate::message::{append_bytes, PayLoad};
use crate::primitives::{aes256gcm_open, x25519_shared_secret};

verus! {

/// Why a channel refused a request.
#[derive(Debug, PartialEq, Eq, Structural)]
pub enum ChannelErrors {
    UnknownClient,
    AlreadyJoined,
    FailedToJoin,
}

/// The human-readable text of each error.
pub open spec fn channel_error_text(e: ChannelErrors) -> Seq<char> {
    match e {
        ChannelErrors::UnknownClient => "This client is not registered yet. Unknown client."@,
        ChannelErrors::AlreadyJoined => "cannot add this client. Already joined."@,
        ChannelErrors::FailedToJoin => "Failed to join the channel. please try again."@,
    }
}

impl ChannelErrors {
    /// The human-readable text of this error.
    pub fn description(&self) -> (s: &'static str)
        ensures
            s@ == channel_error_text(*self),
    {
        match self {
            ChannelErrors::UnknownClient => "This client is not registered yet. Unknown client.",
            ChannelErrors::AlreadyJoined => "cannot add this client. Already joined.",
            ChannelErrors::FailedToJoin => "Failed to join the channel. please try again.",
        }
    }
}

/// The members' table as a map from a member's public key to the key that
/// member's handshake carried.
pub open spec fn client_map(list: Seq<([u8; 32], [u8; 32])>) -> Map<Seq<u8>, Seq<u8>>
    decreases list.len(),
{
    if list.len() == 0 {
        Map::empty()
    } else {
        client_map(list.drop_last()).insert(list.last().0@, list.last().1@)
    }
}

/// No public key appears twice in the members' table.
pub open spec fn keys_distinct(list: Seq<([u8; 32], [u8; 32])>) -> bool {
    forall|i: int, j: int| 0 <= i < j < list.len() ==> #[trigger] list[i].0@ != #[trigger] list[j].0@
}

proof fn lemma_client_map_push(list: Seq<([u8; 32], [u8; 32])>, entry: ([u8; 32], [u8; 32]))
    ensures
        client_map(list.push(entry)) == client_map(list).insert(entry.0@, entry.1@),
{
    assert(list.push(entry).drop_last() =~= list);
}

proof fn lemma_client_map_dom(list: Seq<([u8; 32], [u8; 32])>, key: Seq<u8>)
    ensures
        client_map(list).dom().contains(key) <==> exists|i: int|
            0 <= i < list.len() && #[trigger] list[i].0@ == key,
    decreases list.len(),
{
    if list.len() > 0 {
        let rest = list.drop_last();
        lemma_client_map_dom(rest, key);
        if client_map(list).dom().contains(key) {
            if list.last().0@ == key {
                assert(list[list.len() - 1].0@ == key);
            } else {
                let i = choose|i: int| 0 <= i < rest.len() && #[trigger] rest[i].0@ == key;
                assert(list[i].0@ == key);
            }
        }
        if exists|i: int| 0 <= i < list.len() && #[trigger] list[i].0@ == key {
            let i = choose|i: int| 0 <= i < list.len() && #[trigger] list[i].0@ == key;
            if i < list.len() - 1 {
                assert(rest[i].0@ == key);
            }
        }
    }
}

proof fn lemma_distinct_drop_last(list: Seq<([u8; 32], [u8; 32])>)
    requires
        list.len() > 0,
        keys_distinct(list),
    ensures
        keys_distinct(list.drop_last()),
{
    let rest = list.drop_last();
    assert forall|a: int, b: int| 0 <= a < b < rest.len() implies #[trigger] rest[a].0@
        != #[trigger] rest[b].0@ by {
        assert(rest[a] == list[a] && rest[b] == list[b]);
    }
}

proof fn lemma_client_map_value(list: Seq<([u8; 32], [u8; 32])>, i: int)
    requires
        0 <= i < list.len(),
        keys_distinct(list),
    ensures
        client_map(list).dom().contains(list[i].0@),
        client_map(list)[list[i].0@] == list[i].1@,
    decreases list.len(),
{
    let rest = list.drop_last();
    if i < list.len() - 1 {
        lemma_distinct_drop_last(list);
        lemma_client_map_value(rest, i);
        assert(rest[i] == list[i]);
        assert(list[i].0@ != list[list.len() - 1].0@);
    }
}

proof fn lemma_client_map_remove(list: Seq<([u8; 32], [u8; 32])>, i: int)
    requires
        0 <= i < list.len(),
        keys_distinct(list),
    ensures
        client_map(list.remove(i)) == client_map(list).remove(list[i].0@),
    decreases list.len(),
{
    let n: int = list.len() as int;
    let rest = list.drop_last();
    let last = list.last();
    lemma_distinct_drop_last(list);
    if i == n - 1 {
        assert(list.remove(i) =~= rest);
        lemma_client_map_dom(rest, last.0@);
        if client_map(rest).dom().contains(last.0@) {
            let j = choose|j: int| 0 <= j < rest.len() && #[trigger] rest[j].0@ == last.0@;
            assert(list[j].0@ == list[n - 1].0@);
        }
        assert(client_map(list).remove(last.0@) =~= client_map(rest));
    } else {
        assert(list.remove(i) =~= rest.remove(i).push(last));
        lemma_client_map_remove(rest, i);
        lemma_client_map_push(rest.remove(i), last);
        assert(list[i].0@ != list[n - 1].0@);
        assert(client_map(list).remove(list[i].0@) =~= client_map(rest).remove(
            list[i].0@,
        ).insert(last.0@, last.1@));
    }
}

/// What admitting a client with public key `pub_key` does to the members'
/// table, given the secret shared with it and its handshake: the handshake
/// must open under the shared secret to a 32-byte key, and the client must
/// not be a member yet.
pub open spec fn admission(
    clients: Map<Seq<u8>, Seq<u8>>,
    shared: Seq<u8>,
    nonce: Seq<u8>,
    cipher_text: Seq<u8>,
    pub_key: Seq<u8>,
) -> (Result<(), ChannelErrors>, Map<Seq<u8>, Seq<u8>>) {
    match aes256gcm_open(shared, nonce, cipher_text) {
        None => (Err(ChannelErrors::FailedToJoin), clients),
        Some(key) => if key.len() != 32 {
            (Err(ChannelErrors::FailedToJoin), clients)
        } else if clients.dom().contains(pub_key) {
            (Err(ChannelErrors::AlreadyJoined), clients)
        } else {
            (Ok(()), clients.insert(pub_key, key))
        },
    }
}

/// What a channel holds: its members, its handshake key pair and its
/// current channel key.
pub struct ChannelView {
    pub clients: Map<Seq<u8>, Seq<u8>>,
    pub handshake: KeyPairView,
    pub encryption_key: Seq<u8>,
}

/// A chat channel.
#[derive(Debug)]
pub struct Channel {
    client_list: Vec<([u8; 32], [u8; 32])>,
    handshake_key: KeyPair,
    encryption_key: [u8; 32],
}

/// Whether two 32-byte keys are equal.
fn same_key(a: &[u8; 32], b: &[u8; 32]) -> (r: bool)
    ensures
        r == (a@ == b@),
{
    let mut i: usize = 0;
    while i < 32
        invariant
            i <= 32,
            a@.len() == 32,
            b@.len() == 32,
            forall|j: int| 0 <= j < i ==> a@[j] == b@[j],
        decreases 32 - i,
    {
        if a[i] != b[i] {
            return false;
        }
        i = i + 1;
    }
    assert(a@ =~= b@);
    true
}

/// Whether two byte strings are equal.
fn same_bytes(a: &[u8], b: &[u8]) -> (r: bool)
    ensures
        r == (a@ == b@),
{
    if a.len() != b.len() {
        return false;
    }
    let n: usize = a.len();
    let mut i: usize = 0;
    while i < n
        invariant
            n == a@.len(),
            n == b@.len(),
            i <= n,
            forall|j: int| 0 <= j < i ==> a@[j] == b@[j],
        decreases n - i,
    {
        if a[i] != b[i] {
            return false;
        }
        i = i + 1;
    }
    assert(a@ =~= b@);
    true
}

/// The position of the entry with public key `pub_key` in a members' table,
/// if any.
fn position_of(list: &Vec<([u8; 32], [u8; 32])>, pub_key: &[u8; 32]) -> (r: Option<usize>)
    ensures
        r matches Some(i) ==> i < list@.len() && list@[i as int].0@ == pub_key@,
        r is None ==> forall|i: int| 0 <= i < list@.len() ==> #[trigger] list@[i].0@ != pub_key@,
{
    let n: usize = list.len();
    let mut i: usize = 0;
    while i < n
        invariant
            n == list@.len(),
            i <= n,
            forall|j: int| 0 <= j < i ==> #[trigger] list@[j].0@ != pub_key@,
        decreases n - i,
    {
        if same_key(&list[i].0, pub_key) {
            return Some(i);
        }
        i = i + 1;
    }
    None
}

/// Whether two members' tables hold the same members with the same keys,
/// in whatever order.
fn same_members(a: &Vec<([u8; 32], [u8; 32])>, b: &Vec<([u8; 32], [u8; 32])>) -> (r: bool)
    requires
        keys_distinct(a@),
        keys_distinct(b@),
    ensures
        r == (client_map(a@) == client_map(b@)),
{
    let n: usize = a.len();
    let mut i: usize = 0;
    while i < n
        invariant
            n == a@.len(),
            i <= n,
            keys_distinct(a@),
            keys_distinct(b@),
            forall|k: int|
                0 <= k < i ==> client_map(b@).dom().contains(#[trigger] a@[k].0@) && client_map(
                    b@,
                )[a@[k].0@] == a@[k].1@,
        decreases n - i,
    {
        proof {
            lemma_client_map_value(a@, i as int);
        }
        match position_of(b, &a[i].0) {
            None => {
                proof {
                    lemma_client_map_dom(b@, a@[i as int].0@);
                }
                return false;
            },
            Some(j) => {
                proof {
                    lemma_client_map_value(b@, j as int);
                }
                if !same_key(&a[i].1, &b[j].1) {
                    return false;
                }
            },
        }
        i = i + 1;
    }
    let m: usize = b.len();
    let mut j: usize = 0;
    while j < m
        invariant
            m == b@.len(),
            j <= m,
            keys_distinct(a@),
            keys_distinct(b@),
            forall|k: int| 0 <= k < j ==> client_map(a@).dom().contains(#[trigger] b@[k].0@),
        decreases m - j,
    {
        proof {
            lemma_client_map_value(b@, j as int);
        }
        match position_of(a, &b[j].0) {
            None => {
                proof {
                    lemma_client_map_dom(a@, b@[j as int].0@);
                }
                return false;
            },
            Some(k) => {
                proof {
                    lemma_client_map_value(a@, k as int);
                }
            },
        }
        j = j + 1;
    }
    proof {
        assert forall|key: Seq<u8>| #[trigger]
            client_map(a@).dom().contains(key) implies client_map(b@).dom().contains(key)
            && client_map(a@)[key] == client_map(b@)[key] by {
            lemma_client_map_dom(a@, key);
            let k = choose|k: int| 0 <= k < a@.len() && #[trigger] a@[k].0@ == key;
            lemma_client_map_value(a@, k);
        }
        assert forall|key: Seq<u8>| #[trigger]
            client_map(b@).dom().contains(key) implies client_map(a@).dom().contains(key) by {
            lemma_client_map_dom(b@, key);
            let k = choose|k: int| 0 <= k < b@.len() && #[trigger] b@[k].0@ == key;
        }
        assert(client_map(a@) =~= client_map(b@));
    }
    true
}

/// The 32 bytes of a 32-byte vector, as an array.
fn key_from_bytes(bytes: &Vec<u8>) -> (r: [u8; 32])
    requires
        bytes@.len() == 32,
    ensures
        r@ == bytes@,
{
    let b = bytes.as_slice();
    let r: [u8; 32] = [
        b[0], b[1], b[2], b[3], b[4], b[5], b[6], b[7], b[8], b[9], b[10], b[11], b[12], b[13],
        b[14], b[15], b[16], b[17], b[18], b[19], b[20], b[21], b[22], b[23], b[24], b[25], b[26],
        b[27], b[28], b[29], b[30], b[31],
    ];
    assert(r@ =~= bytes@);
    r
}

impl Channel {
    /// No member appears twice.
    #[verifier::type_invariant]
    spec fn members_distinct(self) -> bool {
        keys_distinct(self.client_list@)
    }

    pub closed spec fn view(&self) -> ChannelView {
        ChannelView {
            clients: client_map(self.client_list@),
            handshake: self.handshake_key.view(),
            encryption_key: self.encryption_key@,
        }
    }

    /// Every channel key, member key and handshake key is 32 bytes long.
    pub proof fn lemma_key_lengths(&self)
        ensures
            self.view().encryption_key.len() == 32,
            self.view().handshake.secret.len() == 32,
            self.view().handshake.public.len() == 32,
    {
        self.handshake_key.lemma_key_lengths();
    }

    /// A new channel with no members, a fresh X25519 handshake key pair and a
    /// fresh channel key.
    pub fn new() -> (r: Self)
        ensures
            r.view().clients == Map::<Seq<u8>, Seq<u8>>::empty(),
            is_x25519_key_pair(r.view().handshake),
    {
        let client_list: Vec<([u8; 32], [u8; 32])> = Vec::new();
        let handshake_key = generate_key_pair(Algorithm::X25519);
        let encryption_key = generate_symmetric_key();
        Self { client_list, handshake_key, encryption_key }
    }

    /// The channel's public handshake key, which clients agree a secret with.
    pub fn callout(&self) -> (r: &[u8])
        ensures
            r@ == self.view().handshake.public,
    {
        self.handshake_key.pub_key()
    }

    /// The handshake for a client that shares `shared` with this channel: the
    /// channel key sealed under `shared`.
    pub fn join_with_secret(&self, shared: &[u8; 32]) -> (r: Result<PayLoad, ChannelErrors>)
        ensures
            r matches Ok(p) && encrypts_to(
                self.view().encryption_key,
                shared@,
                p.nonce@,
                p.cipher_text@,
            ),
    {
        let mut key: Vec<u8> = Vec::new();
        append_bytes(&mut key, self.encryption_key.as_slice());
        match encrypt(key, shared) {
            Ok(payload) => Ok(payload),
            Err(_) => Err(ChannelErrors::AlreadyJoined),
        }
    }

    /// The handshake for the client with public key `otherside_pubkey`: the
    /// channel key sealed under the X25519 secret of a fresh random secret
    /// with that key.
    pub fn join(&self, otherside_pubkey: [u8; 32]) -> (r: Result<PayLoad, ChannelErrors>)
        ensures
            r matches Ok(p) && exists|secret: Seq<u8>|
                secret.len() == 32 && encrypts_to(
                    self.view().encryption_key,
                    #[trigger] x25519_shared_secret(secret, otherside_pubkey@),
                    p.nonce@,
                    p.cipher_text@,
                ),
    {
        let shared_secret = derive_shared_secret(&otherside_pubkey);
        self.join_with_secret(&shared_secret)
    }

    /// Admits the client with public key `otherside_pubkey`, whose handshake
    /// must open under `shared` to a 32-byte key; a client is admitted once.
    pub fn on_join_with_secret(
        &mut self,
        otherside_handshake: PayLoad,
        otherside_pubkey: [u8; 32],
        shared: &[u8; 32],
    ) -> (r: Result<(), ChannelErrors>)
        ensures
            (r, final(self).view().clients) == admission(
                old(self).view().clients,
                shared@,
                otherside_handshake.nonce@,
                otherside_handshake.cipher_text@,
                otherside_pubkey@,
            ),
            aes256gcm_open(shared@, otherside_handshake.nonce@, otherside_handshake.cipher_text@)
                is None ==> r == Err::<(), ChannelErrors>(ChannelErrors::FailedToJoin),
            r is Err ==> final(self).view().clients == old(self).view().clients,
            r is Ok ==> (aes256gcm_open(
                shared@,
                otherside_handshake.nonce@,
                otherside_handshake.cipher_text@,
            ) matches Some(key) && key.len() == 32 && !old(self).view().clients.dom().contains(
                otherside_pubkey@,
            ) && final(self).view().clients == old(self).view().clients.insert(
                otherside_pubkey@,
                key,
            )),
            final(self).view().handshake == old(self).view().handshake,
            final(self).view().encryption_key == old(self).view().encryption_key,
    {
        proof {
            use_type_invariant(&*self);
        }
        let encryption_key = match decrypt(otherside_handshake, shared) {
            Ok(key) => key,
            Err(_) => {
                return Err(ChannelErrors::FailedToJoin);
            },
        };
        if encryption_key.len() != 32 {
            return Err(ChannelErrors::FailedToJoin);
        }
        let encryption_key = key_from_bytes(&encryption_key);
        if let Some(i) = position_of(&self.client_list, &otherside_pubkey) {
            proof {
                lemma_client_map_dom(self.client_list@, otherside_pubkey@);
            }
            return Err(ChannelErrors::AlreadyJoined);
        }
        proof {
            lemma_client_map_dom(self.client_list@, otherside_pubkey@);
            lemma_client_map_push(self.client_list@, (otherside_pubkey, encryption_key));
        }
        let mut list: Vec<([u8; 32], [u8; 32])> = Vec::new();
        std::mem::swap(&mut list, &mut self.client_list);
        list.push((otherside_pubkey, encryption_key));
        self.client_list = list;
        Ok(())
    }

    /// Admits the client with public key `otherside_pubkey`, opening its
    /// handshake under the X25519 secret of a fresh random secret with that
    /// key.
    pub fn on_join(&mut self, otherside_handshake: PayLoad, otherside_pubkey: [u8; 32]) -> (r:
        Result<(), ChannelErrors>)
        ensures
            exists|secret: Seq<u8>|
                secret.len() == 32 && (r, final(self).view().clients) == admission(
                    old(self).view().clients,
                    #[trigger] x25519_shared_secret(secret, otherside_pubkey@),
                    otherside_handshake.nonce@,
                    otherside_handshake.cipher_text@,
                    otherside_pubkey@,
                ),
            final(self).view().handshake == old(self).view().handshake,
            final(self).view().encryption_key == old(self).view().encryption_key,
    {
        let shared_secret = derive_shared_secret(&otherside_pubkey);
        self.on_join_with_secret(otherside_handshake, otherside_pubkey, &shared_secret)
    }

    /// Removes the client with public key `left_client_pubkey`, if it is a
    /// member, and makes `new_key` the channel key.
    pub fn on_leave_with_key(&mut self, left_client_pubkey: [u8; 32], new_key: [u8; 32])
        ensures
            final(self).view().clients == old(self).view().clients.remove(left_client_pubkey@),
            final(self).view().handshake == old(self).view().handshake,
            final(self).view().encryption_key == new_key@,
    {
        proof {
            use_type_invariant(&*self);
        }
        match position_of(&self.client_list, &left_client_pubkey) {
            Some(i) => {
                proof {
                    lemma_client_map_remove(self.client_list@, i as int);
                }
                let mut list: Vec<([u8; 32], [u8; 32])> = Vec::new();
                std::mem::swap(&mut list, &mut self.client_list);
                let ghost before = list@;
                list.remove(i);
                assert forall|a: int, b: int| 0 <= a < b < list@.len() implies #[trigger] list@[a].0@
                    != #[trigger] list@[b].0@ by {
                    let a0: int = if a < i { a } else { a + 1 };
                    let b0: int = if b < i { b } else { b + 1 };
                    assert(list@[a] == before[a0] && list@[b] == before[b0]);
                }
                self.client_list = list;
            },
            None => {
                proof {
                    lemma_client_map_dom(self.client_list@, left_client_pubkey@);
                    assert(client_map(self.client_list@).remove(left_client_pubkey@) =~= client_map(
                        self.client_list@,
                    ));
                }
            },
        }
        self.encryption_key = new_key;
    }

    /// Removes the client with public key `left_client_pubkey`, if it is a
    /// member, and rotates the channel key to a fresh random key.
    pub fn on_leave(&mut self, left_client_pubkey: [u8; 32])
        ensures
            final(self).view().clients == old(self).view().clients.remove(left_client_pubkey@),
            final(self).view().handshake == old(self).view().handshake,
    {
        self.on_leave_with_key(left_client_pubkey, generate_symmetric_key());
    }
}

impl PartialEq for Channel {
    /// Two channels are equal when they have the same handshake key pair,
    /// the same channel key and the same members with the same keys, in
    /// whatever order the members joined.
    fn eq(&self, other: &Self) -> (r: bool) {
        proof {
            use_type_invariant(self);
            use_type_invariant(other);
        }
        let r = same_bytes(self.handshake_key.priv_key(), other.handshake_key.priv_key())
            && same_bytes(self.handshake_key.pub_key(), other.handshake_key.pub_key())
            && same_key(&self.encryption_key, &other.encryption_key) && same_members(
            &self.client_list,
            &other.client_list,
        );
        proof {
            if r {
                assert(self.view().handshake == other.view().handshake);
                assert(self.view() == other.view());
            }
        }
        r
    }
}

impl PartialEqSpecImpl for Channel {
    open spec fn obeys_eq_spec() -> bool {
        true
    }

    open spec fn eq_spec(&self, other: &Self) -> bool {
        self.view() == other.view()
    }
}

/// A client that seals this channel's key under a secret it shares with the
/// channel is admitted with that key, if it is not a member yet.
pub proof fn lemma_handshake_admits(
    clients: Map<Seq<u8>, Seq<u8>>,
    channel_key: Seq<u8>,
    shared: Seq<u8>,
    nonce: Seq<u8>,
    cipher_text: Seq<u8>,
    pub_key: Seq<u8>,
)
    requires
        channel_key.len() == 32,
        encrypts_to(channel_key, shared, nonce, cipher_text),
        !clients.dom().contains(pub_key),
    ensures
        admission(clients, shared, nonce, cipher_text, pub_key) == (
            Ok::<(), ChannelErrors>(()),
            clients.insert(pub_key, channel_key),
        ),
{
}

/// Admission in terms of the handshake alone: a handshake that does not
/// open under the shared secret is refused with `FailedToJoin`, whatever the
/// members are; a client is admitted exactly when its handshake opens to a
/// 32-byte key and it is not a member yet, and is then a member with that
/// key; a refusal leaves the members as they were.
pub proof fn lemma_handshake_must_open(
    clients: Map<Seq<u8>, Seq<u8>>,
    shared: Seq<u8>,
    nonce: Seq<u8>,
    cipher_text: Seq<u8>,
    pub_key: Seq<u8>,
)
    ensures
        aes256gcm_open(shared, nonce, cipher_text) is None ==> admission(
            clients,
            shared,
            nonce,
            cipher_text,
            pub_key,
        ) == (Err::<(), ChannelErrors>(ChannelErrors::FailedToJoin), clients),
        admission(clients, shared, nonce, cipher_text, pub_key).0 is Ok <==> (aes256gcm_open(
            shared,
            nonce,
            cipher_text,
        ) matches Some(key) && key.len() == 32 && !clients.dom().contains(pub_key)),
        admission(clients, shared, nonce, cipher_text, pub_key).0 is Ok ==> (aes256gcm_open(
            shared,
            nonce,
            cipher_text,
        ) matches Some(key) && admission(clients, shared, nonce, cipher_text, pub_key).1
            == clients.insert(pub_key, key) && admission(
            clients,
            shared,
            nonce,
            cipher_text,
            pub_key,
        ).1.dom().contains(pub_key)),
        admission(clients, shared, nonce, cipher_text, pub_key).0 is Err ==> admission(
            clients,
            shared,
            nonce,
            cipher_text,
            pub_key,
        ).1 == clients,
{
}

/// A refused client leaves the members unchanged.
pub proof fn lemma_refusal_keeps_members(
    clients: Map<Seq<u8>, Seq<u8>>,
    shared: Seq<u8>,
    nonce: Seq<u8>,
    cipher_text: Seq<u8>,
    pub_key: Seq<u8>,
)
    ensures
        admission(clients, shared, nonce, cipher_text, pub_key).0 is Err ==> admission(
            clients,
            shared,
            nonce,
            cipher_text,
            pub_key,
        ).1 == clients,
{
}

/// A member is never admitted a second time.
pub proof fn lemma_member_not_readmitted(
    clients: Map<Seq<u8>, Seq<u8>>,
    shared: Seq<u8>,
    nonce: Seq<u8>,
    cipher_text: Seq<u8>,
    pub_key: Seq<u8>,
)
    requires
        clients.dom().contains(pub_key),
    ensures
        admission(clients, shared, nonce, cipher_text, pub_key).0 is Err,
        admission(clients, shared, nonce, cipher_text, pub_key).1 == clients,
{
}

} // verus!
