//! The peers that the agent knows, each with the queue shared with it.

use vstd::prelude::*;
use crate::storage::{Peer, PeerView};
use crate::text::str_equal;

verus! {

/// Why a peer was not added.
#[derive(Debug, Clone, Copy, PartialEq, Eq, Structural)]
pub enum DuplicateError {
    /// The peer's encryption key is the local identity's own.
    OwnIdentity,
    /// A peer with that encryption key is known already.
    AlreadyKnown,
}

/// The known peers, in the order in which they were added.
#[derive(Debug, Clone)]
pub struct ConversationRegistry {
    peers: Vec<Peer>,
}

/// Whether one of the peers has the encryption key `encrypt_pk`.
pub open spec fn knows_key(peers: Seq<PeerView>, encrypt_pk: Seq<char>) -> bool {
    exists|i: int| 0 <= i < peers.len() && (#[trigger] peers[i]).encrypt_pk == encrypt_pk
}

/// The index of the first peer of queue `queue_id`, if there is one.
pub open spec fn first_of_queue(peers: Seq<PeerView>, queue_id: Seq<char>) -> Option<int>
    decreases peers.len(),
{
    if peers.len() == 0 {
        None
    } else if peers[0].queue_id == queue_id {
        Some(0)
    } else {
        match first_of_queue(peers.skip(1), queue_id) {
            Some(i) => Some(i + 1),
            None => None,
        }
    }
}

/// Why `peer` cannot join `peers`, if it cannot.
pub open spec fn add_refusal(
    peers: Seq<PeerView>,
    peer: PeerView,
    own_encrypt_pk: Option<Seq<char>>,
) -> Option<DuplicateError> {
    if own_encrypt_pk == Some(peer.encrypt_pk) {
        Some(DuplicateError::OwnIdentity)
    } else if knows_key(peers, peer.encrypt_pk) {
        Some(DuplicateError::AlreadyKnown)
    } else {
        None
    }
}

/// The peers after `peer` joined them: every earlier peer stays as it is,
/// in its place, and `peer` comes last.
pub open spec fn with_peer(peers: Seq<PeerView>, peer: PeerView) -> Seq<PeerView> {
    peers.push(peer)
}

/// Whether one of the peers has the encryption key `encrypt_pk`.
pub fn has_encrypt_pk(peers: &Vec<Peer>, encrypt_pk: &str) -> (r: bool)
    ensures
        r == knows_key(peers.deep_view(), encrypt_pk@),
{
    let mut i: usize = 0;
    while i < peers.len()
        invariant
            i <= peers@.len(),
            forall|k: int| 0 <= k < i ==> (#[trigger] peers.deep_view()[k]).encrypt_pk != encrypt_pk@,
        decreases peers@.len() - i,
    {
        if str_equal(peers[i].encrypt_pk.as_str(), encrypt_pk) {
            assert(peers.deep_view()[i as int].encrypt_pk == encrypt_pk@);
            return true;
        }
        i = i + 1;
    }
    false
}

/// Puts `peer` among `peers` as the agent saves a contact: it comes last,
/// and no peer that was there leaves or changes.
pub fn save_peer(peers: Vec<Peer>, peer: Peer) -> (r: Vec<Peer>)
    ensures
        r.deep_view() == peers.deep_view().push(peer@),
        r.deep_view() == with_peer(peers.deep_view(), peer@),
{
    let mut all = peers;
    let ghost before = all.deep_view();
    all.push(peer);
    proof {
        assert(all.deep_view() =~= before.push(peer@));
    }
    all
}

impl ConversationRegistry {
    /// The peers as plain values.
    pub closed spec fn peers(&self) -> Seq<PeerView> {
        self.peers.deep_view()
    }

    /// A registry of the peers that the store held.
    pub fn from_peers(peers: Vec<Peer>) -> (r: Self)
        ensures
            r.peers() == peers.deep_view(),
    {
        ConversationRegistry { peers }
    }

    /// The known peers.
    pub fn list(&self) -> (r: &Vec<Peer>)
        ensures
            r.deep_view() == self.peers(),
    {
        &self.peers
    }

    /// The peers, to be written back to the store.
    pub fn into_peers(self) -> (r: Vec<Peer>)
        ensures
            r.deep_view() == self.peers(),
    {
        self.peers
    }

    /// Adds a peer at the end, unless its encryption key is the local
    /// identity's own or that of a known peer. The peers that were there stay
    /// as they are, whatever their names.
    pub fn add(&mut self, peer: Peer, own_encrypt_pk: Option<&str>) -> (r: Result<
        (),
        DuplicateError,
    >)
        ensures
            match add_refusal(old(self).peers(), peer@, text_of(own_encrypt_pk)) {
                Some(e) => r == Err::<(), DuplicateError>(e) && final(self).peers() == old(
                    self,
                ).peers(),
                None => r is Ok && final(self).peers() == old(self).peers().push(peer@),
            },
    {
        if let Some(own) = own_encrypt_pk {
            if str_equal(peer.encrypt_pk.as_str(), own) {
                return Err(DuplicateError::OwnIdentity);
            }
        }
        if has_encrypt_pk(&self.peers, peer.encrypt_pk.as_str()) {
            return Err(DuplicateError::AlreadyKnown);
        }
        let mut peers: Vec<Peer> = Vec::new();
        core::mem::swap(&mut peers, &mut self.peers);
        self.peers = save_peer(peers, peer);
        Ok(())
    }

    /// The first peer whose queue is `queue_id`.
    pub fn find_by_queue(&self, queue_id: &str) -> (r: Option<&Peer>)
        ensures
            match first_of_queue(self.peers(), queue_id@) {
                Some(i) => r matches Some(peer) && peer@ == self.peers()[i],
                None => r is None,
            },
    {
        let mut i: usize = 0;
        proof {
            assert(self.peers().skip(0) =~= self.peers());
        }
        while i < self.peers.len()
            invariant
                i <= self.peers@.len(),
                first_of_queue(self.peers(), queue_id@) == match first_of_queue(
                    self.peers().skip(i as int),
                    queue_id@,
                ) {
                    Some(k) => Some(k + i),
                    None => None,
                },
            decreases self.peers@.len() - i,
        {
            proof {
                assert(self.peers().skip(i as int)[0] == self.peers@[i as int]@);
                assert(self.peers().skip(i as int).skip(1) =~= self.peers().skip(i as int + 1));
            }
            if str_equal(self.peers[i].queue_id.as_str(), queue_id) {
                return Some(&self.peers[i]);
            }
            i = i + 1;
        }
        None
    }
}

/// An optional text as an optional sequence of characters.
pub open spec fn text_of(s: Option<&str>) -> Option<Seq<char>> {
    match s {
        Some(s) => Some(s@),
        None => None,
    }
}

/// No two of the peers have the same encryption key.
pub open spec fn keys_distinct(peers: Seq<PeerView>) -> bool {
    forall|i: int, j: int|
        0 <= i < j < peers.len() ==> (#[trigger] peers[i]).encrypt_pk != (
        #[trigger] peers[j]).encrypt_pk
}

/// A registry whose peers have distinct encryption keys keeps them distinct
/// when a peer is added to it, and every peer that was there is still there,
/// in its place.
pub proof fn lemma_add_keeps_keys_distinct(
    peers: Seq<PeerView>,
    peer: PeerView,
    own_encrypt_pk: Option<Seq<char>>,
)
    requires
        keys_distinct(peers),
        add_refusal(peers, peer, own_encrypt_pk) is None,
    ensures
        keys_distinct(with_peer(peers, peer)),
        knows_key(with_peer(peers, peer), peer.encrypt_pk),
        with_peer(peers, peer).len() == peers.len() + 1,
        forall|i: int| 0 <= i < peers.len() ==> with_peer(peers, peer)[i] == #[trigger] peers[i],
{
    let added = with_peer(peers, peer);
    assert forall|i: int, j: int| 0 <= i < j < added.len() implies (
    #[trigger] added[i]).encrypt_pk != (#[trigger] added[j]).encrypt_pk by {
        assert(added[i] == peers[i]);
        if j < peers.len() {
            assert(added[j] == peers[j]);
        }
    }
    assert(added[added.len() - 1].encrypt_pk == peer.encrypt_pk);
}

} // verus!
