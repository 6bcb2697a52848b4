//! The session registry: a keyed store mapping each identity to its
//! session, created lazily on the first event and never evicted. It is an
//! explicit object, constructed once and threaded through to every caller.
//!
//! Its mathematical model is a map from identity bytes to game states; all
//! operations are specified against that map.

use vstd::prelude::*;

use crate::episode::{Episode, EpisodeError, PayloadMetadata};
use crate::game::{initial_game, Game};
use crate::pki::{pk_eq, PubKey};
use crate::session::{
    session_execute_ens, session_execute_req, MueError, MueHeroSession, SuperblockEvent,
};

verus! {

/// Whether some entry carries the given key.
spec fn has_key(s: Seq<(PubKey, MueHeroSession)>, k: Seq<u8>) -> bool {
    exists|i: int| 0 <= i < s.len() && (#[trigger] s[i]).0@ == k
}

/// The index of the entry carrying the given key.
spec fn idx_of(s: Seq<(PubKey, MueHeroSession)>, k: Seq<u8>) -> int {
    choose|i: int| 0 <= i < s.len() && (#[trigger] s[i]).0@ == k
}

/// Whether every key occurs at most once.
spec fn keys_unique(s: Seq<(PubKey, MueHeroSession)>) -> bool {
    forall|i: int, j: int|
        0 <= i < j < s.len() ==> (#[trigger] s[i]).0@ != (#[trigger] s[j]).0@
}

/// The process-wide registry of per-identity sessions.
pub struct SessionRegistry {
    entries: Vec<(PubKey, MueHeroSession)>,
}

impl View for SessionRegistry {
    type V = Map<Seq<u8>, Game>;

    closed spec fn view(&self) -> Map<Seq<u8>, Game> {
        Map::new(
            |k: Seq<u8>| has_key(self.entries@, k),
            |k: Seq<u8>| self.entries@[idx_of(self.entries@, k)].1@,
        )
    }
}

impl SessionRegistry {
    /// Well-formedness: each identity keys at most one session.
    pub closed spec fn wf(self) -> bool {
        keys_unique(self.entries@)
    }

    /// The game state the registry holds for a key; the fresh state where
    /// no session exists yet.
    pub open spec fn game_of(self, key: Seq<u8>) -> Game {
        if self@.contains_key(key) {
            self@[key]
        } else {
            initial_game()
        }
    }

    /// An empty registry.
    pub fn new() -> (r: Self)
        ensures
            r.wf(),
            r@ == Map::<Seq<u8>, Game>::empty(),
    {
        let r = SessionRegistry { entries: Vec::new() };
        proof {
            assert(r@ =~= Map::<Seq<u8>, Game>::empty());
        }
        r
    }

    /// The index of the identity's entry, if one exists.
    fn find(&self, id: &PubKey) -> (r: Option<usize>)
        ensures
            (match r {
                Some(i) => i < self.entries@.len() && self.entries@[i as int].0@ == id@,
                None => !has_key(self.entries@, id@),
            }),
    {
        let mut i: usize = 0;
        while i < self.entries.len()
            invariant
                i <= self.entries@.len(),
                forall|j: int| 0 <= j < i ==> (#[trigger] self.entries@[j]).0@ != id@,
            decreases self.entries@.len() - i,
        {
            if pk_eq(&self.entries[i].0, id) {
                return Some(i);
            }
            i += 1;
        }
        None
    }

    /// Resolves the identity's session, inserting a fresh one on the first
    /// miss; returns its index.
    fn get_or_create(&mut self, id: &PubKey, meta: &PayloadMetadata) -> (i: usize)
        requires
            old(self).wf(),
        ensures
            final(self).wf(),
            i < final(self).entries@.len(),
            final(self).entries@[i as int].0@ == id@,
            final(self).entries@[i as int].1@ == (if old(self)@.contains_key(id@) {
                old(self)@[id@]
            } else {
                initial_game()
            }),
            final(self)@ == old(self)@.insert(id@, final(self).entries@[i as int].1@),
    {
        proof {
            lemma_view_of_entries(*old(self));
        }
        match self.find(id) {
            Some(i) => {
                proof {
                    lemma_key_at(*self, i as int, id@);
                    assert(self@ =~= self@.insert(id@, self.entries@[i as int].1@));
                }
                i
            },
            None => {
                let i = self.entries.len();
                let fresh = MueHeroSession::initialize(vec![*id], meta);
                let ghost pre = *self;
                self.entries.push((*id, fresh));
                proof {
                    lemma_view_after_push(pre, *self, *id, fresh);
                }
                i
            },
        }
    }

    /// Applies one superblock event to the identity's session (creating it
    /// on first contact), returning the awarded delta or the session's
    /// rejection.
    pub fn handle_event(
        &mut self,
        id: &PubKey,
        event: &SuperblockEvent,
        meta: &PayloadMetadata,
    ) -> (r: Result<u32, EpisodeError<MueError>>)
        requires
            old(self).wf(),
            session_execute_req(old(self).game_of(id@), *event, Some(*id)),
        ensures
            final(self).wf(),
            final(self)@.contains_key(id@),
            session_execute_ens(
                old(self).game_of(id@),
                *event,
                Some(*id),
                meta.accepting_time,
                final(self)@[id@],
                r,
            ),
            final(self)@ == old(self)@.insert(id@, final(self)@[id@]),
    {
        let i = self.get_or_create(id, meta);
        let ghost mid = *self;
        let pair = self.entries[i];
        let mut s = pair.1;
        let r = s.execute(event, Some(*id), meta);
        self.entries[i] = (pair.0, s);
        proof {
            lemma_view_after_update(mid, *self, i as int);
            assert(final(self)@ =~= old(self)@.insert(id@, s@));
        }
        r
    }

    /// The identity's current score, if a session exists.
    pub fn get_score(&self, id: &PubKey) -> (r: Option<u32>)
        requires
            self.wf(),
        ensures
            (match r {
                Some(s) => self@.contains_key(id@) && s == self@[id@].score,
                None => !self@.contains_key(id@),
            }),
    {
        proof {
            lemma_view_of_entries(*self);
        }
        match self.find(id) {
            Some(i) => {
                proof {
                    lemma_key_at(*self, i as int, id@);
                }
                Some(self.entries[i].1.get_score())
            },
            None => None,
        }
    }

    /// Enumerates (identity, game state) pairs — score and bookkeeping —
    /// for leaderboard aggregation: one pair per session, each key once,
    /// every key present.
    pub fn sessions(&self) -> (r: Vec<(PubKey, Game)>)
        requires
            self.wf(),
        ensures
            forall|j: int|
                0 <= j < r@.len() ==> self@.contains_key((#[trigger] r@[j]).0@) && r@[j].1
                    == self@[r@[j].0@],
            forall|k: Seq<u8>|
                #[trigger] self@.contains_key(k) ==> exists|j: int|
                    0 <= j < r@.len() && (#[trigger] r@[j]).0@ == k,
            forall|j1: int, j2: int|
                0 <= j1 < j2 < r@.len() ==> (#[trigger] r@[j1]).0@ != (#[trigger] r@[j2]).0@,
    {
        proof {
            lemma_view_of_entries(*self);
        }
        let mut r: Vec<(PubKey, Game)> = Vec::new();
        let mut i: usize = 0;
        while i < self.entries.len()
            invariant
                self.wf(),
                i <= self.entries@.len(),
                r@.len() == i,
                forall|j: int|
                    0 <= j < i ==> (#[trigger] r@[j]).0@ == self.entries@[j].0@ && r@[j].1
                        == self.entries@[j].1@,
            decreases self.entries@.len() - i,
        {
            let pair = self.entries[i];
            let game = pair.1.game_state();
            r.push((pair.0, game));
            i += 1;
        }
        proof {
            lemma_view_of_entries(*self);
            assert forall|j: int| 0 <= j < r@.len() implies self@.contains_key(
                (#[trigger] r@[j]).0@,
            ) && r@[j].1 == self@[r@[j].0@] by {
                lemma_key_at(*self, j, r@[j].0@);
            }
            assert forall|k: Seq<u8>| #[trigger] self@.contains_key(k) implies exists|j: int|
                0 <= j < r@.len() && (#[trigger] r@[j]).0@ == k by {
                let w = idx_of(self.entries@, k);
                assert(0 <= w < self.entries@.len() && self.entries@[w].0@ == k);
                assert(r@[w].0@ == k);
            }
        }
        r
    }
}

/// The registry's map view agrees with its entries: every entry's key is in
/// the map's domain, bound to that entry's game.
proof fn lemma_view_of_entries(reg: SessionRegistry)
    requires
        reg.wf(),
    ensures
        forall|i: int|
            0 <= i < reg.entries@.len() ==> reg@.contains_key((#[trigger] reg.entries@[i]).0@),
{
}

/// The entry at a key's index carries the map's value for that key.
proof fn lemma_key_at(reg: SessionRegistry, i: int, k: Seq<u8>)
    requires
        reg.wf(),
        0 <= i < reg.entries@.len(),
        reg.entries@[i].0@ == k,
    ensures
        reg@.contains_key(k),
        reg@[k] == reg.entries@[i].1@,
        idx_of(reg.entries@, k) == i,
{
    assert(has_key(reg.entries@, k));
    let w = idx_of(reg.entries@, k);
    assert(0 <= w < reg.entries@.len() && reg.entries@[w].0@ == k);
    if w != i {
        assert(reg.entries@[w].0@ != reg.entries@[i].0@);
    }
}

/// Appending an entry with a new key adds exactly that binding to the view.
proof fn lemma_view_after_push(
    pre: SessionRegistry,
    post: SessionRegistry,
    pk: PubKey,
    s: MueHeroSession,
)
    requires
        pre.wf(),
        !has_key(pre.entries@, pk@),
        post.entries@ == pre.entries@.push((pk, s)),
    ensures
        post.wf(),
        post@ == pre@.insert(pk@, s@),
        !pre@.contains_key(pk@),
{
    let n = pre.entries@.len() as int;
    assert forall|i: int, j: int|
        0 <= i < j < post.entries@.len() implies (#[trigger] post.entries@[i]).0@
        != (#[trigger] post.entries@[j]).0@ by {
        if j < n {
            assert(post.entries@[i] == pre.entries@[i]);
            assert(post.entries@[j] == pre.entries@[j]);
        } else {
            assert(post.entries@[j].0@ == pk@);
            assert(post.entries@[i] == pre.entries@[i]);
            assert(!has_key(pre.entries@, pk@));
        }
    }
    assert(post@ =~= pre@.insert(pk@, s@)) by {
        assert forall|k: Seq<u8>| true implies (has_key(post.entries@, k) <==> (has_key(
            pre.entries@,
            k,
        ) || k == pk@)) by {
            if has_key(post.entries@, k) {
                let w = idx_of(post.entries@, k);
                assert(0 <= w < post.entries@.len() && post.entries@[w].0@ == k);
                if w < n {
                    assert(post.entries@[w] == pre.entries@[w]);
                }
            }
            if has_key(pre.entries@, k) {
                let w = idx_of(pre.entries@, k);
                assert(0 <= w < pre.entries@.len() && pre.entries@[w].0@ == k);
                assert(post.entries@[w].0@ == k);
            }
            if k == pk@ {
                assert(post.entries@[n].0@ == k);
            }
        }
        assert forall|k: Seq<u8>| has_key(post.entries@, k) implies post@[k] == pre@.insert(
            pk@,
            s@,
        )[k] by {
            let w = idx_of(post.entries@, k);
            assert(0 <= w < post.entries@.len() && post.entries@[w].0@ == k);
            if k == pk@ {
                if w < n {
                    assert(post.entries@[w] == pre.entries@[w]);
                    assert(has_key(pre.entries@, k));
                }
                assert(w == n);
                assert(post@[k] == s@);
            } else {
                assert(w < n);
                assert(post.entries@[w] == pre.entries@[w]);
                lemma_key_at(pre, w, k);
                lemma_key_at(post, w, k);
            }
        }
    }
}

/// Replacing an entry's session, keeping its key, rebinds exactly that key
/// in the view.
proof fn lemma_view_after_update(pre: SessionRegistry, post: SessionRegistry, i: int)
    requires
        pre.wf(),
        0 <= i < pre.entries@.len(),
        post.entries@.len() == pre.entries@.len(),
        forall|j: int| 0 <= j < pre.entries@.len() && j != i ==> post.entries@[j]
            == pre.entries@[j],
        post.entries@[i].0@ == pre.entries@[i].0@,
    ensures
        post.wf(),
        post@ == pre@.insert(pre.entries@[i].0@, post.entries@[i].1@),
{
    let k0 = pre.entries@[i].0@;
    assert forall|a: int, b: int|
        0 <= a < b < post.entries@.len() implies (#[trigger] post.entries@[a]).0@
        != (#[trigger] post.entries@[b]).0@ by {
        assert(post.entries@[a].0@ == pre.entries@[a].0@);
        assert(post.entries@[b].0@ == pre.entries@[b].0@);
    }
    assert(post@ =~= pre@.insert(k0, post.entries@[i].1@)) by {
        assert forall|k: Seq<u8>| true implies (has_key(post.entries@, k) <==> has_key(
            pre.entries@,
            k,
        )) by {
            if has_key(post.entries@, k) {
                let w = idx_of(post.entries@, k);
                assert(0 <= w < post.entries@.len() && post.entries@[w].0@ == k);
                assert(pre.entries@[w].0@ == k);
            }
            if has_key(pre.entries@, k) {
                let w = idx_of(pre.entries@, k);
                assert(0 <= w < pre.entries@.len() && pre.entries@[w].0@ == k);
                assert(post.entries@[w].0@ == k);
            }
        }
        assert forall|k: Seq<u8>| has_key(post.entries@, k) implies post@[k] == pre@.insert(
            k0,
            post.entries@[i].1@,
        )[k] by {
            lemma_key_at(post, idx_of(post.entries@, k), k);
            let w = idx_of(post.entries@, k);
            assert(0 <= w < post.entries@.len() && post.entries@[w].0@ == k);
            if k == k0 {
                if w != i {
                    assert(post.entries@[w].0@ == pre.entries@[w].0@);
                    assert(pre.entries@[w].0@ != pre.entries@[i].0@);
                }
                assert(w == i);
            } else {
                assert(w != i);
                assert(post.entries@[w] == pre.entries@[w]);
                lemma_key_at(pre, w, k);
            }
        }
    }
}

} // verus!
