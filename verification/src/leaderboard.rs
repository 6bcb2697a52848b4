//! Leaderboard aggregation: one row per session, joined with the latest
//! submission of that wallet, ordered by score (ties by most recent date),
//! with ranks assigned and medals on the top three rows.

use vstd::prelude::*;

use vstd::string::StringExecFns;

use crate::game::Game;
use crate::hexstr::{encode_hex, hex_encoded};
use crate::pki::PubKey;
use crate::registry::SessionRegistry;
use crate::strutil::{
    chars_lt, lemma_chars_lt_asym, lemma_chars_lt_trans, str_eq, str_lt, tag_wallet,
    tag_wallet_spec,
};
use crate::events::Submission;
use crate::tier::{rank_label_of, rank_label_spec};

verus! {

broadcast use vstd::seq_lib::group_to_multiset_ensures;

/// One leaderboard row.
#[derive(Debug)]
pub struct LeaderboardEntry {
    pub wallet_tag: String,
    pub score: u32,
    pub rank: usize,
    pub mu_level: u8,
    pub block_height: u64,
    pub date_mined: String,
    pub tier: String,
}

impl Clone for LeaderboardEntry {
    fn clone(&self) -> (r: Self)
        ensures
            r == *self,
    {
        LeaderboardEntry {
            wallet_tag: self.wallet_tag.clone(),
            score: self.score,
            rank: self.rank,
            mu_level: self.mu_level,
            block_height: self.block_height,
            date_mined: self.date_mined.clone(),
            tier: self.tier.clone(),
        }
    }
}

/// Whether `s` is a latest submission of the given wallet: it belongs to
/// the list and the wallet, and no submission of that wallet has a later
/// date.
pub open spec fn latest_of(subs: Seq<Submission>, wallet_hex: Seq<char>, s: Submission) -> bool {
    &&& exists|i: int| 0 <= i < subs.len() && subs[i] == s
    &&& s.wallet@ == wallet_hex
    &&& forall|j: int|
        0 <= j < subs.len() && (#[trigger] subs[j]).wallet@ == wallet_hex ==> !chars_lt(
            s.date_mined@,
            subs[j].date_mined@,
        )
}

/// Whether the list holds no submission of the given wallet.
pub open spec fn no_sub_for(subs: Seq<Submission>, wallet_hex: Seq<char>) -> bool {
    forall|j: int| 0 <= j < subs.len() ==> (#[trigger] subs[j]).wallet@ != wallet_hex
}

/// A latest submission of the given wallet, if the list holds any.
pub fn find_latest_submission(subs: &Vec<Submission>, wallet_hex: &String) -> (r: Option<
    Submission,
>)
    ensures
        (match r {
            Some(s) => latest_of(subs@, wallet_hex@, s),
            None => no_sub_for(subs@, wallet_hex@),
        }),
{
    let mut best: Option<Submission> = None;
    let mut i: usize = 0;
    while i < subs.len()
        invariant
            i <= subs@.len(),
            (match best {
                Some(b) => {
                    &&& exists|w: int| 0 <= w < i && subs@[w] == b
                    &&& b.wallet@ == wallet_hex@
                    &&& forall|j: int|
                        0 <= j < i && (#[trigger] subs@[j]).wallet@ == wallet_hex@ ==> !chars_lt(
                            b.date_mined@,
                            subs@[j].date_mined@,
                        )
                },
                None => forall|j: int|
                    0 <= j < i ==> (#[trigger] subs@[j]).wallet@ != wallet_hex@,
            }),
        decreases subs@.len() - i,
    {
        let s = &subs[i];
        if str_eq(s.wallet.as_str(), wallet_hex.as_str()) {
            let replace = match &best {
                None => true,
                Some(b) => str_lt(b.date_mined.as_str(), s.date_mined.as_str()),
            };
            if replace {
                proof {
                    if let Some(b) = best {
                        assert forall|j: int|
                            0 <= j < i + 1 && (#[trigger] subs@[j]).wallet@
                                == wallet_hex@ implies !chars_lt(
                            subs@[i as int].date_mined@,
                            subs@[j].date_mined@,
                        ) by {
                            if j < i {
                                if chars_lt(subs@[i as int].date_mined@, subs@[j].date_mined@) {
                                    lemma_chars_lt_trans(
                                        b.date_mined@,
                                        subs@[i as int].date_mined@,
                                        subs@[j].date_mined@,
                                    );
                                }
                            } else {
                                lemma_chars_lt_asym(
                                    subs@[i as int].date_mined@,
                                    subs@[i as int].date_mined@,
                                );
                            }
                        }
                    } else {
                        lemma_chars_lt_asym(
                            subs@[i as int].date_mined@,
                            subs@[i as int].date_mined@,
                        );
                    }
                }
                best = Some(s.clone());
            }
        }
        i += 1;
    }
    best
}

/// One leaderboard row, before ranking: the shortened display tag, the
/// session's score and rank label, and the metadata of the wallet's latest
/// submission (zeroes and an empty date where none exists).
#[verifier::opaque]
pub open spec fn entry_core(
    e: LeaderboardEntry,
    k: Seq<u8>,
    g: Game,
    subs: Seq<Submission>,
    tier_rest: Seq<char>,
) -> bool {
    &&& e.wallet_tag@ == tag_wallet_spec("kaspa:"@ + hex_encoded(k))
    &&& e.score == g.score
    &&& tier_rest == rank_label_spec(g)
    &&& ((exists|s: Submission|
        latest_of(subs, hex_encoded(k), s) && e.mu_level == s.mu_level && e.block_height
            == s.block_height && e.date_mined@ == s.date_mined@) || (no_sub_for(subs, hex_encoded(k))
        && e.mu_level == 0 && e.block_height == 0 && e.date_mined@ == Seq::<char>::empty()))
}

/// Builds the unranked row of one session.
fn make_entry(pk: &PubKey, g: &Game, subs: &Vec<Submission>) -> (e: LeaderboardEntry)
    ensures
        entry_core(e, pk@, *g, subs@, e.tier@),
        e.rank == 0,
{
    proof {
        reveal(entry_core);
    }
    let wallet_hex = encode_hex(pk.as_bytes().as_slice());
    let latest = find_latest_submission(subs, &wallet_hex);
    let tag = tag_wallet(pk.display_string().as_str());
    let tier = rank_label_of(g);
    match latest {
        Some(s) => LeaderboardEntry {
            wallet_tag: tag,
            score: g.score,
            rank: 0,
            mu_level: s.mu_level,
            block_height: s.block_height,
            date_mined: s.date_mined,
            tier,
        },
        None => LeaderboardEntry {
            wallet_tag: tag,
            score: g.score,
            rank: 0,
            mu_level: 0,
            block_height: 0,
            date_mined: String::new(),
            tier,
        },
    }
}

/// Whether row `e`, standing at position `i` of the board, is the row of
/// registry key `k`: its core fields derive from that session and the
/// wallet's latest submission, and its tier carries the position's medal.
#[verifier::opaque]
pub open spec fn row_from(
    reg: Map<Seq<u8>, Game>,
    subs: Seq<Submission>,
    e: LeaderboardEntry,
    i: int,
    k: Seq<u8>,
) -> bool {
    &&& reg.contains_key(k)
    &&& entry_core(e, k, reg[k], subs, rank_label_spec(reg[k]))
    &&& e.tier@ == medal_prefix(i) + rank_label_spec(reg[k])
}

/// A ranked row still derives from its session: ranking only sets the rank
/// and puts the medal before the tier.
proof fn lemma_row_transfer(
    pre: LeaderboardEntry,
    post: LeaderboardEntry,
    i: int,
    k: Seq<u8>,
    reg: Map<Seq<u8>, Game>,
    subs: Seq<Submission>,
)
    requires
        reg.contains_key(k),
        entry_core(pre, k, reg[k], subs, pre.tier@),
        post.wallet_tag == pre.wallet_tag,
        post.score == pre.score,
        post.mu_level == pre.mu_level,
        post.block_height == pre.block_height,
        post.date_mined == pre.date_mined,
        post.tier@ == medal_prefix(i) + pre.tier@,
    ensures
        row_from(reg, subs, post, i, k),
{
    reveal(entry_core);
    reveal(row_from);
}

/// Whether every row of the board derives from some registry session:
/// some assignment of registry keys to rows makes each row the row of its
/// key.
pub open spec fn board_sound(
    reg: Map<Seq<u8>, Game>,
    subs: Seq<Submission>,
    rows: Seq<LeaderboardEntry>,
) -> bool {
    exists|keys: Seq<Seq<u8>>|
        #![trigger keys.len()]
        keys.len() == rows.len() && forall|i: int|
            #![trigger rows[i]]
            0 <= i < rows.len() ==> row_from(reg, subs, rows[i], i, keys[i])
}

/// Whether every registry session has a row on the board.
pub open spec fn board_complete(
    reg: Map<Seq<u8>, Game>,
    subs: Seq<Submission>,
    rows: Seq<LeaderboardEntry>,
) -> bool {
    forall|k: Seq<u8>|
        #![trigger reg.contains_key(k)]
        reg.contains_key(k) ==> exists|i: int|
            0 <= i < rows.len() && row_from(reg, subs, rows[i], i, k)
}

/// Whether `a` may precede `b` on the board: higher score first, ties by
/// the later date.
pub open spec fn entry_le(a: LeaderboardEntry, b: LeaderboardEntry) -> bool {
    ||| a.score > b.score
    ||| (a.score == b.score && !chars_lt(a.date_mined@, b.date_mined@))
}

/// Whether the rows are ordered by score, ties by the later date.
pub open spec fn sorted_entries(s: Seq<LeaderboardEntry>) -> bool {
    forall|i: int, j: int| 0 <= i < j < s.len() ==> entry_le(#[trigger] s[i], #[trigger] s[j])
}

/// Whether `a` may precede `b` on the board.
fn entry_le_exec(a: &LeaderboardEntry, b: &LeaderboardEntry) -> (r: bool)
    ensures
        r == entry_le(*a, *b),
{
    a.score > b.score || (a.score == b.score && !str_lt(
        a.date_mined.as_str(),
        b.date_mined.as_str(),
    ))
}

/// An element strictly before the insertion point stays below everything
/// the point's element was below.
proof fn lemma_entry_le_bridge(
    item: LeaderboardEntry,
    p_elem: LeaderboardEntry,
    j_elem: LeaderboardEntry,
)
    requires
        !entry_le(p_elem, item),
        entry_le(p_elem, j_elem),
    ensures
        entry_le(item, j_elem),
{
    if item.score == j_elem.score && chars_lt(item.date_mined@, j_elem.date_mined@) {
        if p_elem.score == item.score && chars_lt(p_elem.date_mined@, item.date_mined@) {
            lemma_chars_lt_trans(p_elem.date_mined@, item.date_mined@, j_elem.date_mined@);
        }
    }
}

/// Orders the rows by score, ties by the later date: the result holds the
/// same rows, ordered.
fn sort_entries(list: Vec<LeaderboardEntry>) -> (r: Vec<LeaderboardEntry>)
    ensures
        r@.len() == list@.len(),
        r@.to_multiset() == list@.to_multiset(),
        sorted_entries(r@),
{
    let mut r: Vec<LeaderboardEntry> = Vec::new();
    let mut i: usize = 0;
    proof {
        assert(list@.take(0) =~= Seq::<LeaderboardEntry>::empty());
        assert(r@.to_multiset() =~= list@.take(0).to_multiset());
    }
    while i < list.len()
        invariant
            i <= list@.len(),
            r@.len() == i,
            r@.to_multiset() == list@.take(i as int).to_multiset(),
            sorted_entries(r@),
        decreases list@.len() - i,
    {
        let item = list[i].clone();
        let mut p: usize = 0;
        while p < r.len() && entry_le_exec(&r[p], &item)
            invariant
                p <= r@.len(),
                forall|j: int| 0 <= j < p ==> entry_le(#[trigger] r@[j], item),
            decreases r@.len() - p,
        {
            p += 1;
        }
        let ghost pre = r@;
        r.insert(p, item);
        proof {
            assert(list@.take(i + 1) =~= list@.take(i as int).push(list@[i as int]));
            assert(r@.to_multiset() =~= list@.take(i + 1).to_multiset());
            assert forall|x: int, y: int|
                0 <= x < y < r@.len() implies entry_le(#[trigger] r@[x], #[trigger] r@[y]) by {
                if y <= p {
                    if y == p as int {
                        assert(r@[y] == item);
                    }
                } else if x == p {
                    assert(r@[x] == item);
                    assert((p as int) < pre.len());
                    if y - 1 == p as int {
                        lemma_chars_lt_asym(
                            pre[p as int].date_mined@,
                            pre[p as int].date_mined@,
                        );
                    }
                    lemma_entry_le_bridge(item, pre[p as int], pre[y - 1]);
                }
            }
        }
        i += 1;
    }
    proof {
        assert(list@.take(list@.len() as int) =~= list@);
    }
    r
}

/// The medal shown before the tier of the top three rows.
pub open spec fn medal_prefix(i: int) -> Seq<char> {
    if i == 0 {
        "🥇 "@
    } else if i == 1 {
        "🥈 "@
    } else if i == 2 {
        "🥉 "@
    } else {
        Seq::<char>::empty()
    }
}

/// Assigns ranks in order and puts the medals on the top three rows; all
/// other fields stay as they were.
fn assign_ranks(list: Vec<LeaderboardEntry>) -> (r: Vec<LeaderboardEntry>)
    ensures
        r@.len() == list@.len(),
        forall|i: int|
            0 <= i < list@.len() ==> {
                let e = #[trigger] r@[i];
                let o = list@[i];
                &&& e.rank == i + 1
                &&& e.tier@ == medal_prefix(i) + o.tier@
                &&& e.wallet_tag == o.wallet_tag
                &&& e.score == o.score
                &&& e.mu_level == o.mu_level
                &&& e.block_height == o.block_height
                &&& e.date_mined == o.date_mined
            },
{
    let mut r: Vec<LeaderboardEntry> = Vec::new();
    let mut i: usize = 0;
    while i < list.len()
        invariant
            i <= list@.len(),
            r@.len() == i,
            forall|j: int|
                0 <= j < i ==> {
                    let e = #[trigger] r@[j];
                    let o = list@[j];
                    &&& e.rank == j + 1
                    &&& e.tier@ == medal_prefix(j) + o.tier@
                    &&& e.wallet_tag == o.wallet_tag
                    &&& e.score == o.score
                    &&& e.mu_level == o.mu_level
                    &&& e.block_height == o.block_height
                    &&& e.date_mined == o.date_mined
                },
        decreases list@.len() - i,
    {
        let o = &list[i];
        let medal = if i == 0 {
            "🥇 "
        } else if i == 1 {
            "🥈 "
        } else if i == 2 {
            "🥉 "
        } else {
            ""
        };
        let mut tier = medal.to_owned();
        tier.append(o.tier.as_str());
        proof {
            if i >= 3 {
                reveal_strlit("");
                assert(tier@ =~= medal_prefix(i as int) + o.tier@);
            }
        }
        r.push(
            LeaderboardEntry {
                wallet_tag: o.wallet_tag.clone(),
                score: o.score,
                rank: i + 1,
                mu_level: o.mu_level,
                block_height: o.block_height,
                date_mined: o.date_mined.clone(),
                tier,
            },
        );
        i += 1;
    }
    r
}

/// Builds the leaderboard: one row per session joined with its wallet's
/// latest submission, ordered by score (ties by the later date), ranked
/// from one, medals on the top three.
#[verifier::rlimit(60)]
pub fn build_leaderboard(registry: &SessionRegistry, subs: &Vec<Submission>) -> (r: Vec<
    LeaderboardEntry,
>)
    requires
        registry.wf(),
    ensures
        sorted_entries(r@),
        forall|i: int| 0 <= i < r@.len() ==> (#[trigger] r@[i]).rank == i + 1,
        board_sound(registry@, subs@, r@),
        board_complete(registry@, subs@, r@),
{
    let rows = registry.sessions();
    let mut entries: Vec<LeaderboardEntry> = Vec::new();
    let mut i: usize = 0;
    while i < rows.len()
        invariant
            i <= rows@.len(),
            entries@.len() == i,
            forall|j: int|
                0 <= j < i ==> entry_core(
                    #[trigger] entries@[j],
                    rows@[j].0@,
                    rows@[j].1,
                    subs@,
                    entries@[j].tier@,
                ),
        decreases rows@.len() - i,
    {
        let pair = &rows[i];
        let e = make_entry(&pair.0, &pair.1, subs);
        entries.push(e);
        i += 1;
    }
    let ghost unsorted = entries@;
    let ghost rows_view = rows@;
    let sorted = sort_entries(entries);
    let ranked = assign_ranks(sorted);
    proof {
        let sorted_view = sorted@;
        assert forall|idx: int|
            #![trigger ranked@[idx]]
            0 <= idx < ranked@.len() implies exists|k: Seq<u8>|
            row_from(registry@, subs@, ranked@[idx], idx, k) by {
            assert(sorted_view.to_multiset().count(sorted_view[idx]) > 0);
            assert(unsorted.to_multiset().count(sorted_view[idx]) > 0);
            assert(unsorted.contains(sorted_view[idx]));
            let j = choose|j: int| 0 <= j < unsorted.len() && unsorted[j] == sorted_view[idx];
            let k = rows_view[j].0@;
            assert(registry@.contains_key(k) && rows_view[j].1 == registry@[k]);
            assert(entry_core(sorted_view[idx], k, registry@[k], subs@, sorted_view[idx].tier@));
            lemma_row_transfer(sorted_view[idx], ranked@[idx], idx, k, registry@, subs@);
        }
        let keys = Seq::new(
            ranked@.len(),
            |i: int| choose|k: Seq<u8>| row_from(registry@, subs@, ranked@[i], i, k),
        );
        assert forall|i: int|
            #![trigger ranked@[i]]
            0 <= i < ranked@.len() implies row_from(registry@, subs@, ranked@[i], i, keys[i]) by {
            // Bring the row itself into scope so the per-row fact above
            // applies to this index.
            let e = ranked@[i];
            assert(exists|k: Seq<u8>| row_from(registry@, subs@, ranked@[i], i, k));
            assert(keys[i] == choose|k: Seq<u8>| row_from(registry@, subs@, ranked@[i], i, k));
        }
        assert(keys.len() == ranked@.len());
        assert(board_sound(registry@, subs@, ranked@));
        assert forall|k: Seq<u8>| #[trigger] registry@.contains_key(k) implies exists|i2: int|
            0 <= i2 < ranked@.len() && row_from(registry@, subs@, ranked@[i2], i2, k) by {
            let j = choose|j: int| 0 <= j < rows_view.len() && (#[trigger] rows_view[j]).0@ == k;
            assert(unsorted.to_multiset().count(unsorted[j]) > 0);
            assert(sorted_view.to_multiset().count(unsorted[j]) > 0);
            assert(sorted_view.contains(unsorted[j]));
            let i2 = choose|i2: int| 0 <= i2 < sorted_view.len() && sorted_view[i2] == unsorted[j];
            assert(entry_core(sorted_view[i2], k, registry@[k], subs@, sorted_view[i2].tier@));
            lemma_row_transfer(sorted_view[i2], ranked@[i2], i2, k, registry@, subs@);
            assert(0 <= i2 < ranked@.len() && row_from(registry@, subs@, ranked@[i2], i2, k));
        }
        assert(board_complete(registry@, subs@, ranked@));
        assert forall|x: int, y: int|
            0 <= x < y < ranked@.len() implies entry_le(#[trigger] ranked@[x], #[trigger] ranked@[y]) by {
            assert(entry_le(sorted_view[x], sorted_view[y]));
        }
    }
    ranked
}

} // verus!
