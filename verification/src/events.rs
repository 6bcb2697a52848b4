//! The submission log and the event feed derived from it: filtering by
//! wallet and date, ordering by date, and the enrichment shown per row.

use vstd::prelude::*;

use vstd::string::StrSliceExecFns;

use crate::strutil::{chars_lt, lemma_chars_lt_trans, str_eq, str_lt};

verus! {

broadcast use vstd::seq_lib::group_to_multiset_ensures;

/// One accepted submission, as the log keeps it.
#[derive(Debug)]
pub struct Submission {
    pub wallet: String,
    pub score: u32,
    pub mu_level: u8,
    pub block_height: u64,
    pub date_mined: String,
    pub event_type: String,
}

impl Clone for Submission {
    fn clone(&self) -> (r: Self)
        ensures
            r == *self,
    {
        Submission {
            wallet: self.wallet.clone(),
            score: self.score,
            mu_level: self.mu_level,
            block_height: self.block_height,
            date_mined: self.date_mined.clone(),
            event_type: self.event_type.clone(),
        }
    }
}

/// The query parameters of the event feed.
#[derive(Debug)]
pub struct EventsQuery {
    pub limit: usize,
    pub wallet: Option<String>,
    pub since: Option<String>,
    pub order: String,
}

/// The default page size of the event feed.
pub fn default_limit() -> (n: usize)
    ensures
        n == 100,
{
    100
}

/// The default ordering of the event feed.
pub fn default_order() -> (s: String)
    ensures
        s@ == "desc"@,
{
    "desc".to_owned()
}

/// One row of the event feed.
#[derive(Debug)]
pub struct EnrichedEvent {
    pub wallet: String,
    pub mu_level: u8,
    pub block_height: u64,
    pub date_mined: String,
    pub event_type: String,
    pub score_delta: u32,
    pub command: String,
}

/// Whether a submission passes the feed's wallet and date filters.
pub open spec fn keep_event(s: Submission, wallet: Option<String>, since: Option<String>) -> bool {
    &&& (match wallet {
        Some(w) => s.wallet@ == w@,
        None => true,
    })
    &&& (match since {
        Some(t) => chars_lt(t@, s.date_mined@),
        None => true,
    })
}

/// Keeps the submissions that pass the wallet and date filters, in order.
pub fn filter_events(subs: &Vec<Submission>, wallet: &Option<String>, since: &Option<String>) -> (r:
    Vec<Submission>)
    ensures
        r@ == subs@.filter(|s: Submission| keep_event(s, *wallet, *since)),
{
    let ghost pred = |s: Submission| keep_event(s, *wallet, *since);
    let mut r: Vec<Submission> = Vec::new();
    let mut i: usize = 0;
    proof {
        reveal_with_fuel(Seq::<_>::filter, 2);
        assert(subs@.take(0) =~= Seq::<Submission>::empty());
        assert(Seq::<Submission>::empty().filter(pred) =~= Seq::<Submission>::empty());
    }
    while i < subs.len()
        invariant
            i <= subs@.len(),
            pred == (|s: Submission| keep_event(s, *wallet, *since)),
            r@ == subs@.take(i as int).filter(pred),
        decreases subs@.len() - i,
    {
        let sub = &subs[i];
        let wallet_ok = match wallet {
            Some(w) => str_eq(sub.wallet.as_str(), w.as_str()),
            None => true,
        };
        let since_ok = match since {
            Some(t) => str_lt(t.as_str(), sub.date_mined.as_str()),
            None => true,
        };
        if wallet_ok && since_ok {
            r.push(sub.clone());
        }
        proof {
            reveal_with_fuel(Seq::<_>::filter, 2);
            let t1 = subs@.take(i + 1);
            assert(t1.drop_last() =~= subs@.take(i as int));
            assert(t1.last() == subs@[i as int]);
            assert(t1.filter(pred) == (if pred(t1.last()) {
                t1.drop_last().filter(pred).push(t1.last())
            } else {
                t1.drop_last().filter(pred)
            }));
        }
        i += 1;
    }
    proof {
        assert(subs@.take(subs@.len() as int) =~= subs@);
    }
    r
}

/// Whether `a` may precede `b` in the feed: ascending or descending by
/// date.
pub open spec fn date_le(a: Submission, b: Submission, asc: bool) -> bool {
    if asc {
        !chars_lt(b.date_mined@, a.date_mined@)
    } else {
        !chars_lt(a.date_mined@, b.date_mined@)
    }
}

/// Whether a sequence of submissions is ordered by date.
pub open spec fn sorted_by_date(s: Seq<Submission>, asc: bool) -> bool {
    forall|i: int, j: int| 0 <= i < j < s.len() ==> date_le(#[trigger] s[i], #[trigger] s[j], asc)
}

/// Whether `a` may precede `b` in the chosen direction.
fn date_le_exec(a: &Submission, b: &Submission, asc: bool) -> (r: bool)
    ensures
        r == date_le(*a, *b, asc),
{
    if asc {
        !str_lt(b.date_mined.as_str(), a.date_mined.as_str())
    } else {
        !str_lt(a.date_mined.as_str(), b.date_mined.as_str())
    }
}

/// An element strictly before the insertion point stays below everything
/// the point's element was below.
proof fn lemma_date_le_bridge(item: Submission, p_elem: Submission, j_elem: Submission, asc: bool)
    requires
        !date_le(p_elem, item, asc),
        date_le(p_elem, j_elem, asc),
    ensures
        date_le(item, j_elem, asc),
{
    if asc {
        if chars_lt(j_elem.date_mined@, item.date_mined@) {
            lemma_chars_lt_trans(j_elem.date_mined@, item.date_mined@, p_elem.date_mined@);
        }
    } else {
        if chars_lt(item.date_mined@, j_elem.date_mined@) {
            lemma_chars_lt_trans(p_elem.date_mined@, item.date_mined@, j_elem.date_mined@);
        }
    }
}

/// Orders submissions by date, ascending or descending: the result holds
/// the same submissions, ordered as asked.
pub fn sort_events_by_date(list: Vec<Submission>, asc: bool) -> (r: Vec<Submission>)
    ensures
        r@.len() == list@.len(),
        r@.to_multiset() == list@.to_multiset(),
        sorted_by_date(r@, asc),
{
    let mut r: Vec<Submission> = Vec::new();
    let mut i: usize = 0;
    proof {
        assert(list@.take(0) =~= Seq::<Submission>::empty());
        assert(r@.to_multiset() =~= list@.take(0).to_multiset());
    }
    while i < list.len()
        invariant
            i <= list@.len(),
            r@.len() == i,
            r@.to_multiset() == list@.take(i as int).to_multiset(),
            sorted_by_date(r@, asc),
        decreases list@.len() - i,
    {
        let item = list[i].clone();
        let mut p: usize = 0;
        while p < r.len() && date_le_exec(&r[p], &item, asc)
            invariant
                p <= r@.len(),
                forall|j: int| 0 <= j < p ==> date_le(#[trigger] r@[j], item, asc),
            decreases r@.len() - p,
        {
            p += 1;
        }
        let ghost pre = r@;
        r.insert(p, item);
        proof {
            assert(list@.take(i + 1).drop_last() =~= list@.take(i as int));
            assert(list@.take(i + 1).last() == list@[i as int]);
            assert(list@.take(i + 1) =~= list@.take(i as int).push(list@[i as int]));
            assert(r@.to_multiset() =~= list@.take(i + 1).to_multiset());
            assert forall|x: int, y: int|
                0 <= x < y < r@.len() implies date_le(#[trigger] r@[x], #[trigger] r@[y], asc) by {
                if y <= p {
                    if y < p as int {
                    } else {
                        assert(r@[y] == item);
                    }
                } else if x == p {
                    assert(r@[x] == item);
                    assert((p as int) < pre.len());
                    if y - 1 == p as int {
                        crate::strutil::lemma_chars_lt_asym(
                            pre[p as int].date_mined@,
                            pre[p as int].date_mined@,
                        );
                    }
                    lemma_date_le_bridge(item, pre[p as int], pre[y - 1], asc);
                } else if x < p {
                } else {
                }
            }
        }
        i += 1;
    }
    proof {
        assert(list@.take(list@.len() as int) =~= list@);
    }
    r
}

/// How one feed row is derived from a submission: witness rows show the
/// witness command and half the level as the delta, mined rows the mined
/// command and the level itself.
pub open spec fn enriches(s: Submission, e: EnrichedEvent) -> bool {
    &&& e.wallet@ == s.wallet@
    &&& e.mu_level == s.mu_level
    &&& e.block_height == s.block_height
    &&& e.date_mined@ == s.date_mined@
    &&& e.event_type@ == s.event_type@
    &&& (if s.event_type@ == "witness"@ {
        e.command@ == "WitnessPoints"@ && e.score_delta == (s.mu_level as u32) / 2
    } else {
        e.command@ == "AddPoints"@ && e.score_delta == s.mu_level as u32
    })
}

/// Derives the feed rows of a list of submissions, in order.
pub fn enrich_events(list: &Vec<Submission>) -> (r: Vec<EnrichedEvent>)
    ensures
        r@.len() == list@.len(),
        forall|i: int| 0 <= i < list@.len() ==> enriches(#[trigger] list@[i], r@[i]),
{
    let mut r: Vec<EnrichedEvent> = Vec::new();
    let mut i: usize = 0;
    while i < list.len()
        invariant
            i <= list@.len(),
            r@.len() == i,
            forall|j: int| 0 <= j < i ==> enriches(#[trigger] list@[j], r@[j]),
        decreases list@.len() - i,
    {
        let s = &list[i];
        let is_witness = str_eq(s.event_type.as_str(), "witness");
        let command = if is_witness {
            "WitnessPoints"
        } else {
            "AddPoints"
        };
        let score_delta = if is_witness {
            (s.mu_level as u32) / 2
        } else {
            s.mu_level as u32
        };
        r.push(
            EnrichedEvent {
                wallet: s.wallet.clone(),
                mu_level: s.mu_level,
                block_height: s.block_height,
                date_mined: s.date_mined.clone(),
                event_type: s.event_type.clone(),
                score_delta,
                command: command.to_owned(),
            },
        );
        i += 1;
    }
    r
}

/// Whether the order parameter asks for the ascending feed: a
/// case-insensitive `asc`.
pub open spec fn order_is_asc(s: Seq<char>) -> bool {
    s.len() == 3 && (s[0] == 'a' || s[0] == 'A') && (s[1] == 's' || s[1] == 'S') && (s[2] == 'c'
        || s[2] == 'C')
}

/// Whether the order parameter asks for the ascending feed.
pub fn is_order_asc(order: &str) -> (r: bool)
    ensures
        r == order_is_asc(order@),
{
    if order.unicode_len() != 3 {
        return false;
    }
    let c0 = order.get_char(0);
    let c1 = order.get_char(1);
    let c2 = order.get_char(2);
    (c0 == 'a' || c0 == 'A') && (c1 == 's' || c1 == 'S') && (c2 == 'c' || c2 == 'C')
}

} // verus!
