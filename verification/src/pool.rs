use vstd::prelude::*;
use crate::world::{PlayerSnapshot, WorldSnapshot};

verus! {

broadcast use vstd::seq_lib::group_seq_properties;

/// One hireable candidate as the roster stage sees it: identity, the hiring
/// cost fixed at pool-build time, and the quality rating the list is ordered
/// by.
#[derive(Clone, Copy, Debug, PartialEq, Eq, Structural)]
pub struct HireEntry {
    pub player_id: u64,
    pub cost: u32,
    pub rating: u8,
}

/// The entry the pool keeps for a player.
pub open spec fn entry_of(p: PlayerSnapshot) -> HireEntry {
    HireEntry { player_id: p.id, cost: p.hire_cost, rating: p.rating }
}

/// `x` placed into an ascending list, before the first larger element.
pub open spec fn insert_asc(s: Seq<u64>, x: u64) -> Seq<u64>
    decreases s.len(),
{
    if s.len() == 0 {
        seq![x]
    } else if x < s[0] {
        seq![x] + s
    } else {
        seq![s[0]] + insert_asc(s.drop_first(), x)
    }
}

/// `e` placed into a list ordered by descending rating, after every entry
/// whose rating is at least its own: arrivals among equal ratings keep their
/// order.
pub open spec fn insert_desc(s: Seq<HireEntry>, e: HireEntry) -> Seq<HireEntry>
    decreases s.len(),
{
    if s.len() == 0 {
        seq![e]
    } else if e.rating > s[0].rating {
        seq![e] + s
    } else {
        seq![s[0]] + insert_desc(s.drop_first(), e)
    }
}

pub open spec fn sorted_asc(s: Seq<u64>) -> bool {
    forall|i: int, j: int| 0 <= i < j < s.len() ==> s[i] <= s[j]
}

pub open spec fn sorted_desc_rating(s: Seq<HireEntry>) -> bool {
    forall|i: int, j: int| 0 <= i < j < s.len() ==> s[i].rating >= s[j].rating
}

/// Where the ascending insertion lands: once every element before `i` is at
/// most `x` and the element at `i`, if any, is larger, the result is the
/// list with `x` standing at `i`.
proof fn lemma_insert_asc_at(s: Seq<u64>, x: u64, i: int)
    requires
        0 <= i <= s.len(),
        forall|j: int| 0 <= j < i ==> s[j] <= x,
        i < s.len() ==> x < s[i],
    ensures
        insert_asc(s, x) == s.insert(i, x),
    decreases s.len(),
{
    if s.len() == 0 {
        assert(insert_asc(s, x) =~= s.insert(i, x));
    } else if i == 0 {
        assert(insert_asc(s, x) =~= s.insert(0, x));
    } else {
        let t = s.drop_first();
        lemma_insert_asc_at(t, x, i - 1);
        assert(insert_asc(s, x) =~= s.insert(i, x));
    }
}

/// The same for the rating-ordered insertion.
proof fn lemma_insert_desc_at(s: Seq<HireEntry>, e: HireEntry, i: int)
    requires
        0 <= i <= s.len(),
        forall|j: int| 0 <= j < i ==> s[j].rating >= e.rating,
        i < s.len() ==> e.rating > s[i].rating,
    ensures
        insert_desc(s, e) == s.insert(i, e),
    decreases s.len(),
{
    if s.len() == 0 {
        assert(insert_desc(s, e) =~= s.insert(i, e));
    } else if i == 0 {
        assert(insert_desc(s, e) =~= s.insert(0, e));
    } else {
        let t = s.drop_first();
        lemma_insert_desc_at(t, e, i - 1);
        assert(insert_desc(s, e) =~= s.insert(i, e));
    }
}

/// Ascending insertion adds exactly the new element.
pub proof fn lemma_insert_asc_contains(s: Seq<u64>, x: u64)
    ensures
        insert_asc(s, x).len() == s.len() + 1,
        forall|y: u64| #[trigger] insert_asc(s, x).contains(y) <==> (s.contains(y) || y == x),
    decreases s.len(),
{
    let r = insert_asc(s, x);
    if s.len() == 0 {
        assert(r[0] == x);
        assert forall|y: u64| #[trigger] r.contains(y) implies (s.contains(y) || y == x) by {
            let k = choose|k: int| 0 <= k < r.len() && r[k] == y;
        }
    } else if x < s[0] {
        assert(r == seq![x] + s);
        assert(r[0] == x);
        assert forall|y: u64| #[trigger] r.contains(y) implies (s.contains(y) || y == x) by {
            let k = choose|k: int| 0 <= k < r.len() && r[k] == y;
            if k > 0 {
                assert(s[k - 1] == y);
            }
        }
        assert forall|y: u64| s.contains(y) implies #[trigger] r.contains(y) by {
            let k = choose|k: int| 0 <= k < s.len() && s[k] == y;
            assert(r[k + 1] == y);
        }
    } else {
        let t = s.drop_first();
        lemma_insert_asc_contains(t, x);
        let rt = insert_asc(t, x);
        assert(r == seq![s[0]] + rt);
        assert forall|y: u64| #[trigger] r.contains(y) implies (s.contains(y) || y == x) by {
            let k = choose|k: int| 0 <= k < r.len() && r[k] == y;
            if k == 0 {
                assert(s[0] == y);
            } else {
                assert(rt[k - 1] == y);
                assert(rt.contains(y));
                if t.contains(y) {
                    let m = choose|m: int| 0 <= m < t.len() && t[m] == y;
                    assert(s[m + 1] == y);
                }
            }
        }
        assert forall|y: u64| s.contains(y) || y == x implies #[trigger] r.contains(y) by {
            if y == x || t.contains(y) {
                assert(rt.contains(y));
                let m = choose|m: int| 0 <= m < rt.len() && rt[m] == y;
                assert(r[m + 1] == y);
            } else {
                let k = choose|k: int| 0 <= k < s.len() && s[k] == y;
                if k == 0 {
                    assert(r[0] == y);
                } else {
                    assert(t[k - 1] == y);
                }
            }
        }
    }
}

/// The same for the rating-ordered insertion, over the entries themselves.
pub proof fn lemma_insert_desc_contains(s: Seq<HireEntry>, e: HireEntry)
    ensures
        insert_desc(s, e).len() == s.len() + 1,
        forall|y: HireEntry| #[trigger]
            insert_desc(s, e).contains(y) <==> (s.contains(y) || y == e),
    decreases s.len(),
{
    let r = insert_desc(s, e);
    if s.len() == 0 {
        assert(r[0] == e);
        assert forall|y: HireEntry| #[trigger] r.contains(y) implies (s.contains(y) || y == e) by {
            let k = choose|k: int| 0 <= k < r.len() && r[k] == y;
        }
    } else if e.rating > s[0].rating {
        assert(r == seq![e] + s);
        assert(r[0] == e);
        assert forall|y: HireEntry| #[trigger] r.contains(y) implies (s.contains(y) || y == e) by {
            let k = choose|k: int| 0 <= k < r.len() && r[k] == y;
            if k > 0 {
                assert(s[k - 1] == y);
            }
        }
        assert forall|y: HireEntry| s.contains(y) implies #[trigger] r.contains(y) by {
            let k = choose|k: int| 0 <= k < s.len() && s[k] == y;
            assert(r[k + 1] == y);
        }
    } else {
        let t = s.drop_first();
        lemma_insert_desc_contains(t, e);
        let rt = insert_desc(t, e);
        assert(r == seq![s[0]] + rt);
        assert forall|y: HireEntry| #[trigger] r.contains(y) implies (s.contains(y) || y == e) by {
            let k = choose|k: int| 0 <= k < r.len() && r[k] == y;
            if k == 0 {
                assert(s[0] == y);
            } else {
                assert(rt[k - 1] == y);
                assert(rt.contains(y));
                if t.contains(y) {
                    let m = choose|m: int| 0 <= m < t.len() && t[m] == y;
                    assert(s[m + 1] == y);
                }
            }
        }
        assert forall|y: HireEntry| s.contains(y) || y == e implies #[trigger] r.contains(y) by {
            if y == e || t.contains(y) {
                assert(rt.contains(y));
                let m = choose|m: int| 0 <= m < rt.len() && rt[m] == y;
                assert(r[m + 1] == y);
            } else {
                let k = choose|k: int| 0 <= k < s.len() && s[k] == y;
                if k == 0 {
                    assert(r[0] == y);
                } else {
                    assert(t[k - 1] == y);
                }
            }
        }
    }
}

/// Ascending insertion keeps the order and, for a fresh element, uniqueness.
pub proof fn lemma_insert_asc_sorted(s: Seq<u64>, x: u64)
    requires
        sorted_asc(s),
    ensures
        sorted_asc(insert_asc(s, x)),
        !s.contains(x) && s.no_duplicates() ==> insert_asc(s, x).no_duplicates(),
    decreases s.len(),
{
    let r = insert_asc(s, x);
    lemma_insert_asc_contains(s, x);
    if s.len() == 0 {
    } else if x < s[0] {
        assert(r == seq![x] + s);
        assert forall|i: int, j: int| 0 <= i < j < r.len() implies r[i] <= r[j] by {
            if i > 0 {
                assert(r[i] == s[i - 1] && r[j] == s[j - 1]);
            } else {
                assert(r[j] == s[j - 1]);
                assert(s[0] <= s[j - 1]);
            }
        }
        if !s.contains(x) && s.no_duplicates() {
            assert forall|i: int, j: int| 0 <= i < j < r.len() implies r[i] != r[j] by {
                if i == 0 {
                    assert(s.contains(s[j - 1]));
                } else {
                    assert(r[i] == s[i - 1] && r[j] == s[j - 1]);
                }
            }
        }
    } else {
        let t = s.drop_first();
        assert(sorted_asc(t)) by {
            assert(forall|i: int, j: int|
                0 <= i < j < t.len() ==> t[i] == s[i + 1] && t[j] == s[j + 1]);
        }
        lemma_insert_asc_sorted(t, x);
        lemma_insert_asc_contains(t, x);
        let rt = insert_asc(t, x);
        assert(r == seq![s[0]] + rt);
        assert forall|i: int, j: int| 0 <= i < j < r.len() implies r[i] <= r[j] by {
            if i == 0 {
                assert(r[j] == rt[j - 1]);
                assert(rt.contains(rt[j - 1]));
                if rt[j - 1] == x {
                    assert(s[0] <= x);
                } else {
                    assert(t.contains(rt[j - 1]));
                    let m = choose|m: int| 0 <= m < t.len() && t[m] == rt[j - 1];
                    assert(s[0] <= s[m + 1]);
                }
            } else {
                assert(r[i] == rt[i - 1] && r[j] == rt[j - 1]);
            }
        }
        if !s.contains(x) && s.no_duplicates() {
            assert(!t.contains(x)) by {
                if t.contains(x) {
                    let m = choose|m: int| 0 <= m < t.len() && t[m] == x;
                    assert(s[m + 1] == x);
                }
            }
            assert(t.no_duplicates()) by {
                assert(forall|i: int, j: int|
                    0 <= i < j < t.len() ==> t[i] == s[i + 1] && t[j] == s[j + 1]);
            }
            assert(!t.contains(s[0])) by {
                if t.contains(s[0]) {
                    let m = choose|m: int| 0 <= m < t.len() && t[m] == s[0];
                    assert(s[m + 1] == s[0]);
                }
            }
            assert(s[0] != x);
            assert forall|i: int, j: int| 0 <= i < j < r.len() implies r[i] != r[j] by {
                if i == 0 {
                    assert(r[j] == rt[j - 1]);
                    assert(rt.contains(rt[j - 1]));
                } else {
                    assert(r[i] == rt[i - 1] && r[j] == rt[j - 1]);
                }
            }
        }
    }
}

/// Rating-ordered insertion keeps the descending order.
pub proof fn lemma_insert_desc_sorted(s: Seq<HireEntry>, e: HireEntry)
    requires
        sorted_desc_rating(s),
    ensures
        sorted_desc_rating(insert_desc(s, e)),
    decreases s.len(),
{
    let r = insert_desc(s, e);
    lemma_insert_desc_contains(s, e);
    if s.len() == 0 {
    } else if e.rating > s[0].rating {
        assert(r == seq![e] + s);
        assert forall|i: int, j: int| 0 <= i < j < r.len() implies r[i].rating >= r[j].rating by {
            if i > 0 {
                assert(r[i] == s[i - 1] && r[j] == s[j - 1]);
            } else {
                assert(r[j] == s[j - 1]);
                assert(s[0].rating >= s[j - 1].rating);
            }
        }
    } else {
        let t = s.drop_first();
        assert(sorted_desc_rating(t)) by {
            assert(forall|i: int, j: int|
                0 <= i < j < t.len() ==> t[i] == s[i + 1] && t[j] == s[j + 1]);
        }
        lemma_insert_desc_sorted(t, e);
        lemma_insert_desc_contains(t, e);
        let rt = insert_desc(t, e);
        assert(r == seq![s[0]] + rt);
        assert forall|i: int, j: int| 0 <= i < j < r.len() implies r[i].rating >= r[j].rating by {
            if i == 0 {
                assert(r[j] == rt[j - 1]);
                assert(rt.contains(rt[j - 1]));
                if rt[j - 1] == e {
                    assert(s[0].rating >= e.rating);
                } else {
                    assert(t.contains(rt[j - 1]));
                    let m = choose|m: int| 0 <= m < t.len() && t[m] == rt[j - 1];
                    assert(s[0].rating >= s[m + 1].rating);
                }
            } else {
                assert(r[i] == rt[i - 1] && r[j] == rt[j - 1]);
            }
        }
    }
}

/// Places an identifier into an ascending list of identifiers.
pub fn insert_id_sorted(v: &mut Vec<u64>, x: u64)
    ensures
        final(v)@ == insert_asc(old(v)@, x),
{
    let ghost s = old(v)@;
    let mut i: usize = 0;
    while i < v.len() && v[i] <= x
        invariant
            i <= v.len(),
            v@ == s,
            forall|j: int| 0 <= j < i ==> s[j] <= x,
        decreases v.len() - i,
    {
        i = i + 1;
    }
    proof {
        lemma_insert_asc_at(s, x, i as int);
    }
    v.insert(i, x);
}

/// Rating-ordered insertion keeps the bucket's player identifiers unique
/// when the new entry's identifier is fresh.
pub proof fn lemma_insert_desc_nodup(s: Seq<HireEntry>, e: HireEntry)
    requires
        bucket_ids_nodup(s),
        forall|i: int| 0 <= i < s.len() ==> s[i].player_id != e.player_id,
    ensures
        bucket_ids_nodup(insert_desc(s, e)),
    decreases s.len(),
{
    let r = insert_desc(s, e);
    if s.len() == 0 {
    } else if e.rating > s[0].rating {
        assert(r == seq![e] + s);
        assert forall|i: int, j: int| 0 <= i < j < r.len() implies r[i].player_id
            != r[j].player_id by {
            if i > 0 {
                assert(r[i] == s[i - 1] && r[j] == s[j - 1]);
            } else {
                assert(r[j] == s[j - 1]);
            }
        }
    } else {
        let t = s.drop_first();
        assert(bucket_ids_nodup(t)) by {
            assert(forall|i: int, j: int|
                0 <= i < j < t.len() ==> t[i] == s[i + 1] && t[j] == s[j + 1]);
        }
        assert(forall|i: int| 0 <= i < t.len() ==> t[i] == s[i + 1]);
        lemma_insert_desc_nodup(t, e);
        lemma_insert_desc_contains(t, e);
        let rt = insert_desc(t, e);
        assert(r == seq![s[0]] + rt);
        assert forall|i: int, j: int| 0 <= i < j < r.len() implies r[i].player_id
            != r[j].player_id by {
            if i == 0 {
                assert(r[j] == rt[j - 1]);
                assert(rt.contains(rt[j - 1]));
                if rt[j - 1] == e {
                    assert(s[0].player_id != e.player_id);
                } else {
                    assert(t.contains(rt[j - 1]));
                    let m = choose|m: int| 0 <= m < t.len() && t[m] == rt[j - 1];
                    assert(s[0].player_id != s[m + 1].player_id);
                }
            } else {
                assert(r[i] == rt[i - 1] && r[j] == rt[j - 1]);
            }
        }
    }
}

/// The bucket's player identifiers are pairwise distinct.
pub open spec fn bucket_ids_nodup(b: Seq<HireEntry>) -> bool {
    forall|i: int, j: int| 0 <= i < j < b.len() ==> b[i].player_id != b[j].player_id
}

/// Places an entry into a bucket ordered by descending rating, after every
/// entry rated at least as high.
pub fn insert_entry_sorted(v: &mut Vec<HireEntry>, e: HireEntry)
    ensures
        final(v)@ == insert_desc(old(v)@, e),
{
    let ghost s = old(v)@;
    let mut i: usize = 0;
    while i < v.len() && v[i].rating >= e.rating
        invariant
            i <= v.len(),
            v@ == s,
            forall|j: int| 0 <= j < i ==> s[j].rating >= e.rating,
        decreases v.len() - i,
    {
        i = i + 1;
    }
    proof {
        lemma_insert_desc_at(s, e, i as int);
    }
    v.insert(i, e);
}

} // verus!

verus! {

/// The location list the pool derives from a snapshot: the identifiers of
/// the populated planets, in ascending order.
pub open spec fn build_ids(planets: Seq<crate::world::PlanetSnapshot>) -> Seq<u64>
    decreases planets.len(),
{
    if planets.len() == 0 {
        Seq::empty()
    } else {
        let prev = build_ids(planets.drop_last());
        if planets.last().population > 0 {
            insert_asc(prev, planets.last().id)
        } else {
            prev
        }
    }
}

/// One empty bucket per listed location.
pub open spec fn empty_buckets(n: nat) -> Seq<Seq<HireEntry>> {
    Seq::new(n, |i: int| Seq::empty())
}

/// A player the pool lists: unaffiliated, with a listed home planet.
pub open spec fn pool_eligible(p: PlayerSnapshot, ids: Seq<u64>) -> bool {
    p.team is None && ids.contains(p.home_planet_id)
}

/// The buckets the pool derives from a snapshot: every unaffiliated player
/// goes to the bucket of their home planet, each bucket ordered by
/// descending rating with arrivals among equal ratings kept in snapshot
/// order.
pub open spec fn build_buckets(ids: Seq<u64>, players: Seq<PlayerSnapshot>) -> Seq<Seq<HireEntry>>
    decreases players.len(),
{
    if players.len() == 0 {
        empty_buckets(ids.len())
    } else {
        let prev = build_buckets(ids, players.drop_last());
        let p = players.last();
        if pool_eligible(p, ids) {
            let idx = ids.index_of(p.home_planet_id);
            prev.update(idx, insert_desc(prev[idx], entry_of(p)))
        } else {
            prev
        }
    }
}

/// The location list is sorted, has no repeats, and holds exactly the
/// identifiers of the populated planets.
pub proof fn lemma_build_ids_props(planets: Seq<crate::world::PlanetSnapshot>)
    requires
        forall|i: int, j: int| 0 <= i < j < planets.len() ==> planets[i].id != planets[j].id,
    ensures
        sorted_asc(build_ids(planets)),
        build_ids(planets).no_duplicates(),
        forall|y: u64| #[trigger]
            build_ids(planets).contains(y) <==> exists|k: int|
                0 <= k < planets.len() && planets[k].population > 0 && planets[k].id == y,
    decreases planets.len(),
{
    if planets.len() == 0 {
    } else {
        let front = planets.drop_last();
        assert(forall|i: int| 0 <= i < front.len() ==> front[i] == planets[i]);
        lemma_build_ids_props(front);
        let prev = build_ids(front);
        let p = planets.last();
        if p.population > 0 {
            assert(!prev.contains(p.id)) by {
                if prev.contains(p.id) {
                    let k = choose|k: int|
                        0 <= k < front.len() && front[k].population > 0 && front[k].id == p.id;
                    assert(planets[k].id == planets[planets.len() - 1].id);
                }
            }
            lemma_insert_asc_sorted(prev, p.id);
            lemma_insert_asc_contains(prev, p.id);
            assert forall|y: u64| #[trigger] build_ids(planets).contains(y) implies exists|k: int|
                0 <= k < planets.len() && planets[k].population > 0 && planets[k].id == y by {
                if y == p.id {
                    assert(planets[planets.len() - 1].population > 0 && planets[planets.len()
                        - 1].id == y);
                } else {
                    assert(prev.contains(y));
                    let k = choose|k: int|
                        0 <= k < front.len() && front[k].population > 0 && front[k].id == y;
                    assert(planets[k].population > 0 && planets[k].id == y);
                }
            }
            assert forall|y: u64|
                exists|k: int|
                    0 <= k < planets.len() && planets[k].population > 0 && planets[k].id
                        == y implies #[trigger] build_ids(planets).contains(y) by {
                let k = choose|k: int|
                    0 <= k < planets.len() && planets[k].population > 0 && planets[k].id == y;
                if k == planets.len() - 1 {
                    assert(y == p.id);
                } else {
                    assert(front[k].population > 0 && front[k].id == y);
                    assert(prev.contains(y));
                }
            }
        } else {
            assert forall|y: u64| #[trigger] build_ids(planets).contains(y) implies exists|k: int|
                0 <= k < planets.len() && planets[k].population > 0 && planets[k].id == y by {
                let k = choose|k: int|
                    0 <= k < front.len() && front[k].population > 0 && front[k].id == y;
                assert(planets[k].population > 0 && planets[k].id == y);
            }
            assert forall|y: u64|
                exists|k: int|
                    0 <= k < planets.len() && planets[k].population > 0 && planets[k].id
                        == y implies #[trigger] build_ids(planets).contains(y) by {
                let k = choose|k: int|
                    0 <= k < planets.len() && planets[k].population > 0 && planets[k].id == y;
                assert(k < planets.len() - 1);
                assert(front[k].population > 0 && front[k].id == y);
            }
        }
    }
}

/// Every bucket is rating-ordered, lists each player at most once, and holds
/// only entries taken from the snapshot's players.
pub proof fn lemma_build_buckets_props(ids: Seq<u64>, players: Seq<PlayerSnapshot>)
    requires
        forall|i: int, j: int| 0 <= i < j < players.len() ==> players[i].id != players[j].id,
    ensures
        build_buckets(ids, players).len() == ids.len(),
        forall|j: int|
            0 <= j < ids.len() ==> sorted_desc_rating(#[trigger] build_buckets(ids, players)[j]),
        forall|j: int|
            0 <= j < ids.len() ==> bucket_ids_nodup(#[trigger] build_buckets(ids, players)[j]),
        forall|j: int, e: HireEntry|
            0 <= j < ids.len() && #[trigger] build_buckets(ids, players)[j].contains(e)
                ==> exists|k: int|
                0 <= k < players.len() && e == entry_of(players[k]),
    decreases players.len(),
{
    let bb = build_buckets(ids, players);
    if players.len() == 0 {
    } else {
        let front = players.drop_last();
        assert(forall|i: int| 0 <= i < front.len() ==> front[i] == players[i]);
        lemma_build_buckets_props(ids, front);
        let prev = build_buckets(ids, front);
        let p = players.last();
        if pool_eligible(p, ids) {
            let idx = ids.index_of(p.home_planet_id);
            assert(0 <= idx < ids.len());
            let b = prev[idx];
            assert(forall|i: int| 0 <= i < b.len() ==> b[i].player_id != p.id) by {
                assert forall|i: int| 0 <= i < b.len() implies b[i].player_id != p.id by {
                    assert(b.contains(b[i]));
                    let k = choose|k: int| 0 <= k < front.len() && b[i] == entry_of(front[k]);
                    assert(players[k].id != players[players.len() - 1].id);
                }
            }
            lemma_insert_desc_sorted(b, entry_of(p));
            lemma_insert_desc_nodup(b, entry_of(p));
            lemma_insert_desc_contains(b, entry_of(p));
            assert forall|j: int, e: HireEntry|
                0 <= j < ids.len() && #[trigger] bb[j].contains(e) implies exists|k: int|
                0 <= k < players.len() && e == entry_of(players[k]) by {
                if j == idx && e == entry_of(p) {
                    assert(e == entry_of(players[players.len() - 1]));
                } else {
                    assert(prev[j].contains(e));
                    let k = choose|k: int| 0 <= k < front.len() && e == entry_of(front[k]);
                    assert(e == entry_of(players[k]));
                }
            }
        } else {
            assert forall|j: int, e: HireEntry|
                0 <= j < ids.len() && #[trigger] bb[j].contains(e) implies exists|k: int|
                0 <= k < players.len() && e == entry_of(players[k]) by {
                let k = choose|k: int| 0 <= k < front.len() && e == entry_of(front[k]);
                assert(e == entry_of(players[k]));
            }
        }
    }
}

/// The buckets as plain sequences.
pub open spec fn buckets_view(bs: Seq<Vec<HireEntry>>) -> Seq<Seq<HireEntry>> {
    bs.map_values(|b: Vec<HireEntry>| b@)
}

/// Builds the whole pool from a snapshot: the sorted list of populated
/// planets, and one rating-ordered bucket of unaffiliated players per
/// planet.
pub fn build_pool(w: &WorldSnapshot) -> (r: (Vec<u64>, Vec<Vec<HireEntry>>))
    requires
        w.wf(),
    ensures
        r.0@ == build_ids(w.planets@),
        r.1@.len() == r.0@.len(),
        buckets_view(r.1@) == build_buckets(build_ids(w.planets@), w.players@),
{
    let ghost planets = w.planets@;
    let ghost players = w.players@;
    let mut ids: Vec<u64> = Vec::new();
    let mut k: usize = 0;
    proof {
        assert(planets.subrange(0, 0) =~= Seq::<crate::world::PlanetSnapshot>::empty());
    }
    while k < w.planets.len()
        invariant
            k <= planets.len(),
            w.planets@ == planets,
            w.players@ == players,
            w.wf(),
            ids@ == build_ids(planets.subrange(0, k as int)),
        decreases planets.len() - k,
    {
        proof {
            let pre = planets.subrange(0, k as int);
            let cur = planets.subrange(0, k as int + 1);
            assert(cur.drop_last() =~= pre);
            assert(cur.last() == planets[k as int]);
        }
        if w.planets[k].population > 0 {
            let id = w.planets[k].id;
            insert_id_sorted(&mut ids, id);
        }
        k = k + 1;
    }
    proof {
        assert(planets.subrange(0, planets.len() as int) =~= planets);
    }
    let ghost all_ids = build_ids(planets);
    proof {
        lemma_build_ids_props(planets);
    }
    let mut buckets: Vec<Vec<HireEntry>> = Vec::new();
    while buckets.len() < ids.len()
        invariant
            ids@ == all_ids,
            buckets@.len() <= all_ids.len(),
            buckets_view(buckets@) == empty_buckets(buckets@.len() as nat),
        decreases ids.len() - buckets.len(),
    {
        let ghost before = buckets@;
        let fresh: Vec<HireEntry> = Vec::new();
        buckets.push(fresh);
        proof {
            assert(buckets@ == before.push(fresh));
            assert(fresh@ =~= Seq::<HireEntry>::empty());
            assert forall|i: int| 0 <= i < buckets@.len() implies buckets_view(buckets@)[i]
                =~= empty_buckets(buckets@.len() as nat)[i] by {
                if i < before.len() {
                    assert(buckets_view(before)[i] == empty_buckets(before.len() as nat)[i]);
                    assert(buckets_view(buckets@)[i] == buckets@[i]@);
                    assert(buckets@[i] == before[i]);
                } else {
                    assert(buckets@[i] == fresh);
                }
            }
            assert(buckets_view(buckets@) =~~= empty_buckets(buckets@.len() as nat));
        }
    }
    proof {
        assert(buckets_view(buckets@) =~~= build_buckets(all_ids, players.subrange(0, 0)));
    }
    let mut k: usize = 0;
    while k < w.players.len()
        invariant
            k <= players.len(),
            w.planets@ == planets,
            w.players@ == players,
            w.wf(),
            ids@ == all_ids,
            all_ids == build_ids(planets),
            all_ids.no_duplicates(),
            buckets@.len() == all_ids.len(),
            buckets_view(buckets@) == build_buckets(all_ids, players.subrange(0, k as int)),
        decreases players.len() - k,
    {
        let ghost pre = players.subrange(0, k as int);
        let ghost cur = players.subrange(0, k as int + 1);
        proof {
            assert(cur.drop_last() =~= pre);
            assert(cur.last() == players[k as int]);
        }
        let p = &w.players[k];
        if p.team.is_none() {
            let home = p.home_planet_id;
            let mut j: usize = 0;
            let mut found: bool = false;
            while j < ids.len() && !found
                invariant
                    j <= ids@.len(),
                    ids@ == all_ids,
                    found ==> j < ids@.len() && all_ids[j as int] == home,
                    !found ==> forall|m: int| 0 <= m < j ==> all_ids[m] != home,
                decreases ids.len() - j + (if found { 0int } else { 1int }),
            {
                if ids[j] == home {
                    found = true;
                } else {
                    j = j + 1;
                }
            }
            if found {
                proof {
                    assert(all_ids.contains(home));
                    let i0 = all_ids.index_of(home);
                    assert(all_ids[i0] == home);
                    if i0 != j as int {
                        assert(false);
                    }
                }
                let entry = HireEntry { player_id: p.id, cost: p.hire_cost, rating: p.rating };
                let mut b = buckets.remove(j);
                proof {
                    assert(b@ == build_buckets(all_ids, pre)[j as int]);
                }
                insert_entry_sorted(&mut b, entry);
                buckets.insert(j, b);
                proof {
                    assert(entry == entry_of(players[k as int]));
                    assert(buckets_view(buckets@) =~~= build_buckets(all_ids, pre).update(
                        j as int,
                        insert_desc(build_buckets(all_ids, pre)[j as int], entry_of(
                            players[k as int],
                        )),
                    ));
                    assert(buckets_view(buckets@) == build_buckets(all_ids, cur));
                }
            } else {
                proof {
                    assert(!all_ids.contains(home)) by {
                        if all_ids.contains(home) {
                            let m = choose|m: int| 0 <= m < all_ids.len() && all_ids[m] == home;
                        }
                    }
                    assert(buckets_view(buckets@) == build_buckets(all_ids, cur));
                }
            }
        } else {
            proof {
                assert(!(players[k as int].team is None));
                assert(buckets_view(buckets@) == build_buckets(all_ids, cur));
            }
        }
        k = k + 1;
    }
    proof {
        assert(players.subrange(0, players.len() as int) =~= players);
    }
    (ids, buckets)
}

} // verus!
