//! The retention and ordering rules that decide which quakes a batch keeps
//! and in which order they are shown.
//!
//! A quake enters these rules through its `RetentionKey`: its quality, its
//! age in whole seconds at one reading of the clock, and whether its
//! locally estimated intensity falls under the retention floor. The rules
//! answer with the positions of the kept quakes in display order.

use vstd::prelude::*;

use super::types::{DayBand, QuakeQuality};

verus! {

/// Hard outer edge of the retention window: 64 days, in seconds.
pub const MAX_RETAINED_AGE_SECONDS: i64 = 64 * 86400;

/// A quake's undecayed local MMI must be at or above this to be retained.
pub const MIN_RETAINED_LOCAL_MMI: i32 = 3;

/// What the retention rules read of one quake.
#[derive(Debug, Clone, Copy)]
pub struct RetentionKey {
    pub quality: QuakeQuality,
    /// Age at the batch's clock reading, in whole seconds.
    pub age_seconds: i64,
    /// Whether the local MMI estimated at the user's location is below
    /// `MIN_RETAINED_LOCAL_MMI`.
    pub below_local_mmi_floor: bool,
}

/// A quake is kept when it is not deleted, at most 64 days old, and its
/// local MMI is not under the floor. There is no count floor or ceiling.
pub open spec fn is_retained(k: RetentionKey) -> bool {
    &&& k.quality != QuakeQuality::Deleted
    &&& k.age_seconds <= MAX_RETAINED_AGE_SECONDS
    &&& !k.below_local_mmi_floor
}

/// How many of `keys` the rules keep.
pub open spec fn retained_count(keys: Seq<RetentionKey>) -> nat
    decreases keys.len(),
{
    if keys.len() == 0 {
        0
    } else {
        retained_count(keys.drop_last()) + if is_retained(keys.last()) { 1nat } else { 0nat }
    }
}

/// Rank of the day band of a key.
pub open spec fn band_rank(k: RetentionKey) -> int {
    DayBand::spec_from_age_seconds(k.age_seconds as int).spec_rank()
}

/// Display order between the quakes at positions `i` and `j`: day band
/// ascending (most recent band first), then oldest first within a band,
/// then the order they came in.
pub open spec fn shown_before(keys: Seq<RetentionKey>, i: int, j: int) -> bool {
    let a = keys[i];
    let b = keys[j];
    ||| band_rank(a) < band_rank(b)
    ||| band_rank(a) == band_rank(b) && a.age_seconds > b.age_seconds
    ||| band_rank(a) == band_rank(b) && a.age_seconds == b.age_seconds && i < j
}

/// `order` lists positions of `keys` in strictly increasing display order.
pub open spec fn in_display_order(keys: Seq<RetentionKey>, order: Seq<usize>) -> bool {
    &&& forall|t: int| 0 <= t < order.len() ==> (#[trigger] order[t] as int) < keys.len()
    &&& forall|s: int, t: int|
        0 <= s < t < order.len() ==> shown_before(keys, #[trigger] order[s] as int, #[trigger] order[t] as int)
}

/// `order` is the outcome of the retention rules on `keys`: exactly the kept
/// positions, each once, in display order.
pub open spec fn is_retention_order(keys: Seq<RetentionKey>, order: Seq<usize>) -> bool {
    &&& in_display_order(keys, order)
    &&& forall|i: int| 0 <= i < keys.len() ==> (order.contains(i as usize) <==> is_retained(#[trigger] keys[i]))
}

proof fn lemma_shown_before_transitive(keys: Seq<RetentionKey>, a: int, b: int, c: int)
    requires
        shown_before(keys, a, b),
        shown_before(keys, b, c),
    ensures
        shown_before(keys, a, c),
{
}

proof fn lemma_shown_before_asymmetric(keys: Seq<RetentionKey>, a: int, b: int)
    requires
        shown_before(keys, a, b),
    ensures
        !shown_before(keys, b, a),
        a != b,
{
}

proof fn lemma_shown_before_total(keys: Seq<RetentionKey>, a: int, b: int)
    requires
        a != b,
    ensures
        shown_before(keys, a, b) || shown_before(keys, b, a),
{
}

fn keeps(k: &RetentionKey) -> (r: bool)
    ensures
        r == is_retained(*k),
{
    k.quality != QuakeQuality::Deleted && k.age_seconds <= MAX_RETAINED_AGE_SECONDS
        && !k.below_local_mmi_floor
}

fn comes_before(keys: &Vec<RetentionKey>, i: usize, j: usize) -> (r: bool)
    requires
        i < keys.len(),
        j < keys.len(),
    ensures
        r == shown_before(keys@, i as int, j as int),
{
    let a = keys[i];
    let b = keys[j];
    let ra = DayBand::from_age_seconds(a.age_seconds).rank();
    let rb = DayBand::from_age_seconds(b.age_seconds).rank();
    ra < rb || (ra == rb && a.age_seconds > b.age_seconds) || (ra == rb && a.age_seconds
        == b.age_seconds && i < j)
}

/// The positions of the quakes a batch keeps, in display order: quakes that
/// are deleted, older than 64 days, or under the local MMI floor are
/// dropped; the rest are ordered by day band ascending, then quake time
/// ascending (oldest first) within a band, and otherwise keep their order.
pub fn retention_order(keys: &Vec<RetentionKey>) -> (order: Vec<usize>)
    ensures
        is_retention_order(keys@, order@),
        order@.len() == retained_count(keys@),
        forall|i: int|
            0 <= i < keys@.len() ==> (order@.contains(i as usize) <==> ((#[trigger] keys@[i]).quality
                != QuakeQuality::Deleted && keys@[i].age_seconds <= 64 * 86400
                && !keys@[i].below_local_mmi_floor)),
{
    let mut order: Vec<usize> = Vec::new();
    let mut i: usize = 0;
    while i < keys.len()
        invariant
            i <= keys.len(),
            forall|t: int| 0 <= t < order.len() ==> (#[trigger] order@[t] as int) < i,
            in_display_order(keys@, order@),
            forall|j: int| 0 <= j < i ==> (order@.contains(j as usize) <==> is_retained(#[trigger] keys@[j])),
            order@.len() == retained_count(keys@.take(i as int)),
        decreases keys.len() - i,
    {
        proof {
            assert(keys@.take(i + 1).drop_last() =~= keys@.take(i as int));
        }
        if keeps(&keys[i]) {
            let mut p: usize = 0;
            while p < order.len() && comes_before(keys, order[p], i)
                invariant
                    i < keys.len(),
                    p <= order.len(),
                    forall|t: int| 0 <= t < order.len() ==> (#[trigger] order@[t] as int) < i,
                    forall|t: int| 0 <= t < p ==> shown_before(keys@, #[trigger] order@[t] as int, i as int),
                decreases order.len() - p,
            {
                p = p + 1;
            }
            let ghost old_order = order@;
            proof {
                if p < old_order.len() {
                    lemma_shown_before_total(keys@, old_order[p as int] as int, i as int);
                }
            }
            order.insert(p, i);
            proof {
                let new_order = order@;
                assert(new_order == old_order.insert(p as int, i));
                assert forall|t: int| 0 <= t < new_order.len() implies (#[trigger] new_order[t] as int) < i + 1 by {
                    if t < p {
                        assert(new_order[t] == old_order[t]);
                    } else if t > p {
                        assert(new_order[t] == old_order[t - 1]);
                    }
                }
                assert forall|s: int, t: int| 0 <= s < t < new_order.len() implies shown_before(
                    keys@,
                    #[trigger] new_order[s] as int,
                    #[trigger] new_order[t] as int,
                ) by {
                    if t < p {
                        assert(new_order[s] == old_order[s] && new_order[t] == old_order[t]);
                    } else if t == p {
                        assert(new_order[s] == old_order[s]);
                    } else if s > p {
                        assert(new_order[s] == old_order[s - 1] && new_order[t] == old_order[t - 1]);
                    } else if s == p {
                        assert(new_order[t] == old_order[t - 1]);
                        if t - 1 > p {
                            assert(shown_before(keys@, old_order[p as int] as int, old_order[t - 1] as int));
                            lemma_shown_before_transitive(keys@, i as int, old_order[p as int] as int, old_order[t - 1] as int);
                        }
                    } else {
                        assert(new_order[s] == old_order[s] && new_order[t] == old_order[t - 1]);
                        if t - 1 > p {
                            assert(shown_before(keys@, old_order[p as int] as int, old_order[t - 1] as int));
                            lemma_shown_before_transitive(keys@, i as int, old_order[p as int] as int, old_order[t - 1] as int);
                        }
                        lemma_shown_before_transitive(keys@, old_order[s] as int, i as int, old_order[t - 1] as int);
                    }
                }
                assert forall|j: int| 0 <= j < i + 1 implies (new_order.contains(j as usize) <==> is_retained(#[trigger] keys@[j])) by {
                    if j == i {
                        assert(new_order[p as int] == i);
                    } else {
                        if old_order.contains(j as usize) {
                            let t = choose|t: int| 0 <= t < old_order.len() && old_order[t] == j as usize;
                            if t < p {
                                assert(new_order[t] == old_order[t]);
                            } else {
                                assert(new_order[t + 1] == old_order[t]);
                            }
                        }
                        if new_order.contains(j as usize) {
                            let t = choose|t: int| 0 <= t < new_order.len() && new_order[t] == j as usize;
                            if t < p {
                                assert(old_order[t] == new_order[t]);
                            } else if t > p {
                                assert(old_order[t - 1] == new_order[t]);
                            }
                        }
                    }
                }
            }
        }
        i = i + 1;
    }
    proof {
        assert(keys@.take(keys.len() as int) =~= keys@);
    }
    order
}

/// What the retention rules drop and keep, field by field: a quake under
/// the local MMI floor is dropped whatever its age or quality; a deleted
/// quake is dropped whatever its intensity; a quake more than 64 days
/// (5,529,600 seconds) old is dropped; every other quake is kept.
pub proof fn law_retention_membership(keys: Seq<RetentionKey>, order: Seq<usize>, i: int)
    requires
        is_retention_order(keys, order),
        0 <= i < keys.len(),
    ensures
        keys[i].below_local_mmi_floor ==> !order.contains(i as usize),
        keys[i].quality == QuakeQuality::Deleted ==> !order.contains(i as usize),
        keys[i].age_seconds > 5_529_600 ==> !order.contains(i as usize),
        keys[i].quality != QuakeQuality::Deleted && keys[i].age_seconds <= 5_529_600
            && !keys[i].below_local_mmi_floor ==> order.contains(i as usize),
{
    assert(order.contains(i as usize) <==> is_retained(keys[i]));
}

/// Display order, field by field: of two kept quakes, one younger than a
/// day comes before one a day or more old; and two kept quakes whose ages
/// lie in the same day band come oldest first.
pub proof fn law_retention_recent_band_first(keys: Seq<RetentionKey>, order: Seq<usize>, s: int, t: int)
    requires
        is_retention_order(keys, order),
        0 <= s < order.len(),
        0 <= t < order.len(),
        keys[order[s] as int].age_seconds < 86400,
        keys[order[t] as int].age_seconds >= 86400,
    ensures
        s < t,
{
    if t < s {
        assert(shown_before(keys, order[t] as int, order[s] as int));
    }
    if s == t {
        assert(false);
    }
}

/// The kept quakes come grouped by day band, most recent band first: along
/// the retention order the band never goes back to a more recent one, so
/// each band's quakes are contiguous and each band header is shown once.
pub proof fn law_retained_bands_ascending(keys: Seq<RetentionKey>, order: Seq<usize>, s: int, t: int)
    requires
        is_retention_order(keys, order),
        0 <= s <= t < order.len(),
    ensures
        band_rank(keys[order[s] as int]) <= band_rank(keys[order[t] as int]),
        band_rank(keys[order[s] as int]) == band_rank(keys[order[t] as int]) ==> keys[order[s] as int].age_seconds >= keys[order[t] as int].age_seconds,
{
    if s < t {
        assert(shown_before(keys, order[s] as int, order[t] as int));
    }
}

/// The keys of the quakes at `order`, in that order.
pub open spec fn select_keys(keys: Seq<RetentionKey>, order: Seq<usize>) -> Seq<RetentionKey> {
    Seq::new(order.len(), |t: int| keys[order[t] as int])
}

/// The positions `0..n` in order.
pub open spec fn positions(n: nat) -> Seq<usize> {
    Seq::new(n, |t: int| t as usize)
}

proof fn lemma_display_order_unique(keys: Seq<RetentionKey>, a: Seq<usize>, b: Seq<usize>)
    requires
        in_display_order(keys, a),
        in_display_order(keys, b),
        forall|x: usize| a.contains(x) <==> b.contains(x),
    ensures
        a == b,
    decreases a.len() + b.len(),
{
    if a.len() == 0 {
        if b.len() > 0 {
            assert(b.contains(b[0]));
        }
        assert(a =~= b);
    } else {
        assert(a.contains(a[0]));
        assert(b.contains(a[0]));
        assert(b.contains(b[0]));
        assert(a.contains(b[0]));
        let ka = choose|k: int| 0 <= k < a.len() && a[k] == b[0];
        let kb = choose|k: int| 0 <= k < b.len() && b[k] == a[0];
        if a[0] != b[0] {
            assert(ka > 0);
            assert(kb > 0);
            assert(shown_before(keys, a[0] as int, a[ka] as int));
            assert(shown_before(keys, b[0] as int, b[kb] as int));
            lemma_shown_before_asymmetric(keys, a[0] as int, b[0] as int);
            assert(false);
        }
        let ra = a.drop_first();
        let rb = b.drop_first();
        assert forall|x: usize| ra.contains(x) implies rb.contains(x) by {
            let k = choose|k: int| 0 <= k < ra.len() && ra[k] == x;
            assert(a[k + 1] == x);
            assert(shown_before(keys, a[0] as int, a[k + 1] as int));
            lemma_shown_before_asymmetric(keys, a[0] as int, a[k + 1] as int);
            assert(b.contains(x));
            let m = choose|m: int| 0 <= m < b.len() && b[m] == x;
            assert(m != 0);
            assert(rb[m - 1] == x);
        }
        assert forall|x: usize| rb.contains(x) implies ra.contains(x) by {
            let k = choose|k: int| 0 <= k < rb.len() && rb[k] == x;
            assert(b[k + 1] == x);
            assert(shown_before(keys, b[0] as int, b[k + 1] as int));
            lemma_shown_before_asymmetric(keys, b[0] as int, b[k + 1] as int);
            assert(a.contains(x));
            let m = choose|m: int| 0 <= m < a.len() && a[m] == x;
            assert(m != 0);
            assert(ra[m - 1] == x);
        }
        assert(in_display_order(keys, ra)) by {
            assert forall|s: int, t: int| 0 <= s < t < ra.len() implies shown_before(
                keys,
                #[trigger] ra[s] as int,
                #[trigger] ra[t] as int,
            ) by {
                assert(ra[s] == a[s + 1] && ra[t] == a[t + 1]);
            }
            assert forall|t: int| 0 <= t < ra.len() implies (#[trigger] ra[t] as int) < keys.len() by {
                assert(ra[t] == a[t + 1]);
            }
        }
        assert(in_display_order(keys, rb)) by {
            assert forall|s: int, t: int| 0 <= s < t < rb.len() implies shown_before(
                keys,
                #[trigger] rb[s] as int,
                #[trigger] rb[t] as int,
            ) by {
                assert(rb[s] == b[s + 1] && rb[t] == b[t + 1]);
            }
            assert forall|t: int| 0 <= t < rb.len() implies (#[trigger] rb[t] as int) < keys.len() by {
                assert(rb[t] == b[t + 1]);
            }
        }
        lemma_display_order_unique(keys, ra, rb);
        assert(a =~= b) by {
            assert forall|t: int| 0 <= t < a.len() implies a[t] == b[t] by {
                if t > 0 {
                    assert(a[t] == ra[t - 1]);
                    assert(b[t] == rb[t - 1]);
                }
            }
        }
    }
}

/// The retention rules have exactly one outcome for a batch: any two orders
/// that meet them are the same.
pub proof fn law_retention_order_unique(keys: Seq<RetentionKey>, a: Seq<usize>, b: Seq<usize>)
    requires
        is_retention_order(keys, a),
        is_retention_order(keys, b),
    ensures
        a == b,
{
    assert forall|x: usize| a.contains(x) implies b.contains(x) by {
        let k = choose|k: int| 0 <= k < a.len() && a[k] == x;
        assert((x as int) < keys.len());
        assert(is_retained(keys[x as int]));
    }
    assert forall|x: usize| b.contains(x) implies a.contains(x) by {
        let k = choose|k: int| 0 <= k < b.len() && b[k] == x;
        assert((x as int) < keys.len());
        assert(is_retained(keys[x as int]));
    }
    lemma_display_order_unique(keys, a, b);
}

/// Scoring and filtering is idempotent: applying the retention rules to the
/// quakes they kept, in the order they gave (with the same clock reading),
/// keeps every one of them in that same order.
pub proof fn law_retention_idempotent(keys: Seq<RetentionKey>, order: Seq<usize>, again: Seq<usize>)
    requires
        order.len() <= usize::MAX,
        is_retention_order(keys, order),
        is_retention_order(select_keys(keys, order), again),
    ensures
        again == positions(order.len()),
{
    let kept = select_keys(keys, order);
    let ids = positions(order.len());
    assert(is_retention_order(kept, ids)) by {
        assert forall|s: int, t: int| 0 <= s < t < ids.len() implies shown_before(
            kept,
            #[trigger] ids[s] as int,
            #[trigger] ids[t] as int,
        ) by {
            assert(ids[s] as int == s && ids[t] as int == t);
            assert(shown_before(keys, order[s] as int, order[t] as int));
            assert(kept[s] == keys[order[s] as int]);
            assert(kept[t] == keys[order[t] as int]);
        }
        assert forall|i: int| 0 <= i < kept.len() implies (ids.contains(i as usize) <==> is_retained(
            #[trigger] kept[i],
        )) by {
            assert(ids[i] == i as usize);
            assert(order.contains(order[i]));
            assert(is_retained(keys[order[i] as int]));
        }
    }
    law_retention_order_unique(kept, again, ids);
}

} // verus!
