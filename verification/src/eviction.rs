//! The eviction policy of the cache directory: keep the most recently
//! modified files, up to a fixed count, and delete the rest, oldest first.

use vstd::prelude::*;

verus! {

/// One regular file of the cache directory, as a listing shows it.
pub struct CacheFile {
    /// The file's name inside the directory.
    pub name: String,
    /// When the file was last modified, in nanoseconds since the Unix epoch.
    pub modified: i128,
}

/// Whether the file at position `a` of the listing goes before the file at
/// position `b` when the files are put in order of age: the earlier
/// modification time first, and of two files with the same time the one that
/// the listing shows first.
pub open spec fn goes_before(files: Seq<CacheFile>, a: int, b: int) -> bool {
    files[a].modified < files[b].modified || (files[a].modified == files[b].modified && a < b)
}

/// Whether `order` lists the positions `0 .. count` of a listing, each once.
pub open spec fn lists_each_once(order: Seq<usize>, count: nat) -> bool {
    &&& order.len() == count
    &&& forall|k: int| 0 <= k < order.len() ==> (#[trigger] order[k]) < count
    &&& forall|j: int, k: int| 0 <= j < k < order.len() ==> order[j] != order[k]
    &&& forall|v: usize| v < count ==> #[trigger] order.contains(v)
}

/// Whether `order` is the listing's positions from the oldest file to the
/// newest. For each listing there is exactly one such order.
pub open spec fn is_age_order(files: Seq<CacheFile>, order: Seq<usize>) -> bool {
    &&& lists_each_once(order, files.len())
    &&& forall|j: int, k: int|
        0 <= j < k < order.len() ==> goes_before(files, #[trigger] order[j] as int, #[trigger] order[k] as int)
}

/// The order of age is unique: two orders of the same listing are the same.
pub proof fn lemma_age_order_unique(files: Seq<CacheFile>, a: Seq<usize>, b: Seq<usize>)
    requires
        is_age_order(files, a),
        is_age_order(files, b),
    ensures
        a == b,
{
    assert forall|k: int| 0 <= k < a.len() implies a[k] == b[k] by {
        lemma_age_order_agrees(files, a, b, k);
    }
    assert(a =~= b);
}

/// Two orders of age of the same listing agree at every place.
pub proof fn lemma_age_order_agrees(files: Seq<CacheFile>, a: Seq<usize>, b: Seq<usize>, k: int)
    requires
        is_age_order(files, a),
        is_age_order(files, b),
        0 <= k < a.len(),
    ensures
        a[k] == b[k],
    decreases k,
{
    let x = a[k];
    let y = b[k];
    if x != y {
        assert(b.contains(x));
        let p = choose|p: int| 0 <= p < b.len() && b[p] == x;
        assert(a.contains(y));
        let q = choose|q: int| 0 <= q < a.len() && a[q] == y;
        if p < k {
            lemma_age_order_agrees(files, a, b, p);
            assert(a[p] == a[k]);
        } else if q < k {
            lemma_age_order_agrees(files, a, b, q);
            assert(b[q] == b[k]);
        } else {
            assert(goes_before(files, b[k] as int, b[p] as int));
            assert(goes_before(files, a[k] as int, a[q] as int));
        }
    }
}

/// How many files have to go so that at most `max_count` of `count` stay.
pub open spec fn surplus(count: nat, max_count: nat) -> nat {
    if count > max_count {
        (count - max_count) as nat
    } else {
        0
    }
}

/// What the eviction policy decides for one listing.
pub struct Eviction {
    /// Positions in the listing of the files to delete, oldest first.
    pub removed: Vec<usize>,
    /// Positions in the listing of the files that stay, oldest first.
    pub kept: Vec<usize>,
}

/// The listing's positions from the oldest file to the newest.
pub fn age_order(files: &Vec<CacheFile>) -> (order: Vec<usize>)
    ensures
        is_age_order(files@, order@),
{
    let mut order: Vec<usize> = Vec::new();
    let mut i: usize = 0;
    while i < files.len()
        invariant
            i <= files@.len(),
            lists_each_once(order@, i as nat),
            forall|j: int, k: int|
                0 <= j < k < order@.len() ==> goes_before(
                    files@,
                    #[trigger] order@[j] as int,
                    #[trigger] order@[k] as int,
                ),
        decreases files@.len() - i,
    {
        let stamp: i128 = files[i].modified;
        let mut p: usize = order.len();
        while p > 0 && files[order[p - 1]].modified > stamp
            invariant
                p <= order@.len(),
                i < files@.len(),
                stamp == files@[i as int].modified,
                lists_each_once(order@, i as nat),
                forall|k: int|
                    p <= k < order@.len() ==> files@[(#[trigger] order@[k]) as int].modified
                        > stamp,
            decreases p,
        {
            p -= 1;
        }
        let ghost before = order@;
        assert forall|k: int| 0 <= k < p implies files@[(#[trigger] before[k]) as int].modified
            <= stamp by {
            if k < p - 1 {
                assert(goes_before(files@, before[k] as int, before[p - 1] as int));
            }
        }
        order.insert(p, i);
        assert forall|j: int, k: int| 0 <= j < k < order@.len() implies goes_before(
            files@,
            #[trigger] order@[j] as int,
            #[trigger] order@[k] as int,
        ) by {
            if k < p {
                assert(order@[j] == before[j] && order@[k] == before[k]);
            } else if k == p {
                assert(order@[j] == before[j]);
            } else if j < p {
                assert(order@[j] == before[j] && order@[k] == before[k - 1]);
            } else if j == p {
                assert(order@[k] == before[k - 1]);
            } else {
                assert(order@[j] == before[j - 1] && order@[k] == before[k - 1]);
            }
        }
        assert forall|j: int, k: int| 0 <= j < k < order@.len() implies order@[j] != order@[k] by {
            assert(goes_before(files@, order@[j] as int, order@[k] as int));
        }
        assert forall|v: usize| v < i + 1 implies #[trigger] order@.contains(v) by {
            if v == i {
                assert(order@[p as int] == v);
            } else {
                assert(before.contains(v));
                let k = choose|k: int| 0 <= k < before.len() && before[k] == v;
                if k < p {
                    assert(order@[k] == v);
                } else {
                    assert(order@[k + 1] == v);
                }
            }
        }
        i += 1;
    }
    order
}

/// Decides which files of a listing to delete so that at most `max_count`
/// stay.
///
/// The files are taken in order of age. Where the listing has more than
/// `max_count` files, the oldest `len - max_count` are removed and exactly
/// `max_count` stay, none of them older than a removed one; otherwise nothing
/// is removed. An empty listing, as of a directory that does not exist yet,
/// gives an empty decision.
pub fn evict(files: &Vec<CacheFile>, max_count: usize) -> (out: Eviction)
    ensures
        is_age_order(files@, out.removed@ + out.kept@),
        out.removed@.len() == surplus(files@.len(), max_count as nat),
        files@.len() > max_count ==> out.kept@.len() == max_count,
        files@.len() <= max_count ==> out.kept@.len() == files@.len(),
        forall|r: int, k: int|
            0 <= r < out.removed@.len() && 0 <= k < out.kept@.len() ==> goes_before(
                files@,
                #[trigger] out.removed@[r] as int,
                #[trigger] out.kept@[k] as int,
            ),
{
    let order: Vec<usize> = age_order(files);
    let cut: usize = if files.len() > max_count {
        files.len() - max_count
    } else {
        0
    };
    let mut removed: Vec<usize> = Vec::new();
    let mut kept: Vec<usize> = Vec::new();
    let mut i: usize = 0;
    while i < order.len()
        invariant
            i <= order@.len(),
            cut <= order@.len(),
            i <= cut ==> removed@ == order@.take(i as int) && kept@.len() == 0,
            i > cut ==> removed@ == order@.take(cut as int) && kept@ == order@.subrange(
                cut as int,
                i as int,
            ),
        decreases order@.len() - i,
    {
        if i < cut {
            removed.push(order[i]);
            assert(removed@ =~= order@.take(i + 1));
        } else {
            kept.push(order[i]);
            assert(kept@ =~= order@.subrange(cut as int, i + 1));
        }
        i += 1;
    }
    assert(removed@ + kept@ =~= order@);
    assert forall|r: int, k: int|
        0 <= r < removed@.len() && 0 <= k < kept@.len() implies goes_before(
        files@,
        #[trigger] removed@[r] as int,
        #[trigger] kept@[k] as int,
    ) by {
        assert(removed@[r] == order@[r]);
        assert(kept@[k] == order@[cut + k]);
    }
    Eviction { removed, kept }
}

} // verus!
