use rustc_hash::{FxBuildHasher, FxHashSet};
use vstd::prelude::*;
use vstd::set_lib::{lemma_int_range, lemma_len_subset, lemma_set_difference_len, set_int_range};

verus! {

broadcast use vstd::seq_lib::group_to_multiset_ensures;

/// The hasher builder of `rustc_hash`, carried as it is.
#[verifier::external_type_specification]
#[verifier::external_body]
pub struct ExFxBuildHasher(FxBuildHasher);

/// The number of bins that a spectrum keeps when asked for the `n` largest.
pub open spec fn top_count(len: nat, n: nat) -> nat {
    if n < len {
        n
    } else {
        len
    }
}

/// `top` is a choice of `count` bins of `magnitudes` such that no bin left out
/// has a larger magnitude than a bin chosen: the `count` largest magnitudes,
/// with ties broken in any way.
pub open spec fn is_top_selection(magnitudes: Seq<u32>, top: Set<int>, count: nat) -> bool {
    &&& forall|i: int| #[trigger] top.contains(i) ==> 0 <= i < magnitudes.len()
    &&& top.finite()
    &&& top.len() == count
    &&& forall|i: int, j: int|
        #![trigger top.contains(i), top.contains(j)]
        top.contains(i) && 0 <= j < magnitudes.len() && !top.contains(j) ==> magnitudes[j]
            <= magnitudes[i]
}

/// The bins whose mark in `keep` differs from `complement`: the bins that a
/// keep-mask marks as kept without complement, and as removed with it.
pub open spec fn selected_bins(keep: Seq<bool>, complement: bool) -> Set<int> {
    Set::new(|i: int| 0 <= i < keep.len() && keep[i] != complement)
}

/// What `RetainAlgorithm::calculate` returns for the magnitudes `magnitudes`:
/// one mark per bin, and the bins marked `!complement` are the `n` largest.
pub open spec fn is_retain_mask(magnitudes: Seq<u32>, n: nat, complement: bool, keep: Seq<bool>) -> bool {
    &&& keep.len() == magnitudes.len()
    &&& is_top_selection(
        magnitudes,
        selected_bins(keep, complement),
        top_count(magnitudes.len(), n),
    )
}

/// The bins of a spectrum paired with their positions.
pub open spec fn indexed(magnitudes: Seq<u32>) -> Seq<(usize, u32)> {
    Seq::new(magnitudes.len(), |i: int| (i as usize, magnitudes[i]))
}

/// `<[T]>::select_nth_unstable_by_key`, keyed by the second field (the
/// magnitude). As std documents it, the call reorders the entries so that the
/// entry at `index` is at its sorted position: no entry before it has a larger
/// key and no entry after it a smaller one; the entries are only reordered.
/// It panics when `index` is not below the length.
#[verifier::external_body]
fn select_nth_by_magnitude(entries: &mut Vec<(usize, u32)>, index: usize)
    requires
        index < old(entries).len(),
    ensures
        final(entries)@.to_multiset() == old(entries)@.to_multiset(),
        forall|j: int|
            0 <= j < index ==> (#[trigger] final(entries)@[j]).1 <= final(entries)@[index as int].1,
        forall|j: int|
            index < j < final(entries)@.len() ==> final(entries)@[index as int].1 <= (
            #[trigger] final(entries)@[j]).1,
{
    entries.select_nth_unstable_by_key(index, |entry| entry.1);
}

/// `<FxBuildHasher as Default>::default`; nothing is stated of the builder.
#[verifier::external_body]
fn fx_build_hasher() -> FxBuildHasher {
    FxBuildHasher::default()
}

/// `HashSet::with_capacity_and_hasher`: the new set holds nothing.
#[verifier::external_body]
fn fx_set_with_capacity(capacity: usize, hasher: FxBuildHasher) -> (set: FxHashSet<usize>)
    ensures
        set@ == Set::<usize>::empty(),
{
    FxHashSet::with_capacity_and_hasher(capacity, hasher)
}

/// `HashSet::clear`: the set holds nothing afterwards.
#[verifier::external_body]
fn fx_set_clear(set: &mut FxHashSet<usize>)
    ensures
        final(set)@ == Set::<usize>::empty(),
{
    set.clear();
}

/// `HashSet::insert`: the set holds `value` besides what it held. The
/// builder hashes deterministically, so the set behaves as a set.
#[verifier::external_body]
fn fx_set_insert(set: &mut FxHashSet<usize>, value: usize)
    ensures
        final(set)@ == old(set)@.insert(value),
{
    set.insert(value);
}

/// `HashSet::contains`: whether the set holds `value`.
#[verifier::external_body]
fn fx_set_contains(set: &FxHashSet<usize>, value: usize) -> (found: bool)
    ensures
        found == set@.contains(value),
{
    set.contains(&value)
}

/// Some entry of `s` names the position `i`.
pub open spec fn lists_position(s: Seq<(usize, u32)>, i: int) -> bool {
    exists|j: int| 0 <= j < s.len() && (#[trigger] s[j]).0 as int == i
}

/// The bins of a spectrum, reordered by a selection, still name each
/// position once, and each with its own magnitude.
proof fn lemma_reordered_indexed(magnitudes: Seq<u32>, s: Seq<(usize, u32)>)
    requires
        s.to_multiset() == indexed(magnitudes).to_multiset(),
        magnitudes.len() <= usize::MAX,
    ensures
        s.len() == magnitudes.len(),
        forall|j: int|
            0 <= j < s.len() ==> (#[trigger] s[j]).0 < magnitudes.len() && s[j].1
                == magnitudes[s[j].0 as int],
        forall|i: int| 0 <= i < magnitudes.len() ==> #[trigger] lists_position(s, i),
        forall|j: int, k: int|
            0 <= j < s.len() && 0 <= k < s.len() && j != k ==> (#[trigger] s[j]).0 != (
            #[trigger] s[k]).0,
{
    let orig = indexed(magnitudes);
    assert(s.len() == orig.len()) by {
        vstd::seq_lib::to_multiset_len(s);
        vstd::seq_lib::to_multiset_len(orig);
    }
    assert forall|j: int| 0 <= j < s.len() implies (#[trigger] s[j]).0 < magnitudes.len()
        && s[j].1 == magnitudes[s[j].0 as int] by {
        vstd::seq_lib::to_multiset_contains(s, s[j]);
        vstd::seq_lib::to_multiset_contains(orig, s[j]);
        assert(s.contains(s[j]));
        let i = choose|i: int| 0 <= i < orig.len() && orig[i] == s[j];
        assert(orig[i] == s[j]);
    }
    assert forall|i: int| 0 <= i < magnitudes.len() implies #[trigger] lists_position(s, i) by {
        vstd::seq_lib::to_multiset_contains(s, orig[i]);
        vstd::seq_lib::to_multiset_contains(orig, orig[i]);
        assert(orig.contains(orig[i]));
        let j = choose|j: int| 0 <= j < s.len() && s[j] == orig[i];
        assert(s[j].0 == i);
    }
    assert(orig.no_duplicates()) by {
        assert forall|a: int, b: int|
            0 <= a < orig.len() && 0 <= b < orig.len() && a != b implies orig[a] != orig[b] by {
            assert(orig[a].0 == a as usize);
            assert(orig[b].0 == b as usize);
        }
    }
    orig.lemma_multiset_has_no_duplicates();
    s.lemma_multiset_has_no_duplicates_conv();
    assert forall|j: int, k: int|
        0 <= j < s.len() && 0 <= k < s.len() && j != k implies (#[trigger] s[j]).0 != (
        #[trigger] s[k]).0 by {
        if s[j].0 == s[k].0 {
            assert(s[j] == s[k]);
        }
    }
}

/// After a selection at `target`, the positions held at `target` and after
/// are a top selection of `len - target` bins.
proof fn lemma_selection_is_top(magnitudes: Seq<u32>, s: Seq<(usize, u32)>, target: int)
    requires
        s.to_multiset() == indexed(magnitudes).to_multiset(),
        magnitudes.len() <= usize::MAX,
        0 <= target < magnitudes.len(),
        forall|j: int| 0 <= j < target ==> (#[trigger] s[j]).1 <= s[target].1,
        forall|j: int| target < j < s.len() ==> s[target].1 <= (#[trigger] s[j]).1,
    ensures
        is_top_selection(
            magnitudes,
            Set::new(|x: int| exists|j: int| target <= j < s.len() && s[j].0 as int == x),
            (magnitudes.len() - target) as nat,
        ),
{
    lemma_reordered_indexed(magnitudes, s);
    let len = magnitudes.len() as int;
    let top = Set::new(|x: int| exists|j: int| target <= j < s.len() && s[j].0 as int == x);
    let tail = s.subrange(target, len).map_values(|e: (usize, u32)| e.0 as int);
    assert(tail.no_duplicates()) by {
        assert forall|a: int, b: int|
            0 <= a < tail.len() && 0 <= b < tail.len() && a != b implies tail[a] != tail[b] by {
            assert(tail[a] == s[target + a].0 as int);
            assert(tail[b] == s[target + b].0 as int);
            assert(s[target + a].0 != s[target + b].0);
        }
    }
    tail.unique_seq_to_set();
    assert(top =~= tail.to_set()) by {
        assert forall|x: int| top.contains(x) implies tail.to_set().contains(x) by {
            let j = choose|j: int| target <= j < s.len() && s[j].0 as int == x;
            assert(tail[j - target] == x);
        }
        assert forall|x: int| tail.to_set().contains(x) implies top.contains(x) by {
            assert(tail.contains(x));
            let a = choose|a: int| 0 <= a < tail.len() && tail[a] == x;
            assert(s[target + a].0 as int == x);
        }
    }
    assert forall|i: int| #[trigger] top.contains(i) implies 0 <= i < magnitudes.len() by {
        let j = choose|j: int| target <= j < s.len() && s[j].0 as int == i;
        assert(s[j].0 < magnitudes.len());
    }
    assert forall|i: int, j: int|
        top.contains(i) && 0 <= j < magnitudes.len() && !top.contains(j) implies magnitudes[j]
        <= magnitudes[i] by {
        let ji = choose|ji: int| target <= ji < s.len() && s[ji].0 as int == i;
        assert(magnitudes[i] == s[ji].1);
        assert(s[target].1 <= s[ji].1);
        assert(lists_position(s, j));
        let k = choose|k: int| 0 <= k < s.len() && (#[trigger] s[k]).0 as int == j;
        assert(magnitudes[j] == s[k].1);
        if k >= target {
            assert(top.contains(j));
        }
        assert(s[k].1 <= s[target].1);
    }
}

/// Sets `keep` to one mark for every bin, all of them `value`, reusing its
/// storage.
fn fill_mask(keep: &mut Vec<bool>, len: usize, value: bool)
    ensures
        final(keep)@.len() == len,
        forall|i: int| 0 <= i < len ==> final(keep)@[i] == value,
{
    keep.clear();
    let mut i: usize = 0;
    while i < len
        invariant
            i <= len,
            keep@.len() == i,
            forall|p: int| 0 <= p < i ==> keep@[p] == value,
        decreases len - i,
    {
        keep.push(value);
        i = i + 1;
    }
}

/// Selects, among the bins of one spectrum, those to keep.
///
/// The buffers are held between calls so that no memory is allocated for
/// them while audio is processed.
pub struct RetainAlgorithm {
    indexed_spectrum: Vec<(usize, u32)>,
    top_indices: FxHashSet<usize>,
}

impl RetainAlgorithm {
    /// The bins, paired with their positions, last put in the buffer for
    /// the selection.
    pub closed spec fn spec_indexed_spectrum(self) -> Seq<(usize, u32)> {
        self.indexed_spectrum@
    }

    /// The positions last chosen as the largest bins.
    pub closed spec fn spec_top_indices(self) -> Set<usize> {
        self.top_indices@
    }

    /// A selector with empty buffers, with room for the spectrum of the
    /// largest window (32768 samples, so 16385 bins).
    pub fn new() -> (algorithm: Self)
        ensures
            algorithm.spec_indexed_spectrum() == Seq::<(usize, u32)>::empty(),
            algorithm.spec_top_indices() == Set::<usize>::empty(),
    {
        let max_size: usize = (32768 / 2) + 1;
        RetainAlgorithm {
            indexed_spectrum: Vec::with_capacity(max_size),
            top_indices: fx_set_with_capacity(max_size, fx_build_hasher()),
        }
    }

    /// Marks which bins of a spectrum to keep, given the magnitude of each
    /// bin as a key that orders like the magnitude (see
    /// `magnitude::magnitude_key`). Without `complement`, the `n` bins with
    /// the largest magnitudes are kept and all others are zeroed; with
    /// `complement`, exactly those `n` bins are zeroed. Asking for at least as
    /// many bins as there are means all of them. The marks are written into
    /// `keep`, whose storage is reused, so that a caller who keeps the buffer
    /// allocates nothing per spectrum.
    pub fn calculate(
        &mut self,
        magnitudes: &Vec<u32>,
        n: usize,
        complement: bool,
        keep: &mut Vec<bool>,
    )
        ensures
            is_retain_mask(magnitudes@, n as nat, complement, final(keep)@),
            0 < n < magnitudes@.len() ==> forall|i: usize|
                #[trigger] final(self).spec_top_indices().contains(i) <==> (i < magnitudes@.len()
                    && final(keep)@[i as int] != complement),
    {
        let len = magnitudes.len();
        if n >= len || n == 0 {
            // every bin is among the largest, or none is
            let all_top = n >= len;
            fill_mask(keep, len, all_top != complement);
            proof {
                let sel = selected_bins(keep@, complement);
                if all_top {
                    assert(sel =~= set_int_range(0, len as int));
                    lemma_int_range(0, len as int);
                } else {
                    assert(sel =~= Set::<int>::empty());
                }
            }
            return;
        }
        self.indexed_spectrum.clear();
        let mut i: usize = 0;
        while i < len
            invariant
                i <= len,
                len == magnitudes@.len(),
                self.indexed_spectrum@ == indexed(magnitudes@).subrange(0, i as int),
            decreases len - i,
        {
            self.indexed_spectrum.push((i, magnitudes[i]));
            i = i + 1;
            assert(self.indexed_spectrum@ =~= indexed(magnitudes@).subrange(0, i as int));
        }
        assert(self.indexed_spectrum@ =~= indexed(magnitudes@));

        let target = len - n;
        select_nth_by_magnitude(&mut self.indexed_spectrum, target);
        let ghost s = self.indexed_spectrum@;
        proof {
            lemma_reordered_indexed(magnitudes@, s);
            lemma_selection_is_top(magnitudes@, s, target as int);
        }

        fx_set_clear(&mut self.top_indices);
        let mut j: usize = target;
        while j < len
            invariant
                target <= j <= len,
                len == magnitudes@.len(),
                self.indexed_spectrum@ == s,
                s.len() == len,
                self.top_indices@ == Set::new(
                    |x: usize| exists|k: int| target <= k < j && s[k].0 == x,
                ),
            decreases len - j,
        {
            let index = self.indexed_spectrum[j].0;
            fx_set_insert(&mut self.top_indices, index);
            j = j + 1;
            assert(self.top_indices@ =~= Set::new(
                |x: usize| exists|k: int| target <= k < j && s[k].0 == x,
            )) by {
                assert(s[j - 1].0 == index);
            }
        }

        keep.clear();
        let mut p: usize = 0;
        while p < len
            invariant
                p <= len,
                len == magnitudes@.len(),
                keep@.len() == p,
                forall|q: int|
                    0 <= q < p ==> keep@[q] == (self.top_indices@.contains(q as usize)
                        != complement),
            decreases len - p,
        {
            let in_top = fx_set_contains(&self.top_indices, p);
            keep.push(in_top != complement);
            p = p + 1;
        }
        proof {
            let top = Set::new(|x: int| exists|k: int| target <= k < s.len() && s[k].0 as int == x);
            assert(selected_bins(keep@, complement) =~= top) by {
                lemma_reordered_indexed(magnitudes@, s);
                assert forall|x: int| top.contains(x) implies selected_bins(
                    keep@,
                    complement,
                ).contains(x) by {
                    let k = choose|k: int| target <= k < s.len() && s[k].0 as int == x;
                    assert(s[k].0 < len);
                    assert(self.top_indices@.contains(s[k].0));
                }
                assert forall|x: int| selected_bins(keep@, complement).contains(x) implies top.contains(
                    x,
                ) by {
                    assert(self.top_indices@.contains(x as usize));
                    let k = choose|k: int| target <= k < len && s[k].0 == x as usize;
                    assert(s[k].0 as int == x);
                }
            }
            assert forall|i: usize| #[trigger] self.top_indices@.contains(i) implies i < len by {
                let k = choose|k: int| target <= k < len && s[k].0 == i;
                assert(s[k].0 < len);
            }
        }
    }
}

impl RetainAlgorithm {
    /// Keeps the `n` bins of `spectrum` with the largest magnitudes (or,
    /// with `complement`, all the others) and sets the rest to `zero`.
    /// `magnitudes` holds the key of each bin's magnitude (see
    /// `magnitude::magnitude_key`); the marks chosen are left in `keep`,
    /// whose storage is reused, as are the selector's buffers.
    pub fn retain_spectrum<T: Copy>(
        &mut self,
        magnitudes: &Vec<u32>,
        spectrum: &mut [T],
        keep: &mut Vec<bool>,
        n: usize,
        complement: bool,
        zero: T,
    )
        requires
            magnitudes@.len() == old(spectrum)@.len(),
        ensures
            is_retain_mask(magnitudes@, n as nat, complement, final(keep)@),
            final(spectrum)@.len() == old(spectrum)@.len(),
            forall|i: int|
                0 <= i < old(spectrum)@.len() ==> #[trigger] final(spectrum)@[i] == if final(keep)@[i] {
                    old(spectrum)@[i]
                } else {
                    zero
                },
    {
        self.calculate(magnitudes, n, complement, keep);
        retain_bins(spectrum, keep, zero);
    }
}

/// Marks which bins of a spectrum to keep (see `RetainAlgorithm::calculate`),
/// with buffers made for this call alone.
pub fn retain_top_n_magnitudes(magnitudes: &Vec<u32>, n: usize, complement: bool) -> (keep: Vec<
    bool,
>)
    ensures
        is_retain_mask(magnitudes@, n as nat, complement, keep@),
{
    let mut algorithm = RetainAlgorithm::new();
    let mut keep: Vec<bool> = Vec::new();
    algorithm.calculate(magnitudes, n, complement, &mut keep);
    keep
}

/// Zeroes the bins of `spectrum` that `keep` does not mark: each bin stays
/// as it was where its mark is set and becomes `zero` where it is not.
pub fn retain_bins<T: Copy>(spectrum: &mut [T], keep: &Vec<bool>, zero: T)
    requires
        old(spectrum)@.len() == keep@.len(),
    ensures
        final(spectrum)@.len() == old(spectrum)@.len(),
        forall|i: int|
            0 <= i < keep@.len() ==> #[trigger] final(spectrum)@[i] == if keep@[i] {
                old(spectrum)@[i]
            } else {
                zero
            },
{
    let len = spectrum.len();
    let mut i: usize = 0;
    while i < len
        invariant
            i <= len,
            len == keep@.len(),
            spectrum@.len() == len,
            forall|p: int|
                0 <= p < i ==> #[trigger] spectrum@[p] == if keep@[p] {
                    old(spectrum)@[p]
                } else {
                    zero
                },
            forall|p: int| i <= p < len ==> #[trigger] spectrum@[p] == old(spectrum)@[p],
        decreases len - i,
    {
        if !keep[i] {
            spectrum[i] = zero;
        }
        i = i + 1;
    }
}

/// With distinct magnitudes there is only one top selection of a given
/// size: no tie leaves a choice.
pub proof fn lemma_top_selection_unique(
    magnitudes: Seq<u32>,
    top1: Set<int>,
    top2: Set<int>,
    count: nat,
)
    requires
        magnitudes.no_duplicates(),
        is_top_selection(magnitudes, top1, count),
        is_top_selection(magnitudes, top2, count),
    ensures
        top1 == top2,
{
    lemma_top_selection_included(magnitudes, top1, top2, count);
    lemma_top_selection_included(magnitudes, top2, top1, count);
    assert(top1 =~= top2);
}

/// One half of `lemma_top_selection_unique`: each bin of the first
/// selection is in the second.
proof fn lemma_top_selection_included(
    magnitudes: Seq<u32>,
    top1: Set<int>,
    top2: Set<int>,
    count: nat,
)
    requires
        magnitudes.no_duplicates(),
        is_top_selection(magnitudes, top1, count),
        is_top_selection(magnitudes, top2, count),
    ensures
        top1.subset_of(top2),
{
    assert forall|x: int| top1.contains(x) implies top2.contains(x) by {
        if !top2.contains(x) {
            // a bin of the second selection is missing from the first
            if top2.subset_of(top1) {
                assert(top2.subset_of(top1.remove(x)));
                lemma_len_subset(top2, top1.remove(x));
                assert(false);
            }
            let y = choose|y: int| top2.contains(y) && !top1.contains(y);
            assert(magnitudes[y] <= magnitudes[x]);
            assert(magnitudes[x] <= magnitudes[y]);
            assert(x != y);
            assert(magnitudes[x] != magnitudes[y]);
        }
    }
}

/// With distinct magnitudes, the bins kept are the same however the ties of
/// the selection fall: two results for the same request are equal.
pub proof fn lemma_retain_deterministic(
    magnitudes: Seq<u32>,
    n: nat,
    complement: bool,
    keep1: Seq<bool>,
    keep2: Seq<bool>,
)
    requires
        magnitudes.no_duplicates(),
        is_retain_mask(magnitudes, n, complement, keep1),
        is_retain_mask(magnitudes, n, complement, keep2),
    ensures
        keep1 == keep2,
{
    lemma_top_selection_unique(
        magnitudes,
        selected_bins(keep1, complement),
        selected_bins(keep2, complement),
        top_count(magnitudes.len(), n),
    );
    assert forall|i: int| 0 <= i < keep1.len() implies keep1[i] == keep2[i] by {
        assert(selected_bins(keep1, complement).contains(i) == selected_bins(
            keep2,
            complement,
        ).contains(i));
    }
    assert(keep1 =~= keep2);
}

/// With distinct magnitudes, the complement keeps exactly the bins that
/// are removed without it.
pub proof fn lemma_complement_inverts(
    magnitudes: Seq<u32>,
    n: nat,
    keep: Seq<bool>,
    keep_complement: Seq<bool>,
)
    requires
        magnitudes.no_duplicates(),
        is_retain_mask(magnitudes, n, false, keep),
        is_retain_mask(magnitudes, n, true, keep_complement),
    ensures
        forall|i: int| 0 <= i < magnitudes.len() ==> keep_complement[i] == !keep[i],
{
    lemma_top_selection_unique(
        magnitudes,
        selected_bins(keep, false),
        selected_bins(keep_complement, true),
        top_count(magnitudes.len(), n),
    );
    assert forall|i: int| 0 <= i < magnitudes.len() implies keep_complement[i] == !keep[i] by {
        assert(selected_bins(keep, false).contains(i) == selected_bins(
            keep_complement,
            true,
        ).contains(i));
    }
}

/// The bins a mask keeps.
pub open spec fn kept_bins(keep: Seq<bool>) -> Set<int> {
    Set::new(|i: int| 0 <= i < keep.len() && keep[i])
}

/// Without complement, `min(n, len)` bins are kept and none removed is
/// larger than one kept; with it, the other `len - min(n, len)` bins are
/// kept and none removed is smaller than one kept.
pub proof fn lemma_kept_bins(magnitudes: Seq<u32>, n: nat, complement: bool, keep: Seq<bool>)
    requires
        is_retain_mask(magnitudes, n, complement, keep),
    ensures
        kept_bins(keep).finite(),
        kept_bins(keep).len() == if complement {
            magnitudes.len() - top_count(magnitudes.len(), n)
        } else {
            top_count(magnitudes.len(), n) as int
        },
        forall|i: int, j: int|
            #![trigger kept_bins(keep).contains(i), kept_bins(keep).contains(j)]
            kept_bins(keep).contains(i) && 0 <= j < magnitudes.len() && !kept_bins(keep).contains(
                j,
            ) ==> if complement {
                magnitudes[i] <= magnitudes[j]
            } else {
                magnitudes[j] <= magnitudes[i]
            },
{
    let top = selected_bins(keep, complement);
    let all = set_int_range(0, magnitudes.len() as int);
    lemma_int_range(0, magnitudes.len() as int);
    if complement {
        assert(kept_bins(keep) =~= all.difference(top));
        lemma_set_difference_len(all, top);
        assert(all.intersect(top) =~= top);
        assert forall|i: int, j: int|
            kept_bins(keep).contains(i) && 0 <= j < magnitudes.len() && !kept_bins(keep).contains(
                j,
            ) implies magnitudes[i] <= magnitudes[j] by {
            assert(top.contains(j));
            assert(!top.contains(i));
        }
    } else {
        assert(kept_bins(keep) =~= top);
    }
}

} // verus!
