//! Composite gas states and their interpolation: a gas is a record of scalar
//! physical quantities plus a material composition, and interpolation blends
//! every part independently from an origin state towards a target state.

use vstd::prelude::*;

verus! {

use crate::chemistry::elements::Element;
use crate::chemistry::molecules::Molecule;
use crate::transition::{
    eased_millionths, effective_millionths, interpolate_value, lemma_eased_endpoints,
    lemma_lerp_at_full, lemma_lerp_at_zero, lemma_lerp_self, lerp, lerp_spec, Easing,
    InterpolationAsyncOptions, Progress, PROGRESS_SCALE,
};

/// Marker trait for gas models.
pub trait Gas {

}

/// A composition may name at most this many materials.
pub const MAX_MATERIALS: usize = 65_536;

/// A single composition entry may carry at most this ratio magnitude.
pub const MAX_RATIO: i64 = 1_000_000_000_000;

/// A mixture's makeup: an ordered collection of (material, ratio) pairs.
/// Ratios are plain `i64` values in whatever scale the caller chooses; the
/// same material may occur more than once, in which case its entries count by
/// their sum.
#[derive(Debug)]
pub struct Composition(pub Vec<(Molecule, i64)>);

/// The cumulative ratio a composition gives to one material (identified by
/// its formula), summing repeated entries; an absent material has ratio 0.
pub open spec fn total_ratio(s: Seq<(Molecule, i64)>, key: Seq<(Element, usize)>) -> int
    decreases s.len(),
{
    if s.len() == 0 {
        0
    } else {
        total_ratio(s.drop_last(), key) + if s.last().0@ == key {
            s.last().1 as int
        } else {
            0
        }
    }
}

/// Whether some entry of the composition names the material.
pub open spec fn has_material(s: Seq<(Molecule, i64)>, key: Seq<(Element, usize)>) -> bool {
    exists|i: int| 0 <= i < s.len() && (#[trigger] s[i]).0@ == key
}

/// No material occurs in two different entries.
pub open spec fn distinct_materials(s: Seq<(Molecule, i64)>) -> bool {
    forall|i: int, j: int|
        0 <= i < j < s.len() ==> (#[trigger] s[i]).0@ != (#[trigger] s[j]).0@
}

/// Every entry's ratio stays within the supported magnitude.
pub open spec fn ratios_bounded(s: Seq<(Molecule, i64)>) -> bool {
    forall|i: int| 0 <= i < s.len() ==> -MAX_RATIO <= (#[trigger] s[i]).1 <= MAX_RATIO
}

/// Appending an entry raises exactly that material's cumulative ratio.
proof fn lemma_total_ratio_push(
    s: Seq<(Molecule, i64)>,
    entry: (Molecule, i64),
    key: Seq<(Element, usize)>,
)
    ensures
        total_ratio(s.push(entry), key) == total_ratio(s, key) + if entry.0@ == key {
            entry.1 as int
        } else {
            0
        },
{
    assert(s.push(entry).drop_last() =~= s);
    assert(s.push(entry).last() == entry);
}

/// Replacing one entry's ratio, keeping its material, shifts that material's
/// cumulative ratio by the difference and leaves every other material alone.
proof fn lemma_total_ratio_update(
    s: Seq<(Molecule, i64)>,
    idx: int,
    entry: (Molecule, i64),
    key: Seq<(Element, usize)>,
)
    requires
        0 <= idx < s.len(),
        entry.0@ == s[idx].0@,
    ensures
        total_ratio(s.update(idx, entry), key) == total_ratio(s, key) + if entry.0@ == key {
            entry.1 - s[idx].1
        } else {
            0
        },
    decreases s.len(),
{
    let t = s.update(idx, entry);
    if idx == s.len() - 1 {
        assert(t.drop_last() =~= s.drop_last());
        assert(t.last() == entry);
    } else {
        assert(t.drop_last() =~= s.drop_last().update(idx, entry));
        assert(t.last() == s.last());
        assert(s.drop_last()[idx] == s[idx]);
        lemma_total_ratio_update(s.drop_last(), idx, entry, key);
    }
}

/// A material named by no entry has cumulative ratio 0.
proof fn lemma_total_ratio_absent(s: Seq<(Molecule, i64)>, key: Seq<(Element, usize)>)
    requires
        !has_material(s, key),
    ensures
        total_ratio(s, key) == 0,
    decreases s.len(),
{
    if s.len() > 0 {
        assert(s[s.len() - 1].0@ != key);
        assert(!has_material(s.drop_last(), key)) by {
            assert(forall|i: int| 0 <= i < s.len() - 1 ==> s.drop_last()[i] == s[i]);
        }
        lemma_total_ratio_absent(s.drop_last(), key);
    }
}

/// With distinct materials, an entry's ratio is exactly its material's
/// cumulative ratio.
proof fn lemma_total_ratio_single(s: Seq<(Molecule, i64)>, idx: int)
    requires
        distinct_materials(s),
        0 <= idx < s.len(),
    ensures
        total_ratio(s, s[idx].0@) == s[idx].1,
    decreases s.len(),
{
    let key = s[idx].0@;
    if idx == s.len() - 1 {
        assert(!has_material(s.drop_last(), key)) by {
            assert(forall|i: int| 0 <= i < s.len() - 1 ==> s.drop_last()[i] == s[i]);
        }
        lemma_total_ratio_absent(s.drop_last(), key);
    } else {
        assert(s.last().0@ != key);
        assert(distinct_materials(s.drop_last())) by {
            assert(forall|i: int| 0 <= i < s.len() - 1 ==> s.drop_last()[i] == s[i]);
        }
        assert(s.drop_last()[idx] == s[idx]);
        lemma_total_ratio_single(s.drop_last(), idx);
    }
}

/// A cumulative ratio is bounded by the number of entries times the largest
/// single-entry magnitude.
proof fn lemma_total_ratio_bound(s: Seq<(Molecule, i64)>, key: Seq<(Element, usize)>)
    requires
        ratios_bounded(s),
    ensures
        -((s.len() as int) * (MAX_RATIO as int)) <= total_ratio(s, key) <= (s.len() as int) * (
        MAX_RATIO as int),
    decreases s.len(),
{
    if s.len() > 0 {
        assert(ratios_bounded(s.drop_last())) by {
            assert(forall|i: int| 0 <= i < s.len() - 1 ==> s.drop_last()[i] == s[i]);
        }
        lemma_total_ratio_bound(s.drop_last(), key);
    }
}

/// A composition that names one material twice counts exactly like the same
/// composition with a single entry carrying the two ratios' sum: every
/// material's cumulative ratio agrees, so blending treats the two alike.
pub proof fn lemma_duplicate_materials_aggregate(
    s: Seq<(Molecule, i64)>,
    first: (Molecule, i64),
    second: (Molecule, i64),
    combined: (Molecule, i64),
    key: Seq<(Element, usize)>,
)
    requires
        first.0@ == second.0@,
        combined.0@ == first.0@,
        combined.1 == first.1 + second.1,
    ensures
        total_ratio(s.push(first).push(second), key) == total_ratio(s.push(combined), key),
{
    lemma_total_ratio_push(s.push(first), second, key);
    lemma_total_ratio_push(s, first, key);
    lemma_total_ratio_push(s, combined, key);
}

/// Find the entry that names the same material as `key`, if there is one.
fn find_material(materials: &Vec<(Molecule, i64)>, key: &Molecule) -> (r: Option<usize>)
    ensures
        match r {
            Some(idx) => idx < materials@.len() && materials@[idx as int].0@ == key@,
            None => !has_material(materials@, key@),
        },
{
    let mut i: usize = 0;
    while i < materials.len()
        invariant
            i <= materials@.len(),
            forall|j: int| 0 <= j < i ==> (#[trigger] materials@[j]).0@ != key@,
        decreases materials@.len() - i,
    {
        if materials[i].0 == *key {
            return Some(i);
        }
        i = i + 1;
    }
    None
}

/// Sum repeated materials into a single entry each, keeping the order in
/// which the materials first occur.
fn aggregate(entries: &Vec<(Molecule, i64)>) -> (r: Vec<(Molecule, i64)>)
    requires
        entries@.len() <= MAX_MATERIALS,
        ratios_bounded(entries@),
    ensures
        distinct_materials(r@),
        r@.len() <= entries@.len(),
        forall|k: Seq<(Element, usize)>| #[trigger]
            total_ratio(r@, k) == total_ratio(entries@, k),
        forall|k: Seq<(Element, usize)>| #[trigger]
            has_material(r@, k) <==> has_material(entries@, k),
{
    let mut acc: Vec<(Molecule, i64)> = Vec::new();
    let mut i: usize = 0;
    while i < entries.len()
        invariant
            entries@.len() <= MAX_MATERIALS,
            ratios_bounded(entries@),
            i <= entries@.len(),
            distinct_materials(acc@),
            acc@.len() <= i,
            forall|k: Seq<(Element, usize)>| #[trigger]
                total_ratio(acc@, k) == total_ratio(entries@.subrange(0, i as int), k),
            forall|k: Seq<(Element, usize)>| #[trigger]
                has_material(acc@, k) <==> has_material(entries@.subrange(0, i as int), k),
        decreases entries@.len() - i,
    {
        let ghost prefix = entries@.subrange(0, i as int);
        let ghost prefix1 = entries@.subrange(0, i + 1);
        proof {
            assert(prefix1.drop_last() =~= prefix);
            assert(prefix1.last() == entries@[i as int]);
            assert(ratios_bounded(prefix)) by {
                assert(forall|j: int| 0 <= j < i ==> prefix[j] == entries@[j]);
            }
        }
        let pos = find_material(&acc, &entries[i].0);
        match pos {
            Some(idx) => {
                let ghost old_acc = acc@;
                let ghost key = acc@[idx as int].0@;
                let cur: i64 = acc[idx].1;
                let add: i64 = entries[i].1;
                proof {
                    lemma_total_ratio_single(acc@, idx as int);
                    lemma_total_ratio_bound(prefix, key);
                }
                let new_val: i64 = cur + add;
                acc[idx].1 = new_val;
                proof {
                    assert(acc@ =~= old_acc.update(idx as int, (old_acc[idx as int].0, new_val)));
                    assert forall|k: Seq<(Element, usize)>| #[trigger]
                        total_ratio(acc@, k) == total_ratio(prefix1, k) by {
                        lemma_total_ratio_update(
                            old_acc,
                            idx as int,
                            (old_acc[idx as int].0, new_val),
                            k,
                        );
                    }
                    assert forall|k: Seq<(Element, usize)>| #[trigger]
                        has_material(acc@, k) <==> has_material(prefix1, k) by {
                        if has_material(acc@, k) {
                            let j = choose|j: int| 0 <= j < acc@.len() && acc@[j].0@ == k;
                            assert(old_acc[j].0@ == k);
                            assert(has_material(old_acc, k));
                        }
                        if has_material(old_acc, k) {
                            let j = choose|j: int| 0 <= j < old_acc.len() && old_acc[j].0@ == k;
                            assert(acc@[j].0@ == k);
                            assert(has_material(acc@, k));
                        }
                        if has_material(prefix1, k) {
                            let j = choose|j: int| 0 <= j < prefix1.len() && prefix1[j].0@ == k;
                            if j < i {
                                assert(prefix[j].0@ == k);
                                assert(has_material(prefix, k));
                            } else {
                                assert(entries@[i as int].0@ == k);
                                assert(has_material(old_acc, k));
                            }
                        }
                        if has_material(prefix, k) {
                            let j = choose|j: int| 0 <= j < prefix.len() && prefix[j].0@ == k;
                            assert(prefix1[j].0@ == k);
                            assert(has_material(prefix1, k));
                        }
                    }
                    assert(distinct_materials(acc@)) by {
                        assert(forall|j: int|
                            0 <= j < acc@.len() ==> (#[trigger] acc@[j]).0@ == old_acc[j].0@);
                    }
                }
            }
            None => {
                let ghost old_acc = acc@;
                let material = entries[i].0.clone();
                let ratio = entries[i].1;
                let ghost entry = (material, ratio);
                acc.push((material, ratio));
                proof {
                    assert(acc@ =~= old_acc.push(entry));
                    assert(entry.0@ == entries@[i as int].0@);
                    assert forall|k: Seq<(Element, usize)>| #[trigger]
                        total_ratio(acc@, k) == total_ratio(prefix1, k) by {
                        lemma_total_ratio_push(old_acc, entry, k);
                    }
                    assert forall|k: Seq<(Element, usize)>| #[trigger]
                        has_material(acc@, k) <==> has_material(prefix1, k) by {
                        if has_material(acc@, k) {
                            let j = choose|j: int| 0 <= j < acc@.len() && acc@[j].0@ == k;
                            if j < old_acc.len() {
                                assert(old_acc[j].0@ == k);
                                assert(has_material(old_acc, k));
                            } else {
                                assert(prefix1[i as int].0@ == k);
                                assert(has_material(prefix1, k));
                            }
                        }
                        if has_material(old_acc, k) {
                            let j = choose|j: int| 0 <= j < old_acc.len() && old_acc[j].0@ == k;
                            assert(acc@[j].0@ == k);
                            assert(has_material(acc@, k));
                        }
                        if has_material(prefix1, k) {
                            let j = choose|j: int| 0 <= j < prefix1.len() && prefix1[j].0@ == k;
                            if j < i {
                                assert(prefix[j].0@ == k);
                                assert(has_material(prefix, k));
                            } else {
                                assert(acc@[acc@.len() - 1].0@ == k);
                                assert(has_material(acc@, k));
                            }
                        }
                        if has_material(prefix, k) {
                            let j = choose|j: int| 0 <= j < prefix.len() && prefix[j].0@ == k;
                            assert(prefix1[j].0@ == k);
                            assert(has_material(prefix1, k));
                        }
                    }
                    assert(distinct_materials(acc@)) by {
                        assert(!has_material(old_acc, entries@[i as int].0@));
                        assert(forall|j: int|
                            0 <= j < old_acc.len() ==> (#[trigger] acc@[j]) == old_acc[j]);
                    }
                }
            }
        }
        i = i + 1;
    }
    proof {
        assert(entries@.subrange(0, entries@.len() as int) =~= entries@);
    }
    acc
}

/// Append, with ratio 0, every material of `source` that `materials` does not
/// name yet.  Cumulative ratios are unchanged.
fn fill_missing(materials: &mut Vec<(Molecule, i64)>, source: &Vec<(Molecule, i64)>)
    requires
        distinct_materials(old(materials)@),
        old(materials)@.len() + source@.len() <= usize::MAX,
    ensures
        distinct_materials(final(materials)@),
        final(materials)@.len() <= old(materials)@.len() + source@.len(),
        forall|k: Seq<(Element, usize)>| #[trigger]
            total_ratio(final(materials)@, k) == total_ratio(old(materials)@, k),
        forall|k: Seq<(Element, usize)>| #[trigger]
            has_material(final(materials)@, k) <==> has_material(old(materials)@, k)
                || has_material(source@, k),
{
    let mut i: usize = 0;
    while i < source.len()
        invariant
            i <= source@.len(),
            old(materials)@.len() + source@.len() <= usize::MAX,
            distinct_materials(materials@),
            materials@.len() <= old(materials)@.len() + i,
            forall|k: Seq<(Element, usize)>| #[trigger]
                total_ratio(materials@, k) == total_ratio(old(materials)@, k),
            forall|k: Seq<(Element, usize)>| #[trigger]
                has_material(materials@, k) <==> has_material(old(materials)@, k)
                    || has_material(source@.subrange(0, i as int), k),
        decreases source@.len() - i,
    {
        let ghost prefix = source@.subrange(0, i as int);
        let ghost prefix1 = source@.subrange(0, i + 1);
        proof {
            assert(forall|j: int| 0 <= j < i ==> prefix[j] == source@[j]);
            assert(forall|j: int| 0 <= j <= i ==> prefix1[j] == source@[j]);
        }
        let pos = find_material(materials, &source[i].0);
        let ghost old_mats = materials@;
        match pos {
            Some(_) => {
                proof {
                    assert forall|k: Seq<(Element, usize)>| #[trigger]
                        has_material(materials@, k) <==> has_material(old(materials)@, k)
                            || has_material(prefix1, k) by {
                        if has_material(prefix1, k) {
                            let j = choose|j: int| 0 <= j < prefix1.len() && prefix1[j].0@ == k;
                            if j < i {
                                assert(prefix[j].0@ == k);
                                assert(has_material(prefix, k));
                            } else {
                                assert(source@[i as int].0@ == k);
                                assert(has_material(materials@, k));
                            }
                        }
                        if has_material(prefix, k) {
                            let j = choose|j: int| 0 <= j < prefix.len() && prefix[j].0@ == k;
                            assert(prefix1[j].0@ == k);
                            assert(has_material(prefix1, k));
                        }
                    }
                }
            }
            None => {
                let material = source[i].0.clone();
                let ghost entry = (material, 0i64);
                materials.push((material, 0));
                proof {
                    assert(materials@ =~= old_mats.push(entry));
                    assert(entry.0@ == source@[i as int].0@);
                    assert forall|k: Seq<(Element, usize)>| #[trigger]
                        total_ratio(materials@, k) == total_ratio(old(materials)@, k) by {
                        lemma_total_ratio_push(old_mats, entry, k);
                    }
                    assert forall|k: Seq<(Element, usize)>| #[trigger]
                        has_material(materials@, k) <==> has_material(old(materials)@, k)
                            || has_material(prefix1, k) by {
                        if has_material(materials@, k) {
                            let j = choose|j: int|
                                0 <= j < materials@.len() && materials@[j].0@ == k;
                            if j < old_mats.len() {
                                assert(old_mats[j].0@ == k);
                                assert(has_material(old_mats, k));
                            } else {
                                assert(prefix1[i as int].0@ == k);
                                assert(has_material(prefix1, k));
                            }
                        }
                        if has_material(old_mats, k) {
                            let j = choose|j: int| 0 <= j < old_mats.len() && old_mats[j].0@ == k;
                            assert(materials@[j].0@ == k);
                            assert(has_material(materials@, k));
                        }
                        if has_material(prefix1, k) {
                            let j = choose|j: int| 0 <= j < prefix1.len() && prefix1[j].0@ == k;
                            if j < i {
                                assert(prefix[j].0@ == k);
                                assert(has_material(prefix, k));
                            } else {
                                assert(materials@[materials@.len() - 1].0@ == k);
                                assert(has_material(materials@, k));
                            }
                        }
                        if has_material(prefix, k) {
                            let j = choose|j: int| 0 <= j < prefix.len() && prefix[j].0@ == k;
                            assert(prefix1[j].0@ == k);
                            assert(has_material(prefix1, k));
                        }
                    }
                    assert(distinct_materials(materials@)) by {
                        assert(!has_material(old_mats, source@[i as int].0@));
                        assert(forall|j: int|
                            0 <= j < old_mats.len() ==> (#[trigger] materials@[j]) == old_mats[j]);
                    }
                }
            }
        }
        i = i + 1;
    }
    proof {
        assert(source@.subrange(0, source@.len() as int) =~= source@);
    }
}

impl Composition {
    /// Entry count and ratio magnitudes stay within the supported ranges.
    pub open spec fn wf(&self) -> bool {
        self.0@.len() <= MAX_MATERIALS && ratios_bounded(self.0@)
    }

    /// Align this composition and `other` onto the union of their material
    /// sets: each returned vector names every material of either input
    /// exactly once, carrying the input's cumulative ratio for it (0 where
    /// the input does not name it).
    pub fn reconcile(&self, other: &Composition) -> (r: (
        Vec<(Molecule, i64)>,
        Vec<(Molecule, i64)>,
    ))
        requires
            self.wf(),
            other.wf(),
        ensures
            distinct_materials(r.0@),
            distinct_materials(r.1@),
            r.0@.len() <= self.0@.len() + other.0@.len(),
            r.1@.len() <= self.0@.len() + other.0@.len(),
            forall|k: Seq<(Element, usize)>| #[trigger]
                total_ratio(r.0@, k) == total_ratio(self.0@, k),
            forall|k: Seq<(Element, usize)>| #[trigger]
                total_ratio(r.1@, k) == total_ratio(other.0@, k),
            forall|k: Seq<(Element, usize)>| #[trigger]
                has_material(r.0@, k) <==> has_material(self.0@, k) || has_material(other.0@, k),
            forall|k: Seq<(Element, usize)>| #[trigger]
                has_material(r.1@, k) <==> has_material(self.0@, k) || has_material(other.0@, k),
    {
        let mut origin = aggregate(&self.0);
        let mut target = aggregate(&other.0);
        fill_missing(&mut origin, &other.0);
        fill_missing(&mut target, &self.0);
        (origin, target)
    }

    /// Blend this composition towards `other`: the result names every
    /// material of either composition exactly once, and carries for each the
    /// blend of the two cumulative ratios under the given progress and
    /// easing.  Materials that end at or start from ratio 0 are kept, not
    /// pruned.
    pub fn interpolate(
        &self,
        other: &Composition,
        transition: Progress,
        ease: Option<Easing>,
    ) -> (r: Composition)
        requires
            self.wf(),
            other.wf(),
            transition.wf(),
        ensures
            distinct_materials(r.0@),
            forall|k: Seq<(Element, usize)>| #[trigger]
                has_material(r.0@, k) <==> has_material(self.0@, k) || has_material(other.0@, k),
            forall|k: Seq<(Element, usize)>| #[trigger]
                total_ratio(r.0@, k) == lerp_spec(
                    total_ratio(self.0@, k),
                    total_ratio(other.0@, k),
                    eased_millionths(ease, transition.millionths as int),
                ),
            transition.millionths == 0 ==> forall|k: Seq<(Element, usize)>| #[trigger]
                total_ratio(r.0@, k) == total_ratio(self.0@, k),
            transition.millionths == PROGRESS_SCALE ==> forall|k: Seq<(Element, usize)>|
                #[trigger] total_ratio(r.0@, k) == total_ratio(other.0@, k),
            forall|k: Seq<(Element, usize)>|
                total_ratio(self.0@, k) == total_ratio(other.0@, k) ==> #[trigger] total_ratio(
                    r.0@,
                    k,
                ) == total_ratio(self.0@, k),
    {
        let (origin, target) = self.reconcile(other);
        let ghost eased = eased_millionths(ease, transition.millionths as int);
        let mut result: Vec<(Molecule, i64)> = Vec::new();
        let mut i: usize = 0;
        while i < origin.len()
            invariant
                transition.wf(),
                distinct_materials(origin@),
                distinct_materials(target@),
                forall|k: Seq<(Element, usize)>| #[trigger]
                    total_ratio(origin@, k) == total_ratio(self.0@, k),
                forall|k: Seq<(Element, usize)>| #[trigger]
                    total_ratio(target@, k) == total_ratio(other.0@, k),
                forall|k: Seq<(Element, usize)>| #[trigger]
                    has_material(origin@, k) <==> has_material(self.0@, k) || has_material(
                        other.0@,
                        k,
                    ),
                forall|k: Seq<(Element, usize)>| #[trigger]
                    has_material(target@, k) <==> has_material(self.0@, k) || has_material(
                        other.0@,
                        k,
                    ),
                i <= origin@.len(),
                result@.len() == i,
                eased == eased_millionths(ease, transition.millionths as int),
                forall|j: int|
                    0 <= j < i ==> (#[trigger] result@[j]).0@ == origin@[j].0@,
                forall|j: int|
                    0 <= j < i ==> (#[trigger] result@[j]).1 as int == lerp_spec(
                        total_ratio(self.0@, origin@[j].0@),
                        total_ratio(other.0@, origin@[j].0@),
                        eased,
                    ),
            decreases origin@.len() - i,
        {
            let ghost key = origin@[i as int].0@;
            let pos = find_material(&target, &origin[i].0);
            let idx = match pos {
                Some(idx) => idx,
                None => {
                    proof {
                        assert(has_material(origin@, key));
                        assert(has_material(target@, key));
                        assert(false);
                    }
                    vstd::pervasive::unreached()
                }
            };
            proof {
                lemma_total_ratio_single(origin@, i as int);
                lemma_total_ratio_single(target@, idx as int);
            }
            let origin_ratio: i64 = origin[i].1;
            let target_ratio: i64 = target[idx].1;
            let blended: i64 = lerp(origin_ratio, target_ratio, transition, ease);
            let material = origin[i].0.clone();
            result.push((material, blended));
            i = i + 1;
        }
        proof {
            assert forall|k: Seq<(Element, usize)>| #[trigger]
                has_material(result@, k) <==> has_material(self.0@, k) || has_material(
                    other.0@,
                    k,
                ) by {
                if has_material(result@, k) {
                    let j = choose|j: int| 0 <= j < result@.len() && result@[j].0@ == k;
                    assert(origin@[j].0@ == k);
                    assert(has_material(origin@, k));
                }
                if has_material(origin@, k) {
                    let j = choose|j: int| 0 <= j < origin@.len() && origin@[j].0@ == k;
                    assert(result@[j].0@ == k);
                    assert(has_material(result@, k));
                }
            }
            assert(distinct_materials(result@)) by {
                assert(forall|a: int, b: int|
                    0 <= a < b < result@.len() ==> (#[trigger] result@[a]).0@ != (
                    #[trigger] result@[b]).0@) by {
                    assert(forall|j: int|
                        0 <= j < result@.len() ==> (#[trigger] result@[j]).0@ == origin@[j].0@);
                }
            }
            assert forall|k: Seq<(Element, usize)>| #[trigger]
                total_ratio(result@, k) == lerp_spec(
                    total_ratio(self.0@, k),
                    total_ratio(other.0@, k),
                    eased,
                ) by {
                if has_material(result@, k) {
                    let j = choose|j: int| 0 <= j < result@.len() && result@[j].0@ == k;
                    lemma_total_ratio_single(result@, j);
                } else {
                    lemma_total_ratio_absent(result@, k);
                    assert(!has_material(self.0@, k));
                    assert(!has_material(other.0@, k));
                    lemma_total_ratio_absent(self.0@, k);
                    lemma_total_ratio_absent(other.0@, k);
                    lemma_lerp_self(0, eased);
                }
            }
            if transition.millionths == 0 {
                lemma_eased_endpoints(ease);
                assert forall|k: Seq<(Element, usize)>| #[trigger]
                    total_ratio(result@, k) == total_ratio(self.0@, k) by {
                    lemma_lerp_at_zero(total_ratio(self.0@, k), total_ratio(other.0@, k));
                }
            }
            if transition.millionths == PROGRESS_SCALE {
                lemma_eased_endpoints(ease);
                assert forall|k: Seq<(Element, usize)>| #[trigger]
                    total_ratio(result@, k) == total_ratio(other.0@, k) by {
                    lemma_lerp_at_full(total_ratio(self.0@, k), total_ratio(other.0@, k));
                }
            }
            assert forall|k: Seq<(Element, usize)>|
                total_ratio(self.0@, k) == total_ratio(other.0@, k) implies #[trigger] total_ratio(
                result@,
                k,
            ) == total_ratio(self.0@, k) by {
                lemma_lerp_self(total_ratio(self.0@, k), eased);
            }
        }
        Composition(result)
    }
}

impl Clone for Composition {
    /// The clone carries entry for entry the same materials and ratios.
    fn clone(&self) -> (r: Composition)
        ensures
            r.0@.len() == self.0@.len(),
            forall|j: int|
                0 <= j < self.0@.len() ==> (#[trigger] r.0@[j]).0@ == self.0@[j].0@ && r.0@[j].1
                    == self.0@[j].1,
    {
        let mut entries: Vec<(Molecule, i64)> = Vec::new();
        let mut i: usize = 0;
        while i < self.0.len()
            invariant
                i <= self.0@.len(),
                entries@.len() == i,
                forall|j: int|
                    0 <= j < i ==> (#[trigger] entries@[j]).0@ == self.0@[j].0@ && entries@[j].1
                        == self.0@[j].1,
            decreases self.0@.len() - i,
        {
            entries.push((self.0[i].0.clone(), self.0[i].1));
            i = i + 1;
        }
        Composition(entries)
    }
}

/// A uniform gas: independent scalar physical quantities (each a plain `i64`
/// in the caller's unit and scale) plus a material composition.  No invariant
/// ties the scalar fields together: interpolation blends each on its own.
#[derive(Debug)]
pub struct UniformGas {
    pub volume: i64,
    pub pressure: i64,
    pub moles: i64,
    pub temperature: i64,
    pub materials: Composition,
    pub mass: i64,
    pub density: i64,
}

impl Gas for UniformGas {

}

impl Clone for UniformGas {
    /// The clone carries the same scalar fields and, entry for entry, the
    /// same materials and ratios.
    fn clone(&self) -> (r: UniformGas)
        ensures
            r.volume == self.volume,
            r.pressure == self.pressure,
            r.moles == self.moles,
            r.temperature == self.temperature,
            r.mass == self.mass,
            r.density == self.density,
            r.materials.0@.len() == self.materials.0@.len(),
            forall|j: int|
                0 <= j < self.materials.0@.len() ==> (#[trigger] r.materials.0@[j]).0@
                    == self.materials.0@[j].0@ && r.materials.0@[j].1 == self.materials.0@[j].1,
    {
        UniformGas {
            volume: self.volume,
            pressure: self.pressure,
            moles: self.moles,
            temperature: self.temperature,
            materials: self.materials.clone(),
            mass: self.mass,
            density: self.density,
        }
    }
}

/// Asynchronous options for interpolating a uniform gas: only the
/// temperature currently accepts an offset.
#[derive(Clone, Copy, Debug)]
pub struct UniformGasAsynchronousOptions {
    pub temperature_offset: Option<InterpolationAsyncOptions>,
}

/// The temperature offset carried by the options, if any.
pub open spec fn temperature_offset_of(
    asynchronous_options: Option<UniformGasAsynchronousOptions>,
) -> Option<InterpolationAsyncOptions> {
    match asynchronous_options {
        Some(opts) => opts.temperature_offset,
        None => None,
    }
}

/// Any asynchronous offset carried by the options lies in the progress
/// domain.
pub open spec fn asynchronous_options_wf(
    asynchronous_options: Option<UniformGasAsynchronousOptions>,
) -> bool {
    match temperature_offset_of(asynchronous_options) {
        Some(o) => o.0.wf(),
        None => true,
    }
}

impl UniformGas {
    /// The material composition stays within the supported ranges.
    pub open spec fn wf(&self) -> bool {
        self.materials.wf()
    }

    /// Blend every scalar field and the material composition of this gas
    /// towards `target`.  Each scalar field is blended independently under
    /// the same progress and easing; the temperature alone honours an
    /// asynchronous offset.  The composition is blended per material over
    /// the union of both material sets, with uniform progress.  Neither
    /// input is changed.
    pub fn interpolate(
        &self,
        target: &UniformGas,
        transition: Progress,
        ease: Option<Easing>,
        asynchronous_options: Option<UniformGasAsynchronousOptions>,
    ) -> (r: UniformGas)
        requires
            self.wf(),
            target.wf(),
            transition.wf(),
            asynchronous_options_wf(asynchronous_options),
        ensures
            r.temperature as int == lerp_spec(
                self.temperature as int,
                target.temperature as int,
                eased_millionths(
                    ease,
                    effective_millionths(
                        transition.millionths as int,
                        temperature_offset_of(asynchronous_options),
                    ),
                ),
            ),
            r.volume as int == lerp_spec(
                self.volume as int,
                target.volume as int,
                eased_millionths(ease, transition.millionths as int),
            ),
            r.pressure as int == lerp_spec(
                self.pressure as int,
                target.pressure as int,
                eased_millionths(ease, transition.millionths as int),
            ),
            r.moles as int == lerp_spec(
                self.moles as int,
                target.moles as int,
                eased_millionths(ease, transition.millionths as int),
            ),
            r.mass as int == lerp_spec(
                self.mass as int,
                target.mass as int,
                eased_millionths(ease, transition.millionths as int),
            ),
            r.density as int == lerp_spec(
                self.density as int,
                target.density as int,
                eased_millionths(ease, transition.millionths as int),
            ),
            distinct_materials(r.materials.0@),
            forall|k: Seq<(Element, usize)>| #[trigger]
                has_material(r.materials.0@, k) <==> has_material(self.materials.0@, k)
                    || has_material(target.materials.0@, k),
            forall|k: Seq<(Element, usize)>| #[trigger]
                total_ratio(r.materials.0@, k) == lerp_spec(
                    total_ratio(self.materials.0@, k),
                    total_ratio(target.materials.0@, k),
                    eased_millionths(ease, transition.millionths as int),
                ),
            transition.millionths == 0 ==> r.temperature == self.temperature && r.volume
                == self.volume && r.pressure == self.pressure && r.moles == self.moles && r.mass
                == self.mass && r.density == self.density,
            transition.millionths == PROGRESS_SCALE ==> r.temperature == target.temperature
                && r.volume == target.volume && r.pressure == target.pressure && r.moles
                == target.moles && r.mass == target.mass && r.density == target.density,
            self.temperature == target.temperature ==> r.temperature == self.temperature,
            self.volume == target.volume ==> r.volume == self.volume,
            self.pressure == target.pressure ==> r.pressure == self.pressure,
            self.moles == target.moles ==> r.moles == self.moles,
            self.mass == target.mass ==> r.mass == self.mass,
            self.density == target.density ==> r.density == self.density,
            forall|k: Seq<(Element, usize)>|
                total_ratio(self.materials.0@, k) == total_ratio(target.materials.0@, k)
                    ==> #[trigger] total_ratio(r.materials.0@, k) == total_ratio(
                    self.materials.0@,
                    k,
                ),
    {
        let temperature_interpolation_offset: Option<InterpolationAsyncOptions> = {
            match asynchronous_options {
                Some(opts) => opts.temperature_offset,
                None => None,
            }
        };
        let temperature = interpolate_value(
            self.temperature,
            target.temperature,
            transition,
            ease,
            temperature_interpolation_offset,
        );
        let volume = interpolate_value(self.volume, target.volume, transition, ease, None);
        let pressure = interpolate_value(self.pressure, target.pressure, transition, ease, None);
        let moles = interpolate_value(self.moles, target.moles, transition, ease, None);
        let mass = interpolate_value(self.mass, target.mass, transition, ease, None);
        let density = interpolate_value(self.density, target.density, transition, ease, None);
        let materials = self.materials.interpolate(&target.materials, transition, ease);
        proof {
            lemma_lerp_self(
                self.temperature as int,
                eased_millionths(
                    ease,
                    effective_millionths(
                        transition.millionths as int,
                        temperature_offset_of(asynchronous_options),
                    ),
                ),
            );
            lemma_lerp_self(self.volume as int, eased_millionths(ease, transition.millionths as int));
            lemma_lerp_self(
                self.pressure as int,
                eased_millionths(ease, transition.millionths as int),
            );
            lemma_lerp_self(self.moles as int, eased_millionths(ease, transition.millionths as int));
            lemma_lerp_self(self.mass as int, eased_millionths(ease, transition.millionths as int));
            lemma_lerp_self(
                self.density as int,
                eased_millionths(ease, transition.millionths as int),
            );
            if transition.millionths == 0 {
                lemma_eased_endpoints(ease);
                lemma_eased_endpoints(Some(Easing::CubicIn));
                lemma_lerp_at_zero(self.temperature as int, target.temperature as int);
                lemma_lerp_at_zero(self.volume as int, target.volume as int);
                lemma_lerp_at_zero(self.pressure as int, target.pressure as int);
                lemma_lerp_at_zero(self.moles as int, target.moles as int);
                lemma_lerp_at_zero(self.mass as int, target.mass as int);
                lemma_lerp_at_zero(self.density as int, target.density as int);
            }
            if transition.millionths == PROGRESS_SCALE {
                lemma_eased_endpoints(ease);
                lemma_eased_endpoints(Some(Easing::CubicIn));
                lemma_lerp_at_full(self.temperature as int, target.temperature as int);
                lemma_lerp_at_full(self.volume as int, target.volume as int);
                lemma_lerp_at_full(self.pressure as int, target.pressure as int);
                lemma_lerp_at_full(self.moles as int, target.moles as int);
                lemma_lerp_at_full(self.mass as int, target.mass as int);
                lemma_lerp_at_full(self.density as int, target.density as int);
            }
        }
        UniformGas { volume, pressure, moles, temperature, materials, mass, density }
    }
}

} // verus!
