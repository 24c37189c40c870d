//! The loaded schema as a whole, and the collection of every fact it
//! yields against a pair of register sources.

use crate::bitfield::Register;
use crate::facts::GenericFact;
use crate::layout::{
    spec_field_fact, spec_leaf_facts, spec_obeys_fact_conversions, spec_prefixed, LeafDesc,
};
use crate::msr::{MSRDesc, MsrStore};
use crate::{spec_is_empty_leaf, CpuidDB, CpuidResult};
use vstd::prelude::*;
use vstd::std_specs::convert::FromSpec;

verus! {

/// The leaf-index-keyed view of a schema's leaf list. A later entry with
/// the same index overrides an earlier one.
pub open spec fn spec_leaf_map(s: Seq<(u32, LeafDesc)>) -> Map<u32, LeafDesc>
    decreases s.len(),
{
    if s.len() == 0 {
        Map::empty()
    } else {
        spec_leaf_map(s.drop_last()).insert(s.last().0, s.last().1)
    }
}

/// The leaf indices are strictly ascending: the canonical schema order.
pub open spec fn spec_sorted_leaves(s: Seq<(u32, LeafDesc)>) -> bool {
    forall|i: int, j: int| 0 <= i < j < s.len() ==> s[i].0 < s[j].0
}

/// An index is in the view exactly when some entry carries it.
proof fn lemma_leaf_map_domain(s: Seq<(u32, LeafDesc)>, key: u32)
    ensures
        spec_leaf_map(s).contains_key(key) <==> exists|i: int| 0 <= i < s.len() && s[i].0 == key,
    decreases s.len(),
{
    if s.len() != 0 {
        lemma_leaf_map_domain(s.drop_last(), key);
        if s.last().0 == key {
            assert(s[s.len() - 1].0 == key);
        } else {
            if exists|i: int| 0 <= i < s.drop_last().len() && s.drop_last()[i].0 == key {
                let i = choose|i: int| 0 <= i < s.drop_last().len() && s.drop_last()[i].0 == key;
                assert(s[i].0 == key);
            }
            if exists|i: int| 0 <= i < s.len() && s[i].0 == key {
                let i = choose|i: int| 0 <= i < s.len() && s[i].0 == key;
                assert(s.drop_last()[i].0 == key);
            }
        }
    }
}

/// The whole loaded schema: leaf descriptions keyed by leaf index in
/// ascending order, and model-specific register descriptions in
/// declaration order.
pub struct Definition {
    pub cpuids: Vec<(u32, LeafDesc)>,
    pub msrs: Vec<MSRDesc>,
}

impl Definition {
    /// The leaf list is kept in canonical order.
    pub open spec fn wf(self) -> bool {
        spec_sorted_leaves(self.cpuids@)
    }

    /// Merge another schema into this one: its leaf entries override
    /// entries of the same index, and its register descriptions follow
    /// the existing ones.
    pub fn union(&mut self, b: Definition)
        requires
            old(self).wf(),
            b.wf(),
        ensures
            final(self).wf(),
            spec_leaf_map(final(self).cpuids@) == spec_leaf_map(
                old(self).cpuids@,
            ).union_prefer_right(spec_leaf_map(b.cpuids@)),
            final(self).msrs@ == old(self).msrs@ + b.msrs@,
    {
        let Definition { cpuids: mut b_cpuids, msrs: mut b_msrs } = b;
        let ghost orig_a = self.cpuids@;
        let ghost orig_b = b_cpuids@;
        let mut merged: Vec<(u32, LeafDesc)> = Vec::new();
        let ghost mut ai: int = 0;
        let ghost mut bi: int = 0;
        while self.cpuids.len() != 0 || b_cpuids.len() != 0
            invariant
                0 <= ai <= orig_a.len(),
                0 <= bi <= orig_b.len(),
                self.cpuids@ == orig_a.skip(ai),
                b_cpuids@ == orig_b.skip(bi),
                self.msrs == old(self).msrs,
                spec_sorted_leaves(orig_a),
                spec_sorted_leaves(orig_b),
                spec_sorted_leaves(merged@),
                forall|m: int, i: int|
                    0 <= m < merged@.len() && 0 <= i < self.cpuids@.len() ==> (
                    #[trigger] merged@[m]).0 < (#[trigger] self.cpuids@[i]).0,
                forall|m: int, i: int|
                    0 <= m < merged@.len() && 0 <= i < b_cpuids@.len() ==> (
                    #[trigger] merged@[m]).0 < (#[trigger] b_cpuids@[i]).0,
                forall|j: int|
                    0 <= j < bi ==> exists|m: int|
                        0 <= m < merged@.len() && (#[trigger] merged@[m]).0 == (
                        #[trigger] orig_b[j]).0,
                spec_leaf_map(merged@) == spec_leaf_map(orig_a.take(ai)).union_prefer_right(
                    spec_leaf_map(orig_b.take(bi)),
                ),
            decreases self.cpuids@.len() + b_cpuids@.len(),
        {
            let ghost merged_before = merged@;
            let take_from_a: bool = if self.cpuids.len() == 0 {
                false
            } else if b_cpuids.len() == 0 {
                true
            } else {
                self.cpuids[0].0 < b_cpuids[0].0
            };
            let both_equal: bool = self.cpuids.len() != 0 && b_cpuids.len() != 0
                && self.cpuids[0].0 == b_cpuids[0].0;
            if take_from_a {
                let e = self.cpuids.remove(0);
                merged.push(e);
                proof {
                    assert(merged@.drop_last() =~= merged_before);
                    assert(orig_a.take(ai + 1).drop_last() =~= orig_a.take(ai));
                    assert(orig_a.take(ai + 1).last() == orig_a[ai]);
                    assert(self.cpuids@ =~= orig_a.skip(ai + 1));
                    // The pushed index is not among the already-merged
                    // entries of the other schema.
                    lemma_leaf_map_domain(orig_b.take(bi), e.0);
                    assert forall|j: int| 0 <= j < bi implies orig_b.take(bi)[j].0 != e.0 by {
                        let m = choose|m: int|
                            0 <= m < merged_before.len() && merged_before[m].0 == orig_b[j].0;
                        assert(merged_before[m].0 < e.0);
                    }
                    assert(spec_leaf_map(merged@) =~= spec_leaf_map(orig_a.take(ai + 1)).union_prefer_right(
                        spec_leaf_map(orig_b.take(bi)),
                    ));
                    ai = ai + 1;
                }
            } else if both_equal {
                let _dropped = self.cpuids.remove(0);
                let e = b_cpuids.remove(0);
                merged.push(e);
                proof {
                    assert(merged@.drop_last() =~= merged_before);
                    assert(orig_a.take(ai + 1).drop_last() =~= orig_a.take(ai));
                    assert(orig_b.take(bi + 1).drop_last() =~= orig_b.take(bi));
                    assert(orig_a.take(ai + 1).last() == orig_a[ai]);
                    assert(orig_b.take(bi + 1).last() == orig_b[bi]);
                    assert(self.cpuids@ =~= orig_a.skip(ai + 1));
                    assert(b_cpuids@ =~= orig_b.skip(bi + 1));
                    assert(spec_leaf_map(merged@) =~= spec_leaf_map(orig_a.take(ai + 1)).union_prefer_right(
                        spec_leaf_map(orig_b.take(bi + 1)),
                    ));
                    ai = ai + 1;
                    bi = bi + 1;
                    assert(merged@[merged@.len() - 1].0 == orig_b[bi - 1].0);
                }
            } else {
                let e = b_cpuids.remove(0);
                merged.push(e);
                proof {
                    assert(merged@.drop_last() =~= merged_before);
                    assert(orig_b.take(bi + 1).drop_last() =~= orig_b.take(bi));
                    assert(orig_b.take(bi + 1).last() == orig_b[bi]);
                    assert(b_cpuids@ =~= orig_b.skip(bi + 1));
                    assert(spec_leaf_map(merged@) =~= spec_leaf_map(orig_a.take(ai)).union_prefer_right(
                        spec_leaf_map(orig_b.take(bi + 1)),
                    ));
                    bi = bi + 1;
                    assert(merged@[merged@.len() - 1].0 == orig_b[bi - 1].0);
                }
            }
        }
        proof {
            assert(orig_a.take(ai) =~= orig_a);
            assert(orig_b.take(bi) =~= orig_b);
        }
        self.cpuids = merged;
        self.msrs.append(&mut b_msrs);
    }
}

/// Every fact in the list carries the given leading path segments.
pub open spec fn spec_all_prefixed<T>(prefix: Seq<char>, facts: Seq<GenericFact<T>>) -> bool {
    forall|i: int| 0 <= i < facts.len() ==> prefix.is_prefix_of((#[trigger] facts[i]).name@)
}

/// A name made of the prefix and a remainder carries the prefix.
proof fn lemma_prefix_of_concat(prefix: Seq<char>, rest: Seq<char>)
    ensures
        prefix.is_prefix_of(prefix + rest),
{
    assert((prefix + rest).subrange(0, prefix.len() as int) =~= prefix);
}

/// Concatenating two prefixed fact lists keeps every name prefixed.
proof fn lemma_all_prefixed_append<T>(
    prefix: Seq<char>,
    a: Seq<GenericFact<T>>,
    b: Seq<GenericFact<T>>,
)
    requires
        spec_all_prefixed(prefix, a),
        spec_all_prefixed(prefix, b),
    ensures
        spec_all_prefixed(prefix, a + b),
{
    assert forall|i: int| 0 <= i < (a + b).len() implies prefix.is_prefix_of(
        (#[trigger] (a + b)[i]).name@,
    ) by {
        if i < a.len() {
            assert((a + b)[i] == a[i]);
        } else {
            assert((a + b)[i] == b[i - a.len()]);
        }
    }
}

/// Prefix every fact's name with one more path segment: each name becomes
/// the segment, a slash, then the old name; values are unchanged.
fn prefix_facts<T>(facts: &mut Vec<GenericFact<T>>, path: &str)
    ensures
        spec_prefixed(path@ + "/"@, old(facts)@, final(facts)@),
        spec_all_prefixed(path@ + "/"@, final(facts)@),
{
    let mut j: usize = 0;
    while j < facts.len()
        invariant
            j <= facts@.len(),
            facts@.len() == old(facts)@.len(),
            forall|k: int| j <= k < facts@.len() ==> facts@[k] == old(facts)@[k],
            forall|k: int|
                0 <= k < j ==> (#[trigger] facts@[k]).name@ == (path@ + "/"@)
                    + old(facts)@[k].name@ && facts@[k].value == old(facts)@[k].value,
        decreases facts@.len() - j,
    {
        let f = &mut facts[j];
        f.add_path(path);
        j = j + 1;
    }
    proof {
        assert forall|i: int| 0 <= i < facts@.len() implies (path@ + "/"@).is_prefix_of(
            (#[trigger] facts@[i]).name@,
        ) by {
            lemma_prefix_of_concat(path@ + "/"@, old(facts)@[i].name@);
        }
    }
}

/// Fact-list blocks laid end to end.
pub open spec fn spec_concat_blocks<T>(blocks: Seq<Seq<GenericFact<T>>>) -> Seq<GenericFact<T>>
    decreases blocks.len(),
{
    if blocks.len() == 0 {
        Seq::empty()
    } else {
        spec_concat_blocks(blocks.drop_last()) + blocks.last()
    }
}

/// This many empty blocks.
pub open spec fn spec_empty_blocks<T>(n: nat) -> Seq<Seq<GenericFact<T>>> {
    Seq::new(n, |k: int| Seq::<GenericFact<T>>::empty())
}

/// Empty blocks laid end to end yield nothing.
proof fn lemma_concat_empty_blocks<T>(n: nat)
    ensures
        spec_concat_blocks(spec_empty_blocks::<T>(n)) == Seq::<GenericFact<T>>::empty(),
    decreases n,
{
    if n > 0 {
        lemma_concat_empty_blocks::<T>((n - 1) as nat);
        assert(spec_empty_blocks::<T>(n).drop_last() =~= spec_empty_blocks::<T>((n - 1) as nat));
        assert(Seq::<GenericFact<T>>::empty() + spec_empty_blocks::<T>(n).last()
            =~= Seq::<GenericFact<T>>::empty());
    }
}

/// What one schema entry's facts look like before the category prefix:
/// `inner` is the layout's facts for the quad `q`, `mid` carries the
/// leaf's name in front, and a quad that the layout checks for emptiness
/// is not empty.
pub open spec fn spec_leaf_block_facts<T: From<u32> + From<bool> + From<String>>(
    desc: LeafDesc,
    q: CpuidResult,
    inner: Seq<GenericFact<T>>,
    mid: Seq<GenericFact<T>>,
) -> bool {
    &&& desc.data_type.spec_always_present() || !spec_is_empty_leaf(q)
    &&& spec_leaf_facts(desc.data_type, q, inner)
    &&& spec_prefixed(desc.name@ + "/"@, inner, mid)
}

/// One schema entry's contribution to the collection: nothing (the source
/// reported the leaf absent or empty), or the entry's facts for one
/// resolved quad, prefixed with the leaf's name and then the category.
pub open spec fn spec_cpuid_block<T: From<u32> + From<bool> + From<String>>(
    entry: (u32, LeafDesc),
    block: Seq<GenericFact<T>>,
) -> bool {
    block.len() == 0 || exists|q: CpuidResult, inner: Seq<GenericFact<T>>, mid: Seq<
        GenericFact<T>,
    >|
        #[trigger] spec_leaf_block_facts(entry.1, q, inner, mid) && spec_prefixed(
            "cpuid"@ + "/"@,
            mid,
            block,
        )
}

/// The collection is the schema's entries' blocks laid end to end, in
/// schema order, each block as [`spec_cpuid_block`] prescribes.
pub open spec fn spec_cpuid_collection<T: From<u32> + From<bool> + From<String>>(
    cpuids: Seq<(u32, LeafDesc)>,
    r: Seq<GenericFact<T>>,
) -> bool {
    exists|blocks: Seq<Seq<GenericFact<T>>>|
        {
            &&& #[trigger] spec_concat_blocks(blocks) == r
            &&& blocks.len() == cpuids.len()
            &&& forall|k: int|
                0 <= k < blocks.len() ==> spec_cpuid_block(cpuids[k], #[trigger] blocks[k])
        }
}

/// Flatten every present leaf of the schema into facts, each name
/// prefixed with the leaf's name and then the `cpuid` category: one block
/// per schema entry, in schema order; an absent or empty leaf contributes
/// nothing.
pub fn collect_cpuid_facts<C: CpuidDB, T: From<u32> + From<bool> + From<String>>(
    cpuids: &Vec<(u32, LeafDesc)>,
    source: &C,
) -> (r: Vec<GenericFact<T>>)
    ensures
        spec_all_prefixed("cpuid"@ + "/"@, r@),
        spec_obeys_fact_conversions::<T>() ==> spec_cpuid_collection(cpuids@, r@),
{
    let mut out: Vec<GenericFact<T>> = Vec::new();
    let ghost mut blocks: Seq<Seq<GenericFact<T>>> = Seq::empty();
    let mut i: usize = 0;
    while i < cpuids.len()
        invariant
            i <= cpuids@.len(),
            spec_all_prefixed("cpuid"@ + "/"@, out@),
            blocks.len() == i,
            spec_concat_blocks(blocks) == out@,
            spec_obeys_fact_conversions::<T>() ==> forall|k: int|
                0 <= k < i ==> spec_cpuid_block(cpuids@[k], #[trigger] blocks[k]),
        decreases cpuids@.len() - i,
    {
        let ghost blocks_before = blocks;
        let entry = &cpuids[i];
        match entry.1.bind_leaf(entry.0, source) {
            Some(bound) => {
                let ghost out_before = out@;
                let mut facts: Vec<GenericFact<T>> = bound.get_facts();
                let ghost mid = facts@;
                prefix_facts(&mut facts, "cpuid");
                let ghost added = facts@;
                out.append(&mut facts);
                proof {
                    lemma_all_prefixed_append("cpuid"@ + "/"@, out_before, added);
                    assert(out@ == out_before + added);
                    blocks = blocks.push(added);
                    assert(blocks.drop_last() =~= blocks_before);
                    if spec_obeys_fact_conversions::<T>() {
                        let q = bound.sub_leaves@[0];
                        let inner = choose|inner: Seq<GenericFact<T>>|
                            spec_leaf_facts(bound.desc.data_type, q, inner) && spec_prefixed(
                                bound.desc.name@ + "/"@,
                                inner,
                                mid,
                            );
                        assert(spec_leaf_block_facts(cpuids@[i as int].1, q, inner, mid));
                        assert(spec_cpuid_block(cpuids@[i as int], added));
                        assert forall|k: int|
                            0 <= k < i + 1 implies spec_cpuid_block(
                            cpuids@[k],
                            #[trigger] blocks[k],
                        ) by {
                            if k < i {
                                assert(blocks[k] == blocks_before[k]);
                            } else {
                                assert(blocks[k] == added);
                            }
                        }
                    }
                }
            },
            None => {
                proof {
                    blocks = blocks.push(Seq::empty());
                    assert(blocks.drop_last() =~= blocks_before);
                    assert(spec_concat_blocks(blocks_before) + Seq::<GenericFact<T>>::empty()
                        =~= spec_concat_blocks(blocks_before));
                    if spec_obeys_fact_conversions::<T>() {
                        assert forall|k: int|
                            0 <= k < i + 1 implies spec_cpuid_block(
                            cpuids@[k],
                            #[trigger] blocks[k],
                        ) by {
                            if k < i {
                                assert(blocks[k] == blocks_before[k]);
                            } else {
                                assert(blocks[k].len() == 0);
                            }
                        }
                    }
                }
            },
        }
        i = i + 1;
    }
    proof {
        if spec_obeys_fact_conversions::<T>() {
            assert(spec_concat_blocks(blocks) == out@ && blocks.len() == cpuids@.len());
        }
    }
    out
}

/// What one described register's facts look like before the category
/// prefix: one fact per configured field, decoded from the reading `v`
/// and carrying the register's name in front.
pub open spec fn spec_msr_value_facts<T: From<u32> + From<bool>>(
    desc: MSRDesc,
    v: u64,
    mid: Seq<GenericFact<T>>,
) -> bool {
    mid.len() == desc.fields@.len() && forall|i: int|
        0 <= i < desc.fields@.len() ==> spec_field_fact(
            #[trigger] mid[i],
            desc.name@ + "/"@,
            v as Register,
            desc.fields@[i],
        )
}

/// One described register's contribution to the collection: nothing (the
/// store could not serve it), or the facts of one reading of it, prefixed
/// with the register's name and then the category.
pub open spec fn spec_msr_block<T: From<u32> + From<bool>>(
    desc: MSRDesc,
    block: Seq<GenericFact<T>>,
) -> bool {
    block.len() == 0 || exists|v: u64, mid: Seq<GenericFact<T>>|
        #[trigger] spec_msr_value_facts(desc, v, mid) && spec_prefixed("msr"@ + "/"@, mid, block)
}

/// The collection is the described registers' blocks laid end to end, in
/// declaration order, each block as [`spec_msr_block`] prescribes.
pub open spec fn spec_msr_collection<T: From<u32> + From<bool>>(
    msrs: Seq<MSRDesc>,
    r: Seq<GenericFact<T>>,
) -> bool {
    exists|blocks: Seq<Seq<GenericFact<T>>>|
        {
            &&& #[trigger] spec_concat_blocks(blocks) == r
            &&& blocks.len() == msrs.len()
            &&& forall|k: int|
                0 <= k < blocks.len() ==> spec_msr_block(msrs[k], #[trigger] blocks[k])
        }
}

/// Resolve every described model-specific register the store can serve
/// and flatten it into facts, each name prefixed with the register's name
/// and then the `msr` category: one block per described register, in
/// declaration order. An empty store yields no facts; a register the
/// store cannot serve is skipped, and the others continue.
pub fn collect_msr_facts<M: MsrStore, T: From<u32> + From<bool>>(
    msrs: &Vec<MSRDesc>,
    store: &M,
) -> (r: Vec<GenericFact<T>>)
    ensures
        spec_all_prefixed("msr"@ + "/"@, r@),
        store.spec_is_empty() ==> r@.len() == 0,
        <T as FromSpec<u32>>::obeys_from_spec() && <T as FromSpec<bool>>::obeys_from_spec()
            ==> spec_msr_collection(msrs@, r@),
{
    let mut out: Vec<GenericFact<T>> = Vec::new();
    if store.is_empty() {
        proof {
            lemma_concat_empty_blocks::<T>(msrs@.len());
            let blocks = spec_empty_blocks::<T>(msrs@.len());
            assert(spec_concat_blocks(blocks) == out@ && blocks.len() == msrs@.len());
            assert(forall|k: int|
                0 <= k < blocks.len() ==> spec_msr_block(msrs@[k], #[trigger] blocks[k]));
        }
        return out;
    }
    let ghost mut blocks: Seq<Seq<GenericFact<T>>> = Seq::empty();
    let mut i: usize = 0;
    while i < msrs.len()
        invariant
            i <= msrs@.len(),
            spec_all_prefixed("msr"@ + "/"@, out@),
            blocks.len() == i,
            spec_concat_blocks(blocks) == out@,
            <T as FromSpec<u32>>::obeys_from_spec() && <T as FromSpec<bool>>::obeys_from_spec()
                ==> forall|k: int| 0 <= k < i ==> spec_msr_block(msrs@[k], #[trigger] blocks[k]),
        decreases msrs@.len() - i,
    {
        let ghost blocks_before = blocks;
        match store.get_value(&msrs[i]) {
            Ok(value) => {
                let ghost out_before = out@;
                let ghost reading = value.value;
                let mut facts: Vec<GenericFact<T>> = value.collect_facts();
                let ghost mid = facts@;
                prefix_facts(&mut facts, "msr");
                let ghost added = facts@;
                out.append(&mut facts);
                proof {
                    lemma_all_prefixed_append("msr"@ + "/"@, out_before, added);
                    assert(out@ == out_before + added);
                    blocks = blocks.push(added);
                    assert(blocks.drop_last() =~= blocks_before);
                    if <T as FromSpec<u32>>::obeys_from_spec() && <T as FromSpec<
                        bool,
                    >>::obeys_from_spec() {
                        assert(spec_msr_value_facts(msrs@[i as int], reading, mid));
                        assert(spec_msr_block(msrs@[i as int], added));
                        assert forall|k: int|
                            0 <= k < i + 1 implies spec_msr_block(
                            msrs@[k],
                            #[trigger] blocks[k],
                        ) by {
                            if k < i {
                                assert(blocks[k] == blocks_before[k]);
                            } else {
                                assert(blocks[k] == added);
                            }
                        }
                    }
                }
            },
            Err(_) => {
                proof {
                    blocks = blocks.push(Seq::empty());
                    assert(blocks.drop_last() =~= blocks_before);
                    assert(spec_concat_blocks(blocks_before) + Seq::<GenericFact<T>>::empty()
                        =~= spec_concat_blocks(blocks_before));
                    if <T as FromSpec<u32>>::obeys_from_spec() && <T as FromSpec<
                        bool,
                    >>::obeys_from_spec() {
                        assert forall|k: int|
                            0 <= k < i + 1 implies spec_msr_block(
                            msrs@[k],
                            #[trigger] blocks[k],
                        ) by {
                            if k < i {
                                assert(blocks[k] == blocks_before[k]);
                            } else {
                                assert(blocks[k].len() == 0);
                            }
                        }
                    }
                }
            },
        }
        i = i + 1;
    }
    proof {
        if <T as FromSpec<u32>>::obeys_from_spec() && <T as FromSpec<bool>>::obeys_from_spec() {
            assert(spec_concat_blocks(blocks) == out@ && blocks.len() == msrs@.len());
        }
    }
    out
}

/// Flatten the whole schema against a pair of register sources: the
/// category-prefixed leaf facts of every present leaf, in schema order,
/// then the category-prefixed register facts of every servable register,
/// in declaration order. An empty register store contributes nothing and
/// does not prevent the leaf facts from being collected.
pub fn collect_facts<C: CpuidDB, M: MsrStore, T: From<u32> + From<bool> + From<String>>(
    config: &Definition,
    cpuid_source: &C,
    msr_store: &M,
) -> (r: Vec<GenericFact<T>>)
    ensures
        exists|n: int|
            {
                &&& 0 <= n <= r@.len()
                &&& spec_all_prefixed("cpuid"@ + "/"@, #[trigger] r@.take(n))
                &&& spec_all_prefixed("msr"@ + "/"@, r@.skip(n))
                &&& spec_obeys_fact_conversions::<T>() ==> spec_cpuid_collection(
                    config.cpuids@,
                    r@.take(n),
                ) && spec_msr_collection(config.msrs@, r@.skip(n))
            },
        msr_store.spec_is_empty() ==> spec_all_prefixed("cpuid"@ + "/"@, r@)
            && (spec_obeys_fact_conversions::<T>() ==> spec_cpuid_collection(
            config.cpuids@,
            r@,
        )),
{
    let mut ret: Vec<GenericFact<T>> = collect_cpuid_facts(&config.cpuids, cpuid_source);
    let ghost cpuid_part = ret@;
    let mut msr_facts: Vec<GenericFact<T>> = collect_msr_facts(&config.msrs, msr_store);
    let ghost msr_part = msr_facts@;
    ret.append(&mut msr_facts);
    proof {
        let n = cpuid_part.len() as int;
        assert(ret@.take(n) =~= cpuid_part);
        assert(ret@.skip(n) =~= msr_part);
        if msr_store.spec_is_empty() {
            assert(ret@ =~= cpuid_part);
        }
    }
    ret
}

} // verus!
