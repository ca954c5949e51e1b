//! Which layers of the ancestor a detached timeline needs.

use vstd::prelude::*;

use crate::ids::{Generation, Lsn};
use crate::seqs::lemma_filter_take;

verus! {

/// A key of the page store, which is only handed on.
#[derive(Debug, Clone, Copy)]
pub struct Key {
    pub bytes: [u8; 18],
}

/// What a layer covers: a range of keys, and a range of log positions from `lsn_start` up
/// to but not including `lsn_end`. A delta layer holds changes, any other holds images.
#[derive(Debug, Clone, Copy)]
pub struct LayerDesc {
    pub key_start: Key,
    pub key_end: Key,
    pub lsn_start: Lsn,
    pub lsn_end: Lsn,
    pub is_delta: bool,
}

impl LayerDesc {
    /// Whether everything in the layer came after the branch point.
    pub open spec fn is_later(self, ancestor_lsn: Lsn) -> bool {
        self.lsn_start.value > ancestor_lsn.value
    }

    /// Whether the layer holds changes from both sides of the branch point.
    pub open spec fn straddles(self, ancestor_lsn: Lsn) -> bool {
        self.is_delta && self.lsn_start.value <= ancestor_lsn.value < self.lsn_end.value
    }

    /// Whether the layer can be taken over as it is.
    pub open spec fn is_historic(self, ancestor_lsn: Lsn) -> bool {
        !self.is_later(ancestor_lsn) && !self.straddles(ancestor_lsn)
    }
}

/// The layers that have to be cut at the branch point.
pub open spec fn straddling(layers: Seq<LayerDesc>, ancestor_lsn: Lsn) -> Seq<LayerDesc> {
    layers.filter(|d: LayerDesc| d.straddles(ancestor_lsn))
}

/// The layers that are taken over as they are.
pub open spec fn historic(layers: Seq<LayerDesc>, ancestor_lsn: Lsn) -> Seq<LayerDesc> {
    layers.filter(|d: LayerDesc| d.is_historic(ancestor_lsn))
}

/// The layers that are left behind.
pub open spec fn later(layers: Seq<LayerDesc>, ancestor_lsn: Lsn) -> Seq<LayerDesc> {
    layers.filter(|d: LayerDesc| d.is_later(ancestor_lsn))
}

/// Sorts the layers of the ancestor by what is to be done with them: how many came later
/// than the branch point, which straddle it, and the rest of the historic ones.
pub fn partition_work(ancestor_lsn: Lsn, source: &Vec<LayerDesc>) -> (r: (
    usize,
    Vec<LayerDesc>,
    Vec<LayerDesc>,
))
    ensures
        r.0 == later(source@, ancestor_lsn).len(),
        r.1@ == straddling(source@, ancestor_lsn),
        r.2@ == historic(source@, ancestor_lsn),
{
    let mut straddling_branchpoint: Vec<LayerDesc> = Vec::new();
    let mut rest_of_historic: Vec<LayerDesc> = Vec::new();
    let mut later_by_lsn: usize = 0;
    let ghost is_later = |d: LayerDesc| d.is_later(ancestor_lsn);
    let ghost straddles = |d: LayerDesc| d.straddles(ancestor_lsn);
    let ghost is_historic = |d: LayerDesc| d.is_historic(ancestor_lsn);
    proof {
        crate::seqs::lemma_filter_empty(source@.take(0), is_later);
        crate::seqs::lemma_filter_empty(source@.take(0), straddles);
        crate::seqs::lemma_filter_empty(source@.take(0), is_historic);
    }
    for i in 0..source.len()
        invariant
            is_later == (|d: LayerDesc| d.is_later(ancestor_lsn)),
            straddles == (|d: LayerDesc| d.straddles(ancestor_lsn)),
            is_historic == (|d: LayerDesc| d.is_historic(ancestor_lsn)),
            later_by_lsn == source@.take(i as int).filter(is_later).len(),
            later_by_lsn <= i,
            straddling_branchpoint@ == source@.take(i as int).filter(straddles),
            rest_of_historic@ == source@.take(i as int).filter(is_historic),
    {
        proof {
            lemma_filter_take(source@, is_later, i as int);
            lemma_filter_take(source@, straddles, i as int);
            lemma_filter_take(source@, is_historic, i as int);
        }
        let desc = source[i];
        // off by one chances here:
        // - start is inclusive
        // - end is exclusive
        if desc.lsn_start.value > ancestor_lsn.value {
            later_by_lsn = later_by_lsn + 1;
        } else if desc.lsn_end.value > ancestor_lsn.value && desc.is_delta {
            straddling_branchpoint.push(desc);
        } else {
            rest_of_historic.push(desc);
        }
    }
    assert(source@.take(source.len() as int) =~= source@);
    (later_by_lsn, straddling_branchpoint, rest_of_historic)
}

/// Every layer of the ancestor is left behind, cut, or taken over, and only one of these.
pub proof fn law_partition_is_complete(layers: Seq<LayerDesc>, ancestor_lsn: Lsn)
    ensures
        later(layers, ancestor_lsn).to_multiset().add(
            straddling(layers, ancestor_lsn).to_multiset(),
        ).add(historic(layers, ancestor_lsn).to_multiset()) == layers.to_multiset(),
        later(layers, ancestor_lsn).len() + straddling(layers, ancestor_lsn).len() + historic(
            layers,
            ancestor_lsn,
        ).len() == layers.len(),
    decreases layers.len(),
{
    broadcast use vstd::multiset::group_multiset_axioms;
    broadcast use vstd::seq_lib::group_to_multiset_ensures;

    let is_later = |d: LayerDesc| d.is_later(ancestor_lsn);
    let straddles = |d: LayerDesc| d.straddles(ancestor_lsn);
    let is_historic = |d: LayerDesc| d.is_historic(ancestor_lsn);
    if layers.len() == 0 {
        crate::seqs::lemma_filter_empty(layers, is_later);
        crate::seqs::lemma_filter_empty(layers, straddles);
        crate::seqs::lemma_filter_empty(layers, is_historic);
        assert(layers =~= Seq::empty());
        assert(later(layers, ancestor_lsn).to_multiset().add(
            straddling(layers, ancestor_lsn).to_multiset(),
        ).add(historic(layers, ancestor_lsn).to_multiset()) =~= layers.to_multiset());
    } else {
        let init = layers.drop_last();
        let e = layers.last();
        law_partition_is_complete(init, ancestor_lsn);
        assert(layers =~= init.push(e));
        crate::seqs::lemma_filter_push(init, is_later, e);
        crate::seqs::lemma_filter_push(init, straddles, e);
        crate::seqs::lemma_filter_push(init, is_historic, e);
        assert(later(layers, ancestor_lsn).to_multiset().add(
            straddling(layers, ancestor_lsn).to_multiset(),
        ).add(historic(layers, ancestor_lsn).to_multiset()) =~= layers.to_multiset());
    }
}

/// Where a layer goes is decided by where it lies. One that starts behind the branch point is
/// left behind; a delta layer that starts no later than the branch point and ends behind it is
/// cut; everything else that starts no later is taken over. The order of the layers is kept.
pub proof fn law_layers_by_position(layers: Seq<LayerDesc>, ancestor_lsn: Lsn)
    ensures
        later(layers, ancestor_lsn) == layers.filter(
            |d: LayerDesc| d.lsn_start.value > ancestor_lsn.value,
        ),
        straddling(layers, ancestor_lsn) == layers.filter(
            |d: LayerDesc|
                d.is_delta && d.lsn_start.value <= ancestor_lsn.value && d.lsn_end.value
                    > ancestor_lsn.value,
        ),
        historic(layers, ancestor_lsn) == layers.filter(
            |d: LayerDesc|
                d.lsn_start.value <= ancestor_lsn.value && (!d.is_delta || d.lsn_end.value
                    <= ancestor_lsn.value),
        ),
{
    let is_later = |d: LayerDesc| d.is_later(ancestor_lsn);
    let straddles = |d: LayerDesc| d.straddles(ancestor_lsn);
    let is_historic = |d: LayerDesc| d.is_historic(ancestor_lsn);
    assert(is_later =~= (|d: LayerDesc| d.lsn_start.value > ancestor_lsn.value));
    assert(straddles =~= (|d: LayerDesc|
        d.is_delta && d.lsn_start.value <= ancestor_lsn.value && d.lsn_end.value
            > ancestor_lsn.value));
    assert(is_historic =~= (|d: LayerDesc|
        d.lsn_start.value <= ancestor_lsn.value && (!d.is_delta || d.lsn_end.value
            <= ancestor_lsn.value)));
}

/// Nothing that the detached timeline needs is left behind, and nothing else is taken: a layer
/// is cut or taken over if and only if it starts no later than the branch point, and it is cut
/// only if it is a delta layer that ends behind it. Only layers of the ancestor are taken.
pub proof fn law_nothing_needed_is_left_behind(layers: Seq<LayerDesc>, ancestor_lsn: Lsn)
    ensures
        forall|i: int|
            0 <= i < layers.len() ==> {
                let d = #[trigger] layers[i];
                let cut = straddling(layers, ancestor_lsn).contains(d);
                let taken = historic(layers, ancestor_lsn).contains(d);
                &&& (cut || taken) <==> d.lsn_start.value <= ancestor_lsn.value
                &&& cut <==> (d.is_delta && d.lsn_start.value <= ancestor_lsn.value
                    && d.lsn_end.value > ancestor_lsn.value)
                &&& !(cut && taken)
                &&& later(layers, ancestor_lsn).contains(d) <==> d.lsn_start.value
                    > ancestor_lsn.value
            },
        forall|i: int|
            0 <= i < straddling(layers, ancestor_lsn).len() ==> layers.contains(
                #[trigger] straddling(layers, ancestor_lsn)[i],
            ),
        forall|i: int|
            0 <= i < historic(layers, ancestor_lsn).len() ==> layers.contains(
                #[trigger] historic(layers, ancestor_lsn)[i],
            ),
{
    let is_later = |d: LayerDesc| d.is_later(ancestor_lsn);
    let straddles = |d: LayerDesc| d.straddles(ancestor_lsn);
    let is_historic = |d: LayerDesc| d.is_historic(ancestor_lsn);
    assert forall|i: int| 0 <= i < layers.len() implies {
        let d = #[trigger] layers[i];
        let cut = straddling(layers, ancestor_lsn).contains(d);
        let taken = historic(layers, ancestor_lsn).contains(d);
        &&& (cut || taken) <==> d.lsn_start.value <= ancestor_lsn.value
        &&& cut <==> (d.is_delta && d.lsn_start.value <= ancestor_lsn.value && d.lsn_end.value
            > ancestor_lsn.value)
        &&& !(cut && taken)
        &&& later(layers, ancestor_lsn).contains(d) <==> d.lsn_start.value > ancestor_lsn.value
    } by {
        crate::seqs::lemma_filter_contains(layers, is_later, i);
        crate::seqs::lemma_filter_contains(layers, straddles, i);
        crate::seqs::lemma_filter_contains(layers, is_historic, i);
    }
    assert forall|i: int| 0 <= i < straddling(layers, ancestor_lsn).len() implies layers.contains(
        #[trigger] straddling(layers, ancestor_lsn)[i],
    ) by {
        crate::seqs::lemma_filter_member(layers, straddles, i);
    }
    assert forall|i: int| 0 <= i < historic(layers, ancestor_lsn).len() implies layers.contains(
        #[trigger] historic(layers, ancestor_lsn)[i],
    ) by {
        crate::seqs::lemma_filter_member(layers, is_historic, i);
    }
}

/// Moving the branch point forward leaves less behind: what is needed for one branch point is
/// needed for every later one.
pub proof fn law_later_branch_point_needs_more(d: LayerDesc, a: Lsn, b: Lsn)
    requires
        a.value <= b.value,
    ensures
        d.straddles(a) || d.is_historic(a) ==> d.straddles(b) || d.is_historic(b),
        d.is_later(b) ==> d.is_later(a),
        d.is_historic(a) && d.is_delta ==> d.is_historic(b),
{
}

/// A delta layer that is taken over as it is ends at the branch point or before it: it
/// holds no change that the detached timeline must not see.
pub proof fn law_adopted_deltas_end_at_branchpoint(
    layers: Seq<LayerDesc>,
    ancestor_lsn: Lsn,
    i: int,
)
    requires
        0 <= i < historic(layers, ancestor_lsn).len(),
    ensures
        historic(layers, ancestor_lsn)[i].lsn_start.value <= ancestor_lsn.value,
        historic(layers, ancestor_lsn)[i].is_delta ==> historic(layers, ancestor_lsn)[i].lsn_end.value
            <= ancestor_lsn.value,
{
    crate::seqs::lemma_filter_member(
        layers,
        |d: LayerDesc| d.is_historic(ancestor_lsn),
        i,
    );
}

/// What the store keeps about a layer: its generation, and whatever else.
#[derive(Debug)]
pub struct LayerMetadata<R> {
    pub generation: Generation,
    pub rest: R,
}

/// The layer that an adopting timeline gets for a layer of its ancestor.
#[derive(Debug)]
pub struct AdoptedLayer<R> {
    pub desc: LayerDesc,
    pub metadata: LayerMetadata<R>,
}

/// The layer that stands for `adopted` in the adopting timeline: it covers the same, and
/// belongs to the adopting timeline's generation.
pub fn adopt<R>(adopted: LayerDesc, metadata: LayerMetadata<R>, generation: Generation) -> (r:
    AdoptedLayer<R>)
    requires
        metadata.generation.value <= generation.value,
    ensures
        r.desc == adopted,
        r.metadata.generation == generation,
        r.metadata.rest == metadata.rest,
{
    AdoptedLayer { desc: adopted, metadata: LayerMetadata { generation, rest: metadata.rest } }
}

} // verus!
