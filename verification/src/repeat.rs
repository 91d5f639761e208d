//! The layer-repeat table: run lengths unrolled into one physical layer per
//! logical slot.

use vstd::prelude::*;

verus! {

/// The number of logical slots that the first `upto` run lengths cover.
pub open spec fn slot_offset(repeats: Seq<usize>, upto: int) -> int
    decreases upto,
{
    if upto <= 0 {
        0
    } else {
        slot_offset(repeats, upto - 1) + repeats[upto - 1]
    }
}

/// The lookup table of a list of run lengths: for each layer in turn, as
/// many entries as its run length, all equal to the layer's index.
pub open spec fn unroll(repeats: Seq<usize>) -> Seq<usize>
    decreases repeats.len(),
{
    if repeats.len() == 0 {
        Seq::empty()
    } else {
        unroll(repeats.drop_last()) + Seq::new(
            repeats.last() as nat,
            |k: int| (repeats.len() - 1) as usize,
        )
    }
}

/// Run lengths beyond `upto` do not move the offset of `upto`.
pub proof fn lemma_slot_offset_prefix(repeats: Seq<usize>, n: int, upto: int)
    requires
        0 <= upto <= n <= repeats.len(),
    ensures
        slot_offset(repeats.take(n), upto) == slot_offset(repeats, upto),
    decreases upto,
{
    if upto > 0 {
        lemma_slot_offset_prefix(repeats, n, upto - 1);
    }
}

/// Offsets never decrease from one layer to a later one.
pub proof fn lemma_slot_offset_monotonic(repeats: Seq<usize>, i: int, j: int)
    requires
        0 <= i <= j,
    ensures
        0 <= slot_offset(repeats, i) <= slot_offset(repeats, j),
    decreases j,
{
    if i < j {
        lemma_slot_offset_monotonic(repeats, i, j - 1);
    } else if i > 0 {
        lemma_slot_offset_monotonic(repeats, i - 1, j - 1);
    }
}

/// The table has one entry for each logical slot: its length is the sum of
/// the run lengths.
pub proof fn lemma_unroll_len(repeats: Seq<usize>)
    ensures
        unroll(repeats).len() == slot_offset(repeats, repeats.len() as int),
    decreases repeats.len(),
{
    if repeats.len() > 0 {
        let n = repeats.len() as int;
        assert(repeats.drop_last() == repeats.take(n - 1));
        lemma_unroll_len(repeats.drop_last());
        lemma_slot_offset_prefix(repeats, n - 1, n - 1);
    }
}

/// The `k`-th slot of layer `i`'s run resolves to layer `i`.
pub proof fn lemma_unroll_slot(repeats: Seq<usize>, i: int, k: int)
    requires
        repeats.len() <= usize::MAX,
        0 <= i < repeats.len(),
        0 <= k < repeats[i],
    ensures
        0 <= slot_offset(repeats, i) + k < unroll(repeats).len(),
        unroll(repeats)[slot_offset(repeats, i) + k] == i,
    decreases repeats.len(),
{
    let n = repeats.len() as int;
    let head = repeats.drop_last();
    let run = Seq::new(repeats.last() as nat, |j: int| (repeats.len() - 1) as usize);
    assert(head == repeats.take(n - 1));
    assert(unroll(repeats) == unroll(head) + run);
    lemma_unroll_len(head);
    lemma_slot_offset_prefix(repeats, n - 1, n - 1);
    lemma_slot_offset_monotonic(repeats, 0, i);
    if i < n - 1 {
        lemma_unroll_slot(head, i, k);
        lemma_slot_offset_prefix(repeats, n - 1, i);
    } else {
        assert(run[k] == i);
    }
}

/// Every entry of the table names a layer, and the slot lies inside that
/// layer's run.
pub proof fn lemma_unroll_entry(repeats: Seq<usize>, slot: int)
    requires
        repeats.len() <= usize::MAX,
        0 <= slot < unroll(repeats).len(),
    ensures
        0 <= unroll(repeats)[slot] < repeats.len(),
        slot_offset(repeats, unroll(repeats)[slot] as int) <= slot < slot_offset(
            repeats,
            unroll(repeats)[slot] as int + 1,
        ),
    decreases repeats.len(),
{
    let n = repeats.len() as int;
    if n > 0 {
        let head = repeats.drop_last();
        let run = Seq::new(repeats.last() as nat, |j: int| (repeats.len() - 1) as usize);
        assert(head == repeats.take(n - 1));
        assert(unroll(repeats) == unroll(head) + run);
        lemma_unroll_len(head);
        lemma_unroll_len(repeats);
        lemma_slot_offset_prefix(repeats, n - 1, n - 1);
        if slot < unroll(head).len() {
            lemma_unroll_entry(head, slot);
            let i = unroll(head)[slot] as int;
            lemma_slot_offset_prefix(repeats, n - 1, i);
            lemma_slot_offset_prefix(repeats, n - 1, i + 1);
        } else {
            assert(unroll(repeats)[slot] == run[slot - unroll(head).len()]);
        }
    }
}

/// Unrolls a list of run lengths into its lookup table.
pub fn compute_tile_layers(layer_repeats: &Vec<usize>) -> (table: Vec<usize>)
    ensures
        table@ == unroll(layer_repeats@),
{
    let mut table: Vec<usize> = Vec::new();
    let mut i: usize = 0;
    while i < layer_repeats.len()
        invariant
            i <= layer_repeats.len(),
            table@ == unroll(layer_repeats@.take(i as int)),
        decreases layer_repeats.len() - i,
    {
        let run: usize = layer_repeats[i];
        let ghost before = table@;
        let mut k: usize = 0;
        while k < run
            invariant
                k <= run,
                table@ == before + Seq::new(k as nat, |j: int| i),
            decreases run - k,
        {
            table.push(i);
            k += 1;
        }
        proof {
            let next = layer_repeats@.take(i + 1);
            assert(next.drop_last() == layer_repeats@.take(i as int));
            assert(next.last() == run);
            assert(Seq::new(run as nat, |j: int| i) == Seq::new(
                next.last() as nat,
                |j: int| (next.len() - 1) as usize,
            ));
        }
        i += 1;
    }
    assert(layer_repeats@.take(i as int) == layer_repeats@);
    table
}

} // verus!
