//! Laws of the builder, stated over the sequences its contracts use.
use vstd::prelude::*;

verus! {

/// Appending text to an empty buffer leaves exactly that text: a builder
/// made by `new`, after `add(t)`, reports `t` from `source`.
pub proof fn lemma_append_to_empty_round_trip(t: Seq<char>)
    ensures
        Seq::<char>::empty() + t == t,
{
    assert(Seq::<char>::empty() + t =~= t);
}

/// Seeding a builder with `seed` and reading it back yields `seed`: the
/// seeded buffer equals `seed`, and `source` reports the buffer unchanged,
/// so the reported text equals the seed.
pub proof fn lemma_seed_round_trip(seed: Seq<char>, buffer: Seq<char>, reported: Seq<char>)
    requires
        buffer == seed,
        reported == buffer,
    ensures
        reported == seed,
{
}

/// Reading the buffer twice without mutation in between yields identical
/// values: each read reports the buffer itself.
pub proof fn lemma_source_idempotent(buffer: Seq<char>, first: Seq<char>, second: Seq<char>)
    requires
        first == buffer,
        second == buffer,
    ensures
        first == second,
{
}

/// Chaining is plain concatenation: appending `first` and then `second`
/// leaves the same buffer as appending their concatenation at once, so the
/// order of calls has no hidden effect on the result.
pub proof fn lemma_chained_appends_associative(buffer: Seq<char>, first: Seq<char>, second: Seq<char>)
    ensures
        (buffer + first) + second == buffer + (first + second),
{
    assert((buffer + first) + second =~= buffer + (first + second));
}

} // verus!
