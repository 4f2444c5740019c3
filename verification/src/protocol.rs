//! The refresh protocol: how samples, taken in one after another, decide the
//! raw count that a counter holds.

use vstd::prelude::*;

verus! {

/// The raw count held once `sample` has been taken in: the sample's own raw
/// count where the read succeeded, and the count held before where it failed.
pub open spec fn held_after<Raw, E>(held: Raw, sample: Result<Raw, E>) -> Raw {
    match sample {
        Ok(raw) => raw,
        Err(_) => held,
    }
}

/// What a refresh reports of its sample: success, or the sample's own error.
pub open spec fn report_of<Raw, E>(sample: Result<Raw, E>) -> Result<(), E> {
    match sample {
        Ok(_) => Ok(()),
        Err(error) => Err(error),
    }
}

/// The raw count held once every sample of `samples` has been taken in, in
/// order, starting from `held`.
pub open spec fn held_after_all<Raw, E>(held: Raw, samples: Seq<Result<Raw, E>>) -> Raw
    decreases samples.len(),
{
    if samples.len() == 0 {
        held
    } else {
        held_after(held_after_all(held, samples.drop_last()), samples.last())
    }
}

/// Failed reads change nothing: a counter that has taken in failures only
/// still holds the count it started with.
pub proof fn lemma_failures_keep_count<Raw, E>(held: Raw, samples: Seq<Result<Raw, E>>)
    requires
        forall|i: int| 0 <= i < samples.len() ==> samples[i] is Err,
    ensures
        held_after_all(held, samples) == held,
    decreases samples.len(),
{
    if samples.len() > 0 {
        lemma_failures_keep_count(held, samples.drop_last());
    }
}

/// The last successful read decides: whatever came before it, and however
/// many failures came after, the counter holds the raw count of that read.
pub proof fn lemma_last_success_is_held<Raw, E>(
    held: Raw,
    samples: Seq<Result<Raw, E>>,
    last: int,
    raw: Raw,
)
    requires
        0 <= last < samples.len(),
        samples[last] == Ok::<Raw, E>(raw),
        forall|i: int| last < i < samples.len() ==> samples[i] is Err,
    ensures
        held_after_all(held, samples) == raw,
    decreases samples.len(),
{
    if last < samples.len() - 1 {
        lemma_last_success_is_held(held, samples.drop_last(), last, raw);
    }
}

/// A counter never holds a count that no read delivered: after any run of
/// samples it holds either the count it started with or the raw count of one
/// of the successful reads.
pub proof fn lemma_held_count_was_read<Raw, E>(held: Raw, samples: Seq<Result<Raw, E>>)
    ensures
        held_after_all(held, samples) == held || exists|i: int|
            0 <= i < samples.len() && samples[i] == Ok::<Raw, E>(held_after_all(held, samples)),
    decreases samples.len(),
{
    if samples.len() > 0 {
        let earlier = samples.drop_last();
        lemma_held_count_was_read(held, earlier);
        let now = held_after_all(held, samples);
        match samples.last() {
            Ok(raw) => {
                assert(samples[samples.len() - 1] == Ok::<Raw, E>(now));
            },
            Err(_) => {
                if held_after_all(held, earlier) != held {
                    let i: int = choose|i: int|
                        0 <= i < earlier.len() && earlier[i] == Ok::<Raw, E>(
                            held_after_all(held, earlier),
                        );
                    assert(samples[i] == Ok::<Raw, E>(now));
                }
            },
        }
    }
}

} // verus!
