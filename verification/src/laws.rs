//! What holds of every counter, whatever type plays the role.

use vstd::prelude::*;
use crate::counter::{can_read, CountRaw, Counter};
use crate::reader::CountReader;

verus! {

/// Conversion has no hidden state: measuring the same raw count twice gives
/// the same measure both times.
pub proof fn lemma_measure_count_repeats<C: Counter>(
    raw: CountRaw<C>,
    first: C::Measure,
    second: C::Measure,
)
    requires
        call_ensures(C::measure_count, (&raw,), first),
        call_ensures(C::measure_count, (&raw,), second),
    ensures
        first == second,
{
}

/// The measure of a counter's state is the measure of the raw count that the
/// counter shows.
pub proof fn lemma_state_measure_is_measure_of_state<C: Counter>(
    counter: C,
    shown: &CountRaw<C>,
    of_state: C::Measure,
    of_shown: C::Measure,
)
    requires
        call_ensures(C::read_count_state, (&counter,), shown),
        call_ensures(C::measure_count_state, (&counter,), of_state),
        call_ensures(C::measure_count, (shown,), of_shown),
    ensures
        of_state == of_shown,
{
}

/// A refresh that fails preserves the state: the counter holds the raw count
/// that it held before, and measures as it did before.
pub proof fn lemma_failed_refresh_keeps_state<C: Counter>(
    counter: &mut C,
    error: <C::Reader as CountReader>::ReadErr,
    before: C::Measure,
    after: C::Measure,
)
    requires
        call_ensures(C::try_update_count, (counter,), Err(error)),
        call_ensures(C::measure_count_state, (&*old(counter),), before),
        call_ensures(C::measure_count_state, (&*final(counter),), after),
    ensures
        final(counter).count_state() == old(counter).count_state(),
        after == before,
        can_read::<C::Reader>(Err(error)),
{
}

/// A refresh that succeeds applies a raw count that was read: what the
/// counter shows right after it is a raw count that the reader delivered.
pub proof fn lemma_refreshed_count_was_read<C: Counter>(counter: &mut C, shown: &CountRaw<C>)
    requires
        call_ensures(C::try_update_count, (counter,), Ok(())),
        call_ensures(C::read_count_state, (&*final(counter),), shown),
    ensures
        can_read::<C::Reader>(Ok(*shown)),
{
}

} // verus!
