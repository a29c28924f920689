use crate::touch::MTTouch;
use vstd::prelude::*;

verus! {

/// What the panic boundary around one handler invocation reports back to
/// the bridge.
#[derive(Debug, Clone, Copy, PartialEq, Eq, Structural)]
pub enum HandlerOutcome {
    /// The handler returned normally.
    Completed,
    /// The handler ended abnormally and the boundary contained the unwind
    /// before it could cross into the native caller's frames.
    Panicked,
}

/// The return code the bridge reports to the native caller for one
/// invocation: the success sentinel 0 for a completed handler, the
/// distinct failure sentinel -1 for a contained abnormal exit.
pub open spec fn spec_return_code(outcome: HandlerOutcome) -> int {
    match outcome {
        HandlerOutcome::Completed => 0,
        HandlerOutcome::Panicked => -1,
    }
}

/// Convert the panic boundary's report into the native result convention.
/// The success code 0 is returned exactly when the handler completed; a
/// contained panic maps to -1, one-way signaling to the native caller,
/// which is all the native convention can carry.
pub fn frame_return_code(outcome: HandlerOutcome) -> (code: i32)
    ensures
        code == spec_return_code(outcome),
        (code == 0) <==> outcome == HandlerOutcome::Completed,
{
    match outcome {
        HandlerOutcome::Completed => 0,
        HandlerOutcome::Panicked => -1,
    }
}

/// Whether a native record count names a deliverable batch. Only a
/// positive count does: for a zero count — a legitimate, empty frame, not
/// a fault — and for a nonsensical negative count, the record pointer must
/// not be dereferenced and the handler must not be invoked.
pub fn has_records(fingers: i32) -> (r: bool)
    ensures
        r == (fingers > 0),
{
    fingers > 0
}

/// The handler invocations one native callback produces in the
/// direct-handler variant: none for an empty batch, otherwise exactly one
/// invocation carrying the whole batch in native array order — records are
/// never reordered, deduplicated, or split across invocations.
pub open spec fn spec_deliveries(fingers: int, batch: Seq<MTTouch>) -> Seq<Seq<MTTouch>> {
    if fingers <= 0 {
        Seq::empty()
    } else {
        seq![batch]
    }
}

/// A zero-count callback invokes the handler zero times and enqueues zero
/// messages, whatever stale records sit behind the (untouched) pointer.
pub proof fn lemma_zero_count_delivers_nothing(batch: Seq<MTTouch>)
    ensures
        spec_deliveries(0, batch) == Seq::<Seq<MTTouch>>::empty(),
{
}

/// The handler invocations a whole run of bridge callbacks produces for
/// one device, in invocation order. Each call is recorded as the native
/// record count, the marshalled batch, and the outcome the panic boundary
/// reported for the handler.
pub open spec fn spec_session_deliveries(
    calls: Seq<(int, Seq<MTTouch>, HandlerOutcome)>,
) -> Seq<Seq<MTTouch>>
    decreases calls.len(),
{
    if calls.len() == 0 {
        Seq::empty()
    } else {
        spec_session_deliveries(calls.drop_last()) + spec_deliveries(
            calls.last().0,
            calls.last().1,
        )
    }
}

/// Panic containment is invisible to later deliveries: what a session of
/// bridge callbacks delivers is a function of the record counts and
/// batches alone. Two runs that differ only in handler outcomes — say, a
/// handler that panicked on some batch in one run and completed in the
/// other — deliver exactly the same batches, so a panic on one batch never
/// keeps the next batch from being delivered.
pub proof fn lemma_outcomes_do_not_affect_deliveries(
    calls1: Seq<(int, Seq<MTTouch>, HandlerOutcome)>,
    calls2: Seq<(int, Seq<MTTouch>, HandlerOutcome)>,
)
    requires
        calls1.len() == calls2.len(),
        forall|i: int|
            0 <= i < calls1.len() ==> #[trigger] calls1[i].0 == calls2[i].0 && calls1[i].1
                == calls2[i].1,
    ensures
        spec_session_deliveries(calls1) == spec_session_deliveries(calls2),
    decreases calls1.len(),
{
    if calls1.len() > 0 {
        assert(forall|i: int|
            0 <= i < calls1.drop_last().len() ==> #[trigger] calls1.drop_last()[i].0
                == calls2.drop_last()[i].0 && calls1.drop_last()[i].1 == calls2.drop_last()[i].1);
        lemma_outcomes_do_not_affect_deliveries(calls1.drop_last(), calls2.drop_last());
        assert(calls1.last().0 == calls2.last().0 && calls1.last().1 == calls2.last().1);
    }
}

/// Channel variant of delivery: fan one batch out into the queue, one
/// message per touch record, appended in the batch's native order. An
/// empty batch enqueues nothing, and what was queued before is untouched.
pub fn enqueue_batch(queue: &mut Vec<MTTouch>, batch: &Vec<MTTouch>)
    ensures
        final(queue)@ == old(queue)@ + batch@,
{
    let mut idx: usize = 0;
    while idx < batch.len()
        invariant
            idx <= batch.len(),
            queue@ == old(queue)@ + batch@.subrange(0, idx as int),
        decreases batch.len() - idx,
    {
        queue.push(batch[idx]);
        idx = idx + 1;
    }
    proof {
        assert(queue@ =~= old(queue)@ + batch@);
    }
}

/// Fanning a batch out preserves every record byte-for-byte and in order:
/// the i-th message appended for a batch is exactly the i-th record of the
/// batch.
pub proof fn lemma_batches_preserved_by_enqueue(q0: Seq<MTTouch>, batch: Seq<MTTouch>)
    ensures
        forall|i: int| 0 <= i < batch.len() ==> #[trigger] (q0 + batch)[q0.len() + i] == batch[i],
{
}

} // verus!
