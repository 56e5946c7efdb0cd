use vstd::prelude::*;

verus! {

/// Persistent per-emitter counter. One such account exists for every
/// emitter that has ever published; it is created lazily with value 0 and
/// `value` then only ever grows, by exactly 1 per successful publish.
#[derive(Clone, Copy, Debug)]
pub struct EmitterSequence {
    pub value: u64,
}

impl EmitterSequence {
    /// A freshly created (zero-initialized) tracker.
    pub fn new() -> (r: EmitterSequence)
        ensures
            r.value == 0,
    {
        EmitterSequence { value: 0 }
    }

    /// The sequence number the next publish for this emitter will get.
    pub fn get_current(&self) -> (r: u64)
        ensures
            r == self.value,
    {
        self.value
    }

    /// Hand out the current sequence number and advance the counter.
    pub fn allocate_next(&mut self) -> (r: u64)
        requires
            old(self).value < u64::MAX,
        ensures
            r == old(self).value,
            final(self).value == old(self).value + 1,
    {
        let r = self.value;
        self.value = self.value + 1;
        r
    }
}

/// How many of the first `i` publishes in the trace were made by `e`.
pub open spec fn count_for_emitter(emitters: Seq<Seq<u8>>, e: Seq<u8>, i: int) -> int
    decreases i,
{
    if i <= 0 {
        0
    } else {
        count_for_emitter(emitters, e, i - 1) + if emitters[i - 1] == e {
            1int
        } else {
            0int
        }
    }
}

/// One interleaved run of successful publishes over any number of
/// emitters: `emitters[i]` made the i-th publish and was handed sequence
/// number `seqs[i]`; `states[i]` maps each emitter to its tracker value
/// before the i-th publish. Each step is exactly what a successful publish
/// ensures: the caller is handed its own tracker's current value and only
/// that tracker is advanced, by 1. Trackers start at 0.
pub open spec fn publish_trace_ok(
    emitters: Seq<Seq<u8>>,
    seqs: Seq<int>,
    states: Seq<Map<Seq<u8>, int>>,
) -> bool {
    &&& states.len() == emitters.len() + 1
    &&& seqs.len() == emitters.len()
    &&& forall|e: Seq<u8>| states[0].dom().contains(e) && #[trigger] states[0][e] == 0
    &&& forall|i: int|
        0 <= i < emitters.len() ==> #[trigger] seqs[i] == states[i][emitters[i]]
    &&& forall|i: int|
        0 <= i < emitters.len() ==> #[trigger] states[i + 1] == states[i].insert(
            emitters[i],
            states[i][emitters[i]] + 1,
        )
}

proof fn lemma_state_counts(
    emitters: Seq<Seq<u8>>,
    seqs: Seq<int>,
    states: Seq<Map<Seq<u8>, int>>,
    i: int,
    e: Seq<u8>,
)
    requires
        publish_trace_ok(emitters, seqs, states),
        0 <= i <= emitters.len(),
    ensures
        states[i].dom().contains(e),
        states[i][e] == count_for_emitter(emitters, e, i),
    decreases i,
{
    if i == 0 {
        assert(states[0][e] == 0);
        assert(states[0].dom().contains(e));
    } else {
        let j = i - 1;
        lemma_state_counts(emitters, seqs, states, j, e);
        assert(states[j + 1] == states[j].insert(emitters[j], states[j][emitters[j]] + 1));
        assert(states[i] == states[j + 1]);
        if e == emitters[j] {
            assert(states[i][e] == states[j][e] + 1);
        } else {
            assert(states[i][e] == states[j][e]);
        }
    }
}

/// Law: in any interleaved run of successful publishes, the sequence
/// number handed to the i-th publish equals the number of earlier
/// publishes by the same emitter. In particular the Nth successful
/// publish for an emitter is handed N-1, starting from 0, no matter which
/// instruction variant made each call and no matter how calls of
/// different emitters interleave.
pub proof fn lemma_nth_publish_sequence(
    emitters: Seq<Seq<u8>>,
    seqs: Seq<int>,
    states: Seq<Map<Seq<u8>, int>>,
)
    requires
        publish_trace_ok(emitters, seqs, states),
    ensures
        forall|i: int|
            0 <= i < emitters.len() ==> #[trigger] seqs[i] == count_for_emitter(
                emitters,
                emitters[i],
                i,
            ),
{
    assert forall|i: int| 0 <= i < emitters.len() implies #[trigger] seqs[i] == count_for_emitter(
        emitters,
        emitters[i],
        i,
    ) by {
        lemma_state_counts(emitters, seqs, states, i, emitters[i]);
    }
}

} // verus!
