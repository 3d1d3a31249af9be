//! The consumer loop's rule: deliver queued messages in order, and stop at
//! the first Quit.
use vstd::prelude::*;
use crate::app_state::StateChangeMessage;

verus! {

/// The host application around the state machine.
pub struct Application;

/// Whether `delivered` is what the consumer hands to the state machine from
/// `queue`: every message before the first Quit, in order, and nothing after.
pub open spec fn delivers(queue: Seq<StateChangeMessage>, delivered: Seq<StateChangeMessage>) -> bool {
    &&& delivered.len() <= queue.len()
    &&& delivered == queue.subrange(0, delivered.len() as int)
    &&& forall|i: int| 0 <= i < delivered.len() ==> delivered[i] != StateChangeMessage::Quit
    &&& delivered.len() < queue.len() ==> queue[delivered.len() as int] == StateChangeMessage::Quit
}

impl Application {
    /// Splits a drained queue into the messages the state machine receives,
    /// and whether the loop must stop because it met a Quit.
    pub fn deliverable(queue: &Vec<StateChangeMessage>) -> (r: (Vec<StateChangeMessage>, bool))
        ensures
            delivers(queue@, r.0@),
            r.1 <==> queue@.contains(StateChangeMessage::Quit),
    {
        let mut delivered: Vec<StateChangeMessage> = Vec::new();
        let mut i: usize = 0;
        while i < queue.len()
            invariant
                i <= queue.len(),
                delivered@ == queue@.subrange(0, i as int),
                forall|j: int| 0 <= j < i ==> queue@[j] != StateChangeMessage::Quit,
            decreases queue.len() - i,
        {
            let message = queue[i];
            if message == StateChangeMessage::Quit {
                assert(queue@.contains(StateChangeMessage::Quit)) by {
                    assert(queue@[i as int] == StateChangeMessage::Quit);
                }
                return (delivered, true);
            }
            delivered.push(message);
            i = i + 1;
            assert(delivered@ =~= queue@.subrange(0, i as int));
        }
        assert(!queue@.contains(StateChangeMessage::Quit));
        (delivered, false)
    }
}

} // verus!
