//! Transfers of different object entries do not disturb each other, however
//! their frames are interleaved.

use vstd::prelude::*;

use crate::handler::get_resp_frame_handler::GetRespFrameHandler;
use crate::handler::get_resp_frame_handler::GetRespView;

verus! {

impl GetRespFrameHandler {
    /// Whether a payload belongs to the state at `slot`.
    pub open spec fn belongs(self, data: u64, slot: int) -> bool {
        self.parsed(data) is Some && self.slot_of(self.parsed(data)->0) == Some(slot)
    }

    /// The states behind a run of payloads, applied in their order.
    pub open spec fn run(self, states: Seq<GetRespView>, payloads: Seq<u64>) -> Seq<GetRespView>
        decreases payloads.len(),
    {
        if payloads.len() == 0 {
            states
        } else {
            self.applied(self.run(states, payloads.drop_last()), payloads.last())
        }
    }

    /// The payloads of a run that belong to the state at `slot`, in their
    /// order.
    pub open spec fn own(self, payloads: Seq<u64>, slot: int) -> Seq<u64>
        decreases payloads.len(),
    {
        if payloads.len() == 0 {
            Seq::empty()
        } else if self.belongs(payloads.last(), slot) {
            self.own(payloads.drop_last(), slot).push(payloads.last())
        } else {
            self.own(payloads.drop_last(), slot)
        }
    }

    /// One payload keeps the states governed, and touches none but the state
    /// that it belongs to.
    pub proof fn lemma_applied(self, states: Seq<GetRespView>, data: u64)
        requires
            self.governs(states),
        ensures
            self.governs(self.applied(states, data)),
            self.applied(states, data).len() == states.len(),
            forall|s: int|
                0 <= s < states.len() && !self.belongs(data, s) ==> self.applied(states, data)[s]
                    == states[s],
            forall|s: int|
                0 <= s < states.len() && self.belongs(data, s) ==> self.applied(states, data)[s]
                    == states[s].after(self.parsed(data)->0),
    {
    }

    /// A run of payloads keeps the states governed and as many as they were.
    pub proof fn lemma_run(self, states: Seq<GetRespView>, payloads: Seq<u64>)
        requires
            self.governs(states),
        ensures
            self.governs(self.run(states, payloads)),
            self.run(states, payloads).len() == states.len(),
        decreases payloads.len(),
    {
        if payloads.len() > 0 {
            self.lemma_run(states, payloads.drop_last());
            self.lemma_applied(self.run(states, payloads.drop_last()), payloads.last());
        }
    }

    /// Transfers of different entries do not disturb each other: however the
    /// payloads of a run are interleaved, the state of an entry behind the run
    /// is the state behind its own payloads alone.
    pub proof fn lemma_interleaving(self, states: Seq<GetRespView>, payloads: Seq<u64>, slot: int)
        requires
            self.governs(states),
            0 <= slot < states.len(),
        ensures
            self.run(states, payloads)[slot] == self.run(states, self.own(payloads, slot))[slot],
        decreases payloads.len(),
    {
        if payloads.len() > 0 {
            let front = payloads.drop_last();
            let data = payloads.last();
            self.lemma_interleaving(states, front, slot);
            self.lemma_run(states, front);
            self.lemma_run(states, self.own(front, slot));
            self.lemma_applied(self.run(states, front), data);
            self.lemma_applied(self.run(states, self.own(front, slot)), data);
            if self.belongs(data, slot) {
                let mine = self.own(front, slot).push(data);
                assert(mine.drop_last() =~= self.own(front, slot));
            }
        }
    }

    /// What a payload does to its entry depends on the entry's own payloads
    /// alone: behind any interleaved run, the payload has the outcome that it
    /// has behind the run's payloads of the same entry.
    pub proof fn lemma_interleaved_outcome(
        self,
        states: Seq<GetRespView>,
        payloads: Seq<u64>,
        data: u64,
        slot: int,
    )
        requires
            self.governs(states),
            0 <= slot < states.len(),
            self.belongs(data, slot),
        ensures
            self.outcome(self.run(states, payloads), data) == self.outcome(
                self.run(states, self.own(payloads, slot)),
                data,
            ),
    {
        self.lemma_interleaving(states, payloads, slot);
    }
}

} // verus!
