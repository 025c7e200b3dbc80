//! Bookkeeping for one relay direction.
//!
//! After the acknowledgement the tunnel is two independent copy loops,
//! one per direction. Each loop alternates a read from its source with a
//! write of exactly the bytes read to its sink, until the source reports
//! end-of-stream or either side fails. `RelayDirection` is the verified
//! ledger of one such loop: it decides what the driver does with each
//! read result and accounts for every byte, so that what reaches the sink
//! is precisely what the source produced, in order.

use vstd::prelude::*;

verus! {

/// Where one relay direction stands.
#[derive(Clone, Copy, PartialEq, Eq, Debug)]
pub enum RelayPhase {
    /// Waiting for the next read from the source.
    Reading,
    /// A chunk is being written to the sink.
    Writing,
    /// The source reported end-of-stream; the direction is over.
    SourceClosed,
    /// A read or write failed; the direction is over.
    Failed,
}

/// What the driver must do with the last read result.
pub enum RelayStep {
    /// Write exactly `chunk` to the sink, in full.
    Forward { chunk: Vec<u8> },
    /// Read the next chunk from the source.
    ReadMore,
    /// The source is done; stop this direction.
    Finish,
    /// An error ended this direction; stop it.
    Halt,
}

/// One direction of the tunnel. `taken` is every byte read from the
/// source so far; `delivered` is every byte whose write to the sink the
/// driver has confirmed.
pub struct RelayDirection {
    pub phase: RelayPhase,
    pub taken: Ghost<Seq<u8>>,
    pub delivered: Ghost<Seq<u8>>,
}

impl RelayDirection {
    /// The ledger is consistent: what was delivered is a prefix of what
    /// was taken, and outside a pending write the two agree.
    pub open spec fn wf(self) -> bool {
        match self.phase {
            RelayPhase::Reading => self.delivered@ == self.taken@,
            RelayPhase::Writing => self.delivered@.len() <= self.taken@.len()
                && self.delivered@ == self.taken@.subrange(0, self.delivered@.len() as int),
            RelayPhase::SourceClosed => self.delivered@ == self.taken@,
            RelayPhase::Failed => true,
        }
    }

    /// A fresh direction: nothing taken, nothing delivered, about to
    /// read.
    pub fn new() -> (r: RelayDirection)
        ensures
            r.wf(),
            r.phase is Reading,
            r.taken@ == Seq::<u8>::empty(),
            r.delivered@ == Seq::<u8>::empty(),
    {
        RelayDirection {
            phase: RelayPhase::Reading,
            taken: Ghost(Seq::empty()),
            delivered: Ghost(Seq::empty()),
        }
    }

    /// The source produced `chunk` (empty means end-of-stream). A
    /// non-empty chunk must be forwarded to the sink unchanged; an empty
    /// one ends the direction with every taken byte already delivered.
    pub fn on_read(&mut self, chunk: Vec<u8>) -> (r: RelayStep)
        requires
            old(self).wf(),
            old(self).phase is Reading,
        ensures
            final(self).wf(),
            final(self).delivered@ == old(self).delivered@,
            chunk@.len() == 0 ==> final(self).phase is SourceClosed
                && final(self).taken@ == old(self).taken@
                && r is Finish,
            chunk@.len() > 0 ==> final(self).phase is Writing
                && final(self).taken@ == old(self).taken@ + chunk@
                && (r matches RelayStep::Forward { chunk: c } && c@ == chunk@),
    {
        if chunk.len() == 0 {
            self.phase = RelayPhase::SourceClosed;
            RelayStep::Finish
        } else {
            self.taken = Ghost(self.taken@ + chunk@);
            self.phase = RelayPhase::Writing;
            proof {
                assert(self.delivered@ =~= self.taken@.subrange(
                    0,
                    self.delivered@.len() as int,
                ));
            }
            RelayStep::Forward { chunk }
        }
    }

    /// The driver confirmed that the pending chunk was written in full:
    /// everything taken so far has now been delivered, and the next read
    /// may start.
    pub fn on_written(&mut self) -> (r: RelayStep)
        requires
            old(self).wf(),
            old(self).phase is Writing,
        ensures
            final(self).wf(),
            final(self).phase is Reading,
            final(self).taken@ == old(self).taken@,
            final(self).delivered@ == old(self).taken@,
            r is ReadMore,
    {
        self.delivered = Ghost(self.taken@);
        self.phase = RelayPhase::Reading;
        RelayStep::ReadMore
    }

    /// A read or write failed: the direction ends at once.
    pub fn on_error(&mut self) -> (r: RelayStep)
        ensures
            final(self).wf(),
            final(self).phase is Failed,
            final(self).taken@ == old(self).taken@,
            final(self).delivered@ == old(self).delivered@,
            r is Halt,
    {
        self.phase = RelayPhase::Failed;
        RelayStep::Halt
    }
}

/// Law: a relay direction that ends by end-of-stream delivered to its
/// sink exactly the bytes it took from its source, byte for byte and in
/// order.
pub proof fn lemma_relay_fidelity(d: RelayDirection)
    requires
        d.wf(),
        d.phase is SourceClosed,
    ensures
        d.delivered@ == d.taken@,
{
}

} // verus!
