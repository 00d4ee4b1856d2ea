//! The per-mutation synchronization cycle.
//!
//! Every mutation request walks the same loop: poll the wireless mouse
//! until it reports active, send the Set command, decode the response,
//! replace the cache entry, and return to idle. The cycle is the unit
//! of blocking: the command may be put on the wire only in the
//! send phase, a dormant poll result keeps the cycle polling, and one
//! active poll result readies exactly the single pending send.

use vstd::prelude::*;

use crate::download_data::MouseStatus;

verus! {

/// The phases of one mutation cycle, in order.
#[derive(Clone, Copy, Debug, PartialEq, Eq, Structural)]
pub enum SyncPhase {
    Idle,
    PollOnline,
    SendCommand,
    DecodeResponse,
    UpdateCache,
}

/// The cycle may put the mutation on the wire only in the send phase.
pub open spec fn spec_may_send(p: SyncPhase) -> bool {
    p == SyncPhase::SendCommand
}

/// Where a poll result takes the cycle: an active report readies the
/// send, a dormant report keeps polling.
pub open spec fn spec_poll_transition(p: SyncPhase, s: MouseStatus) -> SyncPhase {
    if p == SyncPhase::PollOnline && s == MouseStatus::Active {
        SyncPhase::SendCommand
    } else {
        p
    }
}

/// One mutation request in flight.
pub struct MutationCycle {
    pub phase: SyncPhase,
}

impl MutationCycle {
    /// A cycle at rest.
    pub fn new() -> (r: Self)
        ensures
            r.phase == SyncPhase::Idle,
    {
        MutationCycle { phase: SyncPhase::Idle }
    }

    /// Accept one mutation request: the cycle turns to polling, and
    /// nothing may be sent yet.
    pub fn start(&mut self)
        requires
            old(self).phase == SyncPhase::Idle,
        ensures
            final(self).phase == SyncPhase::PollOnline,
            !spec_may_send(final(self).phase),
    {
        self.phase = SyncPhase::PollOnline;
    }

    /// Record one poll result. A dormant report leaves the cycle
    /// polling; an active report readies the single pending send.
    pub fn on_poll_result(&mut self, status: MouseStatus)
        requires
            old(self).phase == SyncPhase::PollOnline,
        ensures
            final(self).phase == spec_poll_transition(old(self).phase, status),
            status == MouseStatus::Dormant ==> final(self).phase == SyncPhase::PollOnline
                && !spec_may_send(final(self).phase),
            status == MouseStatus::Active ==> spec_may_send(final(self).phase),
    {
        match status {
            MouseStatus::Active => {
                self.phase = SyncPhase::SendCommand;
            },
            MouseStatus::Dormant => (),
        }
    }

    /// The command went out; the one permitted send is spent.
    pub fn on_sent(&mut self)
        requires
            spec_may_send(old(self).phase),
        ensures
            final(self).phase == SyncPhase::DecodeResponse,
            !spec_may_send(final(self).phase),
    {
        self.phase = SyncPhase::DecodeResponse;
    }

    /// The response was decoded: on success the cache update is due,
    /// on failure the operation aborts and the cycle is idle again.
    pub fn on_decoded(&mut self, ok: bool)
        requires
            old(self).phase == SyncPhase::DecodeResponse,
        ensures
            ok ==> final(self).phase == SyncPhase::UpdateCache,
            !ok ==> final(self).phase == SyncPhase::Idle,
            !spec_may_send(final(self).phase),
    {
        if ok {
            self.phase = SyncPhase::UpdateCache;
        } else {
            self.phase = SyncPhase::Idle;
        }
    }

    /// The cache took the device-confirmed value; the cycle is idle.
    pub fn on_cache_updated(&mut self)
        requires
            old(self).phase == SyncPhase::UpdateCache,
        ensures
            final(self).phase == SyncPhase::Idle,
            !spec_may_send(final(self).phase),
    {
        self.phase = SyncPhase::Idle;
    }
}

/// No command may be sent while the cycle is polling, however many
/// dormant reports arrive; one transition to active readies exactly
/// one send: it is permitted in the phase the active report produces,
/// and spent — not permitted again — once the send is recorded.
pub proof fn lemma_active_unblocks_exactly_one_send()
    ensures
        !spec_may_send(spec_poll_transition(SyncPhase::PollOnline, MouseStatus::Dormant)),
        spec_poll_transition(SyncPhase::PollOnline, MouseStatus::Dormant) == SyncPhase::PollOnline,
        spec_may_send(spec_poll_transition(SyncPhase::PollOnline, MouseStatus::Active)),
        !spec_may_send(SyncPhase::DecodeResponse),
        !spec_may_send(SyncPhase::Idle),
        !spec_may_send(SyncPhase::UpdateCache),
{
}

} // verus!
