//! Ownership of the service process: whether the supervisor launched it,
//! and its handle until it is stopped.

use vstd::prelude::*;

verus! {

/// Where the supervisor's lifecycle stands.
#[derive(Clone, Copy, Debug, PartialEq, Eq, Structural)]
pub enum Phase {
    Idle,
    /// The port was already taken at startup: another instance owns it.
    Unmanaged,
    Starting,
    Running,
    Stopped,
    Failed,
}

/// The lifecycle, with the slot for the handle `H` of the launched process.
/// The host keeps it behind a lock shared by startup and shutdown.
pub struct Lifecycle<H> {
    phase: Phase,
    slot: Option<H>,
}

impl<H> Lifecycle<H> {
    pub closed spec fn phase_spec(&self) -> Phase {
        self.phase
    }

    pub closed spec fn slot_spec(&self) -> Option<H> {
        self.slot
    }

    /// A handle is held exactly while the service runs.
    pub open spec fn wf(&self) -> bool {
        (self.slot_spec() is Some) <==> (self.phase_spec() == Phase::Running)
    }

    pub fn new() -> (r: Self)
        ensures
            r.wf(),
            r.phase_spec() == Phase::Idle,
            r.slot_spec() is None,
    {
        Lifecycle { phase: Phase::Idle, slot: None }
    }

    pub fn phase(&self) -> (r: Phase)
        ensures
            r == self.phase_spec(),
    {
        self.phase
    }

    pub fn is_holding(&self) -> (r: bool)
        ensures
            r == self.slot_spec() is Some,
    {
        self.slot.is_some()
    }

    /// Startup: from `Idle`, a taken port leaves the service unmanaged and
    /// nothing is launched; a free one starts the launch. Returns whether
    /// to launch. Any other phase is left as it is.
    pub fn begin(&mut self, port_open: bool) -> (launch: bool)
        requires
            old(self).wf(),
        ensures
            final(self).wf(),
            begin_step(*old(self), port_open, *final(self), launch),
    {
        if self.phase == Phase::Idle {
            if port_open {
                self.phase = Phase::Unmanaged;
                false
            } else {
                self.phase = Phase::Starting;
                true
            }
        } else {
            false
        }
    }

    /// The launched process became reachable: from `Starting` its handle
    /// is kept and the service runs. In any other phase the handle is
    /// handed back, to be stopped.
    pub fn started(&mut self, handle: H) -> (rejected: Option<H>)
        requires
            old(self).wf(),
        ensures
            final(self).wf(),
            old(self).phase_spec() == Phase::Starting ==> {
                &&& final(self).phase_spec() == Phase::Running
                &&& final(self).slot_spec() == Some(handle)
                &&& rejected is None
            },
            old(self).phase_spec() != Phase::Starting ==> {
                &&& *final(self) == *old(self)
                &&& rejected == Some(handle)
            },
    {
        if self.phase == Phase::Starting {
            self.phase = Phase::Running;
            self.slot = Some(handle);
            None
        } else {
            Some(handle)
        }
    }

    /// A startup step failed: from `Starting` the lifecycle fails. The
    /// process launched so far, if any, is handed back to be stopped
    /// before the error is reported.
    pub fn failed(&mut self, spawned: Option<H>) -> (to_stop: Option<H>)
        requires
            old(self).wf(),
        ensures
            final(self).wf(),
            to_stop == spawned,
            final(self).slot_spec() == old(self).slot_spec(),
            old(self).phase_spec() == Phase::Starting ==> final(self).phase_spec() == Phase::Failed,
            old(self).phase_spec() != Phase::Starting ==> final(self).phase_spec() == old(self).phase_spec(),
    {
        if self.phase == Phase::Starting {
            self.phase = Phase::Failed;
        }
        spawned
    }

    /// Shutdown: hands out the held handle, if any, to be killed and waited
    /// on, and leaves the slot empty; a running service is then stopped.
    pub fn shutdown(&mut self) -> (to_stop: Option<H>)
        requires
            old(self).wf(),
        ensures
            final(self).wf(),
            shutdown_step(*old(self), *final(self), to_stop),
    {
        let h = self.slot.take();
        if self.phase == Phase::Running {
            self.phase = Phase::Stopped;
        }
        h
    }
}

/// Startup from `pre`: only an idle lifecycle moves; a taken port leaves
/// it unmanaged, a free one launches.
pub open spec fn begin_step<H>(pre: Lifecycle<H>, port_open: bool, post: Lifecycle<H>, launch: bool) -> bool {
    &&& post.slot_spec() == pre.slot_spec()
    &&& launch == (pre.phase_spec() == Phase::Idle && !port_open)
    &&& post.phase_spec() == if pre.phase_spec() != Phase::Idle {
        pre.phase_spec()
    } else if port_open {
        Phase::Unmanaged
    } else {
        Phase::Starting
    }
}

/// Shutdown from `pre`: the held handle goes out and the slot is emptied.
pub open spec fn shutdown_step<H>(pre: Lifecycle<H>, post: Lifecycle<H>, to_stop: Option<H>) -> bool {
    &&& to_stop == pre.slot_spec()
    &&& post.slot_spec() is None
    &&& post.phase_spec() == if pre.phase_spec() == Phase::Running {
        Phase::Stopped
    } else {
        pre.phase_spec()
    }
}

/// A port already taken at startup means no launch, and so no migration
/// and no spawn; nothing is then held for shutdown to stop.
pub proof fn lemma_taken_port_unmanaged<H>(
    pre: Lifecycle<H>,
    post: Lifecycle<H>,
    launch: bool,
    after_shutdown: Lifecycle<H>,
    to_stop: Option<H>,
)
    requires
        pre.wf(),
        pre.phase_spec() == Phase::Idle,
        begin_step(pre, true, post, launch),
        shutdown_step(post, after_shutdown, to_stop),
    ensures
        !launch,
        post.phase_spec() == Phase::Unmanaged,
        to_stop is None,
        after_shutdown.phase_spec() == Phase::Unmanaged,
{
}

/// A second shutdown right after a first hands out nothing and changes
/// nothing: the handle is stopped at most once.
pub proof fn lemma_shutdown_twice<H>(
    s0: Lifecycle<H>,
    s1: Lifecycle<H>,
    first: Option<H>,
    s2: Lifecycle<H>,
    second: Option<H>,
)
    requires
        s0.wf(),
        shutdown_step(s0, s1, first),
        shutdown_step(s1, s2, second),
    ensures
        first == s0.slot_spec(),
        second is None,
        s2.phase_spec() == s1.phase_spec(),
        s2.slot_spec() == s1.slot_spec(),
{
}

} // verus!
