//! Attach/detach lifecycle of the injected payload.
//!
//! The host process notifies the payload module once when it is loaded and
//! once when it is about to be unloaded. The load notification must return
//! promptly, so the payload's `attach` logic runs on a dedicated worker
//! that afterwards blocks on a one-shot channel; the unload notification
//! signals that channel and only then runs the payload's `detach` logic,
//! synchronously, before the module's code is unmapped.
//!
//! [`EntrypointLifecycle`] is the verified model of that protocol. Each
//! transition is one step of the real flow — spawning the worker, the
//! worker finishing `attach` and blocking, signalling the channel, the
//! worker observing the signal and releasing the payload, running `detach`
//! — and the invariant ties them together: detach work only ever happens
//! after the worker has observed the unload signal, because the payload is
//! only released then.

use vstd::prelude::*;

verus! {

/// Failure of the payload's `attach` logic, carrying the payload's own
/// error.
#[derive(Debug, PartialEq, Eq, Structural)]
pub enum AttachError<T> {
    Custom(T),
}

/// Failure of the payload's `detach` logic, carrying the payload's own
/// error.
#[derive(Debug, PartialEq, Eq, Structural)]
pub enum DetachError<T> {
    Custom(T),
}

/// The pair of lifecycle callbacks an injected payload exposes, each
/// invoked exactly once per load/unload cycle. `A` and `D` are the
/// payload's own attach and detach error types.
pub trait Entrypoint<A, D> {
    fn attach(&mut self) -> Result<(), AttachError<A>>;

    fn detach(&mut self) -> Result<(), DetachError<D>>;
}

/// Where the dedicated worker stands in its run.
#[derive(Debug, PartialEq, Eq, Structural, Clone, Copy)]
pub enum WorkerPhase {
    /// The load notification has not spawned it yet.
    NotSpawned,
    /// It holds the payload and is running `attach`.
    Attaching,
    /// `attach` finished — successfully or not — and it blocks on the
    /// channel, still holding the payload.
    Blocked,
    /// It observed the unload signal and released the payload; its
    /// post-signal continuation marker.
    Released,
}

/// One load/unload cycle of the payload: the worker's progress, the
/// one-shot unload signal, and the detach work done at unload.
#[derive(Debug, PartialEq, Eq, Structural, Clone, Copy)]
pub struct EntrypointLifecycle {
    /// The dedicated worker's progress.
    pub worker: WorkerPhase,
    /// Whether the worker's `attach` call succeeded, once it finished.
    pub attach_ok: Option<bool>,
    /// The one-shot unload signal has been sent.
    pub signaled: bool,
    /// Whether `detach` succeeded, once it ran.
    pub detach_ok: Option<bool>,
}

impl EntrypointLifecycle {
    /// What every reachable state of the protocol satisfies. In
    /// particular: detach work exists only after the worker observed the
    /// unload signal, and the worker only ever advances past blocking when
    /// the signal was sent.
    pub open spec fn inv(self) -> bool {
        &&& self.attach_ok is Some <==> (self.worker is Blocked || self.worker is Released)
        &&& self.worker is Released ==> self.signaled
        &&& self.detach_ok is Some ==> self.worker is Released
        &&& self.signaled ==> !(self.worker is NotSpawned)
    }

    /// The state before the load notification arrives.
    pub fn new() -> (r: Self)
        ensures
            r.inv(),
            r.worker is NotSpawned,
            !r.signaled,
            r.attach_ok is None,
            r.detach_ok is None,
    {
        EntrypointLifecycle {
            worker: WorkerPhase::NotSpawned,
            attach_ok: None,
            signaled: false,
            detach_ok: None,
        }
    }

    /// The load notification: creates the channel and spawns the dedicated
    /// worker, handing it the payload, then returns promptly — `attach`
    /// runs on the worker, not here.
    pub fn on_load(&mut self)
        requires
            old(self).inv(),
            old(self).worker is NotSpawned,
            !old(self).signaled,
        ensures
            final(self).inv(),
            final(self).worker is Attaching,
            final(self).attach_ok == old(self).attach_ok,
            final(self).signaled == old(self).signaled,
            final(self).detach_ok == old(self).detach_ok,
    {
        self.worker = WorkerPhase::Attaching;
    }

    /// The worker finishes the payload's `attach` call with the given
    /// outcome and blocks on the channel. It blocks even when `attach`
    /// failed, so the unload signal always has a listener.
    pub fn worker_finish_attach(&mut self, ok: bool)
        requires
            old(self).inv(),
            old(self).worker is Attaching,
        ensures
            final(self).inv(),
            final(self).worker is Blocked,
            final(self).attach_ok == Some(ok),
            final(self).signaled == old(self).signaled,
            final(self).detach_ok == old(self).detach_ok,
    {
        self.attach_ok = Some(ok);
        self.worker = WorkerPhase::Blocked;
    }

    /// The unload notification's first step: sends the one-shot signal,
    /// exactly once.
    pub fn signal_unload(&mut self)
        requires
            old(self).inv(),
            !old(self).signaled,
            !(old(self).worker is NotSpawned),
        ensures
            final(self).inv(),
            final(self).signaled,
            final(self).worker == old(self).worker,
            final(self).attach_ok == old(self).attach_ok,
            final(self).detach_ok == old(self).detach_ok,
    {
        self.signaled = true;
    }

    /// The blocked worker observes the unload signal, sets its post-signal
    /// continuation marker and releases the payload.
    pub fn worker_observe_signal(&mut self)
        requires
            old(self).inv(),
            old(self).worker is Blocked,
            old(self).signaled,
        ensures
            final(self).inv(),
            final(self).worker is Released,
            final(self).attach_ok == old(self).attach_ok,
            final(self).signaled,
            final(self).detach_ok == old(self).detach_ok,
    {
        self.worker = WorkerPhase::Released;
    }

    /// The unload notification's second step: runs the payload's `detach`
    /// logic with the given outcome. It can take the payload only once the
    /// worker has released it — after the worker observed the signal — so
    /// detach never races `attach`. A detach failure is surfaced, but
    /// unload proceeds regardless.
    pub fn run_detach(&mut self, ok: bool) -> (r: Result<(), ()>)
        requires
            old(self).inv(),
            old(self).signaled,
            old(self).worker is Released,
            old(self).detach_ok is None,
        ensures
            final(self).inv(),
            final(self).detach_ok == Some(ok),
            final(self).worker is Released,
            final(self).signaled,
            final(self).attach_ok == old(self).attach_ok,
            r == if ok {
                Ok::<(), ()>(())
            } else {
                Err::<(), ()>(())
            },
    {
        self.detach_ok = Some(ok);
        if ok {
            Ok(())
        } else {
            Err(())
        }
    }

    /// The worker's post-signal continuation marker: it observed the
    /// unload signal and released the payload.
    pub fn worker_released(&self) -> (r: bool)
        ensures
            r == (self.worker is Released),
    {
        matches!(self.worker, WorkerPhase::Released)
    }

    /// Whether detach work has completed.
    pub fn detach_done(&self) -> (r: bool)
        ensures
            r == (self.detach_ok is Some),
    {
        self.detach_ok.is_some()
    }
}

/// Law: detach work completes only after the worker has observed the
/// unload signal. In every reachable state — every state satisfying the
/// protocol invariant — a recorded detach outcome implies the worker's
/// post-signal continuation marker is set and the signal was sent before
/// it.
pub proof fn lemma_detach_after_worker_observed(lifecycle: EntrypointLifecycle)
    requires
        lifecycle.inv(),
        lifecycle.detach_ok is Some,
    ensures
        lifecycle.worker is Released,
        lifecycle.signaled,
{
}

} // verus!
