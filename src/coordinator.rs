//! The reload protocol. Once the watcher has signalled a rebuild, the frame
//! thread drives one reload run through the phases
//! `Idle → Capturing → Unloading → Staging → Loading → Restoring →
//! Bootstrapping → Idle`. The coordinator decides; the driver performs each
//! request it returns (a call into the module, a copy, a load) and hands the
//! result back as an event.

use vstd::prelude::*;
use crate::capsule::OpaqueState;
use crate::host::{HostError, LoadError, ModuleHost};
use crate::staging::{staged_name, ArtifactName, stem_text, extension_text};

verus! {

/// Where a reload run stands.
#[derive(Clone, Copy, Debug, PartialEq, Eq, Structural)]
pub enum Phase {
    Idle,
    Capturing,
    Unloading,
    Staging,
    Loading,
    Restoring,
    Bootstrapping,
}

/// A lifecycle operation on the slot's module.
#[derive(Clone, Copy, Debug, PartialEq, Eq, Structural)]
pub enum Lifecycle {
    Load,
    Unload,
}

/// A failure that leaves the slot without a module and ends hot reload.
#[derive(Clone, Copy, Debug, PartialEq, Eq, Structural)]
pub enum FatalError {
    /// The old module could not be unloaded; its code may still be resident.
    UnloadFailed,
    /// The staged artifact could not be loaded.
    LoadFailed(LoadError),
    /// The new module's first tick after restoring the state failed.
    BootstrapFailed,
}

/// How a call of the coordinator ended, when it asks for nothing more.
#[derive(Clone, Copy, Debug, PartialEq, Eq, Structural)]
pub enum Outcome {
    /// No rebuild was signalled.
    NotTriggered,
    /// A fatal failure happened earlier: reloading is no longer attempted.
    Halted,
    /// The new module runs with the restored state.
    Reloaded,
    /// Capturing the state failed; the old module stays active.
    CaptureAborted,
    /// The artifact could not be staged; the next signal retries.
    StagingDeferred,
    /// The run failed for good.
    Fatal(FatalError),
    /// The event does not answer the pending request; nothing changed.
    Unexpected,
}

/// What the driver reports after performing a request.
pub enum Event<M, S> {
    Captured(OpaqueState<S>),
    CaptureFailed,
    Unloaded,
    UnloadFailed,
    /// The artifact was copied to the given path.
    Staged(String),
    StagingFailed,
    /// The staged artifact was loaded and initialised.
    Loaded(M),
    LoadFailed(LoadError),
    Restored,
    Ticked,
    TickFailed,
}

/// What the coordinator asks the driver to do next.
pub enum Request<M, S> {
    /// Call `capture_state` on the active module.
    Capture,
    /// Unload this module, which is no longer active.
    Unload(M),
    /// Copy the artifact to a fresh private file of this name.
    Stage(String),
    /// Load the module staged at this path and call its `init`.
    Load(String),
    /// Call `restore_state` on the active module with this capsule.
    Restore(OpaqueState<S>),
    /// Call `tick` once on the active module.
    BootstrapTick,
    /// Nothing more to do in this frame.
    Finished(Outcome),
}

/// Loads at even positions, unloads at odd ones: each load after the first
/// comes right after the unload of the module before it.
pub open spec fn alternating(ops: Seq<Lifecycle>) -> bool {
    forall|i: int|
        0 <= i < ops.len() ==> #[trigger] ops[i] == if i % 2 == 0 {
            Lifecycle::Load
        } else {
            Lifecycle::Unload
        }
}

/// Whether `event` answers the request that is pending in `phase`.
pub open spec fn answers<M, S>(phase: Phase, event: Event<M, S>) -> bool {
    match phase {
        Phase::Idle => false,
        Phase::Capturing => event is Captured || event is CaptureFailed,
        Phase::Unloading => event is Unloaded || event is UnloadFailed,
        Phase::Staging => event is Staged || event is StagingFailed,
        Phase::Loading => event is Loaded || event is LoadFailed,
        Phase::Restoring => event is Restored,
        Phase::Bootstrapping => event is Ticked || event is TickFailed,
    }
}

/// The staging counter after one more staged copy.
pub open spec fn next_counter(counter: u64) -> u64 {
    if counter < u64::MAX {
        (counter + 1) as u64
    } else {
        counter
    }
}

/// Drives reload runs for one module slot.
pub struct ReloadCoordinator<M, S> {
    phase: Phase,
    host: ModuleHost<M>,
    held: Option<OpaqueState<S>>,
    halted: bool,
    name: ArtifactName,
    pid: u32,
    counter: u64,
    ops: Ghost<Seq<Lifecycle>>,
}

impl<M, S> ReloadCoordinator<M, S> {
    pub closed spec fn phase(&self) -> Phase {
        self.phase
    }

    /// The active module, if any.
    pub closed spec fn module(&self) -> Option<M> {
        self.host.module()
    }

    /// The captured state waiting to be restored, if any.
    pub closed spec fn held(&self) -> Option<OpaqueState<S>> {
        self.held
    }

    /// Whether a fatal failure has ended hot reload for the slot.
    pub closed spec fn halted(&self) -> bool {
        self.halted
    }

    /// Every load and unload of the slot's modules so far, in order.
    pub closed spec fn ops(&self) -> Seq<Lifecycle> {
        self.ops@
    }

    /// How many staged copies have been named.
    pub closed spec fn counter(&self) -> u64 {
        self.counter
    }

    pub closed spec fn stem(&self) -> Seq<char> {
        self.name.stem@
    }

    pub closed spec fn extension(&self) -> Seq<char> {
        self.name.extension@
    }

    pub closed spec fn pid(&self) -> u32 {
        self.pid
    }

    /// The name of the next staged copy.
    pub open spec fn next_stage_name(&self) -> Seq<char> {
        staged_name(
            self.stem(),
            self.pid() as nat,
            next_counter(self.counter()) as nat,
            self.extension(),
        )
    }

    /// Everything but the phase is as in `other`.
    pub open spec fn same_slot(&self, other: &Self) -> bool {
        &&& self.module() == other.module()
        &&& self.held() == other.held()
        &&& self.halted() == other.halted()
        &&& self.ops() == other.ops()
        &&& self.counter() == other.counter()
        &&& self.stem() == other.stem()
        &&& self.extension() == other.extension()
        &&& self.pid() == other.pid()
    }

    /// The naming data does not change after creation.
    pub open spec fn same_naming(&self, other: &Self) -> bool {
        &&& self.stem() == other.stem()
        &&& self.extension() == other.extension()
        &&& self.pid() == other.pid()
    }

    pub closed spec fn wf(&self) -> bool {
        let n = self.ops@.len();
        let odd = n % 2 == 1;
        &&& n >= 1
        &&& alternating(self.ops@)
        &&& match self.phase {
            Phase::Idle => if self.halted {
                self.host.module() is None && self.held is None
            } else {
                &&& (self.host.module() is Some <==> odd)
                &&& (self.host.module() is Some <==> self.held is None)
            },
            Phase::Capturing => !self.halted && self.host.module() is Some && self.held is None
                && odd,
            Phase::Unloading => !self.halted && self.host.module() is None && self.held is Some
                && odd,
            Phase::Staging | Phase::Loading => !self.halted && self.host.module() is None
                && self.held is Some && !odd,
            Phase::Restoring | Phase::Bootstrapping => !self.halted && self.host.module() is Some
                && self.held is None && odd && n >= 3,
        }
    }

    /// A coordinator for the module just loaded from the artifact at `path`
    /// by process `pid`.
    pub fn create(path: &str, pid: u32, module: M) -> (r: ReloadCoordinator<M, S>)
        ensures
            r.wf(),
            r.phase() == Phase::Idle,
            r.module() == Some(module),
            r.held() is None,
            !r.halted(),
            r.ops() == seq![Lifecycle::Load],
            r.counter() == 0,
            r.stem() == stem_text(path@),
            r.extension() == extension_text(path@),
            r.pid() == pid,
    {
        let ghost first = seq![Lifecycle::Load];
        let r = ReloadCoordinator {
            phase: Phase::Idle,
            host: ModuleHost::new(module),
            held: None,
            halted: false,
            name: ArtifactName::of_path(path),
            pid,
            counter: 0,
            ops: Ghost(first),
        };
        assert(alternating(r.ops@));
        r
    }

    /// The host of the slot, to forward `tick` and `render` to the active
    /// module.
    pub fn host(&self) -> (r: &ModuleHost<M>)
        ensures
            r.module() == self.module(),
    {
        &self.host
    }

    /// The active module; fails when the slot holds none.
    pub fn active(&self) -> (r: Result<&M, HostError>)
        ensures
            self.module() is Some ==> r == Ok::<&M, HostError>(&self.module()->0),
            self.module() is None ==> r == Err::<&M, HostError>(HostError::NoActiveModule),
    {
        self.host.active()
    }

    pub fn current_phase(&self) -> (r: Phase)
        ensures
            r == self.phase(),
    {
        self.phase
    }

    pub fn is_halted(&self) -> (r: bool)
        ensures
            r == self.halted(),
    {
        self.halted
    }

    pub fn holds_state(&self) -> (r: bool)
        ensures
            r == self.held() is Some,
    {
        self.held.is_some()
    }

    /// Called once per frame with whether the watcher signalled a rebuild
    /// since the last call. Starts a reload run when one is due: by
    /// capturing the state of the active module, or, when an earlier run
    /// could not stage the artifact, by staging it again.
    pub fn check_hot_reload(&mut self, signalled: bool) -> (r: Request<M, S>)
        requires
            old(self).wf(),
        ensures
            final(self).wf(),
            final(self).same_naming(old(self)),
            !signalled ==> *final(self) == *old(self) && r == Request::<M, S>::Finished(
                Outcome::NotTriggered,
            ),
            signalled && old(self).phase() != Phase::Idle ==> *final(self) == *old(self) && r
                == Request::<M, S>::Finished(Outcome::Unexpected),
            signalled && old(self).phase() == Phase::Idle && old(self).halted() ==> *final(self)
                == *old(self) && r == Request::<M, S>::Finished(Outcome::Halted),
            signalled && old(self).phase() == Phase::Idle && !old(self).halted() && old(
                self,
            ).module() is Some ==> {
                &&& r == Request::<M, S>::Capture
                &&& final(self).phase() == Phase::Capturing
                &&& final(self).same_slot(old(self))
            },
            signalled && old(self).phase() == Phase::Idle && !old(self).halted() && old(
                self,
            ).module() is None ==> {
                &&& r is Stage
                &&& r->Stage_0@ == old(self).next_stage_name()
                &&& final(self).phase() == Phase::Staging
                &&& final(self).counter() == next_counter(old(self).counter())
                &&& final(self).module() is None
                &&& final(self).held() == old(self).held()
                &&& final(self).ops() == old(self).ops()
                &&& !final(self).halted()
            },
    {
        if !signalled {
            return Request::Finished(Outcome::NotTriggered);
        }
        match self.phase {
            Phase::Idle => {},
            _ => {
                return Request::Finished(Outcome::Unexpected);
            },
        }
        if self.halted {
            return Request::Finished(Outcome::Halted);
        }
        if self.host.is_active() {
            self.phase = Phase::Capturing;
            Request::Capture
        } else {
            self.enter_staging()
        }
    }

    /// Takes the result of the pending request and returns the next one.
    pub fn advance(&mut self, event: Event<M, S>) -> (r: Request<M, S>)
        requires
            old(self).wf(),
        ensures
            final(self).wf(),
            final(self).same_naming(old(self)),
            !answers(old(self).phase(), event) ==> *final(self) == *old(self) && r
                == Request::<M, S>::Finished(Outcome::Unexpected),
            old(self).phase() == Phase::Capturing && event is Captured ==> {
                &&& r == Request::<M, S>::Unload(old(self).module()->0)
                &&& final(self).phase() == Phase::Unloading
                &&& final(self).module() is None
                &&& final(self).held() == Some(event->Captured_0)
                &&& final(self).ops() == old(self).ops()
                &&& !final(self).halted()
            },
            old(self).phase() == Phase::Capturing && event is CaptureFailed ==> {
                &&& r == Request::<M, S>::Finished(Outcome::CaptureAborted)
                &&& final(self).phase() == Phase::Idle
                &&& final(self).same_slot(old(self))
            },
            old(self).phase() == Phase::Unloading && event is Unloaded ==> {
                &&& r is Stage
                &&& r->Stage_0@ == old(self).next_stage_name()
                &&& final(self).phase() == Phase::Staging
                &&& final(self).counter() == next_counter(old(self).counter())
                &&& final(self).module() is None
                &&& final(self).held() == old(self).held()
                &&& final(self).ops() == old(self).ops().push(Lifecycle::Unload)
                &&& !final(self).halted()
            },
            old(self).phase() == Phase::Unloading && event is UnloadFailed ==> {
                &&& r == Request::<M, S>::Finished(Outcome::Fatal(FatalError::UnloadFailed))
                &&& final(self).phase() == Phase::Idle
                &&& final(self).module() is None
                &&& final(self).held() is None
                &&& final(self).ops() == old(self).ops()
                &&& final(self).halted()
            },
            old(self).phase() == Phase::Staging && event is Staged ==> {
                &&& r is Load
                &&& r->Load_0 == event->Staged_0
                &&& final(self).phase() == Phase::Loading
                &&& final(self).same_slot(old(self))
            },
            old(self).phase() == Phase::Staging && event is StagingFailed ==> {
                &&& r == Request::<M, S>::Finished(Outcome::StagingDeferred)
                &&& final(self).phase() == Phase::Idle
                &&& final(self).same_slot(old(self))
            },
            old(self).phase() == Phase::Loading && event is Loaded ==> {
                &&& old(self).module() is None
                &&& r == Request::<M, S>::Restore(old(self).held()->0)
                &&& final(self).phase() == Phase::Restoring
                &&& final(self).module() == Some(event->Loaded_0)
                &&& final(self).held() is None
                &&& final(self).ops() == old(self).ops().push(Lifecycle::Load)
                &&& !final(self).halted()
            },
            old(self).phase() == Phase::Loading && event is LoadFailed ==> {
                &&& r == Request::<M, S>::Finished(
                    Outcome::Fatal(FatalError::LoadFailed(event->LoadFailed_0)),
                )
                &&& final(self).phase() == Phase::Idle
                &&& final(self).module() is None
                &&& final(self).held() is None
                &&& final(self).ops() == old(self).ops()
                &&& final(self).halted()
            },
            old(self).phase() == Phase::Restoring && event is Restored ==> {
                &&& r == Request::<M, S>::BootstrapTick
                &&& final(self).phase() == Phase::Bootstrapping
                &&& final(self).same_slot(old(self))
            },
            old(self).phase() == Phase::Bootstrapping && event is Ticked ==> {
                &&& r == Request::<M, S>::Finished(Outcome::Reloaded)
                &&& final(self).phase() == Phase::Idle
                &&& final(self).same_slot(old(self))
                &&& final(self).module() is Some
                &&& final(self).ops().len() >= 3
                &&& final(self).ops().last() == Lifecycle::Load
                &&& final(self).ops()[final(self).ops().len() - 2] == Lifecycle::Unload
            },
            old(self).phase() == Phase::Bootstrapping && event is TickFailed ==> {
                &&& r == Request::<M, S>::Finished(
                    Outcome::Fatal(FatalError::BootstrapFailed),
                )
                &&& final(self).phase() == Phase::Idle
                &&& final(self).module() is None
                &&& final(self).held() is None
                &&& final(self).ops() == old(self).ops().push(Lifecycle::Unload)
                &&& final(self).halted()
            },
    {
        match (self.phase, event) {
            (Phase::Capturing, Event::Captured(capsule)) => {
                let module = self.host.take();
                self.held = Some(capsule);
                self.phase = Phase::Unloading;
                match module {
                    Some(m) => Request::Unload(m),
                    None => Request::Finished(Outcome::Unexpected),
                }
            },
            (Phase::Capturing, Event::CaptureFailed) => {
                self.phase = Phase::Idle;
                Request::Finished(Outcome::CaptureAborted)
            },
            (Phase::Unloading, Event::Unloaded) => {
                self.ops = Ghost(self.ops@.push(Lifecycle::Unload));
                self.enter_staging()
            },
            (Phase::Unloading, Event::UnloadFailed) => {
                self.held = None;
                self.halted = true;
                self.phase = Phase::Idle;
                Request::Finished(Outcome::Fatal(FatalError::UnloadFailed))
            },
            (Phase::Staging, Event::Staged(path)) => {
                self.phase = Phase::Loading;
                Request::Load(path)
            },
            (Phase::Staging, Event::StagingFailed) => {
                self.phase = Phase::Idle;
                Request::Finished(Outcome::StagingDeferred)
            },
            (Phase::Loading, Event::Loaded(module)) => {
                self.host.install(module);
                self.ops = Ghost(self.ops@.push(Lifecycle::Load));
                self.phase = Phase::Restoring;
                match self.held.take() {
                    Some(capsule) => Request::Restore(capsule),
                    None => Request::Finished(Outcome::Unexpected),
                }
            },
            (Phase::Loading, Event::LoadFailed(e)) => {
                self.held = None;
                self.halted = true;
                self.phase = Phase::Idle;
                Request::Finished(Outcome::Fatal(FatalError::LoadFailed(e)))
            },
            (Phase::Restoring, Event::Restored) => {
                self.phase = Phase::Bootstrapping;
                Request::BootstrapTick
            },
            (Phase::Bootstrapping, Event::Ticked) => {
                self.phase = Phase::Idle;
                Request::Finished(Outcome::Reloaded)
            },
            (Phase::Bootstrapping, Event::TickFailed) => {
                let _dropped = self.host.take();
                self.ops = Ghost(self.ops@.push(Lifecycle::Unload));
                self.halted = true;
                self.phase = Phase::Idle;
                Request::Finished(Outcome::Fatal(FatalError::BootstrapFailed))
            },
            _ => Request::Finished(Outcome::Unexpected),
        }
    }

    /// Moves to `Staging` and names the next staged copy.
    fn enter_staging(&mut self) -> (r: Request<M, S>)
        ensures
            final(self).phase() == Phase::Staging,
            final(self).counter() == next_counter(old(self).counter()),
            final(self).module() == old(self).module(),
            final(self).held() == old(self).held(),
            final(self).halted() == old(self).halted(),
            final(self).ops() == old(self).ops(),
            final(self).same_naming(old(self)),
            r is Stage,
            r->Stage_0@ == old(self).next_stage_name(),
    {
        if self.counter < u64::MAX {
            self.counter = self.counter + 1;
        }
        self.phase = Phase::Staging;
        Request::Stage(self.name.destination_name(self.pid, self.counter))
    }
}

/// The slot's history alternates between loads and unloads and starts with
/// the first load: a module is loaded only after the one before it was
/// unloaded, so two modules are never active together, and an active
/// module is always the one loaded last. While reloading goes on, a slot
/// without a module still holds the captured state.
pub proof fn lemma_one_module_at_a_time<M, S>(c: &ReloadCoordinator<M, S>)
    requires
        c.wf(),
    ensures
        alternating(c.ops()),
        c.ops().len() >= 1,
        c.ops()[0] == Lifecycle::Load,
        c.module() is Some ==> c.ops().last() == Lifecycle::Load,
        c.module() is None && !c.halted() ==> c.held() is Some,
{
    assert(c.ops()[0] == Lifecycle::Load);
    if c.module() is Some {
        assert((c.ops().len() - 1) % 2 == 0);
    }
}

/// Once the slot is halted (a failed unload, load or bootstrap tick) it holds
/// no module and no state and no run is under way: the host answers every
/// forwarded call with `NoActiveModule`, and `check_hot_reload` leaves the
/// slot as it is.
pub proof fn lemma_halted_slot_stays_empty<M, S>(c: &ReloadCoordinator<M, S>)
    requires
        c.wf(),
        c.halted(),
    ensures
        c.module() is None,
        c.held() is None,
        c.phase() == Phase::Idle,
{
}

} // verus!
