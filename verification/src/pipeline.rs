//! The state of the routing pipeline and the transitions that `start` and
//! `stop` make.
//!
//! The pipeline is in one of four phases. `Stopped` and `Running` are the
//! resting phases. While the endpoints of a run are set up the pipeline is
//! `Starting`, and while its worker is asked to end and waited for it is
//! `Stopping`; in both, further requests to start or stop are refused. The
//! caller holds the state under its lock only for one transition at a time.
//!
//! The state is generic in `W`, the handle by which the caller stops its
//! worker loop and waits for it.

use crate::router::{
    target_views, ActiveTarget, ActiveTargetView, RouterConfig, RouterConfigView, RouterError,
};
use vstd::prelude::*;

verus! {

/// Phase of the pipeline.
#[derive(Debug, Clone, Copy, PartialEq, Eq, Structural)]
pub enum Phase {
    Stopped,
    Starting,
    Running,
    Stopping,
}

/// Why the end of a setup was refused. The worker comes back to the caller,
/// who ends it.
pub struct StartFailure<W> {
    pub error: RouterError,
    pub worker: W,
}

/// The pipeline state as a mathematical value.
pub struct PipelineModel<W> {
    pub phase: Phase,
    /// The configuration of the run.
    pub config: Option<RouterConfigView>,
    /// The targets of the run, each with the mode of its mixer.
    pub targets: Seq<ActiveTargetView>,
    /// The handle of the worker loop.
    pub worker: Option<W>,
}

impl<W> PipelineModel<W> {
    /// The configuration, the targets and the worker are held together, and
    /// exactly while the pipeline runs.
    pub open spec fn wf(self) -> bool {
        &&& self.phase == Phase::Running <==> self.config is Some
        &&& self.phase == Phase::Running <==> self.worker is Some
        &&& self.phase == Phase::Running <==> self.targets.len() > 0
    }

    /// A pipeline in the given phase that holds nothing.
    pub open spec fn empty(phase: Phase) -> Self {
        PipelineModel { phase, config: None, targets: Seq::empty(), worker: None }
    }

    /// A request to start: accepted exactly if the pipeline is stopped.
    pub open spec fn begin_start(self) -> (Self, Result<(), RouterError>) {
        if self.phase == Phase::Stopped {
            (Self::empty(Phase::Starting), Ok(()))
        } else {
            (self, Err(RouterError::AlreadyRunning))
        }
    }

    /// The error with which the end of a setup is refused in a pipeline that
    /// is not starting.
    pub open spec fn not_starting_error(self) -> RouterError {
        if self.phase == Phase::Stopped {
            RouterError::NotRunning
        } else {
            RouterError::AlreadyRunning
        }
    }

    /// The end of a setup that succeeded. With at least one target the run
    /// begins; with none the start fails and nothing is kept. A refusal
    /// hands the worker back.
    pub open spec fn complete_start(
        self,
        config: RouterConfigView,
        targets: Seq<ActiveTargetView>,
        worker: W,
    ) -> (Self, Result<(), StartFailure<W>>) {
        if self.phase != Phase::Starting {
            (self, Err(StartFailure { error: self.not_starting_error(), worker }))
        } else if targets.len() == 0 {
            (
                Self::empty(Phase::Stopped),
                Err(StartFailure { error: RouterError::NoValidTargets, worker }),
            )
        } else {
            (
                PipelineModel {
                    phase: Phase::Running,
                    config: Some(config),
                    targets,
                    worker: Some(worker),
                },
                Ok(()),
            )
        }
    }

    /// The end of a setup that failed.
    pub open spec fn abort_start(self) -> Self {
        if self.phase == Phase::Starting {
            Self::empty(Phase::Stopped)
        } else {
            self
        }
    }

    /// A request to stop: accepted exactly if the pipeline runs. It hands
    /// out the worker.
    pub open spec fn begin_stop(self) -> (Self, Result<W, RouterError>) {
        if self.phase == Phase::Running && self.worker is Some {
            (Self::empty(Phase::Stopping), Ok(self.worker->0))
        } else {
            (self, Err(RouterError::NotRunning))
        }
    }

    /// The worker has ended.
    pub open spec fn complete_stop(self) -> Self {
        if self.phase == Phase::Stopping {
            Self::empty(Phase::Stopped)
        } else {
            self
        }
    }

    /// Every transition keeps the state well formed.
    pub proof fn lemma_transitions_keep_wf(
        self,
        config: RouterConfigView,
        targets: Seq<ActiveTargetView>,
        worker: W,
    )
        requires
            self.wf(),
        ensures
            Self::empty(Phase::Stopped).wf(),
            self.begin_start().0.wf(),
            self.complete_start(config, targets, worker).0.wf(),
            self.abort_start().wf(),
            self.begin_stop().0.wf(),
            self.complete_stop().wf(),
    {
    }

    /// A stop that is asked of a pipeline that does not run fails with
    /// `NotRunning` and changes nothing.
    pub proof fn lemma_stop_needs_running(self)
        requires
            self.wf(),
            self.phase != Phase::Running,
        ensures
            self.begin_stop() == (self, Err::<W, RouterError>(RouterError::NotRunning)),
    {
    }

    /// A start that is asked of a pipeline that is not stopped fails with
    /// `AlreadyRunning` and changes nothing: a run that exists is not
    /// touched.
    pub proof fn lemma_start_needs_stopped(self)
        requires
            self.wf(),
            self.phase != Phase::Stopped,
        ensures
            self.begin_start() == (self, Err::<(), RouterError>(RouterError::AlreadyRunning)),
    {
    }

    /// After a stop a second stop fails with `NotRunning` and changes
    /// nothing, whether the first stop has ended or not.
    pub proof fn lemma_second_stop_is_refused(self)
        requires
            self.wf(),
            self.phase == Phase::Running,
        ensures
            self.begin_stop().1 is Ok,
            ({
                let stopping = self.begin_stop().0;
                stopping.begin_stop() == (
                    stopping,
                    Err::<W, RouterError>(RouterError::NotRunning),
                )
            }),
            ({
                let stopped = self.begin_stop().0.complete_stop();
                &&& stopped == Self::empty(Phase::Stopped)
                &&& stopped.begin_stop() == (
                    stopped,
                    Err::<W, RouterError>(RouterError::NotRunning),
                )
            }),
    {
    }

    /// A start whose setup leaves no target fails with `NoValidTargets`, and
    /// the pipeline is stopped and holds nothing afterwards.
    pub proof fn lemma_start_without_targets_fails(self, config: RouterConfigView, worker: W)
        requires
            self.wf(),
            self.phase == Phase::Stopped,
        ensures
            self.begin_start().1 is Ok,
            self.begin_start().0.complete_start(config, Seq::empty(), worker) == (
                Self::empty(Phase::Stopped),
                Err::<(), StartFailure<W>>(
                    StartFailure { error: RouterError::NoValidTargets, worker },
                ),
            ),
    {
    }

    /// A start whose setup leaves targets runs with exactly these targets.
    pub proof fn lemma_start_with_targets_runs(
        self,
        config: RouterConfigView,
        targets: Seq<ActiveTargetView>,
        worker: W,
    )
        requires
            self.wf(),
            self.phase == Phase::Stopped,
            targets.len() > 0,
        ensures
            ({
                let (running, outcome) = self.begin_start().0.complete_start(
                    config,
                    targets,
                    worker,
                );
                &&& outcome is Ok
                &&& running.phase == Phase::Running
                &&& running.config == Some(config)
                &&& running.targets == targets
                &&& running.worker == Some(worker)
            }),
    {
    }
}

/// The state of the routing pipeline.
pub struct RouterState<W> {
    phase: Phase,
    config: Option<RouterConfig>,
    targets: Vec<ActiveTarget>,
    worker: Option<W>,
}

impl<W> View for RouterState<W> {
    type V = PipelineModel<W>;

    closed spec fn view(&self) -> PipelineModel<W> {
        PipelineModel {
            phase: self.phase,
            config: match self.config {
                Some(config) => Some(config@),
                None => None,
            },
            targets: target_views(self.targets@),
            worker: self.worker,
        }
    }
}

impl<W> RouterState<W> {
    #[verifier::type_invariant]
    spec fn inv(&self) -> bool {
        self@.wf()
    }

    /// A stopped pipeline.
    pub fn new() -> (state: RouterState<W>)
        ensures
            state@ == PipelineModel::<W>::empty(Phase::Stopped),
            state@.wf(),
    {
        let state = RouterState {
            phase: Phase::Stopped,
            config: None,
            targets: Vec::new(),
            worker: None,
        };
        assert(target_views(state.targets@) =~= Seq::empty());
        state
    }

    /// The phase of the pipeline.
    pub fn phase(&self) -> (phase: Phase)
        ensures
            phase == self@.phase,
    {
        self.phase
    }

    /// Whether the pipeline runs.
    pub fn is_running(&self) -> (running: bool)
        ensures
            running == (self@.phase == Phase::Running),
            self@.wf(),
    {
        proof {
            use_type_invariant(self);
        }
        self.phase == Phase::Running
    }

    /// The configuration of the run, while the pipeline runs.
    pub fn config(&self) -> (config: Option<&RouterConfig>)
        ensures
            self@.wf(),
            match config {
                Some(c) => self@.config == Some(c@),
                None => self@.config is None,
            },
    {
        proof {
            use_type_invariant(self);
        }
        self.config.as_ref()
    }

    /// The targets of the run, each with its mixer; none unless the pipeline
    /// runs.
    pub fn targets(&self) -> (targets: &Vec<ActiveTarget>)
        ensures
            self@.wf(),
            target_views(targets@) == self@.targets,
    {
        proof {
            use_type_invariant(self);
        }
        &self.targets
    }

    /// Asks to start. A stopped pipeline becomes `Starting`; any other
    /// refuses with `AlreadyRunning` and stays as it is.
    pub fn begin_start(&mut self) -> (outcome: Result<(), RouterError>)
        ensures
            (final(self)@, outcome) == old(self)@.begin_start(),
            old(self)@.phase != Phase::Stopped ==> *final(self) == *old(self) && outcome == Err::<
                (),
                RouterError,
            >(RouterError::AlreadyRunning),
            final(self)@.wf(),
    {
        proof {
            use_type_invariant(&*self);
        }
        if self.phase != Phase::Stopped {
            return Err(RouterError::AlreadyRunning);
        }
        let state = RouterState {
            phase: Phase::Starting,
            config: None,
            targets: Vec::new(),
            worker: None,
        };
        assert(target_views(state.targets@) =~= Seq::empty());
        *self = state;
        Ok(())
    }

    /// Ends a setup that succeeded. A starting pipeline with at least one
    /// target becomes `Running` and holds the configuration, the targets and
    /// the worker. With no target it becomes `Stopped`, holds nothing, and
    /// the start fails with `NoValidTargets`. A pipeline that is not
    /// starting stays as it is.
    pub fn complete_start(
        &mut self,
        config: RouterConfig,
        targets: Vec<ActiveTarget>,
        worker: W,
    ) -> (outcome: Result<(), StartFailure<W>>)
        ensures
            (final(self)@, outcome) == old(self)@.complete_start(
                config@,
                target_views(targets@),
                worker,
            ),
            old(self)@.phase != Phase::Starting ==> *final(self) == *old(self),
            final(self)@.wf(),
    {
        proof {
            use_type_invariant(&*self);
        }
        if self.phase != Phase::Starting {
            let error = if self.phase == Phase::Stopped {
                RouterError::NotRunning
            } else {
                RouterError::AlreadyRunning
            };
            return Err(StartFailure { error, worker });
        }
        if targets.len() == 0 {
            let state = RouterState {
                phase: Phase::Stopped,
                config: None,
                targets: Vec::new(),
                worker: None,
            };
            assert(target_views(state.targets@) =~= Seq::empty());
            *self = state;
            return Err(StartFailure { error: RouterError::NoValidTargets, worker });
        }
        *self = RouterState {
            phase: Phase::Running,
            config: Some(config),
            targets,
            worker: Some(worker),
        };
        Ok(())
    }

    /// Ends a setup that failed: a starting pipeline becomes `Stopped`; any
    /// other stays as it is.
    pub fn abort_start(&mut self)
        ensures
            final(self)@ == old(self)@.abort_start(),
            old(self)@.phase != Phase::Starting ==> *final(self) == *old(self),
            final(self)@.wf(),
    {
        proof {
            use_type_invariant(&*self);
        }
        if self.phase == Phase::Starting {
            let state = RouterState {
                phase: Phase::Stopped,
                config: None,
                targets: Vec::new(),
                worker: None,
            };
            assert(target_views(state.targets@) =~= Seq::empty());
            *self = state;
        }
    }

    /// Asks to stop. A running pipeline becomes `Stopping`, lets go of its
    /// configuration and targets and hands out the worker; any other refuses
    /// with `NotRunning` and stays as it is.
    pub fn begin_stop(&mut self) -> (outcome: Result<W, RouterError>)
        ensures
            (final(self)@, outcome) == old(self)@.begin_stop(),
            old(self)@.phase != Phase::Running ==> *final(self) == *old(self) && outcome == Err::<
                W,
                RouterError,
            >(RouterError::NotRunning),
            final(self)@.wf(),
    {
        proof {
            use_type_invariant(&*self);
        }
        if self.phase != Phase::Running {
            return Err(RouterError::NotRunning);
        }
        let mut taken = RouterState {
            phase: Phase::Stopping,
            config: None,
            targets: Vec::new(),
            worker: None,
        };
        assert(target_views(taken.targets@) =~= Seq::empty());
        core::mem::swap(self, &mut taken);
        let RouterState { phase: _, config: _, targets: _, worker } = taken;
        match worker {
            Some(worker) => Ok(worker),
            None => Err(RouterError::NotRunning),
        }
    }

    /// The worker has ended: a stopping pipeline becomes `Stopped`; any
    /// other stays as it is.
    pub fn complete_stop(&mut self)
        ensures
            final(self)@ == old(self)@.complete_stop(),
            old(self)@.phase != Phase::Stopping ==> *final(self) == *old(self),
            final(self)@.wf(),
    {
        proof {
            use_type_invariant(&*self);
        }
        if self.phase == Phase::Stopping {
            let state = RouterState {
                phase: Phase::Stopped,
                config: None,
                targets: Vec::new(),
                worker: None,
            };
            assert(target_views(state.targets@) =~= Seq::empty());
            *self = state;
        }
    }
}

} // verus!
