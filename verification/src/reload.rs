//! The reload loop's decisions: when a tick reloads, and whether a reload is worth a render.
//!
//! The loop itself belongs to whoever owns the timer and the files. On every change
//! signal it calls [`ReloadLoop::signal`], on every tick [`ReloadLoop::on_tick`]; when
//! that answers `Reload` it loads the configuration and hands the result to
//! [`ReloadLoop::on_loaded`], which says whether to render.

use crate::config::{Config, ConfigModel};
use crate::load::{LoadError, LoadErrorModel};
use vstd::prelude::*;

verus! {

/// How eagerly the loop reloads and renders.
#[derive(Clone, Copy, Debug, PartialEq, Eq)]
pub enum Strategy {
    /// Reload on every tick and render after every reload.
    Unconditional,
    /// Reload only on the first tick and after a change signal; render only when the
    /// configuration differs from the one applied last.
    ChangeGated,
}

/// What to do on a tick.
#[derive(Clone, Copy, Debug, PartialEq, Eq)]
pub enum TickAction {
    /// Load the configuration and the note, then report with `on_loaded`.
    Reload,
    /// Nothing.
    Idle,
}

/// What to do after a reload.
#[derive(Clone, Copy, Debug, PartialEq, Eq)]
pub enum Outcome {
    /// Render with the configuration now applied and push the result to the display.
    Render,
    /// Leave the display as it is.
    Keep,
}

/// The state of the reload loop: the configuration applied last, if any, and whether a
/// change was signalled since the last tick.
#[derive(Clone, Debug, PartialEq, Eq)]
pub struct ReloadLoop {
    strategy: Strategy,
    applied: Option<Config>,
    pending: bool,
}

/// The mathematical value of a [`ReloadLoop`].
pub struct ReloadModel {
    pub strategy: Strategy,
    pub applied: Option<ConfigModel>,
    pub pending: bool,
}

/// The mathematical value of the result of a load.
pub open spec fn loaded_model(loaded: Result<Config, LoadError>) -> Result<
    ConfigModel,
    LoadErrorModel,
> {
    match loaded {
        Ok(config) => Ok(config@),
        Err(error) => Err(error@),
    }
}

/// The state at start: nothing applied, nothing signalled.
pub open spec fn initial(strategy: Strategy) -> ReloadModel {
    ReloadModel { strategy, applied: None, pending: false }
}

/// The state after one change signal.
pub open spec fn after_signal(state: ReloadModel) -> ReloadModel {
    ReloadModel { pending: true, ..state }
}

/// The state after `count` change signals.
pub open spec fn after_signals(state: ReloadModel, count: nat) -> ReloadModel
    decreases count,
{
    if count == 0 {
        state
    } else {
        after_signal(after_signals(state, (count - 1) as nat))
    }
}

/// What a tick does in `state`: under `Unconditional` it always reloads; under
/// `ChangeGated` it reloads while nothing is applied yet or when a change is pending.
pub open spec fn tick_action(state: ReloadModel) -> TickAction {
    match state.strategy {
        Strategy::Unconditional => TickAction::Reload,
        Strategy::ChangeGated => if state.applied is None || state.pending {
            TickAction::Reload
        } else {
            TickAction::Idle
        },
    }
}

/// The state after a tick: the pending change, if any, is taken.
pub open spec fn after_tick(state: ReloadModel) -> ReloadModel {
    ReloadModel { pending: false, ..state }
}

/// What follows a load in `state`. A configuration that loaded is rendered always under
/// `Unconditional`, and under `ChangeGated` unless it equals the one applied last. After
/// a failed load `Unconditional` renders again with the configuration applied last, if
/// there is one, and `ChangeGated` renders nothing.
pub open spec fn load_outcome(state: ReloadModel, loaded: Result<ConfigModel, LoadErrorModel>) -> Outcome {
    match loaded {
        Ok(config) => match state.strategy {
            Strategy::Unconditional => Outcome::Render,
            Strategy::ChangeGated => if state.applied == Some(config) {
                Outcome::Keep
            } else {
                Outcome::Render
            },
        },
        Err(_) => match state.strategy {
            Strategy::Unconditional => if state.applied is Some {
                Outcome::Render
            } else {
                Outcome::Keep
            },
            Strategy::ChangeGated => Outcome::Keep,
        },
    }
}

/// The state after a load: a configuration that loaded replaces the one applied last; a
/// failed load leaves it in place.
pub open spec fn after_load(state: ReloadModel, loaded: Result<ConfigModel, LoadErrorModel>) -> ReloadModel {
    match loaded {
        Ok(config) => ReloadModel { applied: Some(config), ..state },
        Err(_) => state,
    }
}

impl View for ReloadLoop {
    type V = ReloadModel;

    closed spec fn view(&self) -> ReloadModel {
        ReloadModel {
            strategy: self.strategy,
            applied: match self.applied {
                Some(config) => Some(config@),
                None => None,
            },
            pending: self.pending,
        }
    }
}

impl ReloadLoop {
    /// A loop that has applied nothing yet.
    pub fn new(strategy: Strategy) -> (state: ReloadLoop)
        ensures
            state@ == initial(strategy),
    {
        ReloadLoop { strategy, applied: None, pending: false }
    }

    /// The strategy that the loop was made with.
    pub fn strategy(&self) -> (strategy: Strategy)
        ensures
            strategy == self@.strategy,
    {
        self.strategy
    }

    /// The configuration applied last, if any.
    pub fn applied(&self) -> (applied: Option<&Config>)
        ensures
            match applied {
                Some(config) => self@.applied == Some(config@),
                None => self@.applied is None,
            },
    {
        match &self.applied {
            Some(config) => Some(config),
            None => None,
        }
    }

    /// Whether a change was signalled since the last tick.
    pub fn is_pending(&self) -> (pending: bool)
        ensures
            pending == self@.pending,
    {
        self.pending
    }

    /// Records a change signal. Any number of signals before the next tick count as one.
    pub fn signal(&mut self)
        ensures
            final(self)@ == after_signal(old(self)@),
    {
        self.pending = true;
    }

    /// Decides what this tick does, and takes the pending change.
    pub fn on_tick(&mut self) -> (action: TickAction)
        ensures
            action == tick_action(old(self)@),
            final(self)@ == after_tick(old(self)@),
    {
        let action = match self.strategy {
            Strategy::Unconditional => TickAction::Reload,
            Strategy::ChangeGated => if self.applied.is_none() || self.pending {
                TickAction::Reload
            } else {
                TickAction::Idle
            },
        };
        self.pending = false;
        action
    }

    /// Takes the result of a load: decides whether to render, and keeps a configuration
    /// that loaded as the one applied.
    pub fn on_loaded(&mut self, loaded: Result<Config, LoadError>) -> (outcome: Outcome)
        ensures
            outcome == load_outcome(old(self)@, loaded_model(loaded)),
            final(self)@ == after_load(old(self)@, loaded_model(loaded)),
    {
        match loaded {
            Ok(config) => {
                let outcome = match self.strategy {
                    Strategy::Unconditional => Outcome::Render,
                    Strategy::ChangeGated => match &self.applied {
                        Some(previous) => if previous.structurally_equal(&config) {
                            Outcome::Keep
                        } else {
                            Outcome::Render
                        },
                        None => Outcome::Render,
                    },
                };
                self.applied = Some(config);
                outcome
            },
            Err(_) => match self.strategy {
                Strategy::Unconditional => if self.applied.is_some() {
                    Outcome::Render
                } else {
                    Outcome::Keep
                },
                Strategy::ChangeGated => Outcome::Keep,
            },
        }
    }
}

/// However many change signals arrive before a tick, at least one, the state is the
/// same as after one signal.
pub proof fn signals_coalesce(state: ReloadModel, count: nat)
    requires
        count >= 1,
    ensures
        after_signals(state, count) == after_signal(state),
    decreases count,
{
    if count > 1 {
        signals_coalesce(state, (count - 1) as nat);
    } else {
        assert(after_signals(state, 0) == state);
    }
}

/// Under `ChangeGated`, a burst of change signals followed by a tick runs one reload: the
/// tick answers `Reload` and takes the whole burst, so that the tick after it is idle
/// once a configuration is applied. The reload that the tick asked for renders exactly
/// when a configuration loaded and differs from the one applied before.
pub proof fn burst_runs_one_reload(
    state: ReloadModel,
    count: nat,
    loaded: Result<ConfigModel, LoadErrorModel>,
)
    requires
        state.strategy is ChangeGated,
        count >= 1,
    ensures
        tick_action(after_signals(state, count)) is Reload,
        ({
            let ticked = after_tick(after_signals(state, count));
            let done = after_load(ticked, loaded);
            &&& !ticked.pending
            &&& ticked.applied == state.applied
            &&& load_outcome(ticked, loaded) is Render <==> (loaded is Ok && state.applied != Some(
                loaded->Ok_0,
            ))
            &&& loaded is Ok ==> done.applied == Some(loaded->Ok_0)
            &&& loaded is Err ==> done.applied == state.applied
            &&& done.applied is Some ==> tick_action(done) is Idle
        }),
{
    signals_coalesce(state, count);
}

/// Whatever the strategy, the first load that succeeds is rendered.
pub proof fn first_load_is_rendered(strategy: Strategy, config: ConfigModel, pending: bool)
    ensures
        tick_action(ReloadModel { strategy, applied: None, pending }) is Reload,
        load_outcome(
            ReloadModel { strategy, applied: None, pending },
            Ok(config),
        ) is Render,
{
}

} // verus!
