//! Level progression: a level is a queue of phases, and each tick of the game
//! clock advances the timers of the phase that is being played, asks for the
//! spawns that have come due, and moves on to the next phase when the current
//! one is over.
//!
//! What the engine needs besides (where a boss appears, how the music fades, which
//! formation a pool yields) stays with the caller. The level names the phase that
//! acts by its index in the level's timeline, and the caller looks the rest up.

use crate::clock::{
    duration_nanos, saturating_nanos, stopwatch_after_tick, stopwatch_new, stopwatch_state,
    stopwatch_tick, timer_after_reset, timer_after_tick, timer_is_finished, timer_just_finished,
    timer_reset, timer_set_duration, timer_state, timer_tick, StopwatchState, TimerState,
};
use crate::spawnable::MobType;
use bevy_time::{Stopwatch, Timer};
use std::collections::VecDeque;
use std::time::Duration;
use vstd::prelude::*;

verus! {

/// Describes a distinct portion of the level
#[derive(Clone, Debug)]
pub enum LevelPhaseType {
    /// Formations of mobs are drawn from a pool, one each time the spawn timer
    /// completes, until the phase timer completes.
    FormationSpawn { phase_timer: Timer, spawn_timer: Timer, formation_pool: String },
    /// Nothing spawns until the phase timer completes.
    Break { phase_timer: Timer },
    /// A boss appears when the spawn timer completes; the phase lasts until the
    /// bosses are destroyed.
    Boss { mob_type: MobType, spawn_timer: Timer },
}

/// A defined section of the level
#[derive(Clone, Debug)]
pub struct LevelPhase {
    /// phase type
    pub phase_type: LevelPhaseType,
    /// whether the background music changes when the phase begins
    pub changes_music: bool,
    /// how long the phase has been played
    pub phase_time: Stopwatch,
}

/// Data used to initialize levels
pub struct LevelData {
    /// timeline of the phases of the level
    pub phases: Vec<LevelPhase>,
}

/// Event to alert when level has been completed
#[derive(Debug, PartialEq, Eq, Clone, Copy, Structural)]
pub struct LevelCompletedEvent;

/// What the caller is asked to do after a tick.
#[derive(Debug, PartialEq, Eq, Clone, Copy, Structural)]
pub enum LevelAction {
    /// Spawn a formation drawn from the pool of the phase with this index.
    SpawnFormation { phase: usize },
    /// Spawn this mob as the boss of the phase with this index.
    SpawnBoss { mob_type: MobType, phase: usize },
    /// Start the background music of the phase with this index.
    ChangeBackgroundMusic { phase: usize },
}

/// Struct to manage a level
#[derive(Clone, Debug)]
pub struct Level {
    /// Phases that have been completed so far in the run
    pub completed_phases: VecDeque<LevelPhase>,
    /// Phase that is currently active
    pub current_phase: Option<LevelPhase>,
    /// Phases that have yet to be played in the level
    pub queued_phases: VecDeque<LevelPhase>,
    /// Tracks how long the player has been in the level
    pub level_time: Stopwatch,
}

/// A phase type with the state of its timers.
pub enum PhaseTypeView {
    FormationSpawn { phase_timer: TimerState, spawn_timer: TimerState, formation_pool: Seq<char> },
    Break { phase_timer: TimerState },
    Boss { mob_type: MobType, spawn_timer: TimerState },
}

/// A phase with the state of its timers.
pub struct PhaseView {
    pub phase_type: PhaseTypeView,
    pub changes_music: bool,
    pub phase_time: StopwatchState,
}

/// A level with the state of its timers.
pub struct LevelView {
    pub completed: Seq<PhaseView>,
    pub current: Option<PhaseView>,
    pub queued: Seq<PhaseView>,
    pub level_time: StopwatchState,
}

impl View for LevelPhaseType {
    type V = PhaseTypeView;

    open spec fn view(&self) -> PhaseTypeView {
        match *self {
            LevelPhaseType::FormationSpawn { phase_timer, spawn_timer, formation_pool } => {
                PhaseTypeView::FormationSpawn {
                    phase_timer: timer_state(phase_timer),
                    spawn_timer: timer_state(spawn_timer),
                    formation_pool: formation_pool@,
                }
            },
            LevelPhaseType::Break { phase_timer } => PhaseTypeView::Break {
                phase_timer: timer_state(phase_timer),
            },
            LevelPhaseType::Boss { mob_type, spawn_timer } => PhaseTypeView::Boss {
                mob_type,
                spawn_timer: timer_state(spawn_timer),
            },
        }
    }
}

impl View for LevelPhase {
    type V = PhaseView;

    open spec fn view(&self) -> PhaseView {
        PhaseView {
            phase_type: self.phase_type@,
            changes_music: self.changes_music,
            phase_time: stopwatch_state(self.phase_time),
        }
    }
}

/// The views of a sequence of phases, in order.
pub open spec fn phase_views(phases: Seq<LevelPhase>) -> Seq<PhaseView> {
    phases.map_values(|p: LevelPhase| p@)
}

/// Viewing a sequence with one more phase adds the view of that phase.
pub proof fn lemma_phase_views_push(phases: Seq<LevelPhase>, phase: LevelPhase)
    ensures
        phase_views(phases.push(phase)) == phase_views(phases).push(phase@),
{
}

impl View for Level {
    type V = LevelView;

    open spec fn view(&self) -> LevelView {
        LevelView {
            completed: phase_views(self.completed_phases@),
            current: match self.current_phase {
                Some(phase) => Some(phase@),
                None => None,
            },
            queued: phase_views(self.queued_phases@),
            level_time: stopwatch_state(self.level_time),
        }
    }
}

/// Whether a tick of `delta` nanoseconds completes the timer.
pub open spec fn completes(timer: TimerState, delta: nat) -> bool {
    timer_after_tick(timer, delta).times_finished > 0
}

/// A running one-shot timer completes on the tick that brings its elapsed time
/// up to its duration, and on no tick after that: it then stays finished, at its
/// duration.
pub proof fn lemma_one_shot_completes_once(timer: TimerState, delta: nat, later: nat)
    requires
        !timer.repeating,
        !timer.paused,
        !timer.finished,
    ensures
        completes(timer, delta) == (saturating_nanos(timer.elapsed, delta) >= timer.duration),
        completes(timer, delta) ==> ({
            &&& timer_after_tick(timer, delta).finished
            &&& timer_after_tick(timer, delta).elapsed == timer.duration
            &&& !completes(timer_after_tick(timer, delta), later)
            &&& timer_after_tick(timer_after_tick(timer, delta), later) == (TimerState {
                times_finished: 0,
                ..timer_after_tick(timer, delta)
            })
        }),
        !completes(timer, delta) ==> ({
            &&& !timer_after_tick(timer, delta).finished
            &&& timer_after_tick(timer, delta).elapsed == saturating_nanos(timer.elapsed, delta)
        }),
{
}

/// A paused timer never completes, and a tick leaves its elapsed time as it is.
pub proof fn lemma_paused_timer_stands_still(timer: TimerState, delta: nat)
    requires
        timer.paused,
    ensures
        !completes(timer, delta),
        timer_after_tick(timer, delta).elapsed == timer.elapsed,
        timer_after_tick(timer, delta).duration == timer.duration,
        timer_after_tick(timer, delta).paused,
{
}

/// A boss is asked for at most once: once the spawn timer of a boss phase has
/// finished, no tick asks for a spawn, and the phase ends exactly when the bosses
/// are reported destroyed.
pub proof fn lemma_boss_spawns_once(
    mob_type: MobType,
    spawn_timer: TimerState,
    delta: nat,
    period: nat,
    phase: usize,
    bosses_destroyed: bool,
)
    requires
        spawn_timer.finished,
    ensures
        ({
            let boss = PhaseTypeView::Boss { mob_type, spawn_timer };
            &&& boss.spawn_on_tick(delta, phase).is_none()
            &&& boss.after_tick(delta, period) == boss
            &&& boss.ended_by_tick(delta, bosses_destroyed) == bosses_destroyed
        }),
{
}

/// The spawn timer of a formation phase after a tick of `delta` nanoseconds: when
/// the tick completes it, it starts over with the period of the formation that was
/// spawned.
pub open spec fn spawn_timer_after_tick(timer: TimerState, delta: nat, period: nat) -> TimerState {
    let ticked = timer_after_tick(timer, delta);
    if ticked.times_finished > 0 {
        timer_after_reset(TimerState { duration: period, ..ticked })
    } else {
        ticked
    }
}

impl PhaseTypeView {
    /// The phase after a tick of `delta` nanoseconds. The spawn timer of a boss
    /// phase stands still once it has finished.
    pub open spec fn after_tick(self, delta: nat, period: nat) -> PhaseTypeView {
        match self {
            PhaseTypeView::FormationSpawn { phase_timer, spawn_timer, formation_pool } => {
                PhaseTypeView::FormationSpawn {
                    phase_timer: timer_after_tick(phase_timer, delta),
                    spawn_timer: spawn_timer_after_tick(spawn_timer, delta, period),
                    formation_pool,
                }
            },
            PhaseTypeView::Break { phase_timer } => PhaseTypeView::Break {
                phase_timer: timer_after_tick(phase_timer, delta),
            },
            PhaseTypeView::Boss { mob_type, spawn_timer } => PhaseTypeView::Boss {
                mob_type,
                spawn_timer: if spawn_timer.finished {
                    spawn_timer
                } else {
                    timer_after_tick(spawn_timer, delta)
                },
            },
        }
    }

    /// The spawn that a tick of `delta` nanoseconds asks for, if any, when the
    /// phase has the index `phase`: a formation or a boss when the tick completes
    /// the spawn timer.
    pub open spec fn spawn_on_tick(self, delta: nat, phase: usize) -> Option<LevelAction> {
        match self {
            PhaseTypeView::FormationSpawn { spawn_timer, .. } => if completes(spawn_timer, delta) {
                Some(LevelAction::SpawnFormation { phase })
            } else {
                None
            },
            PhaseTypeView::Break { .. } => None,
            PhaseTypeView::Boss { mob_type, spawn_timer } => if !spawn_timer.finished && completes(
                spawn_timer,
                delta,
            ) {
                Some(LevelAction::SpawnBoss { mob_type, phase })
            } else {
                None
            },
        }
    }

    /// Whether a tick of `delta` nanoseconds ends the phase: a timed phase ends
    /// when the tick completes its phase timer, a boss phase when its boss has
    /// been spawned on an earlier tick and the bosses are reported destroyed.
    pub open spec fn ended_by_tick(self, delta: nat, bosses_destroyed: bool) -> bool {
        match self {
            PhaseTypeView::FormationSpawn { phase_timer, .. } => completes(phase_timer, delta),
            PhaseTypeView::Break { phase_timer } => completes(phase_timer, delta),
            PhaseTypeView::Boss { spawn_timer, .. } => spawn_timer.finished && bosses_destroyed,
        }
    }
}

impl LevelView {
    /// The level after moving on by one phase: the current phase, if any, joins
    /// the completed ones, and the first queued phase, if any, becomes current.
    pub open spec fn after_cycle(self) -> LevelView {
        LevelView {
            completed: match self.current {
                Some(phase) => self.completed.push(phase),
                None => self.completed,
            },
            current: if self.queued.len() > 0 {
                Some(self.queued.first())
            } else {
                None
            },
            queued: if self.queued.len() > 0 {
                self.queued.drop_first()
            } else {
                self.queued
            },
            level_time: self.level_time,
        }
    }

    /// The request to change the music, if the current phase brings its own.
    pub open spec fn music_action(self) -> Option<LevelAction> {
        match self.current {
            Some(phase) => if phase.changes_music {
                Some(LevelAction::ChangeBackgroundMusic { phase: self.completed.len() as usize })
            } else {
                None
            },
            None => None,
        }
    }

    /// The level with its current phase advanced by a tick, before any change of
    /// phase. The level's own stopwatch advances in every case.
    pub open spec fn with_phase_ticked(self, delta: nat, period: nat) -> LevelView {
        LevelView {
            current: match self.current {
                Some(phase) => Some(
                    PhaseView { phase_type: phase.phase_type.after_tick(delta, period), ..phase },
                ),
                None => None,
            },
            level_time: stopwatch_after_tick(self.level_time, delta),
            ..self
        }
    }

    /// Whether a tick of `delta` nanoseconds ends the current phase.
    pub open spec fn phase_ended_by_tick(self, delta: nat, bosses_destroyed: bool) -> bool {
        match self.current {
            Some(phase) => phase.phase_type.ended_by_tick(delta, bosses_destroyed),
            None => false,
        }
    }

    /// The level after a tick of `delta` nanoseconds: the current phase advances,
    /// and if that ends it the level moves on by one phase.
    pub open spec fn after_tick(
        self,
        delta: nat,
        period: nat,
        bosses_destroyed: bool,
    ) -> LevelView {
        let ticked = self.with_phase_ticked(delta, period);
        if self.phase_ended_by_tick(delta, bosses_destroyed) {
            ticked.after_cycle()
        } else {
            ticked
        }
    }

    /// What a tick of `delta` nanoseconds asks the caller to do, in order: first
    /// the spawn of the current phase, if one has come due, then the change of
    /// music, if the tick ends the phase and the next one brings its own.
    pub open spec fn tick_actions(
        self,
        delta: nat,
        period: nat,
        bosses_destroyed: bool,
    ) -> Seq<LevelAction> {
        let spawn = match self.current {
            Some(phase) => phase.phase_type.spawn_on_tick(delta, self.completed.len() as usize),
            None => None,
        };
        let music = if self.phase_ended_by_tick(delta, bosses_destroyed) {
            self.after_tick(delta, period, bosses_destroyed).music_action()
        } else {
            None
        };
        option_seq(spawn) + option_seq(music)
    }
}

/// The sequence of no element or one.
pub open spec fn option_seq(action: Option<LevelAction>) -> Seq<LevelAction> {
    match action {
        Some(a) => seq![a],
        None => Seq::empty(),
    }
}

impl LevelView {
    /// The number of phases of the level, played or not.
    pub open spec fn phase_count(self) -> nat {
        self.completed.len() + self.queued.len() + if self.current.is_some() {
            1nat
        } else {
            0nat
        }
    }
}

/// Moving on by one phase neither adds nor loses a phase, and keeps the phases
/// in the order of the timeline.
pub proof fn lemma_cycle_keeps_phases(level: LevelView)
    ensures
        level.after_cycle().phase_count() == level.phase_count(),
        level.after_cycle().completed.len() >= level.completed.len(),
        level.after_cycle().completed.take(level.completed.len() as int) == level.completed,
{
}

/// A tick neither adds nor loses a phase, and a phase that is completed stays so.
pub proof fn lemma_tick_keeps_phases(
    level: LevelView,
    delta: nat,
    period: nat,
    bosses_destroyed: bool,
)
    ensures
        level.after_tick(delta, period, bosses_destroyed).phase_count() == level.phase_count(),
        level.after_tick(delta, period, bosses_destroyed).completed.take(
            level.completed.len() as int,
        ) == level.completed,
{
}

/// A level without a current phase stands still: a tick advances its stopwatch
/// and nothing else, and asks for nothing. The queue is not started by a tick.
pub proof fn lemma_tick_without_phase(
    level: LevelView,
    delta: nat,
    period: nat,
    bosses_destroyed: bool,
)
    requires
        level.current.is_none(),
    ensures
        level.after_tick(delta, period, bosses_destroyed) == (LevelView {
            level_time: stopwatch_after_tick(level.level_time, delta),
            ..level
        }),
        level.tick_actions(delta, period, bosses_destroyed) == Seq::<LevelAction>::empty(),
{
}

/// A tick asks for at most two things: at most one spawn, and at most one change
/// of music after it.
pub proof fn lemma_tick_actions_bounded(
    level: LevelView,
    delta: nat,
    period: nat,
    bosses_destroyed: bool,
)
    ensures
        level.tick_actions(delta, period, bosses_destroyed).len() <= 2,
        !level.phase_ended_by_tick(delta, bosses_destroyed) ==> level.tick_actions(
            delta,
            period,
            bosses_destroyed,
        ).len() <= 1,
{
}

impl Level {
    /// Moves on by one phase: the current phase, if any, joins the completed
    /// ones, and the first queued phase, if any, becomes current. Returns true
    /// if no phase was left to become current.
    pub fn cycle_phase(&mut self) -> (exhausted: bool)
        ensures
            final(self)@ == old(self)@.after_cycle(),
            exhausted == (old(self)@.queued.len() == 0),
    {
        if let Some(current_phase) = self.current_phase.take() {
            self.completed_phases.push_back(current_phase);
        }
        self.current_phase = self.queued_phases.pop_front();
        proof {
            assert(final(self)@.completed =~= old(self)@.after_cycle().completed);
            assert(final(self)@.queued =~= old(self)@.after_cycle().queued);
        }
        self.current_phase.is_none()
    }

    /// The index of the current phase in the level's timeline.
    pub fn current_phase_index(&self) -> (index: usize)
        ensures
            index == self@.completed.len(),
    {
        self.completed_phases.len()
    }

    /// Begins the current phase: asks for a change of music if the phase brings
    /// its own.
    pub fn init_phase(&self) -> (action: Option<LevelAction>)
        ensures
            action == self@.music_action(),
    {
        match &self.current_phase {
            Some(current_phase) => {
                if current_phase.changes_music {
                    Some(LevelAction::ChangeBackgroundMusic { phase: self.completed_phases.len() })
                } else {
                    None
                }
            },
            None => None,
        }
    }

    /// Advances the level by one frame of `delta`.
    ///
    /// `formation_period` is the period of the formation that the caller has drawn
    /// from the current phase's pool for this frame; it is read only when a
    /// formation is spawned. `bosses_destroyed` tells whether the destruction of
    /// the bosses was reported since the last frame.
    ///
    /// Returns true if the level has been completed, that is, if no phase was
    /// being played, together with what the caller is asked to do.
    pub fn tick(&mut self, delta: Duration, formation_period: Duration, bosses_destroyed: bool) -> (r:
        (bool, Vec<LevelAction>))
        ensures
            final(self)@ == old(self)@.after_tick(
                duration_nanos(delta),
                duration_nanos(formation_period),
                bosses_destroyed,
            ),
            r.0 == old(self)@.current.is_none(),
            r.1@ == old(self)@.tick_actions(
                duration_nanos(delta),
                duration_nanos(formation_period),
                bosses_destroyed,
            ),
    {
        stopwatch_tick(&mut self.level_time, delta);
        let mut actions: Vec<LevelAction> = Vec::new();
        let index = self.completed_phases.len();
        match self.current_phase.take() {
            Some(current_phase) => {
                let LevelPhase { phase_type, changes_music, phase_time } = current_phase;
                let (phase_type, phase_ended) = match phase_type {
                    LevelPhaseType::FormationSpawn {
                        mut phase_timer,
                        mut spawn_timer,
                        formation_pool,
                    } => {
                        if Self::tick_spawn_timer(&mut spawn_timer, delta, formation_period) {
                            actions.push(LevelAction::SpawnFormation { phase: index });
                        }
                        let ended = Self::tick_phase_timer(&mut phase_timer, delta);
                        (
                            LevelPhaseType::FormationSpawn {
                                phase_timer,
                                spawn_timer,
                                formation_pool,
                            },
                            ended,
                        )
                    },
                    LevelPhaseType::Break { mut phase_timer } => {
                        let ended = Self::tick_phase_timer(&mut phase_timer, delta);
                        (LevelPhaseType::Break { phase_timer }, ended)
                    },
                    LevelPhaseType::Boss { mob_type, mut spawn_timer } => {
                        let ended = if timer_is_finished(&spawn_timer) {
                            bosses_destroyed
                        } else {
                            timer_tick(&mut spawn_timer, delta);
                            if timer_just_finished(&spawn_timer) {
                                actions.push(LevelAction::SpawnBoss { mob_type, phase: index });
                            }
                            false
                        };
                        (LevelPhaseType::Boss { mob_type, spawn_timer }, ended)
                    },
                };
                self.current_phase = Some(LevelPhase { phase_type, changes_music, phase_time });
                if phase_ended && !self.cycle_phase() {
                    if let Some(action) = self.init_phase() {
                        actions.push(action);
                    }
                }
                (false, actions)
            },
            None => (true, actions),
        }
    }

    /// Advances a phase timer by `delta` and tells whether that completed it.
    pub fn tick_phase_timer(phase_timer: &mut Timer, delta: Duration) -> (ended: bool)
        ensures
            timer_state(*final(phase_timer)) == timer_after_tick(
                timer_state(*old(phase_timer)),
                duration_nanos(delta),
            ),
            ended == completes(timer_state(*old(phase_timer)), duration_nanos(delta)),
    {
        timer_tick(phase_timer, delta);
        timer_just_finished(phase_timer)
    }

    /// Advances a spawn timer by `delta` and tells whether a formation is to be
    /// spawned: that is so when the tick completes the timer, which then starts
    /// over with `formation_period` as its duration.
    pub fn tick_spawn_timer(spawn_timer: &mut Timer, delta: Duration, formation_period: Duration) -> (spawn:
        bool)
        ensures
            timer_state(*final(spawn_timer)) == spawn_timer_after_tick(
                timer_state(*old(spawn_timer)),
                duration_nanos(delta),
                duration_nanos(formation_period),
            ),
            spawn == completes(timer_state(*old(spawn_timer)), duration_nanos(delta)),
    {
        timer_tick(spawn_timer, delta);
        if timer_just_finished(spawn_timer) {
            timer_set_duration(spawn_timer, formation_period);
            timer_reset(spawn_timer);
            true
        } else {
            false
        }
    }
}

impl LevelPhaseType {
    /// A copy of the phase type, with timers in the same state.
    pub fn duplicate(&self) -> (r: LevelPhaseType)
        ensures
            r@ == self@,
    {
        match self {
            LevelPhaseType::FormationSpawn { phase_timer, spawn_timer, formation_pool } => {
                LevelPhaseType::FormationSpawn {
                    phase_timer: phase_timer.clone(),
                    spawn_timer: spawn_timer.clone(),
                    formation_pool: formation_pool.clone(),
                }
            },
            LevelPhaseType::Break { phase_timer } => LevelPhaseType::Break {
                phase_timer: phase_timer.clone(),
            },
            LevelPhaseType::Boss { mob_type, spawn_timer } => LevelPhaseType::Boss {
                mob_type: *mob_type,
                spawn_timer: spawn_timer.clone(),
            },
        }
    }
}

impl LevelPhase {
    /// A copy of the phase, with timers in the same state.
    pub fn duplicate(&self) -> (r: LevelPhase)
        ensures
            r@ == self@,
    {
        LevelPhase {
            phase_type: self.phase_type.duplicate(),
            changes_music: self.changes_music,
            phase_time: self.phase_time.clone(),
        }
    }
}

impl LevelView {
    /// A level that is about to start: every phase is queued, none is current or
    /// completed, and the level's stopwatch runs from zero.
    pub open spec fn fresh(phases: Seq<PhaseView>) -> LevelView {
        LevelView {
            completed: Seq::empty(),
            current: None,
            queued: phases,
            level_time: StopwatchState { elapsed: 0, paused: false },
        }
    }
}

/// The conversion names no value: a timer is known by its state alone, which the
/// contract of `from` gives.
impl vstd::std_specs::convert::FromSpecImpl<&LevelData> for Level {
    open spec fn obeys_from_spec() -> bool {
        false
    }

    open spec fn from_spec(data: &LevelData) -> Level {
        arbitrary()
    }
}

impl From<&LevelData> for Level {
    /// A level that is about to start, with copies of the phases of `data` in
    /// its queue.
    fn from(data: &LevelData) -> (level: Level)
        ensures
            level@ == LevelView::fresh(phase_views(data.phases@)),
    {
        let mut queued_phases: VecDeque<LevelPhase> = VecDeque::new();
        let mut i: usize = 0;
        while i < data.phases.len()
            invariant
                i <= data.phases.len(),
                phase_views(queued_phases@) == phase_views(data.phases@.take(i as int)),
            decreases data.phases.len() - i,
        {
            let ghost before = queued_phases@;
            let copy = data.phases[i].duplicate();
            let ghost copied = copy;
            queued_phases.push_back(copy);
            proof {
                lemma_phase_views_push(before, copied);
            }
            i += 1;
        }
        proof {
            assert(data.phases@.take(i as int) =~= data.phases@);
        }
        let level = Level {
            completed_phases: VecDeque::new(),
            current_phase: None,
            queued_phases,
            level_time: stopwatch_new(),
        };
        proof {
            assert(level@.completed =~= Seq::<PhaseView>::empty());
        }
        level
    }
}

} // verus!
