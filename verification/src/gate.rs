//! The system-set gate: named operation groups bound, once at startup, to a
//! predicate over the state machine. Each scheduling cycle the scheduler
//! consults these registrations and a group's operations run only while its
//! predicate holds; an ineligible group is skipped entirely that cycle.

use vstd::prelude::*;
use crate::debug::DebugConfig;
use crate::state::{GameState, MenuPage, PlayingState, StateMachine};

verus! {

/// The scheduling phase of the host loop an operation group is registered
/// under. The same group may be registered under several, independently.
#[derive(Copy, Clone, PartialEq, Eq, Hash, Debug, Structural)]
pub enum ScheduleLabel {
    Update,
    FixedUpdate,
    PostUpdate,
}

/// The named operation groups of this application: one per scheduling stub
/// plus the two debug groups.
#[derive(Copy, Clone, PartialEq, Eq, Hash, Debug, Structural)]
pub enum SystemSetLabel {
    LoadSet,
    GameSet,
    CloseSet,
    ValidationSet,
    DebugDisplaySet,
}

/// A gate predicate. A sub-state condition against the wrong phase finds no
/// sub-state value and is simply false, never an error.
#[derive(Copy, Clone, PartialEq, Eq, Debug, Structural)]
pub enum GateCondition {
    PhaseEquals(GameState),
    MenuPageIs(MenuPage),
    PlayingStateIs(PlayingState),
    DebuggingEnabled,
}

/// Whether a gate predicate holds of the stable state of one cycle.
pub open spec fn spec_condition_holds(
    c: GateCondition,
    m: StateMachine,
    config: DebugConfig,
) -> bool {
    match c {
        GateCondition::PhaseEquals(p) => m.phase == p,
        GateCondition::MenuPageIs(page) => m.menu_page == Some(page),
        GateCondition::PlayingStateIs(s) => m.playing_state == Some(s),
        GateCondition::DebuggingEnabled => config.debugging,
    }
}

/// Evaluates a gate predicate against the state the cycle was entered
/// with. Evaluation is fresh each cycle and cannot fail.
pub fn condition_holds(c: &GateCondition, machine: &StateMachine, config: &DebugConfig) -> (r:
    bool)
    ensures
        r == spec_condition_holds(*c, *machine, *config),
{
    match c {
        GateCondition::PhaseEquals(p) => machine.phase == *p,
        GateCondition::MenuPageIs(page) => match machine.menu_page {
            Some(current) => current == *page,
            None => false,
        },
        GateCondition::PlayingStateIs(s) => match machine.playing_state {
            Some(current) => current == *s,
            None => false,
        },
        GateCondition::DebuggingEnabled => config.debugging,
    }
}

/// One registration: a group bound to a predicate under one scheduling
/// phase of the host loop.
#[derive(Copy, Clone, PartialEq, Eq, Debug, Structural)]
pub struct GateEntry {
    pub set: SystemSetLabel,
    pub schedule: ScheduleLabel,
    pub condition: GateCondition,
}

/// All gate registrations, established at startup and never mutated once
/// the loop runs.
#[derive(Debug, Clone, PartialEq, Eq)]
pub struct GateRegistry {
    pub entries: Vec<GateEntry>,
}

impl GateRegistry {
    /// An empty registry.
    pub fn new() -> (r: GateRegistry)
        ensures
            r.entries@ == Seq::<GateEntry>::empty(),
    {
        GateRegistry { entries: Vec::new() }
    }

    /// Registers one group under one scheduling phase with one predicate.
    pub fn configure_set(
        &mut self,
        set: SystemSetLabel,
        schedule: ScheduleLabel,
        condition: GateCondition,
    )
        ensures
            final(self).entries@ == old(self).entries@.push(
                (GateEntry { set, schedule, condition }),
            ),
    {
        self.entries.push(GateEntry { set, schedule, condition });
    }

    /// Registers a group against a phase of the state machine under both
    /// the per-frame and the fixed-timestep scheduling phases, so the
    /// group runs under both, independently, while that phase is current.
    pub fn configure_stated_system_set(&mut self, set: SystemSetLabel, phase: GameState)
        ensures
            final(self).entries@ == old(self).entries@ + seq![
                (GateEntry {
                    set,
                    schedule: ScheduleLabel::Update,
                    condition: GateCondition::PhaseEquals(phase),
                }),
                (GateEntry {
                    set,
                    schedule: ScheduleLabel::FixedUpdate,
                    condition: GateCondition::PhaseEquals(phase),
                }),
            ],
    {
        self.configure_set(set, ScheduleLabel::Update, GateCondition::PhaseEquals(phase));
        self.configure_set(set, ScheduleLabel::FixedUpdate, GateCondition::PhaseEquals(phase));
        proof {
            assert(self.entries@ =~= old(self).entries@ + seq![
                (GateEntry {
                    set,
                    schedule: ScheduleLabel::Update,
                    condition: GateCondition::PhaseEquals(phase),
                }),
                (GateEntry {
                    set,
                    schedule: ScheduleLabel::FixedUpdate,
                    condition: GateCondition::PhaseEquals(phase),
                }),
            ]);
        }
    }

    /// Whether a group's operations are eligible to run this cycle under
    /// the given scheduling phase: the group is registered there, and
    /// every predicate it was registered with holds of the cycle's state.
    pub open spec fn spec_set_runs(
        self,
        set: SystemSetLabel,
        schedule: ScheduleLabel,
        m: StateMachine,
        config: DebugConfig,
    ) -> bool {
        &&& exists|j: int|
            0 <= j < self.entries@.len() && (#[trigger] self.entries@[j]).set == set
                && self.entries@[j].schedule == schedule
        &&& forall|j: int|
            0 <= j < self.entries@.len() && (#[trigger] self.entries@[j]).set == set
                && self.entries@[j].schedule == schedule ==> spec_condition_holds(
                self.entries@[j].condition,
                m,
                config,
            )
    }

    /// The scheduler's per-cycle decision for one group under one
    /// scheduling phase, evaluated against the state the cycle holds
    /// stable.
    pub fn set_runs(
        &self,
        set: SystemSetLabel,
        schedule: ScheduleLabel,
        machine: &StateMachine,
        config: &DebugConfig,
    ) -> (r: bool)
        ensures
            r == self.spec_set_runs(set, schedule, *machine, *config),
    {
        let mut found = false;
        let mut all_hold = true;
        let n = self.entries.len();
        for i in 0..n
            invariant
                n == self.entries@.len(),
                found == exists|j: int|
                    0 <= j < i && (#[trigger] self.entries@[j]).set == set
                        && self.entries@[j].schedule == schedule,
                all_hold == forall|j: int|
                    0 <= j < i && (#[trigger] self.entries@[j]).set == set
                        && self.entries@[j].schedule == schedule ==> spec_condition_holds(
                        self.entries@[j].condition,
                        *machine,
                        *config,
                    ),
        {
            let e = &self.entries[i];
            if e.set == set && e.schedule == schedule {
                found = true;
                if !condition_holds(&e.condition, machine, config) {
                    all_hold = false;
                }
            }
        }
        found && all_hold
    }
}

/// Law: a group registered, under a given scheduling phase, only against
/// "phase equals `p`" runs in every cycle whose phase is `p` — including
/// the first cycle after a transition into `p` — and in no cycle whose
/// phase differs.
pub proof fn lemma_gate_tracks_phase(
    reg: GateRegistry,
    set: SystemSetLabel,
    schedule: ScheduleLabel,
    m: StateMachine,
    config: DebugConfig,
    p: GameState,
)
    requires
        forall|j: int|
            0 <= j < reg.entries@.len() && (#[trigger] reg.entries@[j]).set == set
                ==> reg.entries@[j].condition == GateCondition::PhaseEquals(p),
        exists|j: int|
            0 <= j < reg.entries@.len() && (#[trigger] reg.entries@[j]).set == set
                && reg.entries@[j].schedule == schedule,
    ensures
        reg.spec_set_runs(set, schedule, m, config) <==> m.phase == p,
{
}

/// Law: gating sees a transition at once. After a requested transition the
/// decision for a phase-bound group follows the new phase, whatever phase
/// and sub-states were current before.
pub proof fn lemma_gate_after_transition(
    reg: GateRegistry,
    set: SystemSetLabel,
    schedule: ScheduleLabel,
    m: StateMachine,
    config: DebugConfig,
    p: GameState,
    requested: GameState,
)
    requires
        forall|j: int|
            0 <= j < reg.entries@.len() && (#[trigger] reg.entries@[j]).set == set
                ==> reg.entries@[j].condition == GateCondition::PhaseEquals(p),
        exists|j: int|
            0 <= j < reg.entries@.len() && (#[trigger] reg.entries@[j]).set == set
                && reg.entries@[j].schedule == schedule,
    ensures
        reg.spec_set_runs(set, schedule, m.spec_transition(requested), config) <==> requested == p,
{
    lemma_gate_tracks_phase(reg, set, schedule, m.spec_transition(requested), config, p);
}

} // verus!
