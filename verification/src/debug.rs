//! Debug tooling: the validation rule engine and the debug visibility
//! toggler, together with the flag and marker components they read and
//! the system sets that gate them.

pub mod debug_display;
pub mod validation;

use vstd::prelude::*;

verus! {

/// Operation group holding the validation rule engine's scans; eligible to
/// run only when debugging is enabled at build time.
#[derive(Clone, Copy, Debug, Eq, PartialEq, Hash, Structural)]
pub struct ValidationSystemSet;

/// Operation group holding the debug visibility toggler; eligible to run
/// only when debugging is enabled at build time.
#[derive(Clone, Copy, Debug, Eq, PartialEq, Hash, Structural)]
pub struct DebugDisplaySystemSet;

/// Marker component tagging an entity as debug-only.
#[derive(Copy, Clone, PartialEq, Eq, Hash, Debug, Structural)]
pub struct DebugMarker;

/// Flag component: whether debug display is enabled for an entity.
#[derive(Copy, Clone, PartialEq, Eq, Hash, Debug, Structural)]
pub struct DebugEnabled(pub bool);

/// Process-wide debug-mode state, initialized once at startup from the
/// build-time debugging flag and never toggled afterwards.
#[derive(Copy, Clone, PartialEq, Eq, Hash, Debug, Structural)]
pub struct DebugMode(pub bool);

impl Default for DebugEnabled {
    fn default() -> (r: Self)
        ensures
            r == DebugEnabled(false),
    {
        DebugEnabled(false)
    }
}

impl Default for DebugMode {
    fn default() -> (r: Self)
        ensures
            r == DebugMode(false),
    {
        DebugMode(false)
    }
}

impl ValidationSystemSet {
    /// The label this group is registered under.
    pub fn label(&self) -> (r: crate::gate::SystemSetLabel)
        ensures
            r == crate::gate::SystemSetLabel::ValidationSet,
    {
        crate::gate::SystemSetLabel::ValidationSet
    }
}

impl DebugDisplaySystemSet {
    /// The label this group is registered under.
    pub fn label(&self) -> (r: crate::gate::SystemSetLabel)
        ensures
            r == crate::gate::SystemSetLabel::DebugDisplaySet,
    {
        crate::gate::SystemSetLabel::DebugDisplaySet
    }
}

/// Registers the two debug groups: the validation scans after the ordinary
/// per-frame work and the debug display within it, each eligible only when
/// debugging was enabled at build time.
pub fn install_debug_gates(reg: &mut crate::gate::GateRegistry)
    ensures
        final(reg).entries@ == old(reg).entries@ + seq![
            (crate::gate::GateEntry {
                set: crate::gate::SystemSetLabel::ValidationSet,
                schedule: crate::gate::ScheduleLabel::PostUpdate,
                condition: crate::gate::GateCondition::DebuggingEnabled,
            }),
            (crate::gate::GateEntry {
                set: crate::gate::SystemSetLabel::DebugDisplaySet,
                schedule: crate::gate::ScheduleLabel::Update,
                condition: crate::gate::GateCondition::DebuggingEnabled,
            }),
        ],
{
    reg.configure_set(
        crate::gate::SystemSetLabel::ValidationSet,
        crate::gate::ScheduleLabel::PostUpdate,
        crate::gate::GateCondition::DebuggingEnabled,
    );
    reg.configure_set(
        crate::gate::SystemSetLabel::DebugDisplaySet,
        crate::gate::ScheduleLabel::Update,
        crate::gate::GateCondition::DebuggingEnabled,
    );
    proof {
        assert(reg.entries@ =~= old(reg).entries@ + seq![
            (crate::gate::GateEntry {
                set: crate::gate::SystemSetLabel::ValidationSet,
                schedule: crate::gate::ScheduleLabel::PostUpdate,
                condition: crate::gate::GateCondition::DebuggingEnabled,
            }),
            (crate::gate::GateEntry {
                set: crate::gate::SystemSetLabel::DebugDisplaySet,
                schedule: crate::gate::ScheduleLabel::Update,
                condition: crate::gate::GateCondition::DebuggingEnabled,
            }),
        ]);
    }
}

/// Build-time configuration: whether debugging support was compiled in.
/// Set once at startup and read-only thereafter.
#[derive(Copy, Clone, PartialEq, Eq, Debug, Structural)]
pub struct DebugConfig {
    pub debugging: bool,
}

/// The initial value of the process-wide debug-mode state: on exactly when
/// debugging was enabled at build time.
pub fn initial_debug_mode(config: &DebugConfig) -> (r: DebugMode)
    ensures
        r == DebugMode(config.debugging),
{
    DebugMode(config.debugging)
}

} // verus!
