//! The debug visibility toggler: mirrors the per-entity debug-enabled flag
//! onto the visibility attribute of entities tagged as debug-only.

use vstd::prelude::*;
use crate::debug::{DebugEnabled, DebugMarker, DebugMode};

verus! {

/// Marker component for entities that present debug error messages.
#[derive(Copy, Clone, PartialEq, Eq, Hash, Debug, Structural)]
pub struct DebugErrorMessage;

/// A visibility attribute as the render side keeps it per entity.
#[derive(Copy, Clone, PartialEq, Eq, Hash, Debug, Structural)]
pub enum Visibility {
    Inherited,
    Hidden,
    Visible,
}

/// What the toggler reads and writes of one entity: whether it carries the
/// debug marker, its debug-enabled flag if it carries one, and its current
/// visibility attribute.
#[derive(Copy, Clone, PartialEq, Eq, Debug, Structural)]
pub struct DebugEntity {
    pub marker: Option<DebugMarker>,
    pub enabled: Option<DebugEnabled>,
    pub visibility: Visibility,
}

/// The visibility the toggler assigns a marked entity: visible exactly when
/// it carries a true-valued debug-enabled flag.
pub open spec fn toggled_visibility(enabled: Option<DebugEnabled>) -> Visibility {
    if enabled == Some(DebugEnabled(true)) {
        Visibility::Visible
    } else {
        Visibility::Hidden
    }
}

/// One entity after the toggler ran: marked entities get their visibility
/// recomputed from the flag; entities without the marker are untouched.
pub open spec fn spec_toggled(e: DebugEntity) -> DebugEntity {
    if e.marker is Some {
        DebugEntity { marker: e.marker, enabled: e.enabled, visibility: toggled_visibility(e.enabled) }
    } else {
        e
    }
}

/// Sets the visibility of every entity carrying the debug marker from its
/// debug-enabled flag: visible when the flag is present and true, hidden
/// otherwise. Entities without the marker keep their visibility.
pub fn manage_visibility1(entities: &mut Vec<DebugEntity>)
    ensures
        final(entities)@ == old(entities)@.map_values(|e: DebugEntity| spec_toggled(e)),
{
    let n = entities.len();
    for i in 0..n
        invariant
            n == entities@.len(),
            entities@.len() == old(entities)@.len(),
            forall|j: int| 0 <= j < i ==> entities@[j] == spec_toggled(old(entities)@[j]),
            forall|j: int| i <= j < n ==> entities@[j] == old(entities)@[j],
    {
        let e = entities[i];
        if e.marker.is_some() {
            let visible = match e.enabled {
                Some(DebugEnabled(true)) => true,
                _ => false,
            };
            entities[i] = DebugEntity {
                marker: e.marker,
                enabled: e.enabled,
                visibility: if visible {
                    Visibility::Visible
                } else {
                    Visibility::Hidden
                },
            };
        }
    }
    proof {
        assert(entities@ =~= old(entities)@.map_values(|e: DebugEntity| spec_toggled(e)));
    }
}

/// The whole store after one debug-display cycle under the given mode: the
/// toggler runs, and rewrites marked entities, only while the mode is on.
pub open spec fn spec_display_cycle(mode: DebugMode, s: Seq<DebugEntity>) -> Seq<DebugEntity> {
    if mode.0 {
        s.map_values(|e: DebugEntity| spec_toggled(e))
    } else {
        s
    }
}

/// One scheduling cycle of the debug-display group: while the debug mode is
/// off the toggler does not run at all and every entity keeps whatever
/// visibility it last had; while it is on, the toggler rewrites every marked
/// entity's visibility from its flag.
pub fn debug_display_cycle(mode: DebugMode, entities: &mut Vec<DebugEntity>)
    ensures
        final(entities)@ == spec_display_cycle(mode, old(entities)@),
{
    if mode.0 {
        manage_visibility1(entities);
    }
}

/// Law: with debugging disabled at build time the toggler never runs,
/// whatever the flag components hold; with it enabled, a marked entity with
/// a true flag ends visible, a marked entity with a false or missing flag
/// ends hidden, and an unmarked entity is untouched.
pub proof fn lemma_debug_toggler(mode: DebugMode, s: Seq<DebugEntity>, i: int)
    requires
        0 <= i < s.len(),
    ensures
        !mode.0 ==> spec_display_cycle(mode, s) == s,
        mode.0 && s[i].marker is Some && s[i].enabled == Some(DebugEnabled(true))
            ==> spec_display_cycle(mode, s)[i].visibility == Visibility::Visible,
        mode.0 && s[i].marker is Some && s[i].enabled != Some(DebugEnabled(true))
            ==> spec_display_cycle(mode, s)[i].visibility == Visibility::Hidden,
        mode.0 && s[i].marker is None ==> spec_display_cycle(mode, s)[i] == s[i],
{
}

} // verus!
