use gatecheck::debug::validation::{
    at_least_n, at_most_n, command_validator, component_validator, conservative_command_validator,
    conservative_component_validator, exactly_n, CommandQueue, FlagRepair, FlagRepairValidator,
    FlagSetValidator, ValidationCheck, ValidationErrorEvent,
};
use gatecheck::debug::DebugEnabled;

#[test]
fn exactly_n_silent_on_match() {
    assert_eq!(exactly_n::<3>("Camera", 3), None);
    assert_eq!(exactly_n::<0>("Camera", 0), None);
}

#[test]
fn exactly_n_reports_true_count() {
    let event = exactly_n::<1>("Camera", 3).expect("count mismatch must emit");
    assert_eq!(event.1, ValidationCheck::ExactlyN(3));
    assert_eq!(
        event.0,
        "Wrong number of entities with the Camera component (required exactly 1, found 3)"
    );
    let event = exactly_n::<5>("Player", 0).expect("count mismatch must emit");
    assert_eq!(event.1, ValidationCheck::ExactlyN(0));
    assert_eq!(
        event.0,
        "Wrong number of entities with the Player component (required exactly 5, found 0)"
    );
}

#[test]
fn exactly_n_large_count() {
    let event = exactly_n::<1>("Chunk", 1234567890).expect("count mismatch must emit");
    assert_eq!(event.1, ValidationCheck::ExactlyN(1234567890));
    assert_eq!(
        event.0,
        "Wrong number of entities with the Chunk component (required exactly 1, found 1234567890)"
    );
}

#[test]
fn at_least_n_emits_iff_below() {
    assert_eq!(at_least_n::<2>("Spawner", 2), None);
    assert_eq!(at_least_n::<2>("Spawner", 5), None);
    let event = at_least_n::<2>("Spawner", 1).expect("shortfall must emit");
    assert_eq!(event.1, ValidationCheck::AtLeastN(1));
    assert_eq!(
        event.0,
        "Wrong number of entities with the Spawner component (required at least 2, found 1)"
    );
}

#[test]
fn at_most_n_emits_iff_above() {
    assert_eq!(at_most_n::<2>("Portal", 2), None);
    assert_eq!(at_most_n::<2>("Portal", 0), None);
    let event = at_most_n::<2>("Portal", 4).expect("excess must emit");
    assert_eq!(event.1, ValidationCheck::AtMostN(4));
    assert_eq!(
        event.0,
        "Wrong number of entities with the Portal component (required at most 2, found 4)"
    );
}

#[test]
fn bounds_never_both_emit() {
    for count in 0usize..10 {
        let low = at_least_n::<4>("Tile", count);
        let high = at_most_n::<4>("Tile", count);
        assert!(low.is_none() || high.is_none());
    }
}

#[test]
fn successful_cycle_emits_zero_events() {
    let mut events: Vec<ValidationErrorEvent> = Vec::new();
    events.extend(exactly_n::<2>("Camera", 2));
    events.extend(at_least_n::<1>("Player", 3));
    events.extend(at_most_n::<8>("Enemy", 3));
    let store = vec![DebugEnabled(true), DebugEnabled(true)];
    events.extend(component_validator::<DebugEnabled, FlagSetValidator>(&store));
    let changed = vec![true, false];
    events.extend(conservative_component_validator::<DebugEnabled, FlagSetValidator>(
        &store, &changed,
    ));
    assert!(events.is_empty());
}

#[test]
fn make_message_prefixes_check() {
    let check = ValidationCheck::ExactlyN(5);
    assert_eq!(check.make_message(String::from("bad")), "ExactlyN(5): bad");
    let check = ValidationCheck::AtLeastN(0);
    assert_eq!(check.make_message(String::from("low")), "AtLeastN(0): low");
    let check = ValidationCheck::AtMostN(17);
    assert_eq!(check.make_message(String::from("high")), "AtMostN(17): high");
    let check = ValidationCheck::ComponentValidationError;
    assert_eq!(
        check.make_message(String::from("bad value")),
        "ComponentValidationError: bad value"
    );
}

#[test]
fn component_validator_reports_each_failure() {
    let store = vec![
        DebugEnabled(true),
        DebugEnabled(false),
        DebugEnabled(false),
        DebugEnabled(true),
    ];
    let events = component_validator::<DebugEnabled, FlagSetValidator>(&store);
    assert_eq!(events.len(), 2);
    for event in &events {
        assert_eq!(event.1, ValidationCheck::ComponentValidationError);
        assert_eq!(event.0, "debug flag is not set");
    }
}

#[test]
fn changed_only_matches_full_scan_on_changed_values() {
    let store = vec![DebugEnabled(false), DebugEnabled(true), DebugEnabled(false)];
    let all_changed = vec![true, true, true];
    let full = component_validator::<DebugEnabled, FlagSetValidator>(&store);
    let conservative =
        conservative_component_validator::<DebugEnabled, FlagSetValidator>(&store, &all_changed);
    assert_eq!(full, conservative);
}

#[test]
fn changed_only_skips_unchanged_values() {
    let store = vec![DebugEnabled(false), DebugEnabled(false)];
    let changed = vec![false, true];
    let events =
        conservative_component_validator::<DebugEnabled, FlagSetValidator>(&store, &changed);
    assert_eq!(events.len(), 1);
    assert_eq!(events[0].1, ValidationCheck::ComponentValidationError);
}

#[test]
fn command_validator_queues_without_applying() {
    let ids = vec![10u64, 11u64, 12u64];
    let store = vec![DebugEnabled(false), DebugEnabled(true), DebugEnabled(false)];
    let mut queue: CommandQueue<FlagRepair> = CommandQueue::new();
    let events = command_validator::<DebugEnabled, FlagRepair, FlagRepairValidator>(
        &ids, &store, &mut queue,
    );
    // The pass reported the pre-scan values and mutated nothing.
    assert_eq!(events.len(), 2);
    assert_eq!(store, vec![DebugEnabled(false), DebugEnabled(true), DebugEnabled(false)]);
    assert_eq!(queue.len(), 2);
    // Applying the drained commands after the pass makes the mutation visible.
    let mut repaired = store.clone();
    for (entity, FlagRepair::Enable) in queue.drain() {
        let index = ids.iter().position(|id| *id == entity).expect("scoped to a scanned entity");
        repaired[index] = DebugEnabled(true);
    }
    assert_eq!(queue.len(), 0);
    assert_eq!(repaired, vec![DebugEnabled(true), DebugEnabled(true), DebugEnabled(true)]);
    let after = component_validator::<DebugEnabled, FlagSetValidator>(&repaired);
    assert!(after.is_empty());
}

#[test]
fn conservative_command_validator_only_examines_changed() {
    let ids = vec![7u64, 8u64];
    let store = vec![DebugEnabled(false), DebugEnabled(false)];
    let changed = vec![false, true];
    let mut queue: CommandQueue<FlagRepair> = CommandQueue::new();
    let events = conservative_command_validator::<DebugEnabled, FlagRepair, FlagRepairValidator>(
        &ids, &store, &changed, &mut queue,
    );
    assert_eq!(events.len(), 1);
    let drained = queue.drain();
    assert_eq!(drained.len(), 1);
    assert_eq!(drained[0].0, 8u64);
}
