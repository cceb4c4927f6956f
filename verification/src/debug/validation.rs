//! The validation rule engine: cardinality rules over entity counts and
//! per-component validator scans, each reporting through a typed event.
//!
//! Violations are reported, never fatal: every rule returns the events it
//! emits and a cycle with no violations emits none.

use vstd::prelude::*;
use crate::text::{dec_digits, push_dec};

verus! {

/// Why a validation rule failed: a wrong entity count (carrying the count
/// that was actually observed) or a per-component validator failure.
#[derive(Copy, Clone, Debug, PartialEq, Eq, Structural)]
#[non_exhaustive]
pub enum ValidationCheck {
    ExactlyN(usize),
    AtLeastN(usize),
    AtMostN(usize),
    ComponentValidationError,
}

/// The tag a check renders in front of a message, mirroring the check's
/// debug form: the variant name with the observed count in parentheses.
pub open spec fn check_label(c: ValidationCheck) -> Seq<char> {
    match c {
        ValidationCheck::ExactlyN(n) => "ExactlyN("@ + dec_digits(n as nat) + ")"@,
        ValidationCheck::AtLeastN(n) => "AtLeastN("@ + dec_digits(n as nat) + ")"@,
        ValidationCheck::AtMostN(n) => "AtMostN("@ + dec_digits(n as nat) + ")"@,
        ValidationCheck::ComponentValidationError => "ComponentValidationError"@,
    }
}

impl ValidationCheck {
    /// Prefixes a message with the check's label, `label: message`.
    pub fn make_message(&self, message: String) -> (r: String)
        ensures
            r@ == check_label(*self) + ": "@ + message@,
    {
        let mut s = match self {
            ValidationCheck::ExactlyN(n) => {
                let mut t = String::from_str("ExactlyN(");
                push_dec(&mut t, *n);
                t.append(")");
                proof {
                    assert(t@ =~= check_label(*self));
                }
                t
            },
            ValidationCheck::AtLeastN(n) => {
                let mut t = String::from_str("AtLeastN(");
                push_dec(&mut t, *n);
                t.append(")");
                proof {
                    assert(t@ =~= check_label(*self));
                }
                t
            },
            ValidationCheck::AtMostN(n) => {
                let mut t = String::from_str("AtMostN(");
                push_dec(&mut t, *n);
                t.append(")");
                proof {
                    assert(t@ =~= check_label(*self));
                }
                t
            },
            ValidationCheck::ComponentValidationError => String::from_str(
                "ComponentValidationError",
            ),
        };
        s.append(": ");
        s.append(message.as_str());
        proof {
            assert(s@ =~= check_label(*self) + ": "@ + message@);
        }
        s
    }
}

/// A validation failure as published on the event channel: a human-readable
/// message paired with the structured reason.
#[derive(Debug, Clone, PartialEq, Eq)]
pub struct ValidationErrorEvent(pub String, pub ValidationCheck);

/// The mathematical content of an event: the message's characters and the
/// structured check.
pub ghost struct EventView {
    pub message: Seq<char>,
    pub check: ValidationCheck,
}

impl View for ValidationErrorEvent {
    type V = EventView;

    open spec fn view(&self) -> EventView {
        EventView { message: self.0@, check: self.1 }
    }
}

/// The views of a sequence of events.
pub open spec fn views_of(s: Seq<ValidationErrorEvent>) -> Seq<EventView> {
    s.map_values(|e: ValidationErrorEvent| e@)
}

/// The events an optional result contributes to a cycle: none or one.
pub open spec fn opt_events(r: Option<ValidationErrorEvent>) -> Seq<EventView> {
    match r {
        Option::Some(e) => seq![e@],
        Option::None => Seq::empty(),
    }
}

/// The message a cardinality rule reports: which component type was counted,
/// the relation the rule demanded, and the count that was found.
pub open spec fn wrong_count_message(
    name: Seq<char>,
    relation: Seq<char>,
    n: nat,
    count: nat,
) -> Seq<char> {
    "Wrong number of entities with the "@ + name + " component (required "@ + relation + " "@
        + dec_digits(n) + ", found "@ + dec_digits(count) + ")"@
}

fn build_wrong_count_message(name: &str, relation: &str, n: usize, count: usize) -> (r: String)
    ensures
        r@ == wrong_count_message(name@, relation@, n as nat, count as nat),
{
    let mut s = String::from_str("Wrong number of entities with the ");
    s.append(name);
    s.append(" component (required ");
    s.append(relation);
    s.append(" ");
    push_dec(&mut s, n);
    s.append(", found ");
    push_dec(&mut s, count);
    s.append(")");
    proof {
        assert(s@ =~= wrong_count_message(name@, relation@, n as nat, count as nat));
    }
    s
}

/// The events an exactly-N rule emits for an observed count: one when the
/// count misses N, none otherwise.
pub open spec fn exactly_events(name: Seq<char>, n: usize, count: usize) -> Seq<EventView> {
    if count == n {
        Seq::empty()
    } else {
        seq![
            EventView {
                message: wrong_count_message(name, "exactly"@, n as nat, count as nat),
                check: ValidationCheck::ExactlyN(count),
            },
        ]
    }
}

/// The events an at-least-N rule emits for an observed count.
pub open spec fn at_least_events(name: Seq<char>, n: usize, count: usize) -> Seq<EventView> {
    if count >= n {
        Seq::empty()
    } else {
        seq![
            EventView {
                message: wrong_count_message(name, "at least"@, n as nat, count as nat),
                check: ValidationCheck::AtLeastN(count),
            },
        ]
    }
}

/// The events an at-most-N rule emits for an observed count.
pub open spec fn at_most_events(name: Seq<char>, n: usize, count: usize) -> Seq<EventView> {
    if count <= n {
        Seq::empty()
    } else {
        seq![
            EventView {
                message: wrong_count_message(name, "at most"@, n as nat, count as nat),
                check: ValidationCheck::AtMostN(count),
            },
        ]
    }
}

/// Cardinality rule: exactly `N` entities may carry the component whose
/// entity count is `count`. Emits one event, carrying the observed count,
/// exactly when the count differs from `N`; emits nothing otherwise.
pub fn exactly_n<const N: usize>(component_name: &str, count: usize) -> (r: Option<
    ValidationErrorEvent,
>)
    ensures
        r is Some <==> count != N,
        opt_events(r) == exactly_events(component_name@, N, count),
{
    if count != N {
        let message = build_wrong_count_message(component_name, "exactly", N, count);
        let r = Some(ValidationErrorEvent(message, ValidationCheck::ExactlyN(count)));
        proof {
            assert(opt_events(r) =~= exactly_events(component_name@, N, count));
        }
        r
    } else {
        proof {
            assert(opt_events(None::<ValidationErrorEvent>) =~= exactly_events(
                component_name@,
                N,
                count,
            ));
        }
        None
    }
}

/// Cardinality rule: at least `N` entities may carry the component. Emits
/// one event, carrying the observed count, exactly when the count is below
/// `N`.
pub fn at_least_n<const N: usize>(component_name: &str, count: usize) -> (r: Option<
    ValidationErrorEvent,
>)
    ensures
        r is Some <==> count < N,
        opt_events(r) == at_least_events(component_name@, N, count),
{
    if count < N {
        let message = build_wrong_count_message(component_name, "at least", N, count);
        let r = Some(ValidationErrorEvent(message, ValidationCheck::AtLeastN(count)));
        proof {
            assert(opt_events(r) =~= at_least_events(component_name@, N, count));
        }
        r
    } else {
        proof {
            assert(opt_events(None::<ValidationErrorEvent>) =~= at_least_events(
                component_name@,
                N,
                count,
            ));
        }
        None
    }
}

/// Cardinality rule: at most `N` entities may carry the component. Emits
/// one event, carrying the observed count, exactly when the count is above
/// `N`.
pub fn at_most_n<const N: usize>(component_name: &str, count: usize) -> (r: Option<
    ValidationErrorEvent,
>)
    ensures
        r is Some <==> count > N,
        opt_events(r) == at_most_events(component_name@, N, count),
{
    if count > N {
        let message = build_wrong_count_message(component_name, "at most", N, count);
        let r = Some(ValidationErrorEvent(message, ValidationCheck::AtMostN(count)));
        proof {
            assert(opt_events(r) =~= at_most_events(component_name@, N, count));
        }
        r
    } else {
        proof {
            assert(opt_events(None::<ValidationErrorEvent>) =~= at_most_events(
                component_name@,
                N,
                count,
            ));
        }
        None
    }
}

/// How an executable validation result relates to its mathematical
/// outcome: success exactly when the outcome names no message, and failure with
/// exactly the named message otherwise.
pub open spec fn verdict_matches(r: Result<(), String>, outcome: Option<Seq<char>>) -> bool {
    match outcome {
        Option::None => r is Ok,
        Option::Some(m) => match r {
            Result::Err(e) => e@ == m,
            Result::Ok(_) => false,
        },
    }
}

/// A caller-supplied pure check over one component value. The verdict is a
/// function of the value alone, so the same validator gives the same answer
/// in the full-scan and the changed-only scan, and nothing a validator can
/// observe during a pass changes what it reports.
pub trait ComponentValidator<T> {
    /// The validator's verdict on a value: no message on success, the
    /// failure message otherwise.
    spec fn spec_validate(value: T) -> Option<Seq<char>>;

    /// Checks one component value, failing with exactly the message the
    /// verdict names.
    fn validate_component(value: &T) -> (r: Result<(), String>)
        ensures
            verdict_matches(r, Self::spec_validate(*value)),
    ;
}

/// The events one component value contributes to a validator scan: one per
/// failing value, none per passing value.
pub open spec fn entity_events(outcome: Option<Seq<char>>) -> Seq<EventView> {
    match outcome {
        Option::Some(m) => seq![
            EventView { message: m, check: ValidationCheck::ComponentValidationError },
        ],
        Option::None => Seq::empty(),
    }
}

/// The events a validator scan emits over a sequence of component values,
/// in scan order.
pub open spec fn validator_events<T, V: ComponentValidator<T>>(s: Seq<T>) -> Seq<EventView>
    decreases s.len(),
{
    if s.len() == 0 {
        Seq::empty()
    } else {
        validator_events::<T, V>(s.drop_last()) + entity_events(V::spec_validate(s.last()))
    }
}

/// The subsequence of component values whose changed flag is set, in store
/// order: what a changed-only scan examines.
pub open spec fn masked<T>(s: Seq<T>, m: Seq<bool>) -> Seq<T>
    decreases s.len(),
{
    if s.len() == 0 || m.len() == 0 {
        Seq::empty()
    } else {
        masked(s.drop_last(), m.drop_last()) + if m.last() {
            seq![s.last()]
        } else {
            Seq::empty()
        }
    }
}

/// Per-component validator, full scan: invokes the validator on every
/// component value and emits one event, carrying the validator's message,
/// per failing value. Emits nothing when every value passes.
pub fn component_validator<T, V: ComponentValidator<T>>(components: &Vec<T>) -> (events: Vec<
    ValidationErrorEvent,
>)
    ensures
        views_of(events@) == validator_events::<T, V>(components@),
{
    let mut events: Vec<ValidationErrorEvent> = Vec::new();
    let n = components.len();
    for i in 0..n
        invariant
            n == components@.len(),
            views_of(events@) == validator_events::<T, V>(components@.take(i as int)),
    {
        match V::validate_component(&components[i]) {
            Ok(_) => {
            },
            Err(msg) => {
                events.push(ValidationErrorEvent(msg, ValidationCheck::ComponentValidationError));
            },
        }
        proof {
            let s = components@;
            assert(s.take(i as int + 1).drop_last() =~= s.take(i as int));
            assert(s.take(i as int + 1).last() == s[i as int]);
            assert(views_of(events@) =~= validator_events::<T, V>(s.take(i as int + 1)));
        }
    }
    proof {
        assert(components@.take(n as int) =~= components@);
    }
    events
}

/// Per-component validator, changed-only scan: identical to the full scan
/// but restricted to the component values whose changed flag is set; the
/// same validator implementations work for both.
pub fn conservative_component_validator<T, V: ComponentValidator<T>>(
    components: &Vec<T>,
    changed: &Vec<bool>,
) -> (events: Vec<ValidationErrorEvent>)
    requires
        components@.len() == changed@.len(),
    ensures
        views_of(events@) == validator_events::<T, V>(masked(components@, changed@)),
{
    let mut events: Vec<ValidationErrorEvent> = Vec::new();
    let n = components.len();
    for i in 0..n
        invariant
            n == components@.len(),
            components@.len() == changed@.len(),
            views_of(events@) == validator_events::<T, V>(
                masked(components@.take(i as int), changed@.take(i as int)),
            ),
    {
        if changed[i] {
            match V::validate_component(&components[i]) {
                Ok(_) => {
                },
                Err(msg) => {
                    events.push(
                        ValidationErrorEvent(msg, ValidationCheck::ComponentValidationError),
                    );
                },
            }
        }
        proof {
            let s = components@;
            let m = changed@;
            assert(s.take(i as int + 1).drop_last() =~= s.take(i as int));
            assert(m.take(i as int + 1).drop_last() =~= m.take(i as int));
            assert(s.take(i as int + 1).last() == s[i as int]);
            assert(m.take(i as int + 1).last() == m[i as int]);
            let prev = masked(s.take(i as int), m.take(i as int));
            if m[i as int] {
                assert(masked(s.take(i as int + 1), m.take(i as int + 1)) =~= prev.push(
                    s[i as int],
                ));
                assert(prev.push(s[i as int]).drop_last() =~= prev);
                assert(views_of(events@) =~= validator_events::<T, V>(
                    masked(s.take(i as int + 1), m.take(i as int + 1)),
                ));
            } else {
                assert(masked(s.take(i as int + 1), m.take(i as int + 1)) =~= prev);
                assert(views_of(events@) =~= validator_events::<T, V>(
                    masked(s.take(i as int + 1), m.take(i as int + 1)),
                ));
            }
        }
    }
    proof {
        assert(components@.take(n as int) =~= components@);
        assert(changed@.take(n as int) =~= changed@);
    }
    events
}

/// A queue of structural mutations deferred until after a scan: each entry
/// names the entity it mutates. The scan only appends; the component store
/// applies the drained entries after the pass completes, so parallel
/// iteration never overlaps a structural mutation.
pub struct CommandQueue<C> {
    items: Vec<(u64, C)>,
}

impl<C> View for CommandQueue<C> {
    type V = Seq<(u64, C)>;

    closed spec fn view(&self) -> Seq<(u64, C)> {
        self.items@
    }
}

impl<C> CommandQueue<C> {
    /// An empty queue.
    pub fn new() -> (r: Self)
        ensures
            r@ == Seq::<(u64, C)>::empty(),
    {
        CommandQueue { items: Vec::new() }
    }

    /// Queues one command against one entity; nothing is applied here.
    pub fn push(&mut self, entity: u64, command: C)
        ensures
            final(self)@ == old(self)@.push((entity, command)),
    {
        self.items.push((entity, command));
    }

    /// How many commands are queued.
    pub fn len(&self) -> (r: usize)
        ensures
            r == self@.len(),
    {
        self.items.len()
    }

    /// Hands the queued commands over for application and leaves the queue
    /// empty: the apply-after-pass step.
    pub fn drain(&mut self) -> (r: Vec<(u64, C)>)
        ensures
            r@ == old(self)@,
            final(self)@ == Seq::<(u64, C)>::empty(),
    {
        let mut taken: Vec<(u64, C)> = Vec::new();
        core::mem::swap(&mut taken, &mut self.items);
        taken
    }
}

/// The queued commands tagged with the entity they are scoped to.
pub open spec fn tagged<C>(entity: u64, commands: Seq<C>) -> Seq<(u64, C)> {
    Seq::new(commands.len(), |i: int| (entity, commands[i]))
}

/// A caller-supplied check that may additionally queue deferred mutations,
/// scoped to the entity under validation. The verdict and the queued
/// commands are functions of the component value alone; the queue is only
/// appended to, so nothing queued during a pass can influence a verdict.
pub trait CommandingValidator<T, C> {
    /// The validator's verdict on a value: no message on success, the
    /// failure message otherwise.
    spec fn spec_validate(value: T) -> Option<Seq<char>>;

    /// The mutations the validator queues against the entity carrying the
    /// value.
    spec fn spec_commands(value: T) -> Seq<C>;

    /// Checks one component value, failing with exactly the message the
    /// verdict names, and queues exactly the chosen commands against the
    /// entity under validation.
    fn validate_component(value: &T, entity: u64, queue: &mut CommandQueue<C>) -> (r: Result<
        (),
        String,
    >)
        ensures
            verdict_matches(r, Self::spec_validate(*value)),
            final(queue)@ == old(queue)@ + tagged(entity, Self::spec_commands(*value)),
    ;
}

/// The events a command-mutating scan emits over a sequence of component
/// values, in scan order.
pub open spec fn commanding_events<T, C, V: CommandingValidator<T, C>>(s: Seq<T>) -> Seq<EventView>
    decreases s.len(),
{
    if s.len() == 0 {
        Seq::empty()
    } else {
        commanding_events::<T, C, V>(s.drop_last()) + entity_events(V::spec_validate(s.last()))
    }
}

/// The commands a command-mutating scan queues over parallel sequences of
/// entities and their component values, in scan order.
pub open spec fn commands_for<T, C, V: CommandingValidator<T, C>>(
    entities: Seq<u64>,
    s: Seq<T>,
) -> Seq<(u64, C)>
    decreases s.len(),
{
    if s.len() == 0 || entities.len() == 0 {
        Seq::empty()
    } else {
        commands_for::<T, C, V>(entities.drop_last(), s.drop_last()) + tagged(
            entities.last(),
            V::spec_commands(s.last()),
        )
    }
}

/// Command-mutating validator, full scan: like the per-component validator,
/// but each failing validator may queue mutations against the entity whose
/// value failed. Events reflect the pre-scan component values; the queued
/// mutations are applied only after the pass, never during it.
pub fn command_validator<T, C, V: CommandingValidator<T, C>>(
    entities: &Vec<u64>,
    components: &Vec<T>,
    queue: &mut CommandQueue<C>,
) -> (events: Vec<ValidationErrorEvent>)
    requires
        entities@.len() == components@.len(),
    ensures
        views_of(events@) == commanding_events::<T, C, V>(components@),
        final(queue)@ == old(queue)@ + commands_for::<T, C, V>(entities@, components@),
{
    let mut events: Vec<ValidationErrorEvent> = Vec::new();
    let n = components.len();
    for i in 0..n
        invariant
            n == components@.len(),
            entities@.len() == components@.len(),
            views_of(events@) == commanding_events::<T, C, V>(components@.take(i as int)),
            queue@ == old(queue)@ + commands_for::<T, C, V>(
                entities@.take(i as int),
                components@.take(i as int),
            ),
    {
        match V::validate_component(&components[i], entities[i], queue) {
            Ok(_) => {
            },
            Err(msg) => {
                events.push(ValidationErrorEvent(msg, ValidationCheck::ComponentValidationError));
            },
        }
        proof {
            let s = components@;
            let ids = entities@;
            assert(s.take(i as int + 1).drop_last() =~= s.take(i as int));
            assert(ids.take(i as int + 1).drop_last() =~= ids.take(i as int));
            assert(s.take(i as int + 1).last() == s[i as int]);
            assert(ids.take(i as int + 1).last() == ids[i as int]);
            assert(views_of(events@) =~= commanding_events::<T, C, V>(s.take(i as int + 1)));
            assert(queue@ =~= old(queue)@ + commands_for::<T, C, V>(
                ids.take(i as int + 1),
                s.take(i as int + 1),
            ));
        }
    }
    proof {
        assert(components@.take(n as int) =~= components@);
        assert(entities@.take(n as int) =~= entities@);
    }
    events
}

/// Command-mutating validator, changed-only scan: restricted to the
/// component values whose changed flag is set; the same commanding
/// validator implementations work for both flavors.
pub fn conservative_command_validator<T, C, V: CommandingValidator<T, C>>(
    entities: &Vec<u64>,
    components: &Vec<T>,
    changed: &Vec<bool>,
    queue: &mut CommandQueue<C>,
) -> (events: Vec<ValidationErrorEvent>)
    requires
        entities@.len() == components@.len(),
        components@.len() == changed@.len(),
    ensures
        views_of(events@) == commanding_events::<T, C, V>(masked(components@, changed@)),
        final(queue)@ == old(queue)@ + commands_for::<T, C, V>(
            masked(entities@, changed@),
            masked(components@, changed@),
        ),
{
    let mut events: Vec<ValidationErrorEvent> = Vec::new();
    let n = components.len();
    for i in 0..n
        invariant
            n == components@.len(),
            entities@.len() == components@.len(),
            components@.len() == changed@.len(),
            views_of(events@) == commanding_events::<T, C, V>(
                masked(components@.take(i as int), changed@.take(i as int)),
            ),
            queue@ == old(queue)@ + commands_for::<T, C, V>(
                masked(entities@.take(i as int), changed@.take(i as int)),
                masked(components@.take(i as int), changed@.take(i as int)),
            ),
    {
        if changed[i] {
            match V::validate_component(&components[i], entities[i], queue) {
                Ok(_) => {
                },
                Err(msg) => {
                    events.push(
                        ValidationErrorEvent(msg, ValidationCheck::ComponentValidationError),
                    );
                },
            }
        }
        proof {
            let s = components@;
            let ids = entities@;
            let m = changed@;
            assert(s.take(i as int + 1).drop_last() =~= s.take(i as int));
            assert(ids.take(i as int + 1).drop_last() =~= ids.take(i as int));
            assert(m.take(i as int + 1).drop_last() =~= m.take(i as int));
            assert(s.take(i as int + 1).last() == s[i as int]);
            assert(ids.take(i as int + 1).last() == ids[i as int]);
            assert(m.take(i as int + 1).last() == m[i as int]);
            let prev_s = masked(s.take(i as int), m.take(i as int));
            let prev_ids = masked(ids.take(i as int), m.take(i as int));
            if m[i as int] {
                assert(masked(s.take(i as int + 1), m.take(i as int + 1)) =~= prev_s.push(
                    s[i as int],
                ));
                assert(masked(ids.take(i as int + 1), m.take(i as int + 1)) =~= prev_ids.push(
                    ids[i as int],
                ));
                assert(prev_s.push(s[i as int]).drop_last() =~= prev_s);
                assert(prev_ids.push(ids[i as int]).drop_last() =~= prev_ids);
            } else {
                assert(masked(s.take(i as int + 1), m.take(i as int + 1)) =~= prev_s);
                assert(masked(ids.take(i as int + 1), m.take(i as int + 1)) =~= prev_ids);
            }
            assert(views_of(events@) =~= commanding_events::<T, C, V>(
                masked(s.take(i as int + 1), m.take(i as int + 1)),
            ));
            assert(queue@ =~= old(queue)@ + commands_for::<T, C, V>(
                masked(ids.take(i as int + 1), m.take(i as int + 1)),
                masked(s.take(i as int + 1), m.take(i as int + 1)),
            ));
        }
    }
    proof {
        assert(components@.take(n as int) =~= components@);
        assert(entities@.take(n as int) =~= entities@);
        assert(changed@.take(n as int) =~= changed@);
    }
    events
}

/// Law: a single cardinality rule instance emits at most one event per
/// cycle, and the at-least and at-most rules for the same bound never both
/// emit in the same cycle for the same observed count.
pub proof fn lemma_bounds_exclusive(name: Seq<char>, n: usize, count: usize)
    ensures
        exactly_events(name, n, count).len() <= 1,
        at_least_events(name, n, count).len() <= 1,
        at_most_events(name, n, count).len() <= 1,
        !(at_least_events(name, n, count).len() > 0 && at_most_events(name, n, count).len() > 0),
{
}

/// Law: a cycle with no violations emits zero events. When the observed
/// count meets a cardinality rule's relation the rule is silent, and when
/// every scanned component value passes its validator the scan is silent.
pub proof fn lemma_silent_on_success<T, V: ComponentValidator<T>>(
    name: Seq<char>,
    n: usize,
    count: usize,
    s: Seq<T>,
)
    requires
        forall|i: int| 0 <= i < s.len() ==> V::spec_validate(#[trigger] s[i]) is None,
    ensures
        count == n ==> exactly_events(name, n, count) == Seq::<EventView>::empty(),
        count >= n ==> at_least_events(name, n, count) == Seq::<EventView>::empty(),
        count <= n ==> at_most_events(name, n, count) == Seq::<EventView>::empty(),
        validator_events::<T, V>(s) == Seq::<EventView>::empty(),
    decreases s.len(),
{
    if s.len() > 0 {
        assert(forall|i: int|
            0 <= i < s.drop_last().len() ==> V::spec_validate(#[trigger] s.drop_last()[i]) is None);
        lemma_silent_on_success::<T, V>(name, n, count, s.drop_last());
        assert(s.last() == s[s.len() - 1]);
        assert(validator_events::<T, V>(s) =~= Seq::<EventView>::empty());
    }
}

/// A changed-only scan that happens to see every component value examines
/// exactly the full store, in store order.
pub proof fn lemma_masked_full<T>(s: Seq<T>, m: Seq<bool>)
    requires
        m.len() == s.len(),
        forall|i: int| 0 <= i < m.len() ==> m[i],
    ensures
        masked(s, m) == s,
    decreases s.len(),
{
    if s.len() > 0 {
        lemma_masked_full(s.drop_last(), m.drop_last());
        assert(m.last() == m[m.len() - 1]);
        assert(masked(s, m) =~= s);
    }
}

/// Law: the changed-only scan is an optimization, not a different
/// correctness contract. Both variants apply the same verdict function to
/// the values they examine, so on a store where every component changed the
/// two scans produce identical event content.
pub proof fn lemma_scan_variants_agree<T, V: ComponentValidator<T>>(s: Seq<T>, m: Seq<bool>)
    requires
        m.len() == s.len(),
        forall|i: int| 0 <= i < m.len() ==> m[i],
    ensures
        validator_events::<T, V>(masked(s, m)) == validator_events::<T, V>(s),
{
    lemma_masked_full(s, m);
}

/// Every command a scan queues is scoped to one of the entities that were
/// under validation.
pub proof fn lemma_commands_scoped<T, C, V: CommandingValidator<T, C>>(
    entities: Seq<u64>,
    s: Seq<T>,
)
    requires
        entities.len() == s.len(),
    ensures
        forall|k: int|
            0 <= k < commands_for::<T, C, V>(entities, s).len() ==> entities.contains(
                (#[trigger] commands_for::<T, C, V>(entities, s)[k]).0,
            ),
    decreases s.len(),
{
    if s.len() > 0 {
        lemma_commands_scoped::<T, C, V>(entities.drop_last(), s.drop_last());
        let whole = commands_for::<T, C, V>(entities, s);
        let front = commands_for::<T, C, V>(entities.drop_last(), s.drop_last());
        let back = tagged(entities.last(), V::spec_commands(s.last()));
        assert forall|k: int| 0 <= k < whole.len() implies entities.contains(
            (#[trigger] whole[k]).0,
        ) by {
            if k < front.len() {
                assert(whole[k] == front[k]);
                let j = choose|j: int|
                    0 <= j < entities.drop_last().len() && entities.drop_last()[j] == front[k].0;
                assert(entities[j] == front[k].0);
            } else {
                assert(whole[k] == back[k - front.len()]);
                assert(whole[k].0 == entities.last());
                assert(entities[entities.len() - 1] == entities.last());
            }
        }
    }
}

/// Law: a queued mutation is not observable during the pass that queued
/// it. The events of a command-mutating scan and the commands it queues are
/// functions of the pre-scan component values alone: two passes over the
/// same values, started with any two queue contents, emit the same events
/// and append the same commands after their respective starting contents.
pub proof fn lemma_commands_deferred<T, C, V: CommandingValidator<T, C>>(
    entities: Seq<u64>,
    s: Seq<T>,
    qa: Seq<(u64, C)>,
    qb: Seq<(u64, C)>,
)
    ensures
        (qa + commands_for::<T, C, V>(entities, s)).skip(qa.len() as int) == (qb
            + commands_for::<T, C, V>(entities, s)).skip(qb.len() as int),
{
    assert((qa + commands_for::<T, C, V>(entities, s)).skip(qa.len() as int)
        =~= commands_for::<T, C, V>(entities, s));
    assert((qb + commands_for::<T, C, V>(entities, s)).skip(qb.len() as int)
        =~= commands_for::<T, C, V>(entities, s));
}

/// Example validator over the debug-enabled flag: a flag component must be
/// set. Fails, with a fixed message, on every false-valued flag.
pub struct FlagSetValidator;

impl ComponentValidator<crate::debug::DebugEnabled> for FlagSetValidator {
    open spec fn spec_validate(value: crate::debug::DebugEnabled) -> Option<Seq<char>> {
        if value.0 {
            Option::None
        } else {
            Option::Some("debug flag is not set"@)
        }
    }

    fn validate_component(value: &crate::debug::DebugEnabled) -> (r: Result<(), String>) {
        if value.0 {
            Ok(())
        } else {
            Err(String::from_str("debug flag is not set"))
        }
    }
}

/// A corrective mutation a commanding validator may queue against a
/// debug-enabled flag: set the flag.
#[derive(Copy, Clone, PartialEq, Eq, Debug, Structural)]
pub enum FlagRepair {
    Enable,
}

/// Example commanding validator: a flag component must be set; on a
/// false-valued flag it fails and queues a corrective mutation that sets
/// the flag on the same entity.
pub struct FlagRepairValidator;

impl CommandingValidator<crate::debug::DebugEnabled, FlagRepair> for FlagRepairValidator {
    open spec fn spec_validate(value: crate::debug::DebugEnabled) -> Option<Seq<char>> {
        if value.0 {
            Option::None
        } else {
            Option::Some("debug flag is not set"@)
        }
    }

    open spec fn spec_commands(value: crate::debug::DebugEnabled) -> Seq<FlagRepair> {
        if value.0 {
            Seq::empty()
        } else {
            seq![FlagRepair::Enable]
        }
    }

    fn validate_component(
        value: &crate::debug::DebugEnabled,
        entity: u64,
        queue: &mut CommandQueue<FlagRepair>,
    ) -> (r: Result<(), String>) {
        if value.0 {
            proof {
                assert(queue@ =~= old(queue)@ + tagged(
                    entity,
                    Self::spec_commands(*value),
                ));
            }
            Ok(())
        } else {
            queue.push(entity, FlagRepair::Enable);
            proof {
                assert(queue@ =~= old(queue)@ + tagged(
                    entity,
                    Self::spec_commands(*value),
                ));
            }
            Err(String::from_str("debug flag is not set"))
        }
    }
}

} // verus!
