//! The guarded single-shot input-to-action control loop.

use vstd::prelude::*;
use crate::actuator::{Actuator, CallView};

verus! {

/// The raw signal payload forwarded to the actuator on an accepted signal.
pub const SENTINEL_PAYLOAD: u64 = 0xC11C_C1AC;

/// Classification of the one configured input signal: a closed set of
/// exactly two kinds.
#[derive(Debug, Clone, Copy, PartialEq, Eq, Structural)]
pub enum InputKind {
    /// A disallowed input kind; the operation never supports it.
    PrimaryChannel,
    /// The only supported input kind; its signal is forwarded to the
    /// actuator.
    SecondaryChannel,
}

/// The terminal failures of the guarded operation. Neither is recoverable;
/// both propagate directly to the caller.
#[derive(Debug, Clone, Copy, PartialEq, Eq, Structural)]
pub enum Failure {
    /// The override configuration invariant was violated: the optional
    /// override value was present.
    ConfigurationViolation,
    /// The configured input signal was classified as the disallowed kind.
    UnsupportedChannel,
}

/// The terminal success of the guarded operation.
#[derive(Debug, Clone, Copy, PartialEq, Eq, Structural)]
pub enum Outcome {
    /// The operation ran every step to the end without failing.
    Success,
}

/// The fixed color-like style token handed to the actuator's `mutate`.
pub open spec fn mutation_style() -> Seq<char> {
    "#C4A6D1"@
}

/// The fixed target label handed to the actuator's `mutate`.
pub open spec fn mutation_target() -> Seq<char> {
    "UI_OVERHAUL"@
}

/// The outcome of the guarded operation as a function of the configuration:
/// a present override configuration is a caller error and fails first; the
/// primary channel is never supported; the secondary channel succeeds.
pub open spec fn outcome_of(override_present: bool, kind: InputKind) -> Result<Outcome, Failure> {
    if override_present {
        Err(Failure::ConfigurationViolation)
    } else if kind is PrimaryChannel {
        Err(Failure::UnsupportedChannel)
    } else {
        Ok(Outcome::Success)
    }
}

/// The calls the guarded operation makes on its actuator, as a function of
/// the configuration: none on a failure; on success exactly one `ingest` of
/// the sentinel payload followed by exactly one `mutate` with the fixed
/// tokens.
pub open spec fn calls_of(override_present: bool, kind: InputKind) -> Seq<CallView> {
    if outcome_of(override_present, kind) is Ok {
        seq![
            CallView::Ingest(SENTINEL_PAYLOAD),
            CallView::Mutate(mutation_style(), mutation_target()),
        ]
    } else {
        Seq::empty()
    }
}

/// The activity counter after `steps` unit advances, each of which stops at
/// the counter's maximum, so the counter never decreases and never wraps.
pub open spec fn advanced_counter(counter: u64, steps: u64) -> u64 {
    if counter + steps <= u64::MAX {
        (counter + steps) as u64
    } else {
        u64::MAX
    }
}

/// The entity that drives the guarded operation: an opaque display identity
/// together with a fixed configuration and a progress marker.
pub struct SpaceInvader {
    /// Opaque display label, immutable after construction.
    pub identity: String,
    /// Monotonically non-decreasing progress marker; it carries no meaning
    /// beyond never decreasing.
    pub activity_counter: u64,
    /// Optional override configuration. Its presence is a caller error: the
    /// guarded operation fails on it before doing anything else.
    pub override_config: Option<String>,
    /// The classification of the one configured input signal.
    pub input_kind: InputKind,
}

impl SpaceInvader {
    /// Constructs the entity with every field fixed by the caller except the
    /// activity counter, which starts at its sentinel maximum.
    pub fn new(
        identity: String,
        override_config: Option<String>,
        input_kind: InputKind,
    ) -> (entity: SpaceInvader)
        ensures
            entity.identity == identity,
            entity.activity_counter == u64::MAX,
            entity.override_config == override_config,
            entity.input_kind == input_kind,
    {
        SpaceInvader { identity, activity_counter: u64::MAX, override_config, input_kind }
    }

    /// The guarded single-shot operation.
    ///
    /// Confirms that the override configuration is absent, classifies the
    /// configured input signal, forwards an accepted signal to the actuator's
    /// `ingest`, advances the progress marker `progress_steps` times,
    /// re-confirms the configuration invariant, requests the fixed
    /// environment mutation through the actuator's `mutate`, and reports the
    /// terminal outcome. Both failure kinds are terminal and reach the
    /// actuator not at all.
    pub fn execute(&mut self, actuator: &mut Actuator, progress_steps: u64) -> (outcome: Result<
        Outcome,
        Failure,
    >)
        ensures
            outcome == outcome_of(old(self).override_config is Some, old(self).input_kind),
            final(actuator)@ == old(actuator)@ + calls_of(
                old(self).override_config is Some,
                old(self).input_kind,
            ),
            final(self).identity == old(self).identity,
            final(self).override_config == old(self).override_config,
            final(self).input_kind == old(self).input_kind,
            final(self).activity_counter >= old(self).activity_counter,
            outcome is Ok ==> final(self).activity_counter == advanced_counter(
                old(self).activity_counter,
                progress_steps,
            ),
            outcome is Err ==> final(self).activity_counter == old(self).activity_counter,
    {
        // Precondition: the override configuration must be absent.
        if self.override_config.is_some() {
            proof {
                assert(actuator@ =~= actuator@ + calls_of(true, self.input_kind));
            }
            return Err(Failure::ConfigurationViolation);
        }
        // The visual channel is categorically unavailable by fixed
        // configuration, so the operation relies solely on the configured
        // input kind. This branch has no observable effect.
        let vision_available: bool = false;
        if !vision_available {
            // nothing to disconnect: there never was a visual input
        }
        // Classification dispatch: the primary channel is never supported;
        // the secondary channel's signal is forwarded as the sentinel
        // payload.
        match self.input_kind {
            InputKind::PrimaryChannel => {
                proof {
                    assert(actuator@ =~= actuator@ + calls_of(false, InputKind::PrimaryChannel));
                }
                return Err(Failure::UnsupportedChannel);
            },
            InputKind::SecondaryChannel => {
                actuator.ingest(SENTINEL_PAYLOAD);
            },
        }
        // Progress marker: advance the activity counter once per requested
        // step, stopping at the counter's maximum so it never wraps.
        let mut step: u64 = 0;
        while step < progress_steps
            invariant
                step <= progress_steps,
                self.identity == old(self).identity,
                self.override_config == old(self).override_config,
                self.input_kind == old(self).input_kind,
                self.activity_counter == advanced_counter(old(self).activity_counter, step),
            decreases progress_steps - step,
        {
            if self.activity_counter < u64::MAX {
                self.activity_counter = self.activity_counter + 1;
            }
            step = step + 1;
        }
        // Invariant confirmation: the override configuration must still be
        // absent here.
        if self.override_config.is_some() {
            return Err(Failure::ConfigurationViolation);
        }
        // Actuator mutation with the fixed style token and target label.
        actuator.mutate(String::from_str("#C4A6D1"), String::from_str("UI_OVERHAUL"));
        proof {
            assert(actuator@ =~= old(actuator)@ + calls_of(false, InputKind::SecondaryChannel));
        }
        Ok(Outcome::Success)
    }
}

/// Two entities are structurally identical when every field holds the same
/// value.
pub open spec fn structurally_identical(a: &SpaceInvader, b: &SpaceInvader) -> bool {
    &&& a.identity@ == b.identity@
    &&& a.activity_counter == b.activity_counter
    &&& a.input_kind == b.input_kind
    &&& match (a.override_config, b.override_config) {
        (Some(x), Some(y)) => x@ == y@,
        (None, None) => true,
        _ => false,
    }
}

/// Law: with the override configuration absent and the secondary channel
/// configured, the operation succeeds, and the actuator sees exactly one
/// `ingest` of the sentinel payload followed by exactly one `mutate` with the
/// fixed style token and target label — in that order, and nothing else.
pub proof fn lemma_accepted_signal(override_present: bool, kind: InputKind)
    requires
        !override_present,
        kind is SecondaryChannel,
    ensures
        outcome_of(override_present, kind) == Ok::<Outcome, Failure>(Outcome::Success),
        calls_of(override_present, kind) == seq![
            CallView::Ingest(SENTINEL_PAYLOAD),
            CallView::Mutate(mutation_style(), mutation_target()),
        ],
{
}

/// Law: with the override configuration absent and the primary channel
/// configured, the operation fails with `UnsupportedChannel` and the actuator
/// is never called. A present override is excluded here: the configuration
/// check comes first, so `ConfigurationViolation` wins on that input.
pub proof fn lemma_unsupported_channel(override_present: bool, kind: InputKind)
    requires
        !override_present,
        kind is PrimaryChannel,
    ensures
        outcome_of(override_present, kind) == Err::<Outcome, Failure>(Failure::UnsupportedChannel),
        calls_of(override_present, kind) == Seq::<CallView>::empty(),
{
}

/// Law: with the override configuration present, the operation fails with
/// `ConfigurationViolation` whatever the input kind, before any actuator
/// call.
pub proof fn lemma_configuration_violation(override_present: bool, kind: InputKind)
    requires
        override_present,
    ensures
        outcome_of(override_present, kind) == Err::<Outcome, Failure>(
            Failure::ConfigurationViolation,
        ),
        calls_of(override_present, kind) == Seq::<CallView>::empty(),
{
}

/// Law: the guarded operation is deterministic in the configuration. Two
/// structurally identical entities yield the same outcome and the same
/// actuator call sequence, so running the operation on two fresh, identical
/// constructions gives identical results.
pub proof fn lemma_identical_entities_identical_behaviour(a: &SpaceInvader, b: &SpaceInvader)
    requires
        structurally_identical(a, b),
    ensures
        outcome_of(a.override_config is Some, a.input_kind) == outcome_of(
            b.override_config is Some,
            b.input_kind,
        ),
        calls_of(a.override_config is Some, a.input_kind) == calls_of(
            b.override_config is Some,
            b.input_kind,
        ),
{
}

} // verus!
