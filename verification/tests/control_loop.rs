use blind_fury::actuator::{Actuator, ActuatorCall};
use blind_fury::control::{Failure, InputKind, Outcome, SpaceInvader, SENTINEL_PAYLOAD};

fn expected_success_log() -> Vec<ActuatorCall> {
    vec![
        ActuatorCall::Ingest(SENTINEL_PAYLOAD),
        ActuatorCall::Mutate("#C4A6D1".to_string(), "UI_OVERHAUL".to_string()),
    ]
}

#[test]
fn secondary_channel_without_override_succeeds() {
    let mut pilot = SpaceInvader::new("Δ".to_string(), None, InputKind::SecondaryChannel);
    let mut actuator = Actuator::new();
    let outcome = pilot.execute(&mut actuator, 4);
    assert_eq!(outcome, Ok(Outcome::Success));
    assert_eq!(actuator.calls(), &expected_success_log());
}

#[test]
fn primary_channel_fails_without_actuator_calls() {
    let mut pilot = SpaceInvader::new("Δ".to_string(), None, InputKind::PrimaryChannel);
    let mut actuator = Actuator::new();
    let outcome = pilot.execute(&mut actuator, 4);
    assert_eq!(outcome, Err(Failure::UnsupportedChannel));
    assert_eq!(actuator.calls(), &Vec::new());
}

#[test]
fn present_override_fails_without_actuator_calls() {
    let mut pilot = SpaceInvader::new(
        "Δ".to_string(),
        Some("anything".to_string()),
        InputKind::SecondaryChannel,
    );
    let mut actuator = Actuator::new();
    let outcome = pilot.execute(&mut actuator, 4);
    assert_eq!(outcome, Err(Failure::ConfigurationViolation));
    assert_eq!(actuator.calls(), &Vec::new());
}

#[test]
fn present_override_wins_over_unsupported_channel() {
    let mut pilot = SpaceInvader::new(
        "Δ".to_string(),
        Some("anything".to_string()),
        InputKind::PrimaryChannel,
    );
    let mut actuator = Actuator::new();
    let outcome = pilot.execute(&mut actuator, 4);
    assert_eq!(outcome, Err(Failure::ConfigurationViolation));
    assert_eq!(actuator.calls(), &Vec::new());
}

#[test]
fn identical_constructions_behave_identically() {
    let mut first = SpaceInvader::new("Δ".to_string(), None, InputKind::SecondaryChannel);
    let mut second = SpaceInvader::new("Δ".to_string(), None, InputKind::SecondaryChannel);
    let mut first_actuator = Actuator::new();
    let mut second_actuator = Actuator::new();
    let first_outcome = first.execute(&mut first_actuator, 2);
    let second_outcome = second.execute(&mut second_actuator, 2);
    assert_eq!(first_outcome, second_outcome);
    assert_eq!(first_actuator.calls(), second_actuator.calls());

    let mut third = SpaceInvader::new("Δ".to_string(), None, InputKind::PrimaryChannel);
    let mut fourth = SpaceInvader::new("Δ".to_string(), None, InputKind::PrimaryChannel);
    let mut third_actuator = Actuator::new();
    let mut fourth_actuator = Actuator::new();
    let third_outcome = third.execute(&mut third_actuator, 2);
    let fourth_outcome = fourth.execute(&mut fourth_actuator, 2);
    assert_eq!(third_outcome, fourth_outcome);
    assert_eq!(third_actuator.calls(), fourth_actuator.calls());
}

#[test]
fn construction_starts_counter_at_maximum() {
    let pilot = SpaceInvader::new("Δ".to_string(), None, InputKind::SecondaryChannel);
    assert_eq!(pilot.identity, "Δ".to_string());
    assert_eq!(pilot.activity_counter, u64::MAX);
    assert_eq!(pilot.override_config, None);
    assert_eq!(pilot.input_kind, InputKind::SecondaryChannel);
}

#[test]
fn counter_advances_by_requested_steps() {
    let mut pilot = SpaceInvader {
        identity: "Δ".to_string(),
        activity_counter: 10,
        override_config: None,
        input_kind: InputKind::SecondaryChannel,
    };
    let mut actuator = Actuator::new();
    let outcome = pilot.execute(&mut actuator, 5);
    assert_eq!(outcome, Ok(Outcome::Success));
    assert_eq!(pilot.activity_counter, 15);
}

#[test]
fn counter_saturates_at_maximum() {
    let mut pilot = SpaceInvader {
        identity: "Δ".to_string(),
        activity_counter: u64::MAX - 1,
        override_config: None,
        input_kind: InputKind::SecondaryChannel,
    };
    let mut actuator = Actuator::new();
    let outcome = pilot.execute(&mut actuator, 3);
    assert_eq!(outcome, Ok(Outcome::Success));
    assert_eq!(pilot.activity_counter, u64::MAX);
}

#[test]
fn counter_unchanged_on_failure() {
    let mut pilot = SpaceInvader {
        identity: "Δ".to_string(),
        activity_counter: 7,
        override_config: None,
        input_kind: InputKind::PrimaryChannel,
    };
    let mut actuator = Actuator::new();
    let outcome = pilot.execute(&mut actuator, 9);
    assert_eq!(outcome, Err(Failure::UnsupportedChannel));
    assert_eq!(pilot.activity_counter, 7);
}

#[test]
fn zero_progress_steps_still_succeed() {
    let mut pilot = SpaceInvader {
        identity: "Δ".to_string(),
        activity_counter: 42,
        override_config: None,
        input_kind: InputKind::SecondaryChannel,
    };
    let mut actuator = Actuator::new();
    let outcome = pilot.execute(&mut actuator, 0);
    assert_eq!(outcome, Ok(Outcome::Success));
    assert_eq!(pilot.activity_counter, 42);
    assert_eq!(actuator.calls(), &expected_success_log());
}

#[test]
fn fresh_actuator_log_is_empty() {
    let actuator = Actuator::new();
    assert_eq!(actuator.calls(), &Vec::new());
}

#[test]
fn actuator_records_calls_in_order() {
    let mut actuator = Actuator::new();
    actuator.ingest(3);
    actuator.mutate("bold".to_string(), "banner".to_string());
    actuator.ingest(9);
    assert_eq!(
        actuator.calls(),
        &vec![
            ActuatorCall::Ingest(3),
            ActuatorCall::Mutate("bold".to_string(), "banner".to_string()),
            ActuatorCall::Ingest(9),
        ]
    );
}
