use comm::gui::{CompositeValveState, ValveState};
use comm::sam::Unit;
use comm::{Sequence, SequenceAction, Trigger};

#[test]
fn unit_legends() {
    assert_eq!(Unit::Amps.to_string(), "Amps");
    assert_eq!(Unit::Psi.to_string(), "psi");
    assert_eq!(Unit::Kelvin.to_string(), "K");
    assert_eq!(Unit::Pounds.to_string(), "lbf");
    assert_eq!(Unit::Volts.to_string(), "Volts");
}

#[test]
fn valve_state_legends() {
    assert_eq!(ValveState::Undetermined.to_string(), "undetermined");
    assert_eq!(ValveState::Disconnected.to_string(), "disconnected");
    assert_eq!(ValveState::Open.to_string(), "open");
    assert_eq!(ValveState::Closed.to_string(), "closed");
    assert_eq!(ValveState::Fault.to_string(), "fault");
    assert_eq!(ValveState::Fault.to_pretty_string(), "");
}

#[test]
fn composite_states_compare_both_fields() {
    let fault = CompositeValveState { commanded: ValveState::Open, actual: ValveState::Fault };
    let open = CompositeValveState { commanded: ValveState::Open, actual: ValveState::Open };
    let default = CompositeValveState::default();
    assert_ne!(fault, open);
    assert_ne!(fault, default);
    assert_ne!(open, default);
    assert_eq!(
        default,
        CompositeValveState { commanded: ValveState::Undetermined, actual: ValveState::Undetermined }
    );
    assert_eq!(ValveState::default(), ValveState::Undetermined);
    assert_eq!(fault, CompositeValveState { commanded: ValveState::Open, actual: ValveState::Fault });
}

#[test]
fn abort_sequence_is_persisted_by_name() {
    let abort = Sequence { name: "abort".to_string(), script: "...".to_string() };
    assert!(abort.is_abort());
    assert_eq!(abort.action(), SequenceAction::Persist);
    let other = Sequence { name: "abort".to_string(), script: "close_all()".to_string() };
    assert_eq!(other.action(), SequenceAction::Persist);
}

#[test]
fn other_sequences_are_executed() {
    let same_script = Sequence { name: "vent".to_string(), script: "...".to_string() };
    assert!(!same_script.is_abort());
    assert_eq!(same_script.action(), SequenceAction::Execute);
    for name in ["Abort", "abort ", " abort", "abort2", "", "abor"] {
        let s = Sequence { name: name.to_string(), script: "...".to_string() };
        assert_eq!(s.action(), SequenceAction::Execute, "{name:?}");
    }
}

#[test]
fn trigger_keeps_its_fields() {
    let t = Trigger {
        name: "overpressure".to_string(),
        condition: "p > 500".to_string(),
        script: "abort()".to_string(),
        active: false,
    };
    let u = t.clone();
    assert_eq!(t, u);
    assert!(!u.active);
    assert_eq!(u.condition, "p > 500");
}
