use cplex::callback::{decision_reply, user_cut_reply, Action, CallbackSlots, Cut};
use cplex::error::{status_result, terminated_len};
use cplex::handle::Ownership;
use cplex::model::{Model, Sense};
use cplex::problem::TOO_LARGE;
use cplex::{Error, PrivateErrorConstructor, Real};

fn r(x: f64) -> Real {
    Real::from_bits(x.to_bits())
}

#[test]
fn action_codes() {
    assert_eq!(Action::Default.code(), 0);
    assert_eq!(Action::Fail.code(), 1);
    assert_eq!(Action::SetValues.code(), 2);
    assert_eq!(Action::AbortLoop.code(), 3);
}

#[test]
fn absent_closure_gives_default_replies() {
    assert_eq!(user_cut_reply(None), 0);
    assert_eq!(decision_reply(None), (0, 0));
}

#[test]
fn closure_answers_are_passed_on() {
    assert_eq!(user_cut_reply(Some(Action::AbortLoop)), 3);
    assert_eq!(decision_reply(Some((true, Action::Fail))), (1, 1));
    assert_eq!(decision_reply(Some((false, Action::SetValues))), (0, 2));
}

#[test]
fn registered_then_cleared_is_as_never_registered() {
    let mut slots: CallbackSlots<u8, u16, u32> = CallbackSlots::new();
    slots.set_user(1);
    slots.set_incumbent(2);
    slots.set_heuristic(3);
    assert!(slots.has_user() && slots.has_incumbent() && slots.has_heuristic());
    slots.clear_user();
    slots.clear_incumbent();
    slots.clear_heuristic();
    assert!(!slots.has_user() && !slots.has_incumbent() && !slots.has_heuristic());
    assert!(slots.user_mut().is_none());
}

#[test]
fn registering_again_replaces_the_closure() {
    let mut slots: CallbackSlots<u8, u16, u32> = CallbackSlots::new();
    slots.set_incumbent(2);
    slots.set_incumbent(5);
    assert_eq!(slots.incumbent_mut().copied(), Some(5));
    *slots.incumbent_mut().unwrap() = 9;
    assert_eq!(slots.incumbent_mut().copied(), Some(9));
    assert!(!slots.has_user());
}

#[test]
fn cut_splits_terms() {
    let mut model = Model::new();
    let x = model.new_binary_var();
    let y = model.new_binary_var();
    let e = x.times(r(1.5)).plus(y.times(r(-2.0)));
    let c = Cut::from_expr(&e, Sense::LessThan, r(1.0), true).unwrap();
    assert_eq!(c.ind, vec![0, 1]);
    assert_eq!(c.val, vec![r(1.5), r(-2.0)]);
    assert_eq!(c.sense, b'L' as i32);
    assert_eq!(c.rhs, r(1.0));
    assert_eq!(c.purgeable, 1);
    let c = Cut::from_expr(&e, Sense::GreaterThan, r(0.0), false).unwrap();
    assert_eq!(c.purgeable, 0);
    assert_eq!(c.sense, b'G' as i32);
}

#[test]
fn owned_handle_is_released_once() {
    let mut o = Ownership::owning();
    assert!(o.is_owned());
    assert!(o.take_release());
    assert!(!o.take_release());
    assert!(!o.take_release());
}

#[test]
fn lent_handle_is_never_released() {
    let mut o = Ownership::borrowed();
    assert!(!o.is_owned());
    assert!(!o.take_release());
    assert!(!o.take_release());
}

#[test]
fn native_error_message_is_trimmed() {
    let e = Error::new(1217, "  CPLEX Error  1217: No solution exists.\n");
    assert_eq!(e.code(), 1217);
    assert_eq!(e.description(), "CPLEX Error  1217: No solution exists.");
    let e = Error::new(-3, "\t\n ");
    assert_eq!(e.description(), "");
}

#[test]
fn host_error_has_code_zero() {
    let e = Error::custom_error("Could not open/create logfile");
    assert_eq!(e.code(), 0);
    assert_eq!(e.description(), "Could not open/create logfile");
    assert!(!TOO_LARGE.is_empty());
}

#[test]
fn buffer_text_ends_at_first_nul() {
    assert_eq!(terminated_len(b"abc\0def\0"), 3);
    assert_eq!(terminated_len(b"\0"), 0);
    assert_eq!(terminated_len(b"no terminator"), 13);
    assert_eq!(terminated_len(b""), 0);
}

#[test]
fn status_zero_is_success() {
    assert!(status_result(0, "ignored").is_ok());
    let e = status_result(1001, " Out of memory.\n").unwrap_err();
    assert_eq!(e.code(), 1001);
    assert_eq!(e.description(), "Out of memory.");
}

#[test]
fn callback_slot_access_leaves_other_slots() {
    let mut slots: CallbackSlots<u8, u16, u32> = CallbackSlots::new();
    slots.set_user(1);
    slots.set_heuristic(3);
    if let Some(u) = slots.user_mut() {
        *u = 7;
    }
    assert_eq!(slots.user_mut().copied(), Some(7));
    assert_eq!(slots.heuristic_mut().copied(), Some(3));
    assert!(slots.incumbent_mut().is_none());
}
