//! Staging of profiles: the fixed execution parameters always stand after
//! the client's text, whatever that text holds.

use quicksim::stage::stage_profile;

#[test]
fn parameters_follow_the_profile() {
    let staged = stage_profile("actor=Warrior");
    assert_eq!(staged, "actor=Warrior\nmax_time=300\niterations=10000\n");
}

#[test]
fn empty_profile_still_gets_parameters() {
    let staged = stage_profile("");
    assert_eq!(staged, "\nmax_time=300\niterations=10000\n");
}

#[test]
fn client_supplied_bounds_are_overridden_by_position() {
    let staged = stage_profile("actor=X\nmax_time=999999\niterations=9999999");
    assert_eq!(
        staged,
        "actor=X\nmax_time=999999\niterations=9999999\nmax_time=300\niterations=10000\n"
    );
    let fixed_tail = "\nmax_time=300\niterations=10000\n";
    assert_eq!(&staged[staged.len() - fixed_tail.len()..], fixed_tail);
}
