use command_undo::command::Add;
use command_undo::command::AddendSource;
use command_undo::command::Command;
use command_undo::command::PreconditionViolation;

#[test]
fn execute_undo_redo_round_trip_fixed_addend() {
    let mut acc: i32 = 2;
    let mut add = Add::new(AddendSource::Fixed(3));
    add.execute(&mut acc, 0);
    assert_eq!(acc, 5);
    add.undo(&mut acc).unwrap();
    assert_eq!(acc, 2);
    add.redo(&mut acc).unwrap();
    assert_eq!(acc, 5);
}

#[test]
fn execute_undo_redo_round_trip_negative_values() {
    let mut acc: i32 = -40;
    let mut add = Add::new(AddendSource::Live);
    add.execute(&mut acc, -17);
    assert_eq!(acc, -57);
    add.undo(&mut acc).unwrap();
    assert_eq!(acc, -40);
    add.redo(&mut acc).unwrap();
    assert_eq!(acc, -57);
}

#[test]
fn add_scenario_traces() {
    let mut acc: i32 = 2;
    let mut add = Add::new(AddendSource::Live);
    let line = add.execute(&mut acc, 3);
    assert_eq!(acc, 5);
    assert_eq!(line, "executing addition: 2 + 3 = 5");
    let line = add.undo(&mut acc).unwrap();
    assert_eq!(acc, 2);
    assert_eq!(line, "Undoing addition: 5 - 3 = 2");
    let line = add.redo(&mut acc).unwrap();
    assert_eq!(acc, 5);
    assert_eq!(line, "redoing addition: 2 + 3 = 5");
}

#[test]
fn add_trace_with_negative_numbers() {
    let mut acc: i32 = -5;
    let mut add = Add::new(AddendSource::Fixed(3));
    let line = add.execute(&mut acc, 0);
    assert_eq!(acc, -2);
    assert_eq!(line, "executing addition: -5 + 3 = -2");
    let line = add.undo(&mut acc).unwrap();
    assert_eq!(acc, -5);
    assert_eq!(line, "Undoing addition: -2 - 3 = -5");
}

#[test]
fn undo_keeps_recorded_addend_for_redo() {
    let mut acc: i32 = 10;
    let mut add = Add::new(AddendSource::Live);
    add.execute(&mut acc, 4);
    add.undo(&mut acc).unwrap();
    assert_eq!(add.last_addend, Some(4));
    // Redo twice in a row keeps succeeding with the same recorded addend.
    add.redo(&mut acc).unwrap();
    add.redo(&mut acc).unwrap();
    assert_eq!(acc, 18);
}

#[test]
fn recorded_addend_not_live_value_is_replayed() {
    let mut acc: i32 = 0;
    let mut add = Add::new(AddendSource::Live);
    add.execute(&mut acc, 6);
    assert_eq!(acc, 6);
    // The addend cell may change afterwards; undo must use the recorded 6.
    let line = add.undo(&mut acc).unwrap();
    assert_eq!(acc, 0);
    assert_eq!(line, "Undoing addition: 6 - 6 = 0");
}

#[test]
fn duplicate_is_equal_and_independent() {
    let mut acc: i32 = 0;
    let original = Command::Add(Add::new(AddendSource::Live));
    let mut duplicate = original.duplicate();
    assert_eq!(duplicate, original);
    // Mutating the duplicate's recorded addend via its own execute must
    // not alter the original's recorded addend.
    duplicate.execute(&mut acc, 7);
    match duplicate {
        Command::Add(a) => assert_eq!(a.last_addend, Some(7)),
        Command::DollarGiver => panic!("duplicate changed variant"),
    }
    match original {
        Command::Add(a) => assert_eq!(a.last_addend, None),
        Command::DollarGiver => panic!("original changed variant"),
    }
}

#[test]
fn duplicate_after_execute_carries_captured_state() {
    let mut acc: i32 = 0;
    let mut original = Add::new(AddendSource::Live);
    original.execute(&mut acc, 9);
    let duplicate = Command::Add(original).duplicate();
    match duplicate {
        Command::Add(a) => assert_eq!(a.last_addend, Some(9)),
        Command::DollarGiver => panic!("duplicate changed variant"),
    }
}

#[test]
fn undo_before_execute_fails() {
    let mut acc: i32 = 41;
    let add = Add::new(AddendSource::Fixed(1));
    let r = add.undo(&mut acc);
    assert_eq!(r, Err(PreconditionViolation::UndoBeforeExecute));
    assert_eq!(acc, 41);
}

#[test]
fn redo_before_execute_fails() {
    let mut acc: i32 = 41;
    let add = Add::new(AddendSource::Fixed(1));
    let r = add.redo(&mut acc);
    assert_eq!(r, Err(PreconditionViolation::RedoBeforeExecute));
    assert_eq!(acc, 41);
}

#[test]
fn command_undo_before_execute_fails() {
    let mut acc: i32 = 3;
    let cmd = Command::Add(Add::new(AddendSource::Live));
    let r = cmd.undo(&mut acc);
    assert_eq!(r, Err(PreconditionViolation::UndoBeforeExecute));
    assert_eq!(acc, 3);
}

#[test]
fn dollar_giver_traces_and_no_state_change() {
    let mut acc: i32 = 13;
    let mut cmd = Command::DollarGiver;
    let line = cmd.execute(&mut acc, 99);
    assert_eq!(line, "*Gives you a dollar*");
    let line = cmd.undo(&mut acc).unwrap();
    assert_eq!(line, "*Takes your dollar back :(*");
    let line = cmd.redo(&mut acc).unwrap();
    assert_eq!(line, "*Gives you a dollar again*");
    // No state change across calls: the accumulator and command are untouched.
    assert_eq!(acc, 13);
    assert_eq!(cmd, Command::DollarGiver);
}

#[test]
fn dollar_giver_never_needs_a_prior_call() {
    let mut acc: i32 = 0;
    let cmd = Command::DollarGiver;
    assert!(cmd.undo(&mut acc).is_ok());
    assert!(cmd.redo(&mut acc).is_ok());
}

#[test]
fn violation_messages() {
    assert_eq!(
        PreconditionViolation::UndoBeforeExecute.message(),
        "Undo should not be called before execute"
    );
    assert_eq!(
        PreconditionViolation::RedoBeforeExecute.message(),
        "Redo should not be called before undo/execute"
    );
    assert_eq!(
        PreconditionViolation::UnclickBeforeClick.message(),
        "You shouldn't unclick before clicking!"
    );
    assert_eq!(
        PreconditionViolation::ReclickBeforeUnclick.message(),
        "You shouldn't reclick before unclicking!"
    );
}
