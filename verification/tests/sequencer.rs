use std::cell::RefCell;

use r4l::init::Sequencer;
use r4l::init::SequencerState;
use r4l::init::initcall;
use r4l::init::module_fn_init;

#[test]
fn abort_in_middle_level_runs_nothing_later() {
    // Three levels with routines returning [0, 0], [0, -1], [0]: both
    // routines of the first level run, the first of the second level
    // runs, the second aborts the sequence with its own status, and the
    // third level is never entered.
    let codes: Vec<Vec<i32>> = vec![vec![0, 0], vec![0, -1], vec![0]];
    let log: RefCell<Vec<(usize, usize)>> = RefCell::new(Vec::new());
    let invoke = |l: usize, o: usize| -> i32 {
        log.borrow_mut().push((l, o));
        codes[l][o]
    };
    let r = module_fn_init(vec![2, 2, 1], &invoke);
    assert_eq!(r, SequencerState::Aborted(1, 1, -1));
    assert_eq!(*log.borrow(), vec![(0, 0), (0, 1), (1, 0), (1, 1)]);
}

#[test]
fn all_nonnegative_completes_in_order() {
    let log: RefCell<Vec<(usize, usize)>> = RefCell::new(Vec::new());
    let invoke = |l: usize, o: usize| -> i32 {
        log.borrow_mut().push((l, o));
        1
    };
    let r = module_fn_init(vec![1, 0, 2], &invoke);
    assert_eq!(r, SequencerState::Completed);
    assert_eq!(*log.borrow(), vec![(0, 0), (2, 0), (2, 1)]);
}

#[test]
fn no_levels_completes_immediately() {
    let invoke = |_l: usize, _o: usize| -> i32 { panic!("no routine may run") };
    assert_eq!(module_fn_init(Vec::new(), &invoke), SequencerState::Completed);
    assert_eq!(module_fn_init(vec![0, 0, 0], &invoke), SequencerState::Completed);
}

#[test]
fn initcall_reports_first_negative_offset_and_code() {
    let invoke = |_l: usize, o: usize| -> i32 {
        if o == 1 {
            -5
        } else {
            0
        }
    };
    assert_eq!(initcall(3, 4, &invoke), Err((1, -5)));
    let ok = |_l: usize, _o: usize| -> i32 { 0 };
    assert_eq!(initcall(3, 4, &ok), Ok(()));
}

#[test]
fn sequencer_state_machine_walk() {
    let mut sq = Sequencer::new(vec![2, 0, 1]);
    assert_eq!(sq.state, SequencerState::NotStarted);
    sq.start();
    assert_eq!(sq.current(), Some((0, 0)));
    sq.step(0);
    assert_eq!(sq.current(), Some((0, 1)));
    sq.step(7);
    // the empty middle level is skipped.
    assert_eq!(sq.current(), Some((2, 0)));
    sq.step(-3);
    assert_eq!(sq.state, SequencerState::Aborted(2, 0, -3));
    assert!(!sq.is_running());
}

#[test]
fn sequencer_completes_after_last_routine() {
    let mut sq = Sequencer::new(vec![1]);
    sq.start();
    assert!(sq.is_running());
    sq.step(0);
    assert_eq!(sq.state, SequencerState::Completed);
}

#[test]
fn sequencer_with_empty_levels_starts_completed() {
    let mut sq = Sequencer::new(vec![0, 0]);
    sq.start();
    assert_eq!(sq.state, SequencerState::Completed);
    assert_eq!(sq.current(), None);
}
