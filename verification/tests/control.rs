use heapscope::control::interpret;
use heapscope::control::Command;
use heapscope::control::Directive;
use heapscope::control::InputEvent;
use heapscope::control::KeyCode;
use heapscope::control::KeyPress;
use heapscope::control::LoopEvent;
use heapscope::control::Phase;
use heapscope::control::Session;
use heapscope::control::FRAME_RATE;
use heapscope::control::POLL_BUDGET_MILLIS;
use heapscope::control::WINDOW_CAPACITY;
use heapscope::error::Failure;
use heapscope::error::TelemetryError;
use heapscope::metric::Metric;

const MIB: usize = 1024 * 1024;

fn key(code: KeyCode, shift: bool, control: bool) -> InputEvent {
    InputEvent::Key(KeyPress { code, shift, control })
}

fn plain(c: char) -> InputEvent {
    key(KeyCode::Char(c), false, false)
}

#[test]
fn constants_of_the_loop() {
    assert_eq!(WINDOW_CAPACITY, 512);
    assert_eq!(FRAME_RATE, 60);
    assert_eq!(POLL_BUDGET_MILLIS, 16);
}

#[test]
fn q_and_escape_quit() {
    assert_eq!(interpret(plain('q')), Command::Quit);
    assert_eq!(interpret(key(KeyCode::Esc, false, false)), Command::Quit);
    assert_eq!(interpret(key(KeyCode::Char('q'), true, true)), Command::Quit);
}

#[test]
fn digits_ask_for_ten_to_a_hundred_mib() {
    let digits = ['1', '2', '3', '4', '5', '6', '7', '8', '9', '0'];
    for (i, digit) in digits.iter().enumerate() {
        assert_eq!(
            interpret(plain(*digit)),
            Command::Grow { bytes: (i + 1) * 10 * MIB, filled: false }
        );
    }
}

#[test]
fn shift_doubles_the_size() {
    assert_eq!(
        interpret(key(KeyCode::Char('1'), true, false)),
        Command::Grow { bytes: 20 * MIB, filled: false }
    );
    assert_eq!(
        interpret(key(KeyCode::Char('0'), true, false)),
        Command::Grow { bytes: 200 * MIB, filled: false }
    );
}

#[test]
fn control_asks_for_a_filled_block() {
    assert_eq!(
        interpret(key(KeyCode::Char('4'), false, true)),
        Command::Grow { bytes: 40 * MIB, filled: true }
    );
    assert_eq!(
        interpret(key(KeyCode::Char('4'), true, true)),
        Command::Grow { bytes: 80 * MIB, filled: true }
    );
}

#[test]
fn p_pops() {
    assert_eq!(interpret(plain('p')), Command::Shrink);
}

#[test]
fn everything_else_is_ignored() {
    assert_eq!(interpret(plain('x')), Command::Ignore);
    assert_eq!(interpret(plain('Q')), Command::Ignore);
    assert_eq!(interpret(key(KeyCode::Other, false, false)), Command::Ignore);
    assert_eq!(interpret(InputEvent::Mouse), Command::Ignore);
    assert_eq!(interpret(InputEvent::Resize), Command::Ignore);
}

#[test]
fn session_starts_with_a_frame() {
    let session = Session::new().unwrap();
    assert_eq!(session.phase(), Phase::Draw);
    assert_eq!(session.directive(), Directive::Render);
    assert_eq!(session.histograms().capacity(), 512);
    assert_eq!(session.snapshots().max(), 0);
    assert_eq!(session.allocs().len(), 0);
}

#[test]
fn a_round_draws_drains_and_samples() {
    let mut session = Session::new().unwrap();
    assert_eq!(session.step(LoopEvent::Rendered), Directive::Poll);
    assert_eq!(session.phase(), Phase::Drain);
    assert_eq!(session.step(LoopEvent::Input(InputEvent::Resize)), Directive::Poll);
    assert_eq!(session.phase(), Phase::Drain);
    assert_eq!(session.step(LoopEvent::Idle), Directive::Render);
    assert_eq!(session.phase(), Phase::Draw);
    for metric in Metric::all() {
        assert_eq!(session.histograms().values(metric).len(), 1);
        assert_eq!(session.snapshots().points(metric).len(), 1);
        assert_eq!(
            session.snapshots().points(metric)[0],
            (0, session.histograms().values(metric)[0])
        );
    }
}

#[test]
fn input_while_draining_moves_the_block_list() {
    let mut session = Session::new().unwrap();
    session.step(LoopEvent::Rendered);
    assert_eq!(session.step(LoopEvent::Input(plain('p'))), Directive::Poll);
    assert_eq!(session.allocs().len(), 0);
    assert_eq!(session.step(LoopEvent::Input(plain('1'))), Directive::Poll);
    assert_eq!(session.allocs().len(), 1);
    assert_eq!(session.allocs().block(0).bytes(), 10 * MIB);
    assert!(!session.allocs().block(0).is_filled());
    assert_eq!(
        session.step(LoopEvent::Input(key(KeyCode::Char('1'), true, true))),
        Directive::Poll
    );
    assert_eq!(session.allocs().len(), 2);
    assert_eq!(session.allocs().block(1).bytes(), 20 * MIB);
    assert!(session.allocs().block(1).is_filled());
    assert_eq!(session.step(LoopEvent::Input(plain('p'))), Directive::Poll);
    assert_eq!(session.allocs().len(), 1);
    assert_eq!(session.phase(), Phase::Drain);
}

#[test]
fn quit_ends_the_loop() {
    let mut session = Session::new().unwrap();
    session.step(LoopEvent::Rendered);
    assert_eq!(session.step(LoopEvent::Input(plain('q'))), Directive::Quit);
    assert_eq!(session.phase(), Phase::Stopped);
    assert_eq!(session.step(LoopEvent::Idle), Directive::Quit);
    assert_eq!(session.step(LoopEvent::Rendered), Directive::Quit);
    assert_eq!(session.step(LoopEvent::Input(plain('1'))), Directive::Quit);
    assert_eq!(session.allocs().len(), 0);
    assert_eq!(session.histograms().values(Metric::Active).len(), 0);
}

#[test]
fn events_out_of_turn_change_nothing() {
    let mut session = Session::new().unwrap();
    assert_eq!(session.step(LoopEvent::Idle), Directive::Render);
    assert_eq!(session.step(LoopEvent::Input(plain('1'))), Directive::Render);
    assert_eq!(session.step(LoopEvent::Input(plain('q'))), Directive::Render);
    assert_eq!(session.phase(), Phase::Draw);
    assert_eq!(session.allocs().len(), 0);
    assert_eq!(session.histograms().values(Metric::Active).len(), 0);
    session.step(LoopEvent::Rendered);
    assert_eq!(session.step(LoopEvent::Rendered), Directive::Poll);
    assert_eq!(session.phase(), Phase::Drain);
}

#[test]
fn update_takes_one_tick() {
    let mut session = Session::new().unwrap();
    session.update().unwrap();
    session.update().unwrap();
    assert_eq!(session.phase(), Phase::Draw);
    for metric in Metric::all() {
        let values = session.histograms().values(metric);
        assert_eq!(values.len(), 2);
        assert_eq!(session.snapshots().points(metric), &vec![(0, values[0]), (1, values[1])]);
    }
}

#[test]
fn failed_tick_ends_the_loop_with_its_error() {
    let mut session = Session::new().unwrap();
    session.step(LoopEvent::Rendered);
    let error = TelemetryError { failure: Failure::Refresh, cause: None };
    assert_eq!(session.conclude(Err(error)), Directive::Abort(error));
    assert_eq!(session.phase(), Phase::Stopped);
    assert_eq!(session.directive(), Directive::Quit);
}

#[test]
fn good_tick_asks_for_a_frame() {
    let mut session = Session::new().unwrap();
    session.step(LoopEvent::Rendered);
    assert_eq!(session.conclude(Ok(())), Directive::Render);
    assert_eq!(session.phase(), Phase::Draw);
}

#[test]
fn outcome_out_of_turn_changes_nothing() {
    let mut session = Session::new().unwrap();
    let error = TelemetryError { failure: Failure::Read(Metric::Active), cause: None };
    assert_eq!(session.conclude(Err(error)), Directive::Render);
    assert_eq!(session.phase(), Phase::Draw);
}

#[test]
fn commands_are_obeyed_only_while_draining() {
    let mut session = Session::new().unwrap();
    assert_eq!(session.obey(Command::Grow { bytes: 16, filled: true }), Directive::Render);
    assert_eq!(session.allocs().len(), 0);
    session.step(LoopEvent::Rendered);
    assert_eq!(session.obey(Command::Grow { bytes: 16, filled: true }), Directive::Poll);
    assert_eq!(session.allocs().len(), 1);
    assert_eq!(session.obey(Command::Ignore), Directive::Poll);
    assert_eq!(session.obey(Command::Shrink), Directive::Poll);
    assert_eq!(session.allocs().len(), 0);
    assert_eq!(session.obey(Command::Quit), Directive::Quit);
    assert_eq!(session.phase(), Phase::Stopped);
}
