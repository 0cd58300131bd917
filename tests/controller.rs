use gravity::controller::{handle_event, handle_key_event, Controller, Outcome, Phase, Reaction};
use gravity::events::{ConsoleEvent, Event, KeyCode, KeyEvent, KeyEventKind};
use std::sync::mpsc::channel;

fn key(c: char, kind: KeyEventKind) -> Event {
    Event::Console(ConsoleEvent::Key(KeyEvent { code: KeyCode::Char(c), kind }))
}

/// Runs the loop as the application does, counting physics steps and renders,
/// with events taken from `recv` until the controller stops.
fn drive(c: &mut Controller, mut recv: impl FnMut() -> Option<Event>) -> (usize, usize) {
    let mut steps: usize = 0;
    let mut renders: usize = 0;
    while c.is_running() {
        match c.phase() {
            Phase::Render => {
                renders += 1;
                c.advance(Outcome::Rendered);
            }
            Phase::Receive => match recv() {
                Some(e) => c.advance(Outcome::Received(e)),
                None => c.advance(Outcome::Closed),
            },
            Phase::Step => {
                steps += 1;
                c.advance(Outcome::Stepped);
            }
            Phase::Finished | Phase::Failed => unreachable!(),
        }
    }
    (steps, renders)
}

#[test]
fn tick_means_physics() {
    assert_eq!(handle_event(&Event::DrawInterrupt), Reaction::Physics);
}

#[test]
fn q_press_means_quit() {
    assert_eq!(handle_event(&key('q', KeyEventKind::Press)), Reaction::Quit);
}

#[test]
fn q_release_and_repeat_are_ignored() {
    assert_eq!(handle_event(&key('q', KeyEventKind::Release)), Reaction::Ignore);
    assert_eq!(handle_event(&key('q', KeyEventKind::Repeat)), Reaction::Ignore);
}

#[test]
fn other_keys_and_inputs_are_ignored() {
    assert_eq!(handle_event(&key('Q', KeyEventKind::Press)), Reaction::Ignore);
    assert_eq!(handle_event(&key('x', KeyEventKind::Press)), Reaction::Ignore);
    let other = Event::Console(ConsoleEvent::Key(KeyEvent {
        code: KeyCode::Other,
        kind: KeyEventKind::Press,
    }));
    assert_eq!(handle_event(&other), Reaction::Ignore);
    assert_eq!(handle_event(&Event::Console(ConsoleEvent::Other)), Reaction::Ignore);
}

#[test]
fn key_event_goes_by_code() {
    let q = KeyEvent { code: KeyCode::Char('q'), kind: KeyEventKind::Press };
    let w = KeyEvent { code: KeyCode::Char('w'), kind: KeyEventKind::Press };
    assert_eq!(handle_key_event(&q), Reaction::Quit);
    assert_eq!(handle_key_event(&w), Reaction::Ignore);
}

#[test]
fn new_controller_renders_first() {
    let c = Controller::new();
    assert_eq!(c.phase(), Phase::Render);
    assert!(c.is_running());
}

#[test]
fn tick_gives_one_step_then_one_render() {
    let mut c = Controller::new();
    c.advance(Outcome::Rendered);
    assert_eq!(c.phase(), Phase::Receive);
    c.advance(Outcome::Received(Event::DrawInterrupt));
    assert_eq!(c.phase(), Phase::Step);
    c.advance(Outcome::Rendered);
    assert_eq!(c.phase(), Phase::Step);
    c.advance(Outcome::Stepped);
    assert_eq!(c.phase(), Phase::Render);
    c.advance(Outcome::Stepped);
    assert_eq!(c.phase(), Phase::Render);
    c.advance(Outcome::Rendered);
    assert_eq!(c.phase(), Phase::Receive);
}

#[test]
fn tick_through_bus_runs_one_step_and_one_render() {
    let (tx, rx) = channel();
    tx.send(Event::DrawInterrupt).unwrap();
    tx.send(key('q', KeyEventKind::Press)).unwrap();
    let mut c = Controller::new();
    let (steps, renders) = drive(&mut c, || rx.recv().ok());
    assert_eq!(steps, 1);
    // the first render, and the one after the step
    assert_eq!(renders, 2);
    assert_eq!(c.phase(), Phase::Finished);
}

#[test]
fn ignored_event_renders_again_without_step() {
    let mut c = Controller::new();
    c.advance(Outcome::Rendered);
    c.advance(Outcome::Received(key('x', KeyEventKind::Press)));
    assert_eq!(c.phase(), Phase::Render);
}

#[test]
fn quit_press_exits_and_nothing_follows() {
    let (tx, rx) = channel();
    tx.send(key('q', KeyEventKind::Press)).unwrap();
    tx.send(Event::DrawInterrupt).unwrap();
    tx.send(Event::DrawInterrupt).unwrap();
    let mut c = Controller::new();
    let (steps, renders) = drive(&mut c, || rx.recv().ok());
    assert_eq!(steps, 0);
    assert_eq!(renders, 1);
    assert!(!c.is_running());
    for o in [Outcome::Rendered, Outcome::Stepped, Outcome::Received(Event::DrawInterrupt), Outcome::Closed] {
        c.advance(o);
        assert_eq!(c.phase(), Phase::Finished);
    }
}

#[test]
fn dropped_producers_fail_the_loop() {
    let (tx, rx) = channel::<Event>();
    let tx_key = tx.clone();
    let tx_tick = tx.clone();
    tx_tick.send(Event::DrawInterrupt).unwrap();
    drop(tx);
    drop(tx_key);
    drop(tx_tick);
    let mut c = Controller::new();
    let (steps, renders) = drive(&mut c, || rx.recv().ok());
    assert_eq!(steps, 1);
    assert_eq!(renders, 2);
    assert_eq!(c.phase(), Phase::Failed);
    assert!(!c.is_running());
    c.advance(Outcome::Received(Event::DrawInterrupt));
    assert_eq!(c.phase(), Phase::Failed);
}
