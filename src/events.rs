//! The events carried from the producers to the simulation loop, and what each
//! producer does next after a read, a send or a pause.
use vstd::prelude::*;

verus! {

/// Milliseconds that the tick producer waits after each tick it sends.
pub const TICK_INTERVAL_MS: u64 = 50;

/// The key that ends the simulation when pressed.
pub const QUIT_KEY: char = 'q';

/// The key of a key event, as far as the simulation reads it.
#[derive(Clone, Copy, Debug, PartialEq, Eq, Structural)]
pub enum KeyCode {
    Char(char),
    Other,
}

/// Whether a key went down, is held, or went up.
#[derive(Clone, Copy, Debug, PartialEq, Eq, Structural)]
pub enum KeyEventKind {
    Press,
    Repeat,
    Release,
}

#[derive(Clone, Copy, Debug, PartialEq, Eq, Structural)]
pub struct KeyEvent {
    pub code: KeyCode,
    pub kind: KeyEventKind,
}

/// One occurrence read from the terminal's input stream.
#[derive(Clone, Copy, Debug, PartialEq, Eq, Structural)]
pub enum ConsoleEvent {
    Key(KeyEvent),
    /// Anything but a key: mouse, resize, focus, paste.
    Other,
}

/// What travels on the bus: terminal input, or the periodic tick.
#[derive(Clone, Copy, Debug, PartialEq, Eq, Structural)]
pub enum Event {
    Console(ConsoleEvent),
    DrawInterrupt,
}

/// The next thing a producer does.
#[derive(Clone, Copy, Debug, PartialEq, Eq, Structural)]
pub enum ProducerAction {
    /// Block on the terminal for the next input.
    Read,
    /// Push this event onto the bus.
    Send(Event),
    /// Suspend for this many milliseconds.
    Sleep(u64),
    /// Leave the producer loop.
    Stop,
}

/// The input producer after a read: a read input is sent as `Console`, a failed
/// read (`None`) ends the producer.
pub fn keyboard_after_read(read: Option<ConsoleEvent>) -> (r: ProducerAction)
    ensures
        r == match read {
            Some(e) => ProducerAction::Send(Event::Console(e)),
            None => ProducerAction::Stop,
        },
{
    match read {
        Some(e) => ProducerAction::Send(Event::Console(e)),
        None => ProducerAction::Stop,
    }
}

/// The input producer after a send: it reads again, unless the bus's receiving
/// end is gone.
pub fn keyboard_after_send(delivered: bool) -> (r: ProducerAction)
    ensures
        r == (if delivered { ProducerAction::Read } else { ProducerAction::Stop }),
{
    if delivered {
        ProducerAction::Read
    } else {
        ProducerAction::Stop
    }
}

/// The tick producer's first action, and its action after each pause: send a tick.
pub fn ticker_next_tick() -> (r: ProducerAction)
    ensures
        r == ProducerAction::Send(Event::DrawInterrupt),
{
    ProducerAction::Send(Event::DrawInterrupt)
}

/// The tick producer after a send: it pauses for the tick interval, unless the
/// bus's receiving end is gone.
pub fn ticker_after_send(delivered: bool) -> (r: ProducerAction)
    ensures
        r == (if delivered {
            ProducerAction::Sleep(TICK_INTERVAL_MS)
        } else {
            ProducerAction::Stop
        }),
{
    if delivered {
        ProducerAction::Sleep(TICK_INTERVAL_MS)
    } else {
        ProducerAction::Stop
    }
}

} // verus!
