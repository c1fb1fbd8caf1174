use vstd::prelude::*;
use crate::keys::KeyTable;
use crate::labels::first_match;

verus! {

/// An event read from the display connection while a selection is open.
#[derive(Clone, Copy, Debug, PartialEq, Eq, Structural)]
pub enum InputEvent {
    /// A key went down; the payload is its physical key code.
    KeyPress(u8),
    KeyRelease,
    /// Part of an overlay needs repainting.
    Expose,
    /// The keyboard mapping changed.
    MappingNotify,
    /// Any other event; the payload is its response type.
    Other(u8),
}

/// How a selection ended.
#[derive(Clone, Copy, Debug, PartialEq, Eq, Structural)]
pub enum Outcome {
    Chosen(char),
    Cancelled,
    StreamEnded,
}

/// What the event loop does after one event: whether to flush the
/// connection, and the outcome if the loop ends here.
#[derive(Clone, Copy, Debug, PartialEq, Eq, Structural)]
pub struct LoopStep {
    pub flush: bool,
    pub outcome: Option<Outcome>,
}

/// One transition of the event loop out of its waiting state; `None` is the
/// end of the event stream.
pub open spec fn loop_step(escape: u8, keys: Seq<(u8, char)>, ev: Option<InputEvent>) -> LoopStep {
    match ev {
        None => LoopStep { flush: false, outcome: Some(Outcome::StreamEnded) },
        Some(InputEvent::KeyPress(code)) => {
            if code == escape {
                LoopStep { flush: false, outcome: Some(Outcome::Cancelled) }
            } else {
                match first_match(keys, code) {
                    Some(c) => LoopStep { flush: false, outcome: Some(Outcome::Chosen(c)) },
                    None => LoopStep { flush: false, outcome: None },
                }
            }
        },
        Some(InputEvent::MappingNotify) => LoopStep {
            flush: true,
            outcome: Some(Outcome::StreamEnded),
        },
        Some(_) => LoopStep { flush: true, outcome: None },
    }
}

/// Classifies one event of the selection loop against the key table.
pub fn classify(table: &KeyTable, ev: Option<InputEvent>) -> (r: LoopStep)
    ensures
        r == loop_step(table.escape_code(), table.entries(), ev),
{
    match ev {
        None => LoopStep { flush: false, outcome: Some(Outcome::StreamEnded) },
        Some(InputEvent::KeyPress(code)) => {
            if code == table.escape() {
                LoopStep { flush: false, outcome: Some(Outcome::Cancelled) }
            } else {
                match table.char_for(code) {
                    Some(c) => LoopStep { flush: false, outcome: Some(Outcome::Chosen(c)) },
                    None => LoopStep { flush: false, outcome: None },
                }
            }
        },
        Some(InputEvent::MappingNotify) => LoopStep {
            flush: true,
            outcome: Some(Outcome::StreamEnded),
        },
        Some(_) => LoopStep { flush: true, outcome: None },
    }
}

} // verus!
