//! Key presses.

use vstd::prelude::*;

verus! {

/// A key, as far as the application tells keys apart.
#[derive(Clone, Copy, Debug, PartialEq, Eq, Structural)]
pub enum KeyCode {
    Char(char),
    Esc,
    Enter,
    Other,
}

/// Whether a key went down, is held down, or was let go.
#[derive(Clone, Copy, Debug, PartialEq, Eq, Structural)]
pub enum KeyEventKind {
    Press,
    Repeat,
    Release,
}

/// A key event: the key, the bits of the modifiers that were held with it, and
/// what happened to it.
#[derive(Clone, Copy, Debug, PartialEq, Eq, Structural)]
pub struct KeyEvent {
    pub code: KeyCode,
    pub modifiers: u8,
    pub kind: KeyEventKind,
}

/// The modifier bits of a key held with Control and nothing else.
pub const CONTROL: u8 = 0b0000_0010;

/// `KeyModifiers::CONTROL` of crossterm, as its bits: they are [`CONTROL`].
#[verifier::external_body]
fn control_bits() -> (bits: u8)
    ensures
        bits == CONTROL,
{
    crossterm::event::KeyModifiers::CONTROL.bits()
}

impl KeyEvent {
    /// Control and T, going down: the key that opens the transcript.
    pub open spec fn opens_transcript(self) -> bool {
        &&& self.code == KeyCode::Char('t')
        &&& self.modifiers == CONTROL
        &&& self.kind == KeyEventKind::Press
    }

    /// A key that goes down or is held down.
    pub open spec fn is_down(self) -> bool {
        self.kind != KeyEventKind::Release
    }

    /// Whether the key opens the transcript.
    pub fn is_transcript_key(&self) -> (r: bool)
        ensures
            r == self.opens_transcript(),
    {
        self.code == KeyCode::Char('t') && self.modifiers == control_bits() && self.kind
            == KeyEventKind::Press
    }
}

/// Only T with Control and no other modifier opens the transcript, and only as
/// it goes down.
pub proof fn law_control_t_opens_the_transcript(key: KeyEvent, r: bool)
    requires
        call_ensures(KeyEvent::is_transcript_key, (&key,), r),
    ensures
        r <==> key.code == KeyCode::Char('t') && key.modifiers == 2 && key.kind
            == KeyEventKind::Press,
        key.opens_transcript() == r,
        key.is_down() <==> key.kind == KeyEventKind::Press || key.kind == KeyEventKind::Repeat,
{
}

} // verus!
