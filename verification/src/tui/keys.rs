//! Keys, and telling a paste from typing.
//!
//! Some terminals deliver a paste as a stream of single keys. Keys that follow
//! each other faster than anyone types are gathered into a burst: a long one is
//! a paste, a short one is replayed key by key.
use vstd::prelude::*;

use crate::tui::app::App;

verus! {

/// How long, in milliseconds, the next key of a burst may take.
pub const PASTE_BURST_INTER_KEY_MS: u64 = 5;

/// How many keys make a burst a paste.
pub const PASTE_BURST_MIN_LEN: usize = 3;

/// A key on the keyboard.
#[derive(Clone, Copy, Debug, PartialEq, Eq, Structural)]
pub enum KeyCode {
    Char(char),
    Enter,
    Esc,
    Tab,
    BackTab,
    Backspace,
    Delete,
    Insert,
    Up,
    Down,
    Left,
    Right,
    Home,
    End,
    PageUp,
    PageDown,
    F(u8),
    /// Any other key.
    Other,
}

/// The modifiers held down with a key.
#[derive(Clone, Copy, Debug, PartialEq, Eq, Structural)]
pub struct KeyModifiers {
    pub shift: bool,
    pub control: bool,
    pub alt: bool,
    /// Super, hyper or meta.
    pub other: bool,
}

impl KeyModifiers {
    /// No modifier.
    pub fn none() -> (res: Self)
        ensures
            !res.shift && !res.control && !res.alt && !res.other,
    {
        KeyModifiers { shift: false, control: false, alt: false, other: false }
    }

    /// Shift alone.
    pub fn shift() -> (res: Self)
        ensures
            res.shift && !res.control && !res.alt && !res.other,
    {
        KeyModifiers { shift: true, control: false, alt: false, other: false }
    }

    /// Control alone.
    pub fn control() -> (res: Self)
        ensures
            res.only_control(),
    {
        KeyModifiers { shift: false, control: true, alt: false, other: false }
    }

    /// Alt alone.
    pub fn alt() -> (res: Self)
        ensures
            !res.shift && !res.control && res.alt && !res.other,
    {
        KeyModifiers { shift: false, control: false, alt: true, other: false }
    }

    /// Control is held down, and nothing else.
    pub open spec fn only_control(self) -> bool {
        self.control && !self.shift && !self.alt && !self.other
    }

    /// Whether control is held down, and nothing else.
    pub fn is_control(self) -> (res: bool)
        ensures
            res == self.only_control(),
    {
        self.control && !self.shift && !self.alt && !self.other
    }
}

/// A key press.
#[derive(Clone, Copy, Debug, PartialEq, Eq, Structural)]
pub struct KeyEvent {
    pub code: KeyCode,
    pub modifiers: KeyModifiers,
}

impl KeyEvent {
    /// A key press.
    pub fn new(code: KeyCode, modifiers: KeyModifiers) -> (res: Self)
        ensures
            res.code == code,
            res.modifiers == modifiers,
    {
        KeyEvent { code, modifiers }
    }
}

/// A printable ASCII character, the space among them.
pub open spec fn printable(c: char) -> bool {
    ' ' <= c <= '~'
}

/// The key may be part of a burst: it is printable or Enter, with no modifier
/// but shift.
pub open spec fn burst_candidate(key: KeyEvent) -> bool {
    &&& !key.modifiers.control && !key.modifiers.alt && !key.modifiers.other
    &&& match key.code {
        KeyCode::Char(c) => printable(c),
        KeyCode::Enter => true,
        _ => false,
    }
}

/// The character that a key adds to a burst.
pub open spec fn burst_char(key: KeyEvent) -> Option<char> {
    match key.code {
        KeyCode::Char(c) => Some(c),
        KeyCode::Enter => Some('\n'),
        _ => None,
    }
}

impl App {
    /// Whether the key may be part of a burst.
    pub fn is_burst_candidate(key: &KeyEvent) -> (res: bool)
        ensures
            res == burst_candidate(*key),
    {
        if key.modifiers.control || key.modifiers.alt || key.modifiers.other {
            return false;
        }
        match key.code {
            KeyCode::Char(c) => ' ' <= c && c <= '~',
            KeyCode::Enter => true,
            _ => false,
        }
    }

    /// The character that the key adds to a burst; Enter adds a newline.
    pub fn burst_char_for(key: &KeyEvent) -> (res: Option<char>)
        ensures
            res == burst_char(*key),
    {
        match key.code {
            KeyCode::Char(c) => Some(c),
            KeyCode::Enter => Some('\n'),
            _ => None,
        }
    }
}

/// Every key that may be part of a burst has a character to add.
pub proof fn law_candidates_have_characters(key: KeyEvent)
    requires
        burst_candidate(key),
    ensures
        burst_char(key) is Some,
        key.code is Enter ==> burst_char(key) == Some('\n'),
{
}

/// What comes after a key of a burst. `E` is the event as the terminal gave it.
pub enum Next<E> {
    /// A key press.
    Key(KeyEvent, E),
    /// Any other event.
    Event(E),
    /// Nothing in time, or nothing that could be read.
    Nothing,
}

/// A burst that is being gathered.
pub struct Burst<E> {
    /// The characters of the keys.
    pub text: String,
    /// The events of the keys, in order.
    pub keys: Vec<E>,
    /// The event that ended the burst and is not part of it.
    pub deferred: Option<E>,
}

/// What a burst turns out to be.
pub enum BurstEnd<E> {
    /// A paste of this text.
    Paste(String),
    /// Keys to be handled one by one.
    Replay(Vec<E>),
}

impl<E> Burst<E> {
    /// Every key has added one character.
    pub open spec fn in_step(self) -> bool {
        self.text@.len() == self.keys@.len()
    }

    /// A burst of one key.
    pub fn start(key: &KeyEvent, event: E) -> (res: Self)
        requires
            burst_candidate(*key),
        ensures
            res.text@ == seq![burst_char(*key)->0],
            res.keys@ == seq![event],
            res.deferred is None,
            res.in_step(),
    {
        let mut text = String::new();
        if let Some(c) = App::burst_char_for(key) {
            text.push(c);
        }
        let mut keys: Vec<E> = Vec::new();
        keys.push(event);
        Burst { text, keys, deferred: None }
    }

    /// Offers the burst what comes next, and says whether it goes on. A key that
    /// may be part of it joins; any other event ends it and is kept for later.
    pub fn offer(&mut self, next: Next<E>) -> (more: bool)
        requires
            old(self).in_step(),
            old(self).deferred is None,
        ensures
            final(self).in_step(),
            more == (next matches Next::Key(key, _) && burst_candidate(key)),
            match next {
                Next::Key(key, event) => if burst_candidate(key) {
                    &&& final(self).text@ == old(self).text@.push(burst_char(key)->0)
                    &&& final(self).keys@ == old(self).keys@.push(event)
                    &&& final(self).deferred is None
                } else {
                    &&& final(self).text@ == old(self).text@
                    &&& final(self).keys@ == old(self).keys@
                    &&& final(self).deferred == Some(event)
                },
                Next::Event(event) => {
                    &&& final(self).text@ == old(self).text@
                    &&& final(self).keys@ == old(self).keys@
                    &&& final(self).deferred == Some(event)
                },
                Next::Nothing => *final(self) == *old(self),
            },
    {
        match next {
            Next::Key(key, event) => {
                if App::is_burst_candidate(&key) {
                    if let Some(c) = App::burst_char_for(&key) {
                        self.text.push(c);
                        self.keys.push(event);
                    }
                    true
                } else {
                    self.deferred = Some(event);
                    false
                }
            },
            Next::Event(event) => {
                self.deferred = Some(event);
                false
            },
            Next::Nothing => false,
        }
    }

    /// What the burst turns out to be, and the event that ended it.
    pub fn finish(self) -> (res: (BurstEnd<E>, Option<E>))
        ensures
            res.0 == if self.keys@.len() >= PASTE_BURST_MIN_LEN {
                BurstEnd::Paste(self.text)
            } else {
                BurstEnd::Replay(self.keys)
            },
            res.1 == self.deferred,
            self.keys@.len() >= 3 ==> res.0 == BurstEnd::<E>::Paste(self.text),
            self.keys@.len() < 3 ==> res.0 == BurstEnd::<E>::Replay(self.keys),
    {
        if self.keys.len() >= PASTE_BURST_MIN_LEN {
            (BurstEnd::Paste(self.text), self.deferred)
        } else {
            (BurstEnd::Replay(self.keys), self.deferred)
        }
    }
}

/// The characters of a number of keys.
pub open spec fn typed(keys: Seq<KeyEvent>) -> Seq<char> {
    keys.map_values(|k: KeyEvent| burst_char(k)->0)
}

/// A burst that has gathered just these keys.
pub open spec fn gathered<E>(burst: Burst<E>, keys: Seq<KeyEvent>) -> bool {
    burst.text@ == typed(keys) && burst.keys@.len() == keys.len()
}

/// Nothing that is typed is lost or doubled: as keys join, the text stays what
/// was typed, in order.
pub proof fn law_burst_keeps_what_is_typed<E>(
    before: Burst<E>,
    after: Burst<E>,
    keys: Seq<KeyEvent>,
    key: KeyEvent,
    event: E,
)
    requires
        gathered(before, keys),
        burst_candidate(key),
        after.text@ == before.text@.push(burst_char(key)->0),
        after.keys@ == before.keys@.push(event),
    ensures
        gathered(after, keys.push(key)),
{
    assert(typed(keys.push(key)) =~= typed(keys).push(burst_char(key)->0));
}

/// A key joins a burst exactly if it is Enter or a character from the space to
/// the tilde, with neither control, alt nor another modifier held down; shift
/// makes no difference.
pub proof fn law_burst_takes_what_is_typed(key: KeyEvent, shifted: KeyEvent)
    requires
        shifted == (KeyEvent {
            code: key.code,
            modifiers: (KeyModifiers { shift: !key.modifiers.shift, ..key.modifiers }),
        }),
    ensures
        key.modifiers.control || key.modifiers.alt || key.modifiers.other ==> !burst_candidate(key),
        key.code is Enter && !key.modifiers.control && !key.modifiers.alt && !key.modifiers.other
            ==> burst_candidate(key),
        key.code matches KeyCode::Char(c) ==> !key.modifiers.control && !key.modifiers.alt
            && !key.modifiers.other ==> (burst_candidate(key) <==> 32 <= c as u32 <= 126),
        !(key.code is Enter) && !(key.code is Char) ==> !burst_candidate(key),
        burst_candidate(shifted) == burst_candidate(key),
{
}

/// A character key adds its character and Enter adds a newline, whatever
/// modifiers are held down; no other key adds anything.
pub proof fn law_key_adds_its_character(key: KeyEvent)
    ensures
        key.code matches KeyCode::Char(c) ==> burst_char(key) == Some(c),
        key.code is Enter ==> burst_char(key) == Some('\n'),
        !(key.code is Enter) && !(key.code is Char) ==> burst_char(key) is None,
{
}

/// Control counts as alone exactly while no other modifier is held down with it.
pub proof fn law_control_alone(modifiers: KeyModifiers)
    ensures
        !modifiers.control ==> !modifiers.only_control(),
        modifiers.shift || modifiers.alt || modifiers.other ==> !modifiers.only_control(),
        modifiers.control && !modifiers.shift && !modifiers.alt && !modifiers.other
            ==> modifiers.only_control(),
{
}

} // verus!
