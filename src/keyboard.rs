//! The keyboard's key state and the boot-keyboard report built from it.
use vstd::prelude::*;
use crate::key_slots::{
    slots_of, slots_new, slots_as_slice, slots_push, slots_clear, slots_swap_remove, KeySlots,
};
use crate::scancode::{classify, key_code, KeyCode};

verus! {

/// The modifier bit of the left shift key.
pub const SHIFT_BIT: u8 = 0x02;

/// The most keys a boot keyboard reports at once.
pub const MAX_KEYS: usize = 6;

/// A boot-keyboard report: the modifier byte, then six key slots.
pub struct KeyboardReport {
    bytes: [u8; 7],
}

impl View for KeyboardReport {
    type V = Seq<u8>;

    closed spec fn view(&self) -> Seq<u8> {
        self.bytes@
    }
}

impl KeyboardReport {
    fn new(modifiers: u8, keys: [u8; 6]) -> (r: Self)
        ensures
            r@ == seq![modifiers] + keys@,
    {
        let mut report = Self { bytes: [0; 7] };
        report.bytes[0] = modifiers;
        let mut i: usize = 0;
        while i < 6
            invariant
                i <= 6,
                report.bytes@.len() == 7,
                report.bytes@[0] == modifiers,
                forall|j: int| 0 <= j < i ==> report.bytes@[j + 1] == keys@[j],
            decreases 6 - i,
        {
            report.bytes[i + 1] = keys[i];
            i = i + 1;
        }
        assert(report.bytes@ =~= seq![modifiers] + keys@);
        report
    }

    /// The report in which nothing is pressed: seven zero bytes.
    pub fn all_released() -> (r: Self)
        ensures
            r@ == Seq::new(7, |i: int| 0u8),
    {
        let r = Self::new(0, [0; 6]);
        assert(r@ =~= Seq::new(7, |i: int| 0u8));
        r
    }

    /// The report with the given modifier byte and key slots.
    pub fn keys_pressed(modifiers: u8, keys: [u8; 6]) -> (r: Self)
        ensures
            r@ == seq![modifiers] + keys@,
    {
        Self::new(modifiers, keys)
    }

    /// The seven bytes of the report.
    pub fn bytes(&self) -> (r: [u8; 7])
        ensures
            r@ == self@,
    {
        self.bytes
    }
}

/// Why a key press was refused.
#[derive(Clone, Copy, Debug, PartialEq, Eq, Structural)]
pub enum KeyboardError {
    /// Six keys are already held and the press names another.
    TooManyKeys,
}

/// The abstract key state: the modifier byte and the held scancodes in order.
pub struct KeyStateView {
    pub modifiers: u8,
    pub keys: Seq<u8>,
}

impl KeyStateView {
    /// At most six keys, none held twice.
    pub open spec fn wf(self) -> bool {
        self.keys.len() <= MAX_KEYS && self.keys.no_duplicates()
    }

    /// The state of a keyboard on which nothing is pressed.
    pub open spec fn initial() -> KeyStateView {
        KeyStateView { modifiers: 0, keys: Seq::empty() }
    }
}

/// The modifier byte with bit `b` set.
pub open spec fn with_bit(m: u8, b: u8) -> u8 {
    m | ((1u8 << b) as u8)
}

/// The modifier byte with bit `b` cleared.
pub open spec fn without_bit(m: u8, b: u8) -> u8 {
    m & !((1u8 << b) as u8)
}

/// `keys` with `k` taken out, the last key moving into its place.
pub open spec fn swap_out(keys: Seq<u8>, k: u8) -> Seq<u8> {
    let i = choose|i: int| 0 <= i < keys.len() && keys[i] == k;
    keys.update(i, keys.last()).drop_last()
}

/// A press of `code` is refused: it names a new key while six are held.
pub open spec fn press_fails(s: KeyStateView, code: u8) -> bool {
    match key_code(code) {
        KeyCode::Key(k, _) => !s.keys.contains(k) && s.keys.len() >= MAX_KEYS,
        KeyCode::Modifier(_) => false,
    }
}

/// The state after a press of `code` that is not refused.
pub open spec fn pressed(s: KeyStateView, code: u8) -> KeyStateView {
    match key_code(code) {
        KeyCode::Modifier(b) => KeyStateView { modifiers: with_bit(s.modifiers, b), keys: s.keys },
        KeyCode::Key(k, shift) => KeyStateView {
            modifiers: if shift { s.modifiers | SHIFT_BIT } else { s.modifiers },
            keys: if s.keys.contains(k) { s.keys } else { s.keys.push(k) },
        },
    }
}

/// The state after a press of `code`, refused or not.
pub open spec fn after_press(s: KeyStateView, code: u8) -> KeyStateView {
    if press_fails(s, code) { s } else { pressed(s, code) }
}

/// The state after a release of `code`. Releasing a key that is not held
/// changes nothing; releasing a held key that needs shift clears shift.
pub open spec fn released(s: KeyStateView, code: u8) -> KeyStateView {
    match key_code(code) {
        KeyCode::Modifier(b) => KeyStateView { modifiers: without_bit(s.modifiers, b), keys: s.keys },
        KeyCode::Key(k, shift) => if s.keys.contains(k) {
            KeyStateView {
                modifiers: if shift { s.modifiers & !SHIFT_BIT } else { s.modifiers },
                keys: swap_out(s.keys, k),
            }
        } else {
            s
        },
    }
}

/// The report of a state: the modifier byte, the held keys, zero padding.
pub open spec fn report_of(s: KeyStateView) -> Seq<u8> {
    Seq::new(
        7,
        |i: int|
            if i == 0 {
                s.modifiers
            } else if i - 1 < s.keys.len() {
                s.keys[i - 1]
            } else {
                0u8
            },
    )
}

/// The key state of an emulated keyboard.
pub struct Keyboard {
    modifiers: u8,
    keys: KeySlots,
}

impl View for Keyboard {
    type V = KeyStateView;

    closed spec fn view(&self) -> KeyStateView {
        KeyStateView { modifiers: self.modifiers, keys: slots_of(self.keys) }
    }
}

impl Default for Keyboard {
    /// A keyboard with nothing pressed.
    fn default() -> (r: Self)
        ensures
            r@ == KeyStateView::initial(),
            r.wf(),
    {
        Keyboard::new()
    }
}

/// The position of `k` in `keys`, if it is there.
fn find_key(keys: &[u8], k: u8) -> (r: Option<usize>)
    ensures
        match r {
            Some(i) => i < keys@.len() && keys@[i as int] == k,
            None => !keys@.contains(k),
        },
{
    let mut i: usize = 0;
    while i < keys.len()
        invariant
            i <= keys@.len(),
            forall|j: int| 0 <= j < i ==> keys@[j] != k,
        decreases keys@.len() - i,
    {
        if keys[i] == k {
            return Some(i);
        }
        i = i + 1;
    }
    None
}

proof fn lemma_swap_out_at(keys: Seq<u8>, k: u8, i: int)
    requires
        keys.no_duplicates(),
        0 <= i < keys.len(),
        keys[i] == k,
    ensures
        swap_out(keys, k) == keys.update(i, keys.last()).drop_last(),
{
    let j = choose|j: int| 0 <= j < keys.len() && keys[j] == k;
    assert(j == i);
}

proof fn lemma_swap_out_wf(keys: Seq<u8>, k: u8, i: int)
    requires
        keys.no_duplicates(),
        0 <= i < keys.len(),
        keys[i] == k,
    ensures
        swap_out(keys, k).no_duplicates(),
        swap_out(keys, k).len() == keys.len() - 1,
{
    lemma_swap_out_at(keys, k, i);
    let r = swap_out(keys, k);
    let n = keys.len();
    assert forall|a: int, b: int| 0 <= a < r.len() && 0 <= b < r.len() && a != b implies r[a]
        != r[b] by {
        let sa = if a == i { n - 1 } else { a };
        let sb = if b == i { n - 1 } else { b };
        assert(r[a] == keys[sa]);
        assert(r[b] == keys[sb]);
    }
}

impl Keyboard {
    /// The keyboard's state is well formed.
    pub open spec fn wf(&self) -> bool {
        self@.wf()
    }

    /// A keyboard with nothing pressed.
    pub fn new() -> (r: Self)
        ensures
            r@ == KeyStateView::initial(),
            r.wf(),
    {
        Self { modifiers: 0, keys: slots_new() }
    }

    /// Presses the key or modifier that `ch` stands for.
    pub fn press(&mut self, ch: u8) -> (r: Result<(), KeyboardError>)
        requires
            old(self).wf(),
        ensures
            final(self).wf(),
            press_fails(old(self)@, ch) ==> r == Err::<(), KeyboardError>(KeyboardError::TooManyKeys)
                && final(self)@ == old(self)@,
            !press_fails(old(self)@, ch) ==> r == Ok::<(), KeyboardError>(()) && final(self)@
                == pressed(old(self)@, ch),
    {
        match classify(ch) {
            KeyCode::Modifier(b) => {
                self.modifiers = self.modifiers | (1u8 << b);
                Ok(())
            },
            KeyCode::Key(k, shift) => {
                let found = find_key(slots_as_slice(&self.keys), k);
                if found.is_none() && slots_as_slice(&self.keys).len() >= MAX_KEYS {
                    return Err(KeyboardError::TooManyKeys);
                }
                if shift {
                    self.modifiers = self.modifiers | SHIFT_BIT;
                }
                if found.is_none() {
                    let ghost old_keys = old(self)@.keys;
                    slots_push(&mut self.keys, k);
                    assert(self@.keys.no_duplicates()) by {
                        let n = old_keys.len() as int;
                        assert forall|a: int, b: int|
                            0 <= a < self@.keys.len() && 0 <= b < self@.keys.len() && a
                                != b implies self@.keys[a] != self@.keys[b] by {
                            if a == n {
                                assert(self@.keys[b] == old_keys[b]);
                            } else if b == n {
                                assert(self@.keys[a] == old_keys[a]);
                            } else {
                                assert(self@.keys[a] == old_keys[a]);
                                assert(self@.keys[b] == old_keys[b]);
                            }
                        }
                    }
                }
                Ok(())
            },
        }
    }

    /// Releases every key and modifier.
    pub fn release_all(&mut self) -> (r: Result<(), KeyboardError>)
        ensures
            final(self)@ == KeyStateView::initial(),
            final(self).wf(),
            r == Ok::<(), KeyboardError>(()),
    {
        self.modifiers = 0;
        slots_clear(&mut self.keys);
        Ok(())
    }

    /// Releases the key or modifier that `ch` stands for.
    pub fn release(&mut self, ch: u8) -> (r: Result<(), KeyboardError>)
        requires
            old(self).wf(),
        ensures
            final(self).wf(),
            final(self)@ == released(old(self)@, ch),
            r == Ok::<(), KeyboardError>(()),
    {
        match classify(ch) {
            KeyCode::Modifier(b) => {
                self.modifiers = self.modifiers & !(1u8 << b);
            },
            KeyCode::Key(k, shift) => {
                match find_key(slots_as_slice(&self.keys), k) {
                    Some(i) => {
                        proof {
                            lemma_swap_out_at(self@.keys, k, i as int);
                            lemma_swap_out_wf(self@.keys, k, i as int);
                        }
                        if shift {
                            self.modifiers = self.modifiers & !SHIFT_BIT;
                        }
                        slots_swap_remove(&mut self.keys, i);
                    },
                    None => {},
                }
            },
        }
        Ok(())
    }

    /// The report that describes the current state.
    pub fn get_report(&self) -> (r: KeyboardReport)
        requires
            self.wf(),
        ensures
            r@ == report_of(self@),
    {
        let held = slots_as_slice(&self.keys);
        if self.modifiers == 0 && held.len() == 0 {
            let r = KeyboardReport::all_released();
            assert(r@ =~= report_of(self@));
            r
        } else {
            let mut keys: [u8; 6] = [0; 6];
            let mut i: usize = 0;
            while i < held.len()
                invariant
                    i <= held@.len(),
                    held@ == self@.keys,
                    held@.len() <= 6,
                    keys@.len() == 6,
                    forall|j: int| 0 <= j < i ==> keys@[j] == held@[j],
                    forall|j: int| i <= j < 6 ==> keys@[j] == 0,
                decreases held@.len() - i,
            {
                keys[i] = held[i];
                i = i + 1;
            }
            let r = KeyboardReport::keys_pressed(self.modifiers, keys);
            assert(r@ =~= report_of(self@));
            r
        }
    }
}

} // verus!
