//! Properties of the keyboard and the sequencer that relate several calls.
use vstd::prelude::*;
use crate::keyboard::{
    after_press, press_fails, pressed, released, report_of, swap_out, with_bit, KeyStateView,
    SHIFT_BIT, MAX_KEYS,
};
use crate::scancode::{ascii_key, key_code, KeyCode};
use crate::sequencer::{SendOutcome, State};

verus! {

/// `k` occurs exactly once in `keys`.
pub open spec fn occurs_once(keys: Seq<u8>, k: u8) -> bool {
    exists|i: int|
        0 <= i < keys.len() && keys[i] == k && forall|j: int|
            0 <= j < keys.len() && keys[j] == k ==> j == i
}

proof fn lemma_set_twice(m: u8, b: u8)
    requires
        b < 8,
    ensures
        with_bit(with_bit(m, b), b) == with_bit(m, b),
        (m | SHIFT_BIT) | SHIFT_BIT == m | SHIFT_BIT,
{
    assert(((m | ((1u8 << b) as u8)) | ((1u8 << b) as u8)) == (m | ((1u8 << b) as u8)))
        by (bit_vector)
        requires
            b < 8,
    ;
    assert((m | 2u8) | 2u8 == m | 2u8) by (bit_vector);
}

/// Pressing a key that is already held changes nothing, and the key is
/// held exactly once: a second press of the same code gives back the state
/// that the first one left.
pub proof fn lemma_press_idempotent(s: KeyStateView, code: u8)
    requires
        s.wf(),
    ensures
        after_press(after_press(s, code), code) == after_press(s, code),
        !press_fails(s, code) ==> (key_code(code) matches KeyCode::Key(k, _) ==> occurs_once(
            after_press(s, code).keys,
            k,
        )),
{
    let t = after_press(s, code);
    match key_code(code) {
        KeyCode::Modifier(b) => {
            assert(b < 8);
            lemma_set_twice(s.modifiers, b);
            assert(pressed(t, code) == t);
        },
        KeyCode::Key(k, shift) => {
            if !press_fails(s, code) {
                lemma_set_twice(s.modifiers, 0);
                let i = if s.keys.contains(k) {
                    choose|i: int| 0 <= i < s.keys.len() && s.keys[i] == k
                } else {
                    s.keys.len() as int
                };
                assert(t.keys[i] == k);
                assert(t.keys.contains(k));
                assert(!press_fails(t, code));
                assert(pressed(t, code) == t);
                assert forall|j: int| 0 <= j < t.keys.len() && t.keys[j] == k implies j == i by {
                    if !s.keys.contains(k) && j < s.keys.len() {
                        assert(t.keys[j] == s.keys[j]);
                    }
                }
            }
        },
    }
}

/// Pressing two codes that resolve to the same scancode (such as `h` and
/// `H`) leaves that scancode held exactly once, and the second press does
/// not change which keys are held.
pub proof fn lemma_same_scancode_held_once(s: KeyStateView, c1: u8, c2: u8, k: u8)
    requires
        s.wf(),
        key_code(c1) matches KeyCode::Key(k1, _) && k1 == k,
        key_code(c2) matches KeyCode::Key(k2, _) && k2 == k,
        !press_fails(s, c1),
    ensures
        !press_fails(after_press(s, c1), c2),
        after_press(after_press(s, c1), c2).keys == after_press(s, c1).keys,
        occurs_once(after_press(after_press(s, c1), c2).keys, k),
{
    lemma_press_idempotent(s, c1);
    let t = after_press(s, c1);
    let i = choose|i: int|
        0 <= i < t.keys.len() && t.keys[i] == k && forall|j: int|
            0 <= j < t.keys.len() && t.keys[j] == k ==> j == i;
    assert(t.keys.contains(k));
}

/// With six distinct keys held, a press of any other key is refused, and a
/// refused press leaves the state as it was.
pub proof fn lemma_capacity(s: KeyStateView, code: u8)
    requires
        s.wf(),
        s.keys.len() == MAX_KEYS,
        key_code(code) matches KeyCode::Key(k, _) && !s.keys.contains(k),
    ensures
        press_fails(s, code),
        after_press(s, code) == s,
{
}

/// Pressing and then releasing a printable character gives back the state
/// before the press, as long as the character's key was not already held
/// and, where the press goes through and needs shift, shift was not
/// already set.
pub proof fn lemma_press_release_round_trip(s: KeyStateView, c: u8)
    requires
        s.wf(),
        32 <= c <= 126,
        !s.keys.contains(ascii_key(c).0),
        !(ascii_key(c).1 && s.keys.len() < MAX_KEYS && s.modifiers & SHIFT_BIT != 0),
    ensures
        released(after_press(s, c), c) == s,
{
    let (k, shift) = ascii_key(c);
    assert(key_code(c) == KeyCode::Key(k, shift));
    if !press_fails(s, c) {
        let t = pressed(s, c);
        let n = s.keys.len() as int;
        assert(t.keys == s.keys.push(k));
        assert(t.keys[n] == k);
        assert(t.keys.no_duplicates()) by {
            assert forall|a: int, b: int|
                0 <= a < t.keys.len() && 0 <= b < t.keys.len() && a != b implies t.keys[a]
                != t.keys[b] by {
                if a == n {
                    assert(t.keys[b] == s.keys[b]);
                } else if b == n {
                    assert(t.keys[a] == s.keys[a]);
                } else {
                    assert(t.keys[a] == s.keys[a]);
                    assert(t.keys[b] == s.keys[b]);
                }
            }
        }
        let j = choose|j: int| 0 <= j < t.keys.len() && t.keys[j] == k;
        assert(j == n);
        assert(swap_out(t.keys, k) =~= s.keys);
        let m = s.modifiers;
        if shift {
            assert(m & 2u8 == 0 ==> (m | 2u8) & !2u8 == m) by (bit_vector);
        }
    }
}

/// A keyboard with nothing pressed reports seven zero bytes.
pub proof fn lemma_idle_report()
    ensures
        report_of(KeyStateView::initial()) == Seq::new(7, |i: int| 0u8),
{
    assert(report_of(KeyStateView::initial()) =~= Seq::new(7, |i: int| 0u8));
}

/// When the transport would block, the phase stays, and performing its
/// action again leaves the key state, and so the report, as the first time:
/// the retry sends the same report, and no character is skipped.
pub proof fn lemma_retry_same_report(st: State, s: KeyStateView, text: Seq<u8>)
    requires
        st.wf(text.len()),
        s.wf(),
    ensures
        st.after_outcome(SendOutcome::WouldBlock) == Some(st),
        st.after_action(st.after_action(s, text), text) == st.after_action(s, text),
        st.action_fails(st.after_action(s, text), text) == st.action_fails(s, text),
        report_of(st.after_action(st.after_action(s, text), text)) == report_of(
            st.after_action(s, text),
        ),
{
    match st {
        State::Keying(p, e) => {
            if p < e {
                let c = text[p as int];
                lemma_press_idempotent(s, c);
                if !press_fails(s, c) {
                    assert(after_press(s, c) == pressed(s, c));
                    assert(!press_fails(pressed(s, c), c)) by {
                        if let KeyCode::Key(k, _) = key_code(c) {
                            assert(occurs_once(pressed(s, c).keys, k));
                            let i = choose|i: int|
                                0 <= i < pressed(s, c).keys.len() && pressed(s, c).keys[i] == k
                                    && forall|j: int|
                                    0 <= j < pressed(s, c).keys.len() && pressed(s, c).keys[j]
                                        == k ==> j == i;
                            assert(pressed(s, c).keys.contains(k));
                        }
                    }
                }
            }
        },
        _ => {},
    }
}

} // verus!
