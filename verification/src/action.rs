//! Lighting actions and their actuator paths.
//!
//! An action is either a power switch or an RGB color. The actuator expects
//! a path of the form `power/<true|false>` or `color/<r>/<g>/<b>` with the
//! components in decimal; the path is built here as ASCII bytes, and the
//! surrounding binary appends it to the actuator's base address and sends
//! the HTTP request.

use vstd::prelude::*;

verus! {

/// A command for the lighting actuator, copied by value when dispatched.
#[derive(Clone, Copy, Debug, PartialEq, Eq, Structural)]
pub enum LedAction {
    Color { red: u8, green: u8, blue: u8 },
    Power(bool),
}

/// The shortest decimal digit string of a byte value, as ASCII bytes.
pub open spec fn dec_digits(v: u8) -> Seq<u8> {
    if v < 10 {
        seq![(48 + v) as u8]
    } else if v < 100 {
        seq![(48 + v / 10) as u8, (48 + v % 10) as u8]
    } else {
        seq![(48 + v / 100) as u8, (48 + (v / 10) % 10) as u8, (48 + v % 10) as u8]
    }
}

/// The ASCII bytes of `"power/"`.
pub open spec fn power_prefix() -> Seq<u8> {
    seq![112u8, 111u8, 119u8, 101u8, 114u8, 47u8]
}

/// The ASCII bytes of `"color/"`.
pub open spec fn color_prefix() -> Seq<u8> {
    seq![99u8, 111u8, 108u8, 111u8, 114u8, 47u8]
}

/// The ASCII bytes of `"true"`.
pub open spec fn true_word() -> Seq<u8> {
    seq![116u8, 114u8, 117u8, 101u8]
}

/// The ASCII bytes of `"false"`.
pub open spec fn false_word() -> Seq<u8> {
    seq![102u8, 97u8, 108u8, 115u8, 101u8]
}

/// The actuator path of an action: `power/<true|false>` for a power switch,
/// `color/<r>/<g>/<b>` with decimal components for a color.
pub open spec fn action_path(a: LedAction) -> Seq<u8> {
    match a {
        LedAction::Power(on) => power_prefix() + if on {
            true_word()
        } else {
            false_word()
        },
        LedAction::Color { red, green, blue } => color_prefix() + dec_digits(red) + seq![47u8]
            + dec_digits(green) + seq![47u8] + dec_digits(blue),
    }
}

/// Append the shortest decimal rendering of `v` to `out`.
fn push_decimal(out: &mut Vec<u8>, v: u8)
    ensures
        final(out)@ == old(out)@ + dec_digits(v),
{
    if v >= 100 {
        out.push(48 + v / 100);
    }
    if v >= 10 {
        out.push(48 + (v / 10) % 10);
    }
    out.push(48 + v % 10);
    assert(out@ =~= old(out)@ + dec_digits(v));
}

/// Append the ASCII bytes of a fixed path word to `out`.
fn push_bytes(out: &mut Vec<u8>, word: &Vec<u8>)
    ensures
        final(out)@ == old(out)@ + word@,
{
    let mut k: usize = 0;
    while k < word.len()
        invariant
            k <= word@.len(),
            out@ == old(out)@ + word@.subrange(0, k as int),
        decreases word@.len() - k,
    {
        out.push(word[k]);
        assert(out@ =~= old(out)@ + word@.subrange(0, k + 1));
        k += 1;
    }
    assert(word@.subrange(0, word@.len() as int) =~= word@);
}

impl LedAction {
    /// Build this action's actuator path as ASCII bytes.
    pub fn actuator_path(&self) -> (r: Vec<u8>)
        ensures
            r@ == action_path(*self),
    {
        let mut out: Vec<u8> = Vec::new();
        match *self {
            LedAction::Power(on) => {
                let word: Vec<u8> = if on {
                    vec![116u8, 114u8, 117u8, 101u8]
                } else {
                    vec![102u8, 97u8, 108u8, 115u8, 101u8]
                };
                let prefix: Vec<u8> = vec![112u8, 111u8, 119u8, 101u8, 114u8, 47u8];
                push_bytes(&mut out, &prefix);
                push_bytes(&mut out, &word);
                assert(out@ =~= action_path(*self));
            },
            LedAction::Color { red, green, blue } => {
                let prefix: Vec<u8> = vec![99u8, 111u8, 108u8, 111u8, 114u8, 47u8];
                push_bytes(&mut out, &prefix);
                push_decimal(&mut out, red);
                out.push(47);
                push_decimal(&mut out, green);
                out.push(47);
                push_decimal(&mut out, blue);
                assert(out@ =~= action_path(*self));
            },
        }
        out
    }

    /// Build the full actuator target: the configured base address followed
    /// by this action's path.
    pub fn actuator_target(&self, base: &Vec<u8>) -> (r: Vec<u8>)
        ensures
            r@ == base@ + action_path(*self),
    {
        let mut out: Vec<u8> = Vec::new();
        push_bytes(&mut out, base);
        let path = self.actuator_path();
        push_bytes(&mut out, &path);
        assert(out@ =~= base@ + action_path(*self));
        out
    }
}

/// Delivering the same action twice targets identical paths: the actuator
/// path is a function of the action value alone, so repeated dispatches are
/// interchangeable and need no deduplication.
pub proof fn lemma_repeat_same_path(a: LedAction, p1: Seq<u8>, p2: Seq<u8>)
    requires
        p1 == action_path(a),
        p2 == action_path(a),
    ensures
        p1 == p2,
{
}

} // verus!
