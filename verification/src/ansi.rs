//! Terminal output without its escape sequences.
use vstd::prelude::*;

use crate::text::chars_of;

verus! {

/// The character that opens an escape sequence.
pub const ESCAPE: char = '\u{1B}';

/// The characters that end a control sequence.
pub open spec fn final_char(c: char) -> bool {
    '\u{40}' <= c <= '\u{7E}'
}

/// What follows the control sequence whose characters after `ESC [` are at the front of `s`:
/// everything behind the first final character, or nothing if there is none.
pub open spec fn after_control(s: Seq<char>) -> Seq<char>
    decreases s.len(),
{
    if s.len() == 0 {
        Seq::empty()
    } else if final_char(s[0]) {
        s.skip(1)
    } else {
        after_control(s.skip(1))
    }
}

/// What follows the escape sequence at the front of `s`: a control sequence if `[` comes behind
/// the escape character, otherwise the escape character and at most one character more.
pub open spec fn after_escape(s: Seq<char>) -> Seq<char> {
    if s.len() >= 2 && s[1] == '[' {
        after_control(s.skip(2))
    } else if s.len() >= 2 {
        s.skip(2)
    } else {
        Seq::empty()
    }
}

/// A control sequence is taken from the front of what it is given.
pub proof fn after_control_shortens(s: Seq<char>)
    ensures
        after_control(s).len() <= s.len(),
        after_control(s) == s.skip(s.len() - after_control(s).len()),
    decreases s.len(),
{
    if s.len() > 0 && !final_char(s[0]) {
        after_control_shortens(s.skip(1));
    }
    assert(after_control(s) == s.skip(s.len() - after_control(s).len()));
}

/// `s` without its escape sequences.
pub open spec fn stripped(s: Seq<char>) -> Seq<char>
    decreases s.len(),
{
    if s.len() == 0 {
        Seq::empty()
    } else if s[0] != ESCAPE {
        seq![s[0]] + stripped(s.skip(1))
    } else {
        proof {
            if s.len() >= 2 {
                after_control_shortens(s.skip(2));
            }
        }
        stripped(after_escape(s))
    }
}

/// Text that holds no escape character.
pub open spec fn plain(s: Seq<char>) -> bool {
    forall|i: int| 0 <= i < s.len() ==> #[trigger] s[i] != ESCAPE
}

/// Removes the escape sequences that colour the output of a test run.
pub fn strip_ansi(input: &str) -> (r: String)
    ensures
        r@ == stripped(input@),
{
    let chars = chars_of(input);
    let mut out = String::new();
    let mut i: usize = 0;
    assert(input@.skip(0) == input@);
    while i < chars.len()
        invariant
            i <= chars.len(),
            chars@ == input@,
            stripped(input@) == out@ + stripped(input@.skip(i as int)),
        decreases chars.len() - i,
    {
        let ghost start = i;
        let ghost rest = input@.skip(i as int);
        let c: char = chars[i];
        if c != ESCAPE {
            out.push(c);
            assert(rest.skip(1) == input@.skip(i + 1));
            i += 1;
        } else if i + 1 < chars.len() && chars[i + 1] == '[' {
            i += 2;
            assert(rest.skip(2) == input@.skip(i as int));
            let ghost body = input@.skip(i as int);
            let mut ended: bool = false;
            while i < chars.len() && !ended
                invariant
                    start < i <= chars.len(),
                    chars@ == input@,
                    !ended ==> after_control(body) == after_control(input@.skip(i as int)),
                    ended ==> after_control(body) == input@.skip(i as int),
                decreases chars.len() - i,
            {
                let next: char = chars[i];
                ended = '\u{40}' <= next && next <= '\u{7E}';
                assert(input@.skip(i as int).skip(1) == input@.skip(i + 1));
                i += 1;
            }
            assert(after_control(body) == input@.skip(i as int));
        } else if i + 1 < chars.len() {
            assert(rest.skip(2) == input@.skip(i + 2));
            i += 2;
        } else {
            i += 1;
            assert(input@.skip(i as int) == Seq::<char>::empty());
        }
    }
    assert(input@.skip(i as int) == Seq::<char>::empty());
    out
}

/// The result holds no escape character.
pub proof fn stripped_is_plain(s: Seq<char>)
    ensures
        plain(stripped(s)),
    decreases s.len(),
{
    if s.len() > 0 {
        if s[0] != ESCAPE {
            stripped_is_plain(s.skip(1));
        } else {
            if s.len() >= 2 {
                after_control_shortens(s.skip(2));
            }
            stripped_is_plain(after_escape(s));
        }
    }
}

/// Text in front of the first escape sequence stays as it is.
pub proof fn stripped_keeps_plain_front(front: Seq<char>, rest: Seq<char>)
    requires
        plain(front),
    ensures
        stripped(front + rest) == front + stripped(rest),
    decreases front.len(),
{
    if front.len() > 0 {
        stripped_keeps_plain_front(front.skip(1), rest);
        assert((front + rest).skip(1) == front.skip(1) + rest);
        assert(front == seq![front[0]] + front.skip(1));
    } else {
        assert(front + rest == rest);
    }
}

/// Text without escape sequences comes back untouched.
pub proof fn stripped_keeps_plain(s: Seq<char>)
    requires
        plain(s),
    ensures
        stripped(s) == s,
{
    stripped_keeps_plain_front(s, Seq::empty());
    assert(s + Seq::<char>::empty() == s);
}

/// Stripping twice gives what stripping once gives.
pub proof fn stripped_twice(s: Seq<char>)
    ensures
        stripped(stripped(s)) == stripped(s),
{
    stripped_is_plain(s);
    stripped_keeps_plain(stripped(s));
}

/// A complete control sequence leaves nothing behind, wherever it stands behind plain text.
pub proof fn control_sequence_vanishes(
    front: Seq<char>,
    parameters: Seq<char>,
    end: char,
    rest: Seq<char>,
)
    requires
        plain(front),
        forall|i: int| 0 <= i < parameters.len() ==> !final_char(#[trigger] parameters[i]),
        final_char(end),
    ensures
        stripped(front + (seq![ESCAPE, '['] + parameters + seq![end] + rest)) == front + stripped(
            rest,
        ),
{
    let coded = seq![ESCAPE, '['] + parameters + seq![end] + rest;
    stripped_keeps_plain_front(front, coded);
    assert(coded.skip(2) == parameters + seq![end] + rest);
    after_control_skips(parameters, end, rest);
}

proof fn after_control_skips(parameters: Seq<char>, end: char, rest: Seq<char>)
    requires
        forall|i: int| 0 <= i < parameters.len() ==> !final_char(#[trigger] parameters[i]),
        final_char(end),
    ensures
        after_control(parameters + seq![end] + rest) == rest,
    decreases parameters.len(),
{
    let s = parameters + seq![end] + rest;
    if parameters.len() > 0 {
        after_control_skips(parameters.skip(1), end, rest);
        assert(s.skip(1) == parameters.skip(1) + seq![end] + rest);
        assert(!final_char(parameters[0]));
    } else {
        assert(s.skip(1) == rest);
    }
}

} // verus!
