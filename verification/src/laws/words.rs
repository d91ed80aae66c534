//! What holds of plain text: trimming, ordering, joining, decimal numbers and escape sequences.
use vstd::prelude::*;

use crate::ansi::{
    after_control, after_control_shortens, after_escape, plain, stripped, stripped_keeps_plain_front,
};
use crate::text::{
    blank, decimal, digit, joined, sorted_texts, text_le, text_order, text_order_is_total, trimmed,
    trimmed_back, trimmed_front, white_space,
};

verus! {

// ---------------------------------------------------------------------------------------------
// White space
// ---------------------------------------------------------------------------------------------

/// Whether there is anything in `s` but white space.
pub open spec fn has_ink(s: Seq<char>) -> bool {
    exists|i: int| 0 <= i < s.len() && !white_space(#[trigger] s[i])
}

/// Whether all white space of `s` on either side lies outside of the positions from `lo` up to `hi`.
pub open spec fn margins(s: Seq<char>, lo: int, hi: int) -> bool {
    &&& 0 <= lo <= hi <= s.len()
    &&& forall|i: int| 0 <= i < lo ==> white_space(#[trigger] s[i])
    &&& forall|i: int| hi <= i < s.len() ==> white_space(#[trigger] s[i])
    &&& lo < hi ==> !white_space(s[lo]) && !white_space(s[hi - 1])
}

/// Trimming keeps what stands between the first and the last character that is no white space, and
/// takes away the rest.
pub proof fn trimming_takes_the_margins(s: Seq<char>)
    ensures
        exists|lo: int, hi: int| #[trigger] margins(s, lo, hi) && trimmed(s) == s.subrange(lo, hi),
        has_ink(s) <==> trimmed(s).len() > 0,
{
    let lo = front_margin(s);
    let front = s.skip(lo);
    let kept = back_margin(front);
    let hi = lo + kept;
    assert(trimmed(s) == front.take(kept));
    assert(front.take(kept) == s.subrange(lo, hi));
    assert forall|i: int| hi <= i < s.len() implies white_space(#[trigger] s[i]) by {
        assert(front[i - lo] == s[i]);
    }
    if lo < hi {
        assert(front[kept - 1] == s[hi - 1]);
        if white_space(s[lo]) {
            assert(front[0] == s[lo]);
            assert(false);
        }
    }
    assert(margins(s, lo, hi));
    if lo < hi {
        assert(!white_space(s[lo]));
    } else {
        assert forall|i: int| 0 <= i < s.len() implies white_space(#[trigger] s[i]) by {}
    }
}

proof fn front_margin(s: Seq<char>) -> (lo: int)
    ensures
        0 <= lo <= s.len(),
        trimmed_front(s) == s.skip(lo),
        forall|i: int| 0 <= i < lo ==> white_space(#[trigger] s[i]),
        lo < s.len() ==> !white_space(s[lo]),
    decreases s.len(),
{
    if s.len() > 0 && white_space(s[0]) {
        let rest = front_margin(s.skip(1));
        assert(s.skip(1).skip(rest) == s.skip(rest + 1));
        assert forall|i: int| 0 <= i < rest + 1 implies white_space(#[trigger] s[i]) by {
            if i > 0 {
                assert(s.skip(1)[i - 1] == s[i]);
            }
        }
        rest + 1
    } else {
        assert(s.skip(0) == s);
        0
    }
}

proof fn back_margin(s: Seq<char>) -> (kept: int)
    ensures
        0 <= kept <= s.len(),
        trimmed_back(s) == s.take(kept),
        forall|i: int| kept <= i < s.len() ==> white_space(#[trigger] s[i]),
        kept > 0 ==> !white_space(s[kept - 1]),
    decreases s.len(),
{
    if s.len() > 0 && white_space(s.last()) {
        let kept = back_margin(s.drop_last());
        assert(s.drop_last().take(kept) == s.take(kept));
        assert forall|i: int| kept <= i < s.len() implies white_space(#[trigger] s[i]) by {
            if i < s.len() - 1 {
                assert(s.drop_last()[i] == s[i]);
            }
        }
        kept
    } else {
        assert(s.take(s.len() as int) == s);
        s.len() as int
    }
}

/// A text is blank unless a character of it is no white space.
pub proof fn blank_is_without_ink(s: Seq<char>)
    ensures
        blank(s) <==> !has_ink(s),
{
}

// ---------------------------------------------------------------------------------------------
// Decimal numbers
// ---------------------------------------------------------------------------------------------

/// The number that a row of digits stands for.
pub open spec fn numeral_value(s: Seq<char>) -> int
    decreases s.len(),
{
    if s.len() == 0 {
        0
    } else {
        10 * numeral_value(s.drop_last()) + (s.last() as int - '0' as int)
    }
}

/// The decimal notation of a number consists of digits, does not begin with a zero unless it is a
/// single digit, and stands for the number.
pub proof fn decimal_stands_for_its_number(n: nat)
    ensures
        decimal(n).len() > 0,
        forall|i: int| 0 <= i < decimal(n).len() ==> '0' <= #[trigger] decimal(n)[i] <= '9',
        decimal(n).len() > 1 ==> decimal(n)[0] != '0',
        numeral_value(decimal(n)) == n,
    decreases n,
{
    assert(numeral_value(Seq::empty()) == 0);
    if n < 10 {
        assert(decimal(n).drop_last() == Seq::<char>::empty());
        assert(decimal(n).last() == digit(n));
        assert(digit(n) as int == '0' as int + n);
    } else {
        decimal_stands_for_its_number(n / 10);
        assert(decimal(n).drop_last() == decimal(n / 10));
        assert(digit(n % 10) as int == '0' as int + n % 10);
        if decimal(n / 10).len() == 1 {
            assert(decimal(n / 10).drop_last() == Seq::<char>::empty());
            assert(numeral_value(decimal(n / 10)) == decimal(n / 10)[0] as int - '0' as int);
        }
    }
}

// ---------------------------------------------------------------------------------------------
// Joining
// ---------------------------------------------------------------------------------------------

/// Nothing joined is nothing, one part joined is that part, and parts that are joined in two groups
/// have the separator between the groups.
pub proof fn joining_puts_the_separator_between(
    a: Seq<Seq<char>>,
    b: Seq<Seq<char>>,
    part: Seq<char>,
    sep: Seq<char>,
)
    ensures
        joined(Seq::empty(), sep) == Seq::<char>::empty(),
        joined(seq![part], sep) == part,
        a.len() > 0 && b.len() > 0 ==> joined(a + b, sep) == joined(a, sep) + sep + joined(b, sep),
    decreases b.len(),
{
    if a.len() > 0 && b.len() > 0 {
        let whole = a + b;
        assert(whole.last() == b.last());
        if b.len() == 1 {
            assert(whole.drop_last() == a);
        } else {
            joining_puts_the_separator_between(a, b.drop_last(), part, sep);
            assert(whole.drop_last() == a + b.drop_last());
            assert(joined(a, sep) + sep + joined(b.drop_last(), sep) + sep + b.last() == joined(
                a,
                sep,
            ) + sep + (joined(b.drop_last(), sep) + sep + b.last()));
        }
    }
}

// ---------------------------------------------------------------------------------------------
// Ordering
// ---------------------------------------------------------------------------------------------

/// Whether `i` is the first position at which `a` and `b` differ.
pub open spec fn first_difference(a: Seq<char>, b: Seq<char>, i: int) -> bool {
    &&& 0 <= i < a.len()
    &&& i < b.len()
    &&& a[i] != b[i]
    &&& forall|j: int| 0 <= j < i ==> #[trigger] a[j] == b[j]
}

/// One text comes before another if it is its beginning, or if it has the lower code point where
/// they first differ.
pub proof fn texts_are_ordered_by_their_first_difference(a: Seq<char>, b: Seq<char>)
    ensures
        text_le(a, b) <==> a.is_prefix_of(b) || exists|i: int| #[trigger]
            first_difference(a, b, i) && (a[i] as int) < (b[i] as int),
    decreases a.len(),
{
    if a.len() == 0 {
        assert(a.is_prefix_of(b));
    } else if b.len() == 0 {
        assert(!a.is_prefix_of(b));
    } else if a[0] != b[0] {
        assert(first_difference(a, b, 0));
        if a.is_prefix_of(b) {
            assert(b.subrange(0, a.len() as int)[0] == b[0]);
        }
        assert forall|i: int| #[trigger] first_difference(a, b, i) implies i == 0 by {
            if i > 0 {
                assert(a[0] == b[0]);
            }
        }
    } else {
        let x = a.skip(1);
        let y = b.skip(1);
        texts_are_ordered_by_their_first_difference(x, y);
        if x.is_prefix_of(y) {
            assert(a =~= b.subrange(0, a.len() as int)) by {
                assert forall|i: int| 0 <= i < a.len() implies a[i] == b[i] by {
                    if i > 0 {
                        assert(x[i - 1] == y.subrange(0, x.len() as int)[i - 1]);
                        assert(x[i - 1] == a[i] && y[i - 1] == b[i]);
                    }
                }
            }
        }
        if a.is_prefix_of(b) {
            assert(x =~= y.subrange(0, x.len() as int)) by {
                assert forall|i: int| 0 <= i < x.len() implies x[i] == y[i] by {
                    assert(a[i + 1] == b.subrange(0, a.len() as int)[i + 1]);
                }
            }
        }
        if exists|i: int| #[trigger] first_difference(x, y, i) && (x[i] as int) < (y[i] as int) {
            let i = choose|i: int| #[trigger]
                first_difference(x, y, i) && (x[i] as int) < (y[i] as int);
            assert forall|j: int| 0 <= j < i + 1 implies #[trigger] a[j] == b[j] by {
                if j > 0 {
                    assert(x[j - 1] == y[j - 1]);
                }
            }
            assert(first_difference(a, b, i + 1));
        }
        if exists|i: int| #[trigger] first_difference(a, b, i) && (a[i] as int) < (b[i] as int) {
            let i = choose|i: int| #[trigger]
                first_difference(a, b, i) && (a[i] as int) < (b[i] as int);
            assert forall|j: int| 0 <= j < i - 1 implies #[trigger] x[j] == y[j] by {
                assert(a[j + 1] == b[j + 1]);
            }
            assert(first_difference(x, y, i - 1));
        }
    }
}

/// Sorting keeps the texts, each as often as it was there, and puts them in order.
pub proof fn sorting_keeps_and_orders(s: Seq<Seq<char>>)
    ensures
        sorted_texts(s).to_multiset() == s.to_multiset(),
        sorted_texts(s).len() == s.len(),
        forall|i: int, j: int|
            0 <= i < j < s.len() ==> text_le(
                #[trigger] sorted_texts(s)[i],
                #[trigger] sorted_texts(s)[j],
            ),
{
    text_order_is_total();
    s.lemma_sort_by_ensures(text_order());
    s.to_multiset_ensures();
    sorted_texts(s).to_multiset_ensures();
    let r = text_order();
    let t = sorted_texts(s);
    assert forall|i: int, j: int| 0 <= i < j < s.len() implies text_le(
        #[trigger] t[i],
        #[trigger] t[j],
    ) by {
        assert(r(t[i], t[j]));
    }
}

// ---------------------------------------------------------------------------------------------
// Escape sequences
// ---------------------------------------------------------------------------------------------

/// Text without the escape character.
pub open spec fn unescaped(s: Seq<char>) -> bool {
    forall|i: int| 0 <= i < s.len() ==> #[trigger] s[i] != '\u{1B}'
}

/// The characters of a control sequence up to its end: none of them is from `@` to `~`.
pub open spec fn unfinished(s: Seq<char>) -> bool {
    forall|i: int| 0 <= i < s.len() ==> !('\u{40}' <= #[trigger] s[i] <= '\u{7E}')
}

/// A control sequence vanishes up to and with its first character from `@` to `~`, and the text on
/// either side of it stays.
pub proof fn finished_control_sequence_vanishes(
    front: Seq<char>,
    body: Seq<char>,
    end: char,
    rest: Seq<char>,
)
    requires
        unescaped(front),
        unfinished(body),
        '\u{40}' <= end <= '\u{7E}',
    ensures
        stripped(front + (seq!['\u{1B}', '['] + body + seq![end] + rest)) == front + stripped(rest),
{
    let coded = seq!['\u{1B}', '['] + body + seq![end] + rest;
    assert(plain(front));
    stripped_keeps_plain_front(front, coded);
    assert(coded.skip(2) == body + seq![end] + rest);
    control_ends(body, end, rest);
    assert(after_escape(coded) == rest);
}

/// A control sequence without an end swallows everything behind it.
pub proof fn unfinished_control_sequence_swallows_the_rest(front: Seq<char>, body: Seq<char>)
    requires
        unescaped(front),
        unfinished(body),
    ensures
        stripped(front + (seq!['\u{1B}', '['] + body)) == front,
{
    let coded = seq!['\u{1B}', '['] + body;
    assert(plain(front));
    stripped_keeps_plain_front(front, coded);
    assert(coded.skip(2) == body);
    control_does_not_end(body);
    assert(after_escape(coded) == Seq::<char>::empty());
    assert(stripped(Seq::empty()) == Seq::<char>::empty());
    assert(front + Seq::<char>::empty() == front);
}

/// Any other escape takes the one character behind it along, and the text on either side stays.
pub proof fn other_escapes_take_one_character(front: Seq<char>, c: char, rest: Seq<char>)
    requires
        unescaped(front),
        c != '[',
    ensures
        stripped(front + (seq!['\u{1B}', c] + rest)) == front + stripped(rest),
        stripped(front + seq!['\u{1B}']) == front,
{
    let coded = seq!['\u{1B}', c] + rest;
    assert(plain(front));
    stripped_keeps_plain_front(front, coded);
    assert(coded.skip(2) == rest);
    assert(after_escape(coded) == rest);
    let last = seq!['\u{1B}'];
    stripped_keeps_plain_front(front, last);
    assert(after_escape(last) == Seq::<char>::empty());
    assert(stripped(Seq::empty()) == Seq::<char>::empty());
    assert(front + Seq::<char>::empty() == front);
}

/// Text in which there is no escape character comes back as it is, and no result has one.
pub proof fn only_escapes_are_taken(s: Seq<char>)
    ensures
        unescaped(s) ==> stripped(s) == s,
        unescaped(stripped(s)),
        stripped(s).len() <= s.len(),
    decreases s.len(),
{
    if s.len() > 0 {
        if s[0] != '\u{1B}' {
            only_escapes_are_taken(s.skip(1));
            if unescaped(s) {
                assert forall|i: int| 0 <= i < s.skip(1).len() implies #[trigger] s.skip(1)[i]
                    != '\u{1B}' by {
                    assert(s.skip(1)[i] == s[i + 1]);
                }
                assert(seq![s[0]] + s.skip(1) == s);
            }
        } else {
            if s.len() >= 2 {
                after_control_shortens(s.skip(2));
            }
            only_escapes_are_taken(after_escape(s));
            assert(!unescaped(s));
        }
    } else {
        assert(stripped(s) == s);
    }
}

proof fn control_ends(body: Seq<char>, end: char, rest: Seq<char>)
    requires
        unfinished(body),
        '\u{40}' <= end <= '\u{7E}',
    ensures
        after_control(body + seq![end] + rest) == rest,
    decreases body.len(),
{
    let s = body + seq![end] + rest;
    if body.len() > 0 {
        assert(unfinished(body.skip(1))) by {
            assert forall|i: int| 0 <= i < body.skip(1).len() implies !('\u{40}'
                <= #[trigger] body.skip(1)[i] <= '\u{7E}') by {
                assert(body.skip(1)[i] == body[i + 1]);
            }
        }
        control_ends(body.skip(1), end, rest);
        assert(s.skip(1) == body.skip(1) + seq![end] + rest);
        assert(s[0] == body[0]);
    } else {
        assert(s.skip(1) == rest);
        assert(s[0] == end);
    }
}

proof fn control_does_not_end(body: Seq<char>)
    requires
        unfinished(body),
    ensures
        after_control(body) == Seq::<char>::empty(),
    decreases body.len(),
{
    if body.len() > 0 {
        assert(unfinished(body.skip(1))) by {
            assert forall|i: int| 0 <= i < body.skip(1).len() implies !('\u{40}'
                <= #[trigger] body.skip(1)[i] <= '\u{7E}') by {
                assert(body.skip(1)[i] == body[i + 1]);
            }
        }
        control_does_not_end(body.skip(1));
        assert(!('\u{40}' <= body[0] <= '\u{7E}'));
    }
}

} // verus!
