//! The exact pattern text that each builder operation appends.
//!
//! Every fragment is a mathematical sequence of characters; the builder's
//! contracts state that each operation appends exactly one of these to the
//! buffer.
use vstd::prelude::*;

verus! {

/// The opening delimiter of a character class: `[`.
pub open spec fn class_open() -> Seq<char> {
    seq!['[']
}

/// The closing delimiter of a character class: `]`.
pub open spec fn class_close() -> Seq<char> {
    seq![']']
}

/// The opening delimiter of a non-capturing group: `(?:`.
pub open spec fn group_open() -> Seq<char> {
    seq!['(', '?', ':']
}

/// The opening delimiter of a capturing group: `(`.
pub open spec fn capturing_group_open() -> Seq<char> {
    seq!['(']
}

/// The closing delimiter of a group: `)`.
pub open spec fn group_close() -> Seq<char> {
    seq![')']
}

/// A character class over the given characters: `[chars]`.
pub open spec fn any_fragment(chars: Seq<char>) -> Seq<char> {
    class_open() + chars + class_close()
}

/// A capturing group matching any run of characters: `(.*)`.
pub open spec fn anything_fragment() -> Seq<char> {
    seq!['(', '.', '*', ')']
}

/// A group matching any run of characters outside `chars`: `(?:[^chars]*)`.
pub open spec fn anything_but_fragment(chars: Seq<char>) -> Seq<char> {
    group_open() + class_open() + seq!['^'] + chars + class_close() + seq!['*'] + group_close()
}

/// A capturing group around `value`: `(value)`.
pub open spec fn capture_fragment(value: Seq<char>) -> Seq<char> {
    capturing_group_open() + value + group_close()
}

/// The end-of-line anchor: `$`.
pub open spec fn end_of_line_fragment() -> Seq<char> {
    seq!['$']
}

/// A non-capturing group around `value`: `(?:value)`.
pub open spec fn find_fragment(value: Seq<char>) -> Seq<char> {
    group_open() + value + group_close()
}

/// An alternation delimiter, followed by a group for `value` when `value`
/// is non-empty: `|` or `|(?:value)`.
pub open spec fn or_fragment(value: Seq<char>) -> Seq<char> {
    if value.len() == 0 {
        seq!['|']
    } else {
        seq!['|'] + find_fragment(value)
    }
}

/// Either line-ending convention: `(?:\n|(?:\r\n))`.
pub open spec fn line_break_fragment() -> Seq<char> {
    group_open() + seq!['\\', 'n'] + or_fragment(seq!['\\', 'r', '\\', 'n']) + group_close()
}

/// An optional group around `value`: `(?:value)?`.
pub open spec fn maybe_fragment(value: Seq<char>) -> Seq<char> {
    find_fragment(value) + seq!['?']
}

/// The body of a range class: `lo-hi` for each pair, in the order given.
pub open spec fn range_body(pairs: Seq<(char, char)>) -> Seq<char>
    decreases pairs.len(),
{
    if pairs.len() == 0 {
        Seq::<char>::empty()
    } else {
        range_body(pairs.drop_last()) + seq![pairs.last().0, '-', pairs.last().1]
    }
}

/// A character class of ranges: `[lo-hilo-hi...]`.
pub open spec fn range_fragment(pairs: Seq<(char, char)>) -> Seq<char> {
    class_open() + range_body(pairs) + class_close()
}

/// A capturing group matching a non-empty run of characters: `(.+)`.
pub open spec fn something_fragment() -> Seq<char> {
    seq!['(', '.', '+', ')']
}

/// A group matching a non-empty run of characters outside `chars`:
/// `(?:[^chars]+)`.
pub open spec fn something_but_fragment(chars: Seq<char>) -> Seq<char> {
    group_open() + class_open() + seq!['^'] + chars + class_close() + seq!['+'] + group_close()
}

/// The start-of-line anchor: `^`.
pub open spec fn start_of_line_fragment() -> Seq<char> {
    seq!['^']
}

/// The tab escape: `\t`.
pub open spec fn tab_fragment() -> Seq<char> {
    seq!['\\', 't']
}

/// A group matching a non-empty run of word characters: `(?:\w+)`.
pub open spec fn word_fragment() -> Seq<char> {
    find_fragment(seq!['\\', 'w', '+'])
}

} // verus!
