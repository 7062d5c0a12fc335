//! A fluent builder for regular-expression pattern text.
//!
//! A `VerEx` owns a single text buffer.  Each semantic operation appends a
//! fixed or parameterized fragment of pattern syntax to the buffer, and the
//! contract of each operation states exactly which fragment that is (see
//! [`fragments`]).  The finished buffer is read with [`VerEx::source`] and
//! handed to the regex engine with [`VerEx::compile`].
//!
//! The builder never validates the text it assembles: every operation is
//! total, and a malformed pattern surfaces only as a compile error from the
//! engine.
pub mod engine;
pub mod fragments;
pub mod laws;
pub mod replace;

use vstd::prelude::*;

use crate::engine::{pattern_compiles, regex_new};
use crate::fragments::{
    any_fragment, anything_but_fragment, anything_fragment, capture_fragment,
    capturing_group_open, class_close, class_open, end_of_line_fragment, find_fragment,
    group_close, group_open, line_break_fragment, maybe_fragment, or_fragment, range_body,
    range_fragment, something_but_fragment, something_fragment, start_of_line_fragment,
    tab_fragment, word_fragment,
};
use crate::replace::{replace_str, replace_text};

verus! {

broadcast use vstd::string::group_string_axioms;

/// Relies on `String::push`: appends exactly one character to the string.
#[verifier::external_body]
fn push_char(s: &mut String, c: char)
    ensures
        final(s)@ == old(s)@ + seq![c],
{
    s.push(c)
}

/// A pattern builder: a single mutable buffer of pattern text.
///
/// Its view is the buffer as a sequence of characters.
pub struct VerEx {
    string: String,
}

impl View for VerEx {
    type V = Seq<char>;

    closed spec fn view(&self) -> Seq<char> {
        self.string@
    }
}

impl VerEx {
    /// A new builder with an empty buffer.
    pub fn new() -> (result: VerEx)
        ensures
            result@ == Seq::<char>::empty(),
    {
        VerEx { string: String::new() }
    }

    /// A new builder whose buffer is exactly `string`.
    pub fn from_string(string: String) -> (result: VerEx)
        ensures
            result@ == string@,
    {
        VerEx { string }
    }

    /// A new builder whose buffer is an exact copy of `string`.
    pub fn from_str(string: &str) -> (result: VerEx)
        ensures
            result@ == string@,
    {
        VerEx::from_string(string.to_owned())
    }

    /// Appends `value` to the buffer verbatim, with no escaping or
    /// validation, and returns the same builder for chaining.
    ///
    /// This is the sole mutation primitive: every other operation is
    /// defined in terms of it.
    pub fn add(&mut self, value: &str) -> (result: &mut VerEx)
        ensures
            result@ == old(self)@ + value@,
            *final(self) == *final(result),
    {
        self.string.append(value);
        self
    }

    /// Hands the current buffer to the regex engine: a compiled matcher
    /// when the engine accepts the pattern text, the engine's own error
    /// otherwise.  The buffer is left unchanged.
    pub fn compile(&mut self) -> (result: Result<regex::Regex, regex::Error>)
        ensures
            result is Ok <==> pattern_compiles(old(self)@),
            final(self)@ == old(self)@,
    {
        regex_new(self.string.as_str())
    }

    /// Alias of `compile`.
    pub fn regex(&mut self) -> (result: Result<regex::Regex, regex::Error>)
        ensures
            result is Ok <==> pattern_compiles(old(self)@),
            final(self)@ == old(self)@,
    {
        self.compile()
    }

    /// The current buffer content, read-only (alias of `source`).
    pub fn raw(&self) -> (result: &str)
        ensures
            result@ == self@,
    {
        self.source()
    }

    /// The current buffer content, read-only.
    pub fn source(&self) -> (result: &str)
        ensures
            result@ == self@,
    {
        self.string.as_str()
    }

    /// The current buffer content, read-only (alias of `source`).
    pub fn value(&self) -> (result: &str)
        ensures
            result@ == self@,
    {
        self.source()
    }

    /// Appends the opening delimiter of a character class: `[`.
    pub fn open_class(&mut self) -> (result: &mut VerEx)
        ensures
            result@ == old(self)@ + class_open(),
            *final(self) == *final(result),
    {
        proof {
            reveal_strlit("[");
            assert("["@ =~= class_open());
        }
        self.add("[")
    }

    /// Appends the closing delimiter of a character class: `]`.
    pub fn close_class(&mut self) -> (result: &mut VerEx)
        ensures
            result@ == old(self)@ + class_close(),
            *final(self) == *final(result),
    {
        proof {
            reveal_strlit("]");
            assert("]"@ =~= class_close());
        }
        self.add("]")
    }

    /// Appends the opening delimiter of a non-capturing group: `(?:`.
    pub fn open_group(&mut self) -> (result: &mut VerEx)
        ensures
            result@ == old(self)@ + group_open(),
            *final(self) == *final(result),
    {
        proof {
            reveal_strlit("(?:");
            assert("(?:"@ =~= group_open());
        }
        self.add("(?:")
    }

    /// Appends the opening delimiter of a capturing group: `(`.
    pub fn open_capturing_group(&mut self) -> (result: &mut VerEx)
        ensures
            result@ == old(self)@ + capturing_group_open(),
            *final(self) == *final(result),
    {
        proof {
            reveal_strlit("(");
            assert("("@ =~= capturing_group_open());
        }
        self.add("(")
    }

    /// Appends the closing delimiter of a group: `)`.
    pub fn close_group(&mut self) -> (result: &mut VerEx)
        ensures
            result@ == old(self)@ + group_close(),
            *final(self) == *final(result),
    {
        proof {
            reveal_strlit(")");
            assert(")"@ =~= group_close());
        }
        self.add(")")
    }

    /// Appends a class matching one character out of `chars`: `[chars]`.
    pub fn any(&mut self, chars: &str) -> (result: &mut VerEx)
        ensures
            result@ == old(self)@ + any_fragment(chars@),
            *final(self) == *final(result),
    {
        let ghost buf0 = self@;
        proof {
            assert(((buf0 + class_open()) + chars@) + class_close() =~= buf0 + any_fragment(
                chars@,
            ));
        }
        self.open_class().add(chars).close_class()
    }

    /// Alias of `any`.
    pub fn any_of(&mut self, chars: &str) -> (result: &mut VerEx)
        ensures
            result@ == old(self)@ + any_fragment(chars@),
            *final(self) == *final(result),
    {
        self.any(chars)
    }

    /// Appends a capturing group matching any run of characters: `(.*)`.
    pub fn anything(&mut self) -> (result: &mut VerEx)
        ensures
            result@ == old(self)@ + anything_fragment(),
            *final(self) == *final(result),
    {
        proof {
            reveal_strlit("(.*)");
            assert("(.*)"@ =~= anything_fragment());
        }
        self.add("(.*)")
    }

    /// Appends a group matching any run of characters outside `value`:
    /// `(?:[^value]*)`.
    pub fn anything_but(&mut self, value: &str) -> (result: &mut VerEx)
        ensures
            result@ == old(self)@ + anything_but_fragment(value@),
            *final(self) == *final(result),
    {
        let ghost buf0 = self@;
        proof {
            reveal_strlit("^");
            reveal_strlit("*");
            assert("^"@ =~= seq!['^']);
            assert("*"@ =~= seq!['*']);
            assert(((((((buf0 + group_open()) + class_open()) + seq!['^']) + value@)
                + class_close()) + seq!['*']) + group_close() =~= buf0 + anything_but_fragment(
                value@,
            ));
        }
        self.open_group().open_class().add("^").add(value).close_class().add("*").close_group()
    }

    /// Alias of `line_break`.
    pub fn br(&mut self) -> (result: &mut VerEx)
        ensures
            result@ == old(self)@ + line_break_fragment(),
            *final(self) == *final(result),
    {
        self.line_break()
    }

    /// Appends a capturing group around `value`: `(value)`.
    pub fn capture(&mut self, value: &str) -> (result: &mut VerEx)
        ensures
            result@ == old(self)@ + capture_fragment(value@),
            *final(self) == *final(result),
    {
        let ghost buf0 = self@;
        proof {
            assert(((buf0 + capturing_group_open()) + value@) + group_close() =~= buf0
                + capture_fragment(value@));
        }
        self.open_capturing_group().add(value).close_group()
    }

    /// Appends the end-of-line anchor: `$`.
    pub fn end_of_line(&mut self) -> (result: &mut VerEx)
        ensures
            result@ == old(self)@ + end_of_line_fragment(),
            *final(self) == *final(result),
    {
        proof {
            reveal_strlit("$");
            assert("$"@ =~= end_of_line_fragment());
        }
        self.add("$")
    }

    /// Appends a non-capturing group around `value`: `(?:value)`.
    pub fn find(&mut self, value: &str) -> (result: &mut VerEx)
        ensures
            result@ == old(self)@ + find_fragment(value@),
            *final(self) == *final(result),
    {
        let ghost buf0 = self@;
        proof {
            assert(((buf0 + group_open()) + value@) + group_close() =~= buf0 + find_fragment(
                value@,
            ));
        }
        self.open_group().add(value).close_group()
    }

    /// Appends a group matching either line-ending convention:
    /// `(?:\n|(?:\r\n))`.
    pub fn line_break(&mut self) -> (result: &mut VerEx)
        ensures
            result@ == old(self)@ + line_break_fragment(),
            *final(self) == *final(result),
    {
        let ghost buf0 = self@;
        proof {
            reveal_strlit("\\n");
            reveal_strlit("\\r\\n");
            assert("\\n"@ =~= seq!['\\', 'n']);
            assert("\\r\\n"@ =~= seq!['\\', 'r', '\\', 'n']);
            assert((((buf0 + group_open()) + seq!['\\', 'n']) + or_fragment(
                seq!['\\', 'r', '\\', 'n'],
            )) + group_close() =~= buf0 + line_break_fragment());
        }
        self.open_group().add("\\n").or("\\r\\n").close_group()
    }

    /// Appends an optional group around `value`: `(?:value)?`.
    pub fn maybe(&mut self, value: &str) -> (result: &mut VerEx)
        ensures
            result@ == old(self)@ + maybe_fragment(value@),
            *final(self) == *final(result),
    {
        let ghost buf0 = self@;
        proof {
            reveal_strlit("?");
            assert("?"@ =~= seq!['?']);
            assert((((buf0 + group_open()) + value@) + group_close()) + seq!['?'] =~= buf0
                + maybe_fragment(value@));
        }
        self.open_group().add(value).close_group().add("?")
    }

    /// Appends an alternation delimiter, and a group for `value` when
    /// `value` is non-empty: `|` or `|(?:value)`.
    ///
    /// The buffer is not checked for a left-hand alternative; an empty
    /// `value` leaves a dangling delimiter, exactly as given.
    pub fn or(&mut self, value: &str) -> (result: &mut VerEx)
        ensures
            result@ == old(self)@ + or_fragment(value@),
            *final(self) == *final(result),
    {
        let ghost buf0 = self@;
        proof {
            reveal_strlit("|");
            assert("|"@ =~= seq!['|']);
        }
        self.add("|");
        if value.is_empty() {
            self
        } else {
            proof {
                assert((buf0 + seq!['|']) + find_fragment(value@) =~= buf0 + or_fragment(value@));
            }
            self.find(value)
        }
    }

    /// Appends a character class of ranges, `lo-hi` for each pair in the
    /// order given: `[lo-hilo-hi...]`.  The bounds are not validated.
    pub fn range(&mut self, range: Vec<(char, char)>) -> (result: &mut VerEx)
        ensures
            result@ == old(self)@ + range_fragment(range@),
            *final(self) == *final(result),
    {
        let mut string: String = String::new();
        push_char(&mut string, '[');
        proof {
            assert(range@.subrange(0, 0) =~= Seq::<(char, char)>::empty());
            assert(string@ =~= class_open() + range_body(range@.subrange(0, 0)));
        }
        let mut idx: usize = 0;
        while idx < range.len()
            invariant
                idx <= range@.len(),
                string@ == class_open() + range_body(range@.subrange(0, idx as int)),
            decreases range@.len() - idx,
        {
            let pair = range[idx];
            push_char(&mut string, pair.0);
            push_char(&mut string, '-');
            push_char(&mut string, pair.1);
            proof {
                let done = range@.subrange(0, idx + 1);
                assert(done.drop_last() =~= range@.subrange(0, idx as int));
                assert(string@ =~= class_open() + range_body(done));
            }
            idx += 1;
        }
        push_char(&mut string, ']');
        proof {
            assert(range@.subrange(0, range@.len() as int) =~= range@);
            assert(string@ =~= range_fragment(range@));
        }
        self.add(string.as_str())
    }

    /// Replaces every non-overlapping occurrence of the literal substring
    /// `from` in the buffer with `to`, left to right, as plain text.
    ///
    /// The buffer is not treated as pattern syntax here, so a careless
    /// `from`/`to` can corrupt previously well-formed syntax; that is the
    /// caller's responsibility.
    pub fn replace(&mut self, from: &str, to: &str) -> (result: &mut VerEx)
        ensures
            result@ == replace_text(old(self)@, from@, to@),
            *final(self) == *final(result),
    {
        let replaced = replace_str(self.string.as_str(), from, to);
        self.string = replaced;
        self
    }

    /// Appends a capturing group matching a non-empty run of characters:
    /// `(.+)`.
    pub fn something(&mut self) -> (result: &mut VerEx)
        ensures
            result@ == old(self)@ + something_fragment(),
            *final(self) == *final(result),
    {
        proof {
            reveal_strlit("(.+)");
            assert("(.+)"@ =~= something_fragment());
        }
        self.add("(.+)")
    }

    /// Appends a group matching a non-empty run of characters outside
    /// `value`: `(?:[^value]+)`.
    pub fn something_but(&mut self, value: &str) -> (result: &mut VerEx)
        ensures
            result@ == old(self)@ + something_but_fragment(value@),
            *final(self) == *final(result),
    {
        let ghost buf0 = self@;
        proof {
            reveal_strlit("^");
            reveal_strlit("+");
            assert("^"@ =~= seq!['^']);
            assert("+"@ =~= seq!['+']);
            assert(((((((buf0 + group_open()) + class_open()) + seq!['^']) + value@)
                + class_close()) + seq!['+']) + group_close() =~= buf0 + something_but_fragment(
                value@,
            ));
        }
        self.open_group().open_class().add("^").add(value).close_class().add("+").close_group()
    }

    /// Appends the start-of-line anchor: `^`.
    pub fn start_of_line(&mut self) -> (result: &mut VerEx)
        ensures
            result@ == old(self)@ + start_of_line_fragment(),
            *final(self) == *final(result),
    {
        proof {
            reveal_strlit("^");
            assert("^"@ =~= start_of_line_fragment());
        }
        self.add("^")
    }

    /// Appends the tab escape: `\t`.
    pub fn tab(&mut self) -> (result: &mut VerEx)
        ensures
            result@ == old(self)@ + tab_fragment(),
            *final(self) == *final(result),
    {
        proof {
            reveal_strlit("\\t");
            assert("\\t"@ =~= tab_fragment());
        }
        self.add("\\t")
    }

    /// Alias of `find`, for chained readability.
    pub fn then(&mut self, value: &str) -> (result: &mut VerEx)
        ensures
            result@ == old(self)@ + find_fragment(value@),
            *final(self) == *final(result),
    {
        self.find(value)
    }

    /// Appends a group matching a non-empty run of word characters:
    /// `(?:\w+)`.
    pub fn word(&mut self) -> (result: &mut VerEx)
        ensures
            result@ == old(self)@ + word_fragment(),
            *final(self) == *final(result),
    {
        proof {
            reveal_strlit("\\w+");
            assert("\\w+"@ =~= seq!['\\', 'w', '+']);
        }
        self.find("\\w+")
    }
}

} // verus!
