//! Escaping of literal text for use inside a regular expression.

use vstd::prelude::*;

verus! {

/// Whether `c` has a meaning of its own in a regular expression, so that it
/// has to follow a `\` to stand for itself: one of
/// `^ $ [ ] ( ) \ { } . | ? * +`.
pub open spec fn should_be_escaped(c: char) -> bool {
    c == '^' || c == '$' || c == '[' || c == ']' || c == '(' || c == ')' || c == '\\' || c == '{'
        || c == '}' || c == '.' || c == '|' || c == '?' || c == '*' || c == '+'
}

/// The regular expression that matches the literal text `text` and nothing
/// else.
///
/// The text is read from left to right:
/// - a `\` followed by a character from [`should_be_escaped`] is an escape
///   that the author wrote already, and both characters are kept;
/// - a `\` followed by any other character is dropped, and so is a `\` at the
///   very end;
/// - any other character from [`should_be_escaped`] gets a `\` in front;
/// - everything else is kept as it is.
pub open spec fn escaped(text: Seq<char>) -> Seq<char>
    decreases text.len(),
{
    if text.len() == 0 {
        Seq::empty()
    } else if text[0] == '\\' {
        if text.len() == 1 {
            Seq::empty()
        } else if should_be_escaped(text[1]) {
            seq!['\\', text[1]] + escaped(text.skip(2))
        } else {
            escaped(text.skip(1))
        }
    } else if should_be_escaped(text[0]) {
        seq!['\\', text[0]] + escaped(text.skip(1))
    } else {
        seq![text[0]] + escaped(text.skip(1))
    }
}

/// Whether the given text is a regular expression that matches one literal
/// text: whether, read from left to right, it is made of characters that
/// are not from [`should_be_escaped`] and of pairs of a `\` and a character
/// that is.
pub open spec fn is_escaped(text: Seq<char>) -> bool
    decreases text.len(),
{
    if text.len() == 0 {
        true
    } else if text[0] == '\\' {
        text.len() >= 2 && should_be_escaped(text[1]) && is_escaped(text.skip(2))
    } else {
        !should_be_escaped(text[0]) && is_escaped(text.skip(1))
    }
}

/// Whether the given text, read from left to right by the rules of
/// [`escaped`], ends in a `\` that still waits for the character it is to
/// escape.
pub open spec fn ends_in_escape(text: Seq<char>) -> bool
    decreases text.len(),
{
    if text.len() == 0 {
        false
    } else if text[0] == '\\' {
        if text.len() == 1 {
            true
        } else if should_be_escaped(text[1]) {
            ends_in_escape(text.skip(2))
        } else {
            ends_in_escape(text.skip(1))
        }
    } else {
        ends_in_escape(text.skip(1))
    }
}

/// Escaped text is a regular expression for one literal text: in it, every
/// character from [`should_be_escaped`] either follows the `\` that escapes
/// it, or is such a `\`.
pub proof fn lemma_escaped_is_escaped(text: Seq<char>)
    ensures
        is_escaped(escaped(text)),
    decreases text.len(),
{
    if text.len() >= 2 && text[0] == '\\' && should_be_escaped(text[1]) {
        lemma_escaped_is_escaped(text.skip(2));
        assert(escaped(text).skip(2) == escaped(text.skip(2)));
    } else if text.len() >= 1 {
        lemma_escaped_is_escaped(text.skip(1));
        if text[0] == '\\' {
        } else if should_be_escaped(text[0]) {
            assert(escaped(text).skip(2) == escaped(text.skip(1)));
        } else {
            assert(escaped(text).skip(1) == escaped(text.skip(1)));
        }
    }
}

/// Text that is escaped already is left as it is.
pub proof fn lemma_escaped_keeps_escaped(text: Seq<char>)
    requires
        is_escaped(text),
    ensures
        escaped(text) == text,
    decreases text.len(),
{
    if text.len() > 0 {
        if text[0] == '\\' {
            lemma_escaped_keeps_escaped(text.skip(2));
        } else {
            lemma_escaped_keeps_escaped(text.skip(1));
        }
    }
}

/// Escaping twice is escaping once: what came out of [`escaped`] goes
/// through it unchanged.
pub proof fn lemma_escaped_twice(text: Seq<char>)
    ensures
        escaped(escaped(text)) == escaped(text),
{
    lemma_escaped_is_escaped(text);
    lemma_escaped_keeps_escaped(escaped(text));
}

/// Where the first of two texts does not end in a `\` that waits for its
/// character, the two are escaped independently of each other.
pub proof fn lemma_escaped_in_parts(first: Seq<char>, second: Seq<char>)
    requires
        !ends_in_escape(first),
    ensures
        escaped(first + second) == escaped(first) + escaped(second),
    decreases first.len(),
{
    let whole = first + second;
    if first.len() >= 2 && first[0] == '\\' && should_be_escaped(first[1]) {
        lemma_escaped_in_parts(first.skip(2), second);
        assert(whole.skip(2) =~= first.skip(2) + second);
    } else if first.len() >= 1 {
        lemma_escaped_in_parts(first.skip(1), second);
        assert(whole.skip(1) =~= first.skip(1) + second);
    }
}

/// A character from [`should_be_escaped`] other than `\` that no `\` in
/// front of it escapes comes out with a `\` in front of it, wherever in the
/// text it stands.
pub proof fn lemma_unescaped_gets_escaped(before: Seq<char>, c: char, after: Seq<char>)
    requires
        should_be_escaped(c),
        c != '\\',
        !ends_in_escape(before),
    ensures
        escaped(before + seq![c] + after) == escaped(before) + seq!['\\', c] + escaped(after),
{
    let rest = seq![c] + after;
    lemma_escaped_in_parts(before, rest);
    assert(rest.skip(1) =~= after);
    assert(before + seq![c] + after =~= before + rest);
}

/// Executable form of [`should_be_escaped`].
fn needs_escape(c: char) -> (b: bool)
    ensures
        b == should_be_escaped(c),
{
    c == '^' || c == '$' || c == '[' || c == ']' || c == '(' || c == ')' || c == '\\' || c == '{'
        || c == '}' || c == '.' || c == '|' || c == '?' || c == '*' || c == '+'
}

/// Stream that escapes `^`, `$`, `[`, `]`, `(`, `)`, `\`, `{`, `}`, `.`, `|`,
/// `?`, `*`, `+` with `\`, and removes a `\` in front of any other character.
///
/// It is a machine with two states: either nothing is pending, or the
/// character that the last `\` announced is. It never looks further than one
/// character past the one it is reading.
#[derive(Debug)]
pub struct EscapeForRegex {
    /// The text that is being escaped.
    chars: Vec<char>,
    /// How many characters of `chars` have been read.
    pos: usize,
    /// The character that was announced by the `\` handed out last.
    was_escaped: Option<char>,
}

impl Clone for EscapeForRegex {
    /// A second stream that is going to hand out what this one is.
    fn clone(&self) -> (copy: Self)
        ensures
            copy.remaining() == self.remaining(),
    {
        proof {
            use_type_invariant(self);
        }
        let chars = self.chars.clone();
        EscapeForRegex { chars, pos: self.pos, was_escaped: self.was_escaped }
    }
}

impl EscapeForRegex {
    #[verifier::type_invariant]
    spec fn well_formed(self) -> bool {
        self.pos <= self.chars.len()
    }

    /// The characters that [`EscapeForRegex::next`] is still going to hand
    /// out, in order.
    pub closed spec fn remaining(&self) -> Seq<char> {
        let pending = match self.was_escaped {
            Some(c) => seq![c],
            None => Seq::empty(),
        };
        pending + escaped(self.chars@.skip(self.pos as int))
    }

    /// Creates a new [`EscapeForRegex`] stream over the given text.
    pub fn new(chars: Vec<char>) -> (stream: Self)
        ensures
            stream.remaining() == escaped(chars@),
    {
        let stream = EscapeForRegex { chars, pos: 0, was_escaped: None };
        assert(stream.chars@.skip(0) == stream.chars@);
        stream
    }

    /// Hands out the next character of the escaped text, or [`None`] once
    /// the text is exhausted.
    pub fn next(&mut self) -> (next: Option<char>)
        ensures
            old(self).remaining().len() == 0 ==> next is None && final(self).remaining()
                == old(self).remaining(),
            old(self).remaining().len() > 0 ==> next == Some(old(self).remaining()[0])
                && final(self).remaining() == old(self).remaining().drop_first(),
    {
        proof {
            use_type_invariant(&*self);
        }
        if let Some(c) = self.was_escaped {
            self.was_escaped = None;
            return Some(c);
        }
        loop
            invariant
                self.pos <= self.chars.len(),
                self.was_escaped is None,
                self.remaining() == old(self).remaining(),
            decreases self.chars.len() - self.pos,
        {
            if self.pos >= self.chars.len() {
                return None;
            }
            let ghost rest = self.chars@.skip(self.pos as int);
            let c = self.chars[self.pos];
            self.pos = self.pos + 1;
            assert(rest.skip(1) == self.chars@.skip(self.pos as int));
            if c == '\\' {
                if self.pos >= self.chars.len() {
                    return None;
                }
                let announced = self.chars[self.pos];
                if needs_escape(announced) {
                    self.was_escaped = Some(announced);
                    self.pos = self.pos + 1;
                    assert(rest.skip(2) == self.chars@.skip(self.pos as int));
                    return Some('\\');
                }
            } else if needs_escape(c) {
                self.was_escaped = Some(c);
                return Some('\\');
            } else {
                return Some(c);
            }
        }
    }
}

} // verus!
