//! Text helpers shared by the commands.

use vstd::prelude::*;

verus! {

/// The character that starts every escape sequence.
pub const ESCAPE: char = '\u{1b}';

/// The character that ends a command string, besides the string terminator.
pub const BELL: char = '\u{7}';

/// Where a scan of a text stands with respect to escape sequences.
#[derive(Debug, Clone, Copy, PartialEq, Eq)]
pub enum Scan {
    /// Outside any sequence.
    Text,
    /// After the escape character, before the sequence's kind is known.
    Escape,
    /// Inside a control sequence (`ESC [`), before its final character.
    ControlSequence,
    /// Inside a command string (`ESC ]` and its like), before its terminator.
    CommandString,
}

/// A character between `lo` and `hi`, both included.
pub open spec fn within(c: char, lo: char, hi: char) -> bool {
    lo <= c && c <= hi
}

/// The characters which, after the escape character, open a command
/// string: operating system command, device control string, start of
/// string, privacy message and application program command.
pub open spec fn opens_command_string(c: char) -> bool {
    c == ']' || c == 'P' || c == 'X' || c == '^' || c == '_'
}

/// The state after `c` was read in `state`.
///
/// The escape character starts a sequence wherever it stands. A control
/// sequence runs over parameter and intermediate characters up to its final
/// character; an escape sequence over intermediate characters up to its
/// final character; a command string up to the bell or the next escape
/// character. A character that cannot continue a control or escape sequence
/// breaks it off.
pub open spec fn scan_step(state: Scan, c: char) -> Scan {
    if c == ESCAPE {
        Scan::Escape
    } else {
        match state {
            Scan::Text => Scan::Text,
            Scan::Escape => if c == '[' {
                Scan::ControlSequence
            } else if opens_command_string(c) {
                Scan::CommandString
            } else if within(c, ' ', '/') {
                Scan::Escape
            } else {
                Scan::Text
            },
            Scan::ControlSequence => if within(c, ' ', '?') {
                Scan::ControlSequence
            } else {
                Scan::Text
            },
            Scan::CommandString => if c == BELL {
                Scan::Text
            } else {
                Scan::CommandString
            },
        }
    }
}

/// Whether `c`, read in `state`, belongs to the text.
///
/// Outside a sequence every character but the escape character does. A
/// character that breaks a control or escape sequence off, being none that
/// such a sequence is made of, does too. Nothing inside a command string
/// does.
pub open spec fn scan_keeps(state: Scan, c: char) -> bool {
    c != ESCAPE && match state {
        Scan::Text => true,
        Scan::Escape | Scan::ControlSequence => !within(c, ' ', '~'),
        Scan::CommandString => false,
    }
}

/// What is left of `s` when a scan that stands in `state` drops the escape
/// sequences.
pub open spec fn strip_from(state: Scan, s: Seq<char>) -> Seq<char>
    decreases s.len(),
{
    if s.len() == 0 {
        Seq::empty()
    } else {
        let rest = strip_from(scan_step(state, s[0]), s.skip(1));
        if scan_keeps(state, s[0]) {
            seq![s[0]] + rest
        } else {
            rest
        }
    }
}

/// `s` without its escape sequences.
pub open spec fn stripped(s: Seq<char>) -> Seq<char> {
    strip_from(Scan::Text, s)
}

/// `String::push` of std. Trusted: the character is appended and nothing
/// else changes.
pub assume_specification[ String::push ](s: &mut String, c: char)
    ensures
        final(s)@ == old(s)@.push(c),
;

impl Scan {
    /// The state after `c` was read.
    pub fn step(self, c: char) -> (next: Scan)
        ensures
            next == scan_step(self, c),
    {
        if c == ESCAPE {
            Scan::Escape
        } else {
            match self {
                Scan::Text => Scan::Text,
                Scan::Escape => if c == '[' {
                    Scan::ControlSequence
                } else if c == ']' || c == 'P' || c == 'X' || c == '^' || c == '_' {
                    Scan::CommandString
                } else if ' ' <= c && c <= '/' {
                    Scan::Escape
                } else {
                    Scan::Text
                },
                Scan::ControlSequence => if ' ' <= c && c <= '?' {
                    Scan::ControlSequence
                } else {
                    Scan::Text
                },
                Scan::CommandString => if c == BELL {
                    Scan::Text
                } else {
                    Scan::CommandString
                },
            }
        }
    }

    /// Whether `c`, read in this state, belongs to the text.
    pub fn keeps(self, c: char) -> (keep: bool)
        ensures
            keep == scan_keeps(self, c),
    {
        c != ESCAPE && match self {
            Scan::Text => true,
            Scan::Escape | Scan::ControlSequence => !(' ' <= c && c <= '~'),
            Scan::CommandString => false,
        }
    }
}

/// Removes the escape sequences from `s`: colours, cursor movements,
/// hyperlinks and window titles written for a terminal.
pub fn strip_ansi_escapes(s: &str) -> (out: String)
    ensures
        out@ == stripped(s@),
{
    let mut out = String::new();
    let mut state = Scan::Text;
    proof {
        assert(s@.skip(0) =~= s@);
    }
    for c in it: s.chars()
        invariant
            it.seq() == s@,
            stripped(s@) == out@ + strip_from(state, s@.skip(it.index() as int)),
    {
        proof {
            let rest = s@.skip(it.index() as int);
            assert(rest[0] == c);
            assert(rest.skip(1) =~= s@.skip(it.index() + 1));
            if scan_keeps(state, c) {
                assert(out@ + (seq![c] + strip_from(scan_step(state, c), rest.skip(1)))
                    =~= out@.push(c) + strip_from(scan_step(state, c), rest.skip(1)));
            }
        }
        if state.keeps(c) {
            out.push(c);
        }
        state = state.step(c);
    }
    proof {
        assert(out@ + Seq::<char>::empty() =~= out@);
    }
    out
}

/// Whatever the state a scan starts in, what it leaves holds no escape
/// character and is no longer than what it read.
pub proof fn lemma_strip_from_clean(state: Scan, s: Seq<char>)
    ensures
        strip_from(state, s).len() <= s.len(),
        forall|i: int| 0 <= i < strip_from(state, s).len() ==> strip_from(state, s)[i] != ESCAPE,
    decreases s.len(),
{
    if s.len() > 0 {
        lemma_strip_from_clean(scan_step(state, s[0]), s.skip(1));
    }
}

/// Stripping leaves no escape character behind and never adds to a text.
pub proof fn lemma_stripped_clean(s: Seq<char>)
    ensures
        stripped(s).len() <= s.len(),
        forall|i: int| 0 <= i < stripped(s).len() ==> stripped(s)[i] != ESCAPE,
{
    lemma_strip_from_clean(Scan::Text, s);
}

/// A text that holds no escape character is left as it is.
pub proof fn lemma_stripped_plain(s: Seq<char>)
    requires
        forall|i: int| 0 <= i < s.len() ==> s[i] != ESCAPE,
    ensures
        stripped(s) == s,
    decreases s.len(),
{
    if s.len() > 0 {
        let rest = s.skip(1);
        assert forall|i: int| 0 <= i < rest.len() implies rest[i] != ESCAPE by {
            assert(rest[i] == s[i + 1]);
        }
        lemma_stripped_plain(rest);
        assert(seq![s[0]] + rest =~= s);
    } else {
        assert(s =~= Seq::<char>::empty());
    }
}

/// Stripping a second time changes nothing.
pub proof fn lemma_stripped_idempotent(s: Seq<char>)
    ensures
        stripped(stripped(s)) == stripped(s),
{
    lemma_stripped_clean(s);
    lemma_stripped_plain(stripped(s));
}

} // verus!
