//! What the shell settles before its first window: the size of the main
//! thread's stack and the workspace to open.

use vstd::prelude::*;

verus! {

/// The smallest stack that the main thread is given, in bytes.
pub const MIN_STACK_SIZE: usize = 4 * 1024 * 1024;

/// A decimal digit.
pub open spec fn is_digit(c: char) -> bool {
    '0' <= c && c <= '9'
}

/// The number that a decimal digit stands for.
pub open spec fn digit_value(c: char) -> nat {
    if is_digit(c) {
        (c as int - '0' as int) as nat
    } else {
        0
    }
}

/// The number that a run of decimal digits stands for.
pub open spec fn digits_value(s: Seq<char>) -> nat
    decreases s.len(),
{
    if s.len() == 0 {
        0
    } else {
        10 * digits_value(s.drop_last()) + digit_value(s.last())
    }
}

/// Whether every character of `s` is a decimal digit.
pub open spec fn all_digits(s: Seq<char>) -> bool {
    forall|i: int| 0 <= i < s.len() ==> is_digit(#[trigger] s[i])
}

/// `s` without a `+` at its start.
pub open spec fn without_sign(s: Seq<char>) -> Seq<char> {
    if s.len() > 0 && s[0] == '+' {
        s.skip(1)
    } else {
        s
    }
}

/// The number written in `s`: decimal digits, at least one, after an
/// optional `+`, and nothing else. There is none where `s` is not of that
/// form or the number does not fit.
pub open spec fn parsed_usize(s: Seq<char>) -> Option<usize> {
    let digits = without_sign(s);
    if digits.len() > 0 && all_digits(digits) && digits_value(digits) <= usize::MAX {
        Some(digits_value(digits) as usize)
    } else {
        None
    }
}

/// The stack size for the main thread when the setting, if any, reads
/// `setting`: the number written there, but no less than the minimum. A
/// setting that is no number counts as zero.
pub open spec fn stack_size_for(setting: Option<Seq<char>>) -> usize {
    let asked: usize = match setting {
        Some(text) => match parsed_usize(text) {
            Some(n) => n,
            None => 0,
        },
        None => 0,
    };
    if asked >= MIN_STACK_SIZE {
        asked
    } else {
        MIN_STACK_SIZE
    }
}

/// A run of digits stands for no less than any of its beginnings.
proof fn lemma_prefix_value(s: Seq<char>, n: int)
    requires
        0 <= n <= s.len(),
    ensures
        digits_value(s.take(n)) <= digits_value(s),
    decreases s.len(),
{
    if n == s.len() {
        assert(s.take(n) =~= s);
    } else {
        lemma_prefix_value(s.drop_last(), n);
        assert(s.drop_last().take(n) =~= s.take(n));
    }
}

/// Reads the number written in `s`.
pub fn parse_usize(s: &str) -> (r: Option<usize>)
    ensures
        r == parsed_usize(s@),
{
    let ghost digits = without_sign(s@);
    let ghost start: int = s@.len() - digits.len();
    let mut acc: usize = 0;
    let mut any = false;
    let mut first = true;
    for c in it: s.chars()
        invariant
            it.seq() == s@,
            digits == without_sign(s@),
            start == s@.len() - digits.len(),
            first == (it.index() == 0),
            first ==> acc == 0 && !any,
            !first ==> start <= it.index(),
            !first ==> any == (start < it.index()),
            !first ==> all_digits(s@.subrange(start, it.index() as int)),
            !first ==> acc == digits_value(s@.subrange(start, it.index() as int)),
    {
        let ghost k = it.index() as int;
        if first && c == '+' {
            first = false;
            assert(s@.subrange(1, 1) =~= Seq::<char>::empty());
        } else if '0' <= c && c <= '9' {
            let ghost seen = s@.subrange(start, k);
            let ghost next = s@.subrange(start, k + 1);
            proof {
                if first {
                    assert(seen =~= Seq::<char>::empty());
                }
                assert(next.drop_last() =~= seen);
                assert(next.last() == c);
                assert(next =~= digits.take(k + 1 - start));
            }
            let d: usize = (c as u32 - '0' as u32) as usize;
            let scaled = match acc.checked_mul(10) {
                Some(n) => n,
                None => {
                    proof {
                        lemma_prefix_value(digits, k + 1 - start);
                    }
                    return None;
                },
            };
            acc = match scaled.checked_add(d) {
                Some(n) => n,
                None => {
                    proof {
                        lemma_prefix_value(digits, k + 1 - start);
                    }
                    return None;
                },
            };
            any = true;
            first = false;
        } else {
            assert(digits[k - start] == c);
            return None;
        }
    }
    proof {
        assert(s@.subrange(start, s@.len() as int) =~= digits);
    }
    if any {
        Some(acc)
    } else {
        None
    }
}

/// The stack size for the main thread, given what the setting for the
/// minimal stack size holds, if it is set.
pub fn main_stack_size(setting: Option<&str>) -> (size: usize)
    ensures
        size == stack_size_for(
            match setting {
                Some(text) => Some(text@),
                None => None,
            },
        ),
        size >= MIN_STACK_SIZE,
{
    let asked: usize = match setting {
        Some(text) => match parse_usize(text) {
            Some(n) => n,
            None => 0,
        },
        None => 0,
    };
    if asked >= MIN_STACK_SIZE {
        asked
    } else {
        MIN_STACK_SIZE
    }
}

/// A workspace path given on the command line, with what the file system
/// says of it.
#[derive(Debug, Clone, PartialEq, Eq)]
pub enum WorkspaceArg {
    /// The path is absolute.
    Absolute(String),
    /// The path is relative: `joined` is the path below the current
    /// directory, `canonical` what it resolves to, where it can be resolved.
    Relative { joined: String, canonical: Option<String> },
}

/// The absolute path that stands for `arg`.
pub open spec fn absolute_path(arg: WorkspaceArg) -> Seq<char> {
    match arg {
        WorkspaceArg::Absolute(path) => path@,
        WorkspaceArg::Relative { joined, canonical: Some(path) } => path@,
        WorkspaceArg::Relative { joined, canonical: None } => joined@,
    }
}

/// The workspace to open, as an absolute path: an absolute path as it was
/// given, a relative one resolved, or else joined to the current directory.
pub fn absolute_workspace(arg: WorkspaceArg) -> (path: String)
    ensures
        path@ == absolute_path(arg),
{
    match arg {
        WorkspaceArg::Absolute(path) => path,
        WorkspaceArg::Relative { joined, canonical } => match canonical {
            Some(path) => path,
            None => joined,
        },
    }
}

} // verus!
