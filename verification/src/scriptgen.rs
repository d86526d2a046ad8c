//! The textual half of script acquisition: what is sent to the
//! code-generation collaborator and what is kept of its answer.
//!
//! The collaborator receives two messages built from the sample and the
//! prompt. Its answer is a list of choices; the first choice's text,
//! trimmed of surrounding blanks and stripped of a leading and a
//! trailing code-fence marker, is the script. Only the literal
//! three-backtick marker is stripped, and only at the true start and end
//! of the trimmed text; an empty choice list is the one error decided
//! here.

use vstd::prelude::*;
use vstd::string::StrSliceExecFns;
use vstd::string::StringExecFns;

verus! {

/// Blank characters trimmed from the ends of generated text: exactly the
/// characters with the Unicode `White_Space` property, the set that
/// `char::is_whitespace` accepts.
pub open spec fn is_blank_char(c: char) -> bool {
    ||| c == '\u{0009}'
    ||| c == '\u{000A}'
    ||| c == '\u{000B}'
    ||| c == '\u{000C}'
    ||| c == '\u{000D}'
    ||| c == '\u{0020}'
    ||| c == '\u{0085}'
    ||| c == '\u{00A0}'
    ||| c == '\u{1680}'
    ||| c == '\u{2000}'
    ||| c == '\u{2001}'
    ||| c == '\u{2002}'
    ||| c == '\u{2003}'
    ||| c == '\u{2004}'
    ||| c == '\u{2005}'
    ||| c == '\u{2006}'
    ||| c == '\u{2007}'
    ||| c == '\u{2008}'
    ||| c == '\u{2009}'
    ||| c == '\u{200A}'
    ||| c == '\u{2028}'
    ||| c == '\u{2029}'
    ||| c == '\u{202F}'
    ||| c == '\u{205F}'
    ||| c == '\u{3000}'
}

/// `s` without its leading blanks.
pub open spec fn drop_leading_blanks(s: Seq<char>) -> Seq<char>
    decreases s.len(),
{
    if s.len() > 0 && is_blank_char(s[0]) {
        drop_leading_blanks(s.drop_first())
    } else {
        s
    }
}

/// `s` without its trailing blanks.
pub open spec fn drop_trailing_blanks(s: Seq<char>) -> Seq<char>
    decreases s.len(),
{
    if s.len() > 0 && is_blank_char(s.last()) {
        drop_trailing_blanks(s.drop_last())
    } else {
        s
    }
}

/// `s` without leading and trailing blanks.
pub open spec fn trim_spec(s: Seq<char>) -> Seq<char> {
    drop_trailing_blanks(drop_leading_blanks(s))
}

/// Decides whether `c` is a blank character.
pub fn is_blank(c: char) -> (r: bool)
    ensures
        r == is_blank_char(c),
{
    c == '\u{0009}' || c == '\u{000A}' || c == '\u{000B}' || c == '\u{000C}' || c == '\u{000D}'
        || c == '\u{0020}' || c == '\u{0085}' || c == '\u{00A0}' || c == '\u{1680}'
        || c == '\u{2000}' || c == '\u{2001}' || c == '\u{2002}' || c == '\u{2003}'
        || c == '\u{2004}' || c == '\u{2005}' || c == '\u{2006}' || c == '\u{2007}'
        || c == '\u{2008}' || c == '\u{2009}' || c == '\u{200A}' || c == '\u{2028}'
        || c == '\u{2029}' || c == '\u{202F}' || c == '\u{205F}' || c == '\u{3000}'
}

/// Removes leading and trailing blanks from `s`.
pub fn trim_blanks(s: &str) -> (trimmed: String)
    ensures
        trimmed@ == trim_spec(s@),
{
    let n: usize = s.unicode_len();
    let mut lo: usize = 0;
    proof {
        assert(s@.skip(0) =~= s@);
    }
    while lo < n && is_blank(s.get_char(lo))
        invariant
            lo <= n,
            n == s@.len(),
            drop_leading_blanks(s@) == drop_leading_blanks(s@.skip(lo as int)),
        decreases n - lo,
    {
        proof {
            assert(s@.skip(lo as int)[0] == s@[lo as int]);
            assert(s@.skip(lo as int).drop_first() =~= s@.skip(lo as int + 1));
        }
        lo = lo + 1;
    }
    proof {
        assert(drop_leading_blanks(s@) == s@.skip(lo as int));
    }
    let mut hi: usize = n;
    while hi > lo && is_blank(s.get_char(hi - 1))
        invariant
            lo <= hi <= n,
            n == s@.len(),
            drop_leading_blanks(s@) == s@.skip(lo as int),
            drop_trailing_blanks(s@.skip(lo as int)) == drop_trailing_blanks(
                s@.subrange(lo as int, hi as int),
            ),
        decreases hi,
    {
        proof {
            assert(s@.subrange(lo as int, hi as int).last() == s@[hi - 1]);
            assert(s@.subrange(lo as int, hi as int).drop_last() =~= s@.subrange(
                lo as int,
                hi as int - 1,
            ));
        }
        hi = hi - 1;
    }
    proof {
        assert(s@.skip(lo as int) =~= s@.subrange(lo as int, n as int));
        assert(trim_spec(s@) == s@.subrange(lo as int, hi as int));
    }
    let trimmed = s.substring_char(lo, hi);
    trimmed.to_owned()
}

/// The code-fence marker: three backticks.
pub open spec fn fence_marker() -> Seq<char> {
    seq!['`', '`', '`']
}

/// `s` without a leading fence marker, if it carries one.
pub open spec fn strip_leading_fence(s: Seq<char>) -> Seq<char> {
    if s.len() >= 3 && s.take(3) == fence_marker() {
        s.skip(3)
    } else {
        s
    }
}

/// `s` without a trailing fence marker, if it carries one.
pub open spec fn strip_trailing_fence(s: Seq<char>) -> Seq<char> {
    if s.len() >= 3 && s.skip(s.len() - 3) == fence_marker() {
        s.take(s.len() - 3)
    } else {
        s
    }
}

/// `s` without an enclosing pair of fence markers: the leading marker is
/// stripped first, then a trailing marker of what remains.
pub open spec fn strip_fences_spec(s: Seq<char>) -> Seq<char> {
    strip_trailing_fence(strip_leading_fence(s))
}

/// Strips a leading and then a trailing code-fence marker from `s`.
pub fn strip_code_fences(s: &str) -> (stripped: String)
    ensures
        stripped@ == strip_fences_spec(s@),
{
    let n: usize = s.unicode_len();
    let mut lo: usize = 0;
    let mut hi: usize = n;
    if n >= 3 && s.get_char(0) == '`' && s.get_char(1) == '`' && s.get_char(2) == '`' {
        lo = 3;
        proof {
            assert(s@.take(3) =~= fence_marker());
        }
    } else {
        proof {
            if s@.len() >= 3 && s@.take(3) == fence_marker() {
                assert(s@[0] == s@.take(3)[0]);
                assert(s@[1] == s@.take(3)[1]);
                assert(s@[2] == s@.take(3)[2]);
                assert(false);
            }
        }
    }
    let ghost mid = strip_leading_fence(s@);
    proof {
        assert(mid =~= s@.subrange(lo as int, hi as int));
    }
    if hi - lo >= 3 && s.get_char(hi - 3) == '`' && s.get_char(hi - 2) == '`' && s.get_char(
        hi - 1,
    ) == '`' {
        proof {
            assert(mid.skip(mid.len() - 3) =~= fence_marker());
            assert(strip_trailing_fence(mid) == mid.take(mid.len() - 3));
        }
        hi = hi - 3;
    } else {
        proof {
            if mid.len() >= 3 && mid.skip(mid.len() - 3) == fence_marker() {
                assert(mid[mid.len() - 3] == mid.skip(mid.len() - 3)[0]);
                assert(mid[mid.len() - 2] == mid.skip(mid.len() - 3)[1]);
                assert(mid[mid.len() - 1] == mid.skip(mid.len() - 3)[2]);
                assert(s@[hi - 3] == mid[mid.len() - 3]);
                assert(s@[hi - 2] == mid[mid.len() - 2]);
                assert(s@[hi - 1] == mid[mid.len() - 1]);
                assert(false);
            }
            assert(strip_trailing_fence(mid) == mid);
        }
    }
    proof {
        assert(strip_fences_spec(s@) =~= s@.subrange(lo as int, hi as int));
    }
    let stripped = s.substring_char(lo, hi);
    stripped.to_owned()
}

/// The one failure decided here: the collaborator answered with no
/// choice at all.
#[derive(Clone, Copy, PartialEq, Eq, Structural, Debug)]
pub enum GenError {
    EmptyChoices,
}

impl GenError {
    /// A single diagnostic line for the caller to report.
    pub fn message(&self) -> (m: String)
        ensures
            m@ == "no response from the generator"@,
    {
        String::from_str("no response from the generator")
    }
}

/// Keeps the script out of a generation answer: the first choice's text,
/// trimmed of blanks, with an enclosing fence pair stripped. Fails
/// exactly when the choice list is empty.
pub fn extract_script(choices: &Vec<String>) -> (r: Result<String, GenError>)
    ensures
        r is Err <==> choices@.len() == 0,
        match r {
            Ok(script) => script@ == strip_fences_spec(trim_spec(choices.deep_view()[0])),
            Err(e) => e == GenError::EmptyChoices,
        },
{
    if choices.len() == 0 {
        Err(GenError::EmptyChoices)
    } else {
        let trimmed = trim_blanks(choices[0].as_str());
        let stripped = strip_code_fences(trimmed.as_str());
        Ok(stripped)
    }
}

/// The message that carries the sample to the collaborator.
pub fn sample_message(sample_joined: &str) -> (m: String)
    ensures
        m@ == "S:\n"@ + sample_joined@,
{
    let mut m = String::from_str("S:\n");
    m.append(sample_joined);
    m
}

/// The message that carries the prompt to the collaborator.
pub fn question_message(prompt: &str) -> (m: String)
    ensures
        m@ == "Q:\n"@ + prompt@,
{
    let mut m = String::from_str("Q:\n");
    m.append(prompt);
    m
}

/// The lines of a stream joined with single newlines between them.
pub open spec fn join_spec(lines: Seq<Seq<char>>) -> Seq<char>
    decreases lines.len(),
{
    if lines.len() == 0 {
        Seq::empty()
    } else if lines.len() == 1 {
        lines[0]
    } else {
        join_spec(lines.drop_last()) + seq!['\n'] + lines.last()
    }
}

/// Joins the sample lines into the one text handed to the collaborator.
pub fn join_lines(lines: &Vec<String>) -> (joined: String)
    ensures
        joined@ == join_spec(lines.deep_view()),
{
    let mut joined = String::new();
    let n: usize = lines.len();
    let mut i: usize = 0;
    proof {
        assert(joined@ =~= join_spec(lines.deep_view().take(0)));
    }
    while i < n
        invariant
            i <= n,
            n == lines@.len(),
            joined@ == join_spec(lines.deep_view().take(i as int)),
        decreases n - i,
    {
        if i > 0 {
            joined.append("\n");
        }
        joined.append(lines[i].as_str());
        i = i + 1;
        proof {
            reveal_strlit("\n");
            let dv = lines.deep_view();
            assert(dv.take(i as int).last() == dv[i - 1]);
            if i == 1 {
                assert(joined@ =~= join_spec(dv.take(1)));
            } else {
                assert(dv.take(i as int).drop_last() =~= dv.take(i - 1));
                assert("\n"@ =~= seq!['\n']);
                assert(joined@ =~= join_spec(dv.take(i as int)));
            }
        }
    }
    proof {
        assert(lines.deep_view().take(n as int) =~= lines.deep_view());
    }
    joined
}

} // verus!
