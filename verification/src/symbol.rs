//! The tape alphabet and the head's move directions.

use vstd::prelude::*;
use vstd::string::StrSliceExecFns;

verus! {

/// One cell's content. The alphabet is a fixed, closed set of three symbols;
/// there are no custom alphabets.
#[derive(Clone, Copy, Debug, PartialEq, Eq, Structural)]
pub enum Symbol {
    Zero,
    One,
    Blank,
}

/// Which way the head moves when a transition fires.
#[derive(Clone, Copy, Debug, PartialEq, Eq, Structural)]
pub enum Direction {
    Left,
    Right,
}

/// The head displacement a direction stands for: one cell left or right.
pub open spec fn dir_delta(d: Direction) -> int {
    match d {
        Direction::Left => -1,
        Direction::Right => 1,
    }
}

/// Whether `c` is Unicode white space: exactly the characters that
/// `str::trim` removes (the White_Space property).
pub open spec fn spec_is_whitespace(c: char) -> bool {
    ||| (0x09 <= c as u32 && c as u32 <= 0x0D)
    ||| c as u32 == 0x20
    ||| c as u32 == 0x85
    ||| c as u32 == 0xA0
    ||| c as u32 == 0x1680
    ||| (0x2000 <= c as u32 && c as u32 <= 0x200A)
    ||| c as u32 == 0x2028
    ||| c as u32 == 0x2029
    ||| c as u32 == 0x202F
    ||| c as u32 == 0x205F
    ||| c as u32 == 0x3000
}

/// `text` with its leading white space removed.
pub open spec fn spec_trim_start(text: Seq<char>) -> Seq<char>
    decreases text.len(),
{
    if text.len() > 0 && spec_is_whitespace(text[0]) {
        spec_trim_start(text.drop_first())
    } else {
        text
    }
}

/// `text` with its trailing white space removed.
pub open spec fn spec_trim_end(text: Seq<char>) -> Seq<char>
    decreases text.len(),
{
    if text.len() > 0 && spec_is_whitespace(text.last()) {
        spec_trim_end(text.drop_last())
    } else {
        text
    }
}

/// `text` with its surrounding white space removed, as `str::trim` leaves it.
pub open spec fn spec_trim(text: Seq<char>) -> Seq<char> {
    spec_trim_end(spec_trim_start(text))
}

/// The symbol a piece of exact text stands for: `"0"`, `"1"`, `"_"`, or the
/// empty text for blank; anything else stands for no symbol.
pub open spec fn spec_symbol_of_exact(s: Seq<char>) -> Option<Symbol> {
    if s.len() == 0 {
        Some(Symbol::Blank)
    } else if s.len() == 1 {
        if s[0] == '0' {
            Some(Symbol::Zero)
        } else if s[0] == '1' {
            Some(Symbol::One)
        } else if s[0] == '_' {
            Some(Symbol::Blank)
        } else {
            None
        }
    } else {
        None
    }
}

/// The symbol a piece of display text stands for, surrounding white space
/// ignored: the symbol of the trimmed text.
pub open spec fn spec_symbol_of_text(s: Seq<char>) -> Option<Symbol> {
    spec_symbol_of_exact(spec_trim(s))
}

/// Whether `c` is Unicode white space, as `str::trim` decides it.
fn is_whitespace_char(c: char) -> (r: bool)
    ensures
        r == spec_is_whitespace(c),
{
    let u = c as u32;
    (0x09 <= u && u <= 0x0D) || u == 0x20 || u == 0x85 || u == 0xA0 || u == 0x1680 || (0x2000 <= u
        && u <= 0x200A) || u == 0x2028 || u == 0x2029 || u == 0x202F || u == 0x205F || u == 0x3000
}

/// Removing leading white space is taking the suffix from the first
/// non-white-space character.
proof fn lemma_trim_start_at(text: Seq<char>, b: int)
    requires
        0 <= b <= text.len(),
        forall|j: int| 0 <= j < b ==> spec_is_whitespace(#[trigger] text[j]),
        b == text.len() || !spec_is_whitespace(text[b]),
    ensures
        spec_trim_start(text) == text.subrange(b, text.len() as int),
    decreases b,
{
    if b == 0 {
        assert(spec_trim_start(text) =~= text.subrange(0, text.len() as int));
    } else {
        let rest = text.drop_first();
        lemma_trim_start_at(rest, b - 1);
        assert(rest.subrange(b - 1, rest.len() as int) =~= text.subrange(b, text.len() as int));
    }
}

/// Removing trailing white space is taking the prefix up to the last
/// non-white-space character.
proof fn lemma_trim_end_at(text: Seq<char>, e: int)
    requires
        0 <= e <= text.len(),
        forall|j: int| e <= j < text.len() ==> spec_is_whitespace(#[trigger] text[j]),
        e == 0 || !spec_is_whitespace(text[e - 1]),
    ensures
        spec_trim_end(text) == text.subrange(0, e),
    decreases text.len(),
{
    if e == text.len() {
        assert(spec_trim_end(text) =~= text.subrange(0, e));
    } else {
        let rest = text.drop_last();
        lemma_trim_end_at(rest, e);
        assert(rest.subrange(0, e) =~= text.subrange(0, e));
    }
}

/// The trimmed text is the subrange between the first and last
/// non-white-space characters.
proof fn lemma_trim_is_subrange(text: Seq<char>, b: int, e: int)
    requires
        0 <= b <= e <= text.len(),
        forall|j: int| 0 <= j < b ==> spec_is_whitespace(#[trigger] text[j]),
        forall|j: int| e <= j < text.len() ==> spec_is_whitespace(#[trigger] text[j]),
        b == text.len() || !spec_is_whitespace(text[b]),
        e == b || !spec_is_whitespace(text[e - 1]),
    ensures
        spec_trim(text) == text.subrange(b, e),
    decreases text.len(),
{
    lemma_trim_start_at(text, b);
    let tail = text.subrange(b, text.len() as int);
    lemma_trim_end_at(tail, e - b);
    assert(tail.subrange(0, e - b) =~= text.subrange(b, e));
}

impl Symbol {
    /// The text under which a symbol is displayed.
    pub fn display(&self) -> (r: &'static str)
        ensures
            *self == Symbol::Zero ==> r@ == "0"@,
            *self == Symbol::One ==> r@ == "1"@,
            *self == Symbol::Blank ==> r@ == "_"@,
    {
        match self {
            Symbol::Zero => "0",
            Symbol::One => "1",
            Symbol::Blank => "_",
        }
    }

    /// Reads a symbol back from its display text, ignoring surrounding white
    /// space as `str::trim` would. A text that is all white space — the
    /// empty text in particular, as an empty input field — counts as blank.
    #[verifier::loop_isolation(false)]
    pub fn from_str(s: &str) -> (r: Option<Symbol>)
        ensures
            r == spec_symbol_of_text(s@),
    {
        let n = s.unicode_len();
        let mut b: usize = 0;
        while b < n && is_whitespace_char(s.get_char(b))
            invariant
                b <= n,
                forall|j: int| 0 <= j < b ==> spec_is_whitespace(#[trigger] s@[j]),
            decreases n - b,
        {
            b = b + 1;
        }
        let mut e: usize = n;
        while e > b && is_whitespace_char(s.get_char(e - 1))
            invariant
                b <= e <= n,
                forall|j: int| e <= j < n ==> spec_is_whitespace(#[trigger] s@[j]),
            decreases e,
        {
            e = e - 1;
        }
        proof {
            lemma_trim_is_subrange(s@, b as int, e as int);
        }
        if e == b {
            Some(Symbol::Blank)
        } else if e == b + 1 {
            let c = s.get_char(b);
            proof {
                assert(spec_trim(s@)[0] == s@[b as int]);
            }
            if c == '0' {
                Some(Symbol::Zero)
            } else if c == '1' {
                Some(Symbol::One)
            } else if c == '_' {
                Some(Symbol::Blank)
            } else {
                None
            }
        } else {
            None
        }
    }
}

impl Direction {
    /// The text under which a direction is displayed.
    pub fn display(&self) -> (r: &'static str)
        ensures
            *self == Direction::Left ==> r@ == "L"@,
            *self == Direction::Right ==> r@ == "R"@,
    {
        match self {
            Direction::Left => "L",
            Direction::Right => "R",
        }
    }
}

} // verus!
