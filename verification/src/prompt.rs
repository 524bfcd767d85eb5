//! Reading the operator's answer to a yes-or-no question.

use vstd::prelude::*;

verus! {

/// The characters that count as blank space around an answer: the
/// characters with the Unicode property `White_Space`.
pub open spec fn is_blank(c: char) -> bool {
    ||| '\u{9}' <= c <= '\u{d}'
    ||| c == ' '
    ||| c == '\u{85}'
    ||| c == '\u{a0}'
    ||| c == '\u{1680}'
    ||| '\u{2000}' <= c <= '\u{200a}'
    ||| c == '\u{2028}'
    ||| c == '\u{2029}'
    ||| c == '\u{202f}'
    ||| c == '\u{205f}'
    ||| c == '\u{3000}'
}

/// The letter that means yes, in either case.
pub open spec fn is_yes_letter(c: char) -> bool {
    c == 'y' || c == 'Y'
}

/// The first `upto` characters of `line` are all blank.
pub open spec fn blank_upto(line: Seq<char>, upto: int) -> bool {
    forall|j: int| 0 <= j < upto ==> is_blank(#[trigger] line[j])
}

/// Among the first `upto` characters of `line` there is one yes letter, and
/// every other one is blank.
pub open spec fn affirmative_upto(line: Seq<char>, upto: int) -> bool {
    exists|i: int|
        0 <= i < upto && is_yes_letter(#[trigger] line[i]) && forall|j: int|
            0 <= j < upto && j != i ==> is_blank(#[trigger] line[j])
}

/// The line is an affirmative answer: a single `y` or `Y`, with nothing
/// around it but blank space.
pub open spec fn is_affirmative(line: Seq<char>) -> bool {
    affirmative_upto(line, line.len() as int)
}

/// Whether `c` is blank space.
pub fn blank(c: char) -> (b: bool)
    ensures
        b == is_blank(c),
{
    ('\u{9}' <= c && c <= '\u{d}') || c == ' ' || c == '\u{85}' || c == '\u{a0}' || c
        == '\u{1680}' || ('\u{2000}' <= c && c <= '\u{200a}') || c == '\u{2028}' || c
        == '\u{2029}' || c == '\u{202f}' || c == '\u{205f}' || c == '\u{3000}'
}

/// Extending a prefix by one character: how blankness and affirmation of
/// the longer prefix follow from those of the shorter.
proof fn lemma_extend(line: Seq<char>, upto: int)
    requires
        0 <= upto < line.len(),
    ensures
        blank_upto(line, upto + 1) == (blank_upto(line, upto) && is_blank(line[upto])),
        affirmative_upto(line, upto + 1) == ((affirmative_upto(line, upto) && is_blank(
            line[upto],
        )) || (blank_upto(line, upto) && is_yes_letter(line[upto]))),
{
}

/// Whether the operator answered yes: the line, without the blank space
/// around it, is `y` or `Y`.
pub fn is_yes(line: &str) -> (yes: bool)
    ensures
        yes == is_affirmative(line@),
{
    let mut only_blank: bool = true;
    let mut yes: bool = false;
    for c in it: line.chars()
        invariant
            it.seq() == line@,
            only_blank == blank_upto(line@, it.index() as int),
            yes == affirmative_upto(line@, it.index() as int),
    {
        proof {
            lemma_extend(line@, it.index() as int);
        }
        let space = blank(c);
        yes = (yes && space) || (only_blank && (c == 'y' || c == 'Y'));
        only_blank = only_blank && space;
    }
    yes
}

/// `line` without the blank space at its start.
pub open spec fn trim_start(line: Seq<char>) -> Seq<char>
    decreases line.len(),
{
    if line.len() > 0 && is_blank(line[0]) {
        trim_start(line.drop_first())
    } else {
        line
    }
}

/// `line` without the blank space at its end.
pub open spec fn trim_end(line: Seq<char>) -> Seq<char>
    decreases line.len(),
{
    if line.len() > 0 && is_blank(line.last()) {
        trim_end(line.drop_last())
    } else {
        line
    }
}

/// `line` without the blank space around it.
pub open spec fn trimmed(line: Seq<char>) -> Seq<char> {
    trim_end(trim_start(line))
}

/// `word` is the letter `y`, in either case, and nothing else.
pub open spec fn is_yes_word(word: Seq<char>) -> bool {
    word.len() == 1 && is_yes_letter(word[0])
}

/// What trimming the start leaves: the line from its first character that
/// is not blank.
proof fn lemma_trim_start(line: Seq<char>) -> (from: int)
    ensures
        0 <= from <= line.len(),
        trim_start(line) == line.subrange(from, line.len() as int),
        blank_upto(line, from),
        from < line.len() ==> !is_blank(line[from]),
    decreases line.len(),
{
    if line.len() > 0 && is_blank(line[0]) {
        let rest = line.drop_first();
        let inner = lemma_trim_start(rest);
        assert forall|j: int| 0 <= j < inner + 1 implies is_blank(#[trigger] line[j]) by {
            if j > 0 {
                assert(line[j] == rest[j - 1]);
            }
        }
        inner + 1
    } else {
        0
    }
}

/// What trimming the end leaves: the line up to its last character that
/// is not blank.
proof fn lemma_trim_end(line: Seq<char>) -> (upto: int)
    ensures
        0 <= upto <= line.len(),
        trim_end(line) == line.subrange(0, upto),
        forall|j: int| upto <= j < line.len() ==> is_blank(#[trigger] line[j]),
        upto > 0 ==> !is_blank(line[upto - 1]),
    decreases line.len(),
{
    if line.len() > 0 && is_blank(line.last()) {
        let rest = line.drop_last();
        let inner = lemma_trim_end(rest);
        assert forall|j: int| inner <= j < line.len() implies is_blank(#[trigger] line[j]) by {
            if j < line.len() - 1 {
                assert(line[j] == rest[j]);
            }
        }
        inner
    } else {
        line.len() as int
    }
}

/// An answer is affirmative exactly when, with the blank space around it
/// taken off, it is the letter `y` in either case.
pub proof fn lemma_affirmative_is_trimmed_yes(line: Seq<char>)
    ensures
        is_affirmative(line) <==> is_yes_word(trimmed(line)),
{
    let from = lemma_trim_start(line);
    let inner = trim_start(line);
    let upto = lemma_trim_end(inner);
    let word = trimmed(line);
    if is_affirmative(line) {
        let i = choose|i: int|
            0 <= i < line.len() && is_yes_letter(#[trigger] line[i]) && forall|j: int|
                0 <= j < line.len() && j != i ==> is_blank(#[trigger] line[j]);
        assert(from == i);
        assert(inner[0] == line[i]);
        assert(upto == 1);
    }
    if is_yes_word(word) {
        assert forall|j: int| 0 <= j < line.len() && j != from implies is_blank(
            #[trigger] line[j],
        ) by {
            if j > from {
                assert(inner[j - from] == line[j]);
            }
        }
    }
}

} // verus!
