//! Counting the lines, words, characters and letters of a text.

use vstd::prelude::*;
use vstd::string::StrSliceExecFns;

verus! {

/// Whether a character has Unicode's Alphabetic property.
pub uninterp spec fn alphabetic(c: char) -> bool;

/// Relies on `char::is_alphabetic`, which tests the Alphabetic property of the
/// character alone.
#[verifier::external_body]
fn is_alphabetic(c: char) -> (r: bool)
    ensures
        r == alphabetic(c),
{
    c.is_alphabetic()
}

/// Whether the scan is inside a word after the first `n` characters. A word
/// starts at a letter and goes on through letters and hyphens, so that
/// `чёрно-белый` is one word.
pub open spec fn in_word(s: Seq<char>, alpha: Seq<bool>, n: int) -> bool
    decreases n,
{
    if n <= 0 {
        false
    } else if in_word(s, alpha, n - 1) {
        alpha[n - 1] || s[n - 1] == '-'
    } else {
        alpha[n - 1]
    }
}

/// The number of words that start among the first `n` characters, where
/// `alpha[i]` tells whether `s[i]` is a letter.
pub open spec fn words_in(s: Seq<char>, alpha: Seq<bool>, n: int) -> int
    decreases n,
{
    if n <= 0 {
        0
    } else {
        words_in(s, alpha, n - 1) + if !in_word(s, alpha, n - 1) && alpha[n - 1] {
            1int
        } else {
            0int
        }
    }
}

/// The number of letters among the first `n` flags.
pub open spec fn letters_in(alpha: Seq<bool>, n: int) -> int
    decreases n,
{
    if n <= 0 {
        0
    } else {
        letters_in(alpha, n - 1) + if alpha[n - 1] {
            1int
        } else {
            0int
        }
    }
}

/// Which characters of a text are letters.
pub open spec fn letter_flags(s: Seq<char>) -> Seq<bool> {
    s.map_values(|c: char| alphabetic(c))
}

proof fn lemma_words_bounded(s: Seq<char>, alpha: Seq<bool>, n: int)
    requires
        0 <= n,
    ensures
        0 <= words_in(s, alpha, n) <= n,
    decreases n,
{
    if n > 0 {
        lemma_words_bounded(s, alpha, n - 1);
    }
}

proof fn lemma_letters_bounded(alpha: Seq<bool>, n: int)
    requires
        0 <= n,
    ensures
        0 <= letters_in(alpha, n) <= n,
    decreases n,
{
    if n > 0 {
        lemma_letters_bounded(alpha, n - 1);
    }
}

fn letter_marks(line: &str) -> (r: Vec<bool>)
    ensures
        r@ == letter_flags(line@),
{
    let n = line.unicode_len();
    let mut marks: Vec<bool> = Vec::new();
    let mut i: usize = 0;
    while i < n
        invariant
            n == line@.len(),
            i <= n,
            marks@ == letter_flags(line@).subrange(0, i as int),
        decreases n - i,
    {
        let c = line.get_char(i);
        marks.push(is_alphabetic(c));
        i = i + 1;
        assert(marks@ =~= letter_flags(line@).subrange(0, i as int));
    }
    assert(marks@ =~= letter_flags(line@));
    marks
}

/// Counts the words of a line, given for each character whether it is a letter.
pub fn count_words_marked(line: &str, alpha: &Vec<bool>) -> (r: i32)
    requires
        alpha@.len() == line@.len(),
        line@.len() <= i32::MAX,
    ensures
        r == words_in(line@, alpha@, line@.len() as int),
{
    let n = line.unicode_len();
    let mut total: i32 = 0;
    let mut prev_is_whitespace = true;
    let mut i: usize = 0;
    while i < n
        invariant
            n == line@.len(),
            n == alpha@.len(),
            n <= i32::MAX,
            i <= n,
            total == words_in(line@, alpha@, i as int),
            prev_is_whitespace == !in_word(line@, alpha@, i as int),
        decreases n - i,
    {
        proof {
            lemma_words_bounded(line@, alpha@, i as int);
        }
        let c = line.get_char(i);
        if prev_is_whitespace {
            if alpha[i] {
                total += 1;
                prev_is_whitespace = false;
            } else {
                prev_is_whitespace = true;
            }
        } else if !alpha[i] && c != '-' {
            prev_is_whitespace = true;
        }
        i = i + 1;
    }
    total
}

/// Counts the words of a line: runs of letters and hyphens that start at a letter.
pub fn count_words(line: String) -> (r: i32)
    requires
        line@.len() <= i32::MAX,
    ensures
        r == words_in(line@, letter_flags(line@), line@.len() as int),
{
    let marks = letter_marks(line.as_str());
    count_words_marked(line.as_str(), &marks)
}

/// Counts the flags that are set.
pub fn count_letters_marked(alpha: &Vec<bool>) -> (r: usize)
    ensures
        r == letters_in(alpha@, alpha@.len() as int),
{
    let mut total: usize = 0;
    let mut i: usize = 0;
    while i < alpha.len()
        invariant
            i <= alpha@.len(),
            total == letters_in(alpha@, i as int),
        decreases alpha@.len() - i,
    {
        proof {
            lemma_letters_bounded(alpha@, i as int);
        }
        if alpha[i] {
            total += 1;
        }
        i = i + 1;
    }
    total
}

/// Counts the letters of a line.
pub fn count_letters(line: &str) -> (r: usize)
    ensures
        r == letters_in(letter_flags(line@), line@.len() as int),
{
    let marks = letter_marks(line);
    count_letters_marked(&marks)
}

/// What to count in a file.
#[derive(Clone, Copy, Debug, PartialEq, Eq, Structural)]
pub struct Counting {
    pub words: bool,
    pub chars: bool,
    pub letters: bool,
}

/// Running totals over the lines read so far. Lines are always counted; the
/// other totals only where `Counting` asks for them.
#[derive(Clone, Copy, Debug, PartialEq, Eq, Structural)]
pub struct Tally {
    pub lines: u64,
    pub words: u64,
    pub chars: u64,
    pub letters: u64,
}

impl Tally {
    pub fn new() -> (r: Tally)
        ensures
            r == (Tally { lines: 0, words: 0, chars: 0, letters: 0 }),
    {
        Tally { lines: 0, words: 0, chars: 0, letters: 0 }
    }

    /// Adds one line to the totals.
    pub fn add_line(&mut self, line: &str, what: Counting)
        requires
            line@.len() <= i32::MAX,
            old(self).lines < u64::MAX,
            old(self).words + line@.len() <= u64::MAX,
            old(self).chars + line@.len() <= u64::MAX,
            old(self).letters + line@.len() <= u64::MAX,
        ensures
            final(self).lines == old(self).lines + 1,
            final(self).chars == old(self).chars + if what.chars {
                line@.len() as int
            } else {
                0
            },
            final(self).letters == old(self).letters + if what.letters {
                letters_in(letter_flags(line@), line@.len() as int)
            } else {
                0
            },
            final(self).words == old(self).words + if what.words {
                words_in(line@, letter_flags(line@), line@.len() as int)
            } else {
                0
            },
    {
        let n = line.unicode_len();
        let marks = letter_marks(line);
        self.lines = self.lines + 1;
        if what.chars {
            self.chars = self.chars + n as u64;
        }
        if what.letters {
            let l = count_letters_marked(&marks);
            proof {
                lemma_letters_bounded(marks@, n as int);
            }
            self.letters = self.letters + l as u64;
        }
        if what.words {
            let w = count_words_marked(line, &marks);
            proof {
                lemma_words_bounded(line@, marks@, n as int);
            }
            self.words = self.words + w as u64;
        }
    }
}

} // verus!
