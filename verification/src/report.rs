//! Reading the report of the image tool: the number that it gives for a
//! property of an image.
//!
//! The report is text in lines. The line of a property holds its name, and
//! the value is the last word of that line.

use vstd::prelude::*;
use vstd::string::*;
use crate::keys::is_digit;
use crate::text::{chars_of, is_blank, is_blank_exec, occurs_at};

verus! {

/// Where the line that begins at `from` ends: at the next line feed, or at
/// the end of the text.
pub open spec fn line_end(s: Seq<char>, from: int) -> int
    decreases s.len() - from,
{
    if from >= s.len() {
        s.len() as int
    } else if s[from] == '\n' {
        from
    } else {
        line_end(s, from + 1)
    }
}

/// The line that begins at `from`, without the line feed that ends it and
/// without a carriage return before that line feed.
pub open spec fn line_at(s: Seq<char>, from: int) -> Seq<char> {
    let end = line_end(s, from);
    let raw = s.subrange(from, end);
    if end < s.len() && raw.len() > 0 && raw.last() == '\r' {
        raw.drop_last()
    } else {
        raw
    }
}

/// Whether `needle` stands somewhere in `line`.
pub open spec fn contains(line: Seq<char>, needle: Seq<char>) -> bool {
    exists|i: int|
        0 <= i <= line.len() - needle.len() && #[trigger] line.subrange(i, i + needle.len())
            == needle
}

/// The first line at or after `from` that holds `needle`. The text after
/// the last line feed is a line unless it is empty.
pub open spec fn line_with(s: Seq<char>, needle: Seq<char>, from: int) -> Option<Seq<char>>
    decreases s.len() - from,
{
    if from < 0 || from >= s.len() {
        None
    } else {
        let end = line_end(s, from);
        if contains(line_at(s, from), needle) {
            Some(line_at(s, from))
        } else if end >= s.len() || end < from {
            None
        } else {
            line_with(s, needle, end + 1)
        }
    }
}

/// The length of `line` without the blanks at its end.
pub open spec fn trimmed_end(line: Seq<char>) -> int
    decreases line.len(),
{
    if line.len() == 0 {
        0
    } else if is_blank(line.last()) {
        trimmed_end(line.drop_last())
    } else {
        line.len() as int
    }
}

/// Where the word that ends before `end` begins.
pub open spec fn word_start(line: Seq<char>, end: int) -> int
    decreases end,
{
    if end <= 0 {
        0
    } else if is_blank(line[end - 1]) {
        end
    } else {
        word_start(line, end - 1)
    }
}

/// The last word of a line: the longest run of characters that are not
/// blank, nearest to its end. A blank line has none.
pub open spec fn last_word(line: Seq<char>) -> Option<Seq<char>> {
    let end = trimmed_end(line);
    if end == 0 {
        None
    } else {
        Some(line.subrange(word_start(line, end), end))
    }
}

/// The value of a decimal digit; of any other character, zero.
pub open spec fn digit_value(c: char) -> nat {
    if is_digit(c) {
        (c as u32 - '0' as u32) as nat
    } else {
        0
    }
}

/// The number that a row of decimal digits spells.
pub open spec fn number(digits: Seq<char>) -> nat
    decreases digits.len(),
{
    if digits.len() == 0 {
        0
    } else {
        number(digits.drop_last()) * 10 + digit_value(digits.last())
    }
}

/// Whether every character is a decimal digit.
pub open spec fn all_digits(w: Seq<char>) -> bool {
    forall|i: int| 0 <= i < w.len() ==> is_digit(#[trigger] w[i])
}

/// The number that a row of digits spells, where it is one: at least one
/// character, decimal digits only, and no more than fits in 32 bits.
pub open spec fn digits_number(digits: Seq<char>) -> Option<u32> {
    if digits.len() > 0 && all_digits(digits) && number(digits) <= u32::MAX {
        Some(number(digits) as u32)
    } else {
        None
    }
}

/// The number that a word spells: a row of digits, after at most one plus
/// sign.
pub open spec fn word_number(w: Seq<char>) -> Option<u32> {
    if w.len() > 0 && w[0] == '+' {
        digits_number(w.drop_first())
    } else {
        digits_number(w)
    }
}

/// The number that the report gives for a property: what the last word of
/// the first line with the property's name spells.
pub open spec fn reported(report: Seq<char>, property: Seq<char>) -> Option<u32> {
    match line_with(report, property, 0) {
        None => None,
        Some(line) => match last_word(line) {
            None => None,
            Some(w) => word_number(w),
        },
    }
}

/// The width and height that the report gives, with 800 and 600 where it
/// gives none.
pub open spec fn reported_dimensions(report: Seq<char>) -> (u32, u32) {
    (
        match reported(report, "pixelWidth"@) {
            Some(w) => w,
            None => 800,
        },
        match reported(report, "pixelHeight"@) {
            Some(h) => h,
            None => 600,
        },
    )
}

/// A row of digits spells no less than any row that it begins with.
pub proof fn lemma_number_grows(digits: Seq<char>, k: int)
    requires
        0 <= k <= digits.len(),
    ensures
        number(digits.subrange(0, k)) <= number(digits),
    decreases digits.len() - k,
{
    if k == digits.len() {
        assert(digits.subrange(0, k) =~= digits);
    } else {
        lemma_number_grows(digits, k + 1);
        let longer = digits.subrange(0, k + 1);
        assert(longer.drop_last() =~= digits.subrange(0, k));
    }
}

/// Whether `needle` stands somewhere in `line`.
pub fn line_contains(line: &Vec<char>, needle: &Vec<char>) -> (r: bool)
    ensures
        r == contains(line@, needle@),
{
    let n: usize = line.len();
    let m: usize = needle.len();
    if m > n {
        return false;
    }
    let last: usize = n - m;
    let mut i: usize = 0;
    while i < last
        invariant
            n == line@.len(),
            m == needle@.len(),
            last == n - m,
            i <= last,
            forall|j: int| 0 <= j < i ==> #[trigger] line@.subrange(j, j + m) != needle@,
        decreases last - i,
    {
        if occurs_at(line, i, needle) {
            return true;
        }
        i = i + 1;
    }
    occurs_at(line, last, needle)
}

/// The bounds of the last word of a line, if it has one.
pub fn last_word_bounds(line: &Vec<char>) -> (r: Option<(usize, usize)>)
    ensures
        match r {
            Some((from, to)) => from <= to <= line@.len() && last_word(line@) == Some(
                line@.subrange(from as int, to as int),
            ),
            None => last_word(line@) is None,
        },
{
    let n: usize = line.len();
    let mut end: usize = n;
    proof {
        assert(line@.subrange(0, n as int) =~= line@);
    }
    while end > 0 && is_blank_exec(line[end - 1])
        invariant
            end <= n,
            n == line@.len(),
            trimmed_end(line@) == trimmed_end(line@.subrange(0, end as int)),
        decreases end,
    {
        proof {
            let upto = line@.subrange(0, end as int);
            assert(upto.drop_last() =~= line@.subrange(0, end - 1));
            assert(upto.last() == line@[end - 1]);
        }
        end = end - 1;
    }
    proof {
        let upto = line@.subrange(0, end as int);
        if end > 0 {
            assert(upto.last() == line@[end - 1]);
        }
        assert(trimmed_end(upto) == end);
    }
    if end == 0 {
        return None;
    }
    let mut start: usize = end;
    while start > 0 && !is_blank_exec(line[start - 1])
        invariant
            start <= end <= n,
            n == line@.len(),
            word_start(line@, end as int) == word_start(line@, start as int),
        decreases start,
    {
        start = start - 1;
    }
    Some((start, end))
}

/// Reads the number that the characters of `line` from `from` up to `to`
/// spell.
pub fn parse_number(line: &Vec<char>, from: usize, to: usize) -> (r: Option<u32>)
    requires
        from <= to <= line@.len(),
    ensures
        r == word_number(line@.subrange(from as int, to as int)),
{
    let ghost w = line@.subrange(from as int, to as int);
    let mut i: usize = from;
    if i < to && line[i] == '+' {
        i = i + 1;
    }
    let first: usize = i;
    let ghost digits = line@.subrange(first as int, to as int);
    proof {
        if w.len() > 0 && w[0] == '+' {
            assert(w.drop_first() =~= digits);
        } else {
            assert(w =~= digits);
        }
    }
    if first == to {
        return None;
    }
    let mut acc: u64 = 0;
    proof {
        assert(digits.subrange(0, 0) =~= Seq::<char>::empty());
    }
    while i < to
        invariant
            first <= i <= to <= line@.len(),
            digits == line@.subrange(first as int, to as int),
            word_number(line@.subrange(from as int, to as int)) == digits_number(digits),
            acc == number(digits.subrange(0, i - first)),
            acc <= u32::MAX,
            forall|j: int| 0 <= j < i - first ==> is_digit(#[trigger] digits[j]),
        decreases to - i,
    {
        let c = line[i];
        proof {
            assert(digits[i - first] == c);
        }
        if !('0' <= c && c <= '9') {
            assert(!is_digit(digits[i - first]));
            return None;
        }
        let v: u64 = (c as u32 - '0' as u32) as u64;
        proof {
            let longer = digits.subrange(0, i - first + 1);
            assert(longer.drop_last() =~= digits.subrange(0, i - first));
            assert(longer.last() == c);
        }
        acc = acc * 10 + v;
        assert(acc == number(digits.subrange(0, i - first + 1)));
        if acc > 0xffff_ffff {
            proof {
                lemma_number_grows(digits, i - first + 1);
            }
            return None;
        }
        i = i + 1;
    }
    proof {
        assert(digits.subrange(0, to - first) =~= digits);
    }
    Some(acc as u32)
}

/// Reads the number that the report gives for a property.
pub fn reported_number(report: &str, property: &str) -> (r: Option<u32>)
    ensures
        r == reported(report@, property@),
{
    let text = chars_of(report);
    let needle = chars_of(property);
    let n: usize = text.len();
    let mut from: usize = 0;
    while from < n
        invariant
            n == text@.len(),
            text@ == report@,
            needle@ == property@,
            from <= n,
            line_with(report@, property@, 0) == line_with(report@, property@, from as int),
        decreases n - from,
    {
        let mut end: usize = from;
        let mut line: Vec<char> = Vec::new();
        while end < n && text[end] != '\n'
            invariant
                from <= end <= n,
                n == text@.len(),
                line@ == text@.subrange(from as int, end as int),
                line_end(text@, from as int) == line_end(text@, end as int),
            decreases n - end,
        {
            proof {
                assert(text@.subrange(from as int, end as int).push(text@[end as int])
                    =~= text@.subrange(from as int, end + 1));
            }
            line.push(text[end]);
            end = end + 1;
        }
        if end < n && line.len() > 0 && line[line.len() - 1] == '\r' {
            line.pop();
            proof {
                assert(line@ =~= text@.subrange(from as int, end as int).drop_last());
            }
        }
        if line_contains(&line, &needle) {
            return match last_word_bounds(&line) {
                None => None,
                Some((a, b)) => parse_number(&line, a, b),
            };
        }
        if end >= n {
            return None;
        }
        from = end + 1;
    }
    None
}

/// Reads the width and the height that the report gives.
pub fn image_dimensions(report: &str) -> (r: (u32, u32))
    ensures
        r == reported_dimensions(report@),
{
    let width = match reported_number(report, "pixelWidth") {
        Some(w) => w,
        None => 800,
    };
    let height = match reported_number(report, "pixelHeight") {
        Some(h) => h,
        None => 600,
    };
    (width, height)
}

} // verus!
