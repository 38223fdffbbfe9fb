//! Scanning of text: white space, fields, lines, numbers.
//!
//! A text is first laid out as its characters, so that every scan is one
//! pass over it.

use crate::text::push_char;
use vstd::prelude::*;
use vstd::string::StrSliceExecFns;

verus! {

/// The characters that separate fields and are trimmed from the ends of a
/// line: the white space of Unicode.
pub open spec fn is_space(c: char) -> bool {
    let u = c as u32;
    ||| 0x09 <= u <= 0x0d
    ||| u == 0x20
    ||| u == 0x85
    ||| u == 0xa0
    ||| u == 0x1680
    ||| 0x2000 <= u <= 0x200a
    ||| u == 0x2028
    ||| u == 0x2029
    ||| u == 0x202f
    ||| u == 0x205f
    ||| u == 0x3000
}

/// Tells whether a character is white space.
pub fn char_is_space(c: char) -> (r: bool)
    ensures
        r == is_space(c),
{
    let u: u32 = c as u32;
    (0x09 <= u && u <= 0x0d) || u == 0x20 || u == 0x85 || u == 0xa0 || u == 0x1680 || (0x2000 <= u
        && u <= 0x200a) || u == 0x2028 || u == 0x2029 || u == 0x202f || u == 0x205f || u == 0x3000
}

/// First position at or after `from` that holds no space; the length where
/// there is none.
pub open spec fn skip_spaces(s: Seq<char>, from: int) -> int
    decreases s.len() - from,
{
    if from < 0 || from >= s.len() {
        s.len() as int
    } else if !is_space(s[from]) {
        from
    } else {
        skip_spaces(s, from + 1)
    }
}

/// First position at or after `from` that holds a space; the length where
/// there is none.
pub open spec fn skip_word(s: Seq<char>, from: int) -> int
    decreases s.len() - from,
{
    if from < 0 || from >= s.len() {
        s.len() as int
    } else if is_space(s[from]) {
        from
    } else {
        skip_word(s, from + 1)
    }
}

/// Length of `s` without the spaces at its end.
pub open spec fn trimmed_len(s: Seq<char>) -> int
    decreases s.len(),
{
    if s.len() == 0 {
        0
    } else if !is_space(s.last()) {
        s.len() as int
    } else {
        trimmed_len(s.drop_last())
    }
}

/// `s` without the spaces at both ends.
pub open spec fn trimmed(s: Seq<char>) -> Seq<char> {
    let end = trimmed_len(s);
    let kept = s.take(end);
    kept.skip(skip_spaces(kept, 0))
}

/// Where the two skips end, and what lies before.
pub proof fn lemma_skip_bounds(s: Seq<char>, from: int)
    requires
        0 <= from <= s.len(),
    ensures
        from <= skip_spaces(s, from) <= s.len(),
        from <= skip_word(s, from) <= s.len(),
        skip_spaces(s, from) < s.len() ==> !is_space(s[skip_spaces(s, from)]),
        skip_word(s, from) < s.len() ==> is_space(s[skip_word(s, from)]),
        forall|i: int| from <= i < skip_spaces(s, from) ==> is_space(#[trigger] s[i]),
        forall|i: int| from <= i < skip_word(s, from) ==> !is_space(#[trigger] s[i]),
        from < s.len() && !is_space(s[from]) ==> skip_word(s, from) > from,
    decreases s.len() - from,
{
    if from < s.len() {
        lemma_skip_bounds(s, from + 1);
    }
}

/// The characters of a text, one by one.
pub fn chars_of(s: &str) -> (v: Vec<char>)
    ensures
        v@ == s@,
{
    broadcast use vstd::string::group_string_axioms;

    let mut v: Vec<char> = Vec::new();
    for c in it: s.chars()
        invariant
            it.seq() == s@,
            v@ == s@.take(it.index() as int),
    {
        v.push(c);
        assert(v@ =~= s@.take(it.index() + 1));
    }
    assert(v@ =~= s@);
    v
}

/// The text made of the characters of `v` from `from` up to `to`.
fn string_of(v: &Vec<char>, from: usize, to: usize) -> (r: String)
    requires
        from <= to <= v@.len(),
    ensures
        r@ == v@.subrange(from as int, to as int),
{
    let mut out = String::new();
    let mut i: usize = from;
    assert(out@ =~= v@.subrange(from as int, from as int));
    while i < to
        invariant
            from <= i <= to <= v@.len(),
            out@ == v@.subrange(from as int, i as int),
        decreases to - i,
    {
        push_char(&mut out, v[i]);
        i = i + 1;
        assert(out@ =~= v@.subrange(from as int, i as int));
    }
    out
}

/// End of the spaces that begin at `from`, looking no further than
/// `limit`.
fn spaces_end(v: &Vec<char>, from: usize, limit: usize) -> (r: usize)
    requires
        from <= limit <= v@.len(),
    ensures
        r == skip_spaces(v@.take(limit as int), from as int),
        from <= r <= limit,
{
    let ghost seen = v@.take(limit as int);
    let mut i: usize = from;
    proof {
        lemma_skip_bounds(seen, from as int);
    }
    while i < limit && char_is_space(v[i])
        invariant
            seen == v@.take(limit as int),
            from <= i <= limit <= v@.len(),
            skip_spaces(seen, i as int) == skip_spaces(seen, from as int),
        decreases limit - i,
    {
        i = i + 1;
    }
    i
}

/// End of the word that begins at `from`.
fn word_end(v: &Vec<char>, from: usize) -> (r: usize)
    requires
        from <= v@.len(),
    ensures
        r == skip_word(v@, from as int),
        from <= r <= v@.len(),
{
    let mut i: usize = from;
    proof {
        lemma_skip_bounds(v@, from as int);
    }
    while i < v.len() && !char_is_space(v[i])
        invariant
            from <= i <= v@.len(),
            skip_word(v@, i as int) == skip_word(v@, from as int),
        decreases v@.len() - i,
    {
        i = i + 1;
    }
    i
}

/// Length without the spaces at the end.
fn kept_len(v: &Vec<char>) -> (r: usize)
    ensures
        r == trimmed_len(v@),
        r <= v@.len(),
{
    let mut end: usize = v.len();
    proof {
        assert(v@.take(end as int) =~= v@);
    }
    while end > 0 && char_is_space(v[end - 1])
        invariant
            end <= v@.len(),
            trimmed_len(v@.take(end as int)) == trimmed_len(v@),
        decreases end,
    {
        proof {
            assert(v@.take(end as int).drop_last() =~= v@.take(end - 1));
        }
        end = end - 1;
    }
    proof {
        let kept = v@.take(end as int);
        if end > 0 {
            assert(kept.last() == v@[end - 1]);
        }
        assert(trimmed_len(kept) == end);
    }
    end
}

/// Position of the first space-free character at or after `from`.
pub fn after_spaces(s: &str, from: usize) -> (r: usize)
    requires
        from <= s@.len(),
    ensures
        r == skip_spaces(s@, from as int),
        from <= r <= s@.len(),
{
    let v = chars_of(s);
    assert(v@.take(v@.len() as int) =~= v@);
    spaces_end(&v, from, v.len())
}

/// Position of the first space at or after `from`.
pub fn after_word(s: &str, from: usize) -> (r: usize)
    requires
        from <= s@.len(),
    ensures
        r == skip_word(s@, from as int),
        from <= r <= s@.len(),
{
    let v = chars_of(s);
    word_end(&v, from)
}

/// Removes the spaces at both ends.
pub fn trim(s: &str) -> (r: &str)
    ensures
        r@ == trimmed(s@),
{
    let v = chars_of(s);
    let end: usize = kept_len(&v);
    let start: usize = spaces_end(&v, 0, end);
    let r = s.substring_char(start, end);
    proof {
        assert(r@ =~= s@.take(end as int).skip(start as int));
    }
    r
}

/// Position of the first `c` at or after `from`; the length where there is
/// none.
pub open spec fn index_of(s: Seq<char>, c: char, from: int) -> int
    decreases s.len() - from,
{
    if from < 0 || from >= s.len() {
        s.len() as int
    } else if s[from] == c {
        from
    } else {
        index_of(s, c, from + 1)
    }
}

/// Position of the last `c`; `-1` where there is none.
pub open spec fn last_index_of(s: Seq<char>, c: char) -> int
    decreases s.len(),
{
    if s.len() == 0 {
        -1
    } else if s.last() == c {
        s.len() - 1
    } else {
        last_index_of(s.drop_last(), c)
    }
}

/// Where the first `c` is, and that none comes before.
pub proof fn lemma_index_of(s: Seq<char>, c: char, from: int)
    requires
        0 <= from <= s.len(),
    ensures
        from <= index_of(s, c, from) <= s.len(),
        index_of(s, c, from) < s.len() ==> s[index_of(s, c, from)] == c,
        forall|i: int| from <= i < index_of(s, c, from) ==> #[trigger] s[i] != c,
    decreases s.len() - from,
{
    if from < s.len() && s[from] != c {
        lemma_index_of(s, c, from + 1);
    }
}

/// Where the last `c` is, and that none comes after.
pub proof fn lemma_last_index_of(s: Seq<char>, c: char)
    ensures
        -1 <= last_index_of(s, c) < s.len(),
        last_index_of(s, c) >= 0 ==> s[last_index_of(s, c)] == c,
        forall|i: int| last_index_of(s, c) < i < s.len() ==> #[trigger] s[i] != c,
    decreases s.len(),
{
    if s.len() > 0 && s.last() != c {
        lemma_last_index_of(s.drop_last(), c);
        let k = last_index_of(s, c);
        if k >= 0 {
            assert(s.drop_last()[k] == s[k]);
        }
        assert forall|i: int| k < i < s.len() implies #[trigger] s[i] != c by {
            if i < s.len() - 1 {
                assert(s.drop_last()[i] == s[i]);
            }
        }
    }
}

fn first_at(v: &Vec<char>, c: char, from: usize) -> (r: usize)
    requires
        from <= v@.len(),
    ensures
        r == index_of(v@, c, from as int),
        from <= r <= v@.len(),
{
    let mut i: usize = from;
    proof {
        lemma_index_of(v@, c, from as int);
    }
    while i < v.len() && v[i] != c
        invariant
            from <= i <= v@.len(),
            index_of(v@, c, i as int) == index_of(v@, c, from as int),
        decreases v@.len() - i,
    {
        i = i + 1;
    }
    i
}

/// Finds the first `c` at or after `from`.
pub fn find_char(s: &str, c: char, from: usize) -> (r: usize)
    requires
        from <= s@.len(),
    ensures
        r == index_of(s@, c, from as int),
        from <= r <= s@.len(),
{
    let v = chars_of(s);
    first_at(&v, c, from)
}

/// Finds the last `c`.
pub fn rfind_char(s: &str, c: char) -> (r: Option<usize>)
    ensures
        r is Some <==> last_index_of(s@, c) >= 0,
        r is Some ==> r->0 == last_index_of(s@, c) && r->0 < s@.len(),
{
    let v = chars_of(s);
    let mut end: usize = v.len();
    proof {
        assert(v@.take(end as int) =~= v@);
        lemma_last_index_of(v@, c);
    }
    while end > 0
        invariant
            v@ == s@,
            end <= v@.len(),
            last_index_of(v@.take(end as int), c) == last_index_of(v@, c),
        decreases end,
    {
        proof {
            assert(v@.take(end as int).drop_last() =~= v@.take(end - 1));
            assert(v@.take(end as int).last() == v@[end - 1]);
        }
        if v[end - 1] == c {
            return Some(end - 1);
        }
        end = end - 1;
    }
    None
}

/// Bounds of the `n`-th field (counted from zero) among those that begin at
/// or after `from`. Fields are the runs of space-free characters.
pub open spec fn field_bounds(s: Seq<char>, from: int, n: nat) -> Option<(int, int)>
    decreases n,
{
    let begin = skip_spaces(s, from);
    if from < 0 || begin >= s.len() {
        None
    } else if n == 0 {
        Some((begin, skip_word(s, begin)))
    } else {
        field_bounds(s, skip_word(s, begin), (n - 1) as nat)
    }
}

/// The `n`-th field of `s`, counted from zero.
pub open spec fn field_of(s: Seq<char>, n: nat) -> Option<Seq<char>> {
    match field_bounds(s, 0, n) {
        Some((begin, end)) => Some(s.subrange(begin, end)),
        None => None,
    }
}

/// The `n`-th field of a line, counted from zero; `None` where the line has
/// fewer.
pub fn field(s: &str, n: usize) -> (r: Option<&str>)
    ensures
        r is Some <==> field_of(s@, n as nat) is Some,
        r is Some ==> r->0@ == field_of(s@, n as nat)->0,
{
    let v = chars_of(s);
    let mut from: usize = 0;
    let mut left: usize = n;
    proof {
        assert(v@.take(v@.len() as int) =~= v@);
    }
    loop
        invariant
            v@ == s@,
            v@.take(v@.len() as int) == v@,
            from <= v@.len(),
            left <= n,
            field_bounds(s@, from as int, left as nat) == field_bounds(s@, 0, n as nat),
        decreases left,
    {
        let begin: usize = spaces_end(&v, from, v.len());
        if begin >= v.len() {
            return None;
        }
        let end: usize = word_end(&v, begin);
        if left == 0 {
            return Some(s.substring_char(begin, end));
        }
        from = end;
        left = left - 1;
    }
}

/// Whether `pat` stands in `s` at position `i`.
pub open spec fn occurs_at(s: Seq<char>, pat: Seq<char>, i: int) -> bool {
    0 <= i && i + pat.len() <= s.len() && s.subrange(i, i + pat.len()) == pat
}

/// Whether `pat` stands somewhere in `s`.
pub open spec fn occurs_in(s: Seq<char>, pat: Seq<char>) -> bool {
    exists|i: int| occurs_at(s, pat, i)
}

fn matches_at(v: &Vec<char>, pat: &Vec<char>, at: usize) -> (r: bool)
    requires
        at + pat@.len() <= v@.len(),
    ensures
        r == occurs_at(v@, pat@, at as int),
{
    let total: usize = v.len();
    let mut j: usize = 0;
    while j < pat.len()
        invariant
            at + pat@.len() <= v@.len(),
            total == v@.len(),
            j <= pat@.len(),
            forall|k: int| 0 <= k < j ==> v@[at + k] == pat@[k],
        decreases pat@.len() - j,
    {
        if v[at + j] != pat[j] {
            proof {
                assert(v@.subrange(at as int, at + pat@.len())[j as int] == v@[at + j]);
            }
            return false;
        }
        j = j + 1;
    }
    proof {
        assert(v@.subrange(at as int, at + pat@.len()) =~= pat@);
    }
    true
}

/// Whether `pat` stands somewhere in `s`.
pub fn contains(s: &str, pat: &str) -> (r: bool)
    ensures
        r == occurs_in(s@, pat@),
{
    let v = chars_of(s);
    let p = chars_of(pat);
    if p.len() > v.len() {
        return false;
    }
    let last: usize = v.len() - p.len();
    let mut i: usize = 0;
    loop
        invariant
            v@ == s@,
            p@ == pat@,
            last == v@.len() - p@.len(),
            i <= last,
            forall|k: int| 0 <= k < i ==> !occurs_at(s@, pat@, k),
        decreases last - i,
    {
        if matches_at(&v, &p, i) {
            return true;
        }
        if i == last {
            return false;
        }
        i = i + 1;
    }
}

/// Whether `s` begins with `prefix`.
pub fn starts_with(s: &str, prefix: &str) -> (r: bool)
    ensures
        r == occurs_at(s@, prefix@, 0),
{
    let v = chars_of(s);
    let p = chars_of(prefix);
    if p.len() > v.len() {
        return false;
    }
    matches_at(&v, &p, 0)
}

/// Whether two texts are the same.
pub fn same_text(a: &str, b: &str) -> (r: bool)
    ensures
        r == (a@ == b@),
{
    let v = chars_of(a);
    let w = chars_of(b);
    if v.len() != w.len() {
        return false;
    }
    let same = matches_at(&v, &w, 0);
    proof {
        assert(v@.subrange(0, w@.len() as int) =~= v@);
    }
    same
}

/// A line without the carriage return at its end, if it has one.
pub open spec fn without_cr(line: Seq<char>) -> Seq<char> {
    if line.len() > 0 && line.last() == '\r' {
        line.drop_last()
    } else {
        line
    }
}

/// The lines of the text from position `from` on. A line ends at a line
/// feed, with the carriage return before it if there is one, or at the end
/// of the text; a text that ends in a line feed has no empty line after it.
pub open spec fn lines_from(s: Seq<char>, from: int) -> Seq<Seq<char>>
    decreases s.len() - from,
    via lines_from_decreases
{
    if from < 0 || from >= s.len() {
        Seq::empty()
    } else {
        let end = index_of(s, '\n', from);
        if end >= s.len() {
            seq![s.subrange(from, end)]
        } else {
            seq![without_cr(s.subrange(from, end))] + lines_from(s, end + 1)
        }
    }
}

#[via_fn]
proof fn lines_from_decreases(s: Seq<char>, from: int) {
    if 0 <= from < s.len() {
        lemma_index_of(s, '\n', from);
    }
}

/// Splits a text into its lines.
pub fn lines(s: &str) -> (r: Vec<String>)
    ensures
        r@.len() == lines_from(s@, 0).len(),
        forall|i: int| 0 <= i < r@.len() ==> (#[trigger] r@[i])@ == lines_from(s@, 0)[i],
{
    let v = chars_of(s);
    let len: usize = v.len();
    let mut out: Vec<String> = Vec::new();
    let mut from: usize = 0;
    let ghost mut done: Seq<Seq<char>> = Seq::empty();
    while from < len
        invariant
            v@ == s@,
            len == s@.len(),
            from <= len,
            done + lines_from(s@, from as int) == lines_from(s@, 0),
            out@.len() == done.len(),
            forall|i: int| 0 <= i < out@.len() ==> (#[trigger] out@[i])@ == done[i],
        decreases len - from,
    {
        let end: usize = first_at(&v, '\n', from);
        let mut stop: usize = end;
        if end < len && stop > from && v[stop - 1] == '\r' {
            stop = stop - 1;
        }
        let line: String = string_of(&v, from, stop);
        proof {
            let whole = s@.subrange(from as int, end as int);
            if whole.len() > 0 {
                assert(whole.last() == s@[end - 1]);
            }
            assert(line@ =~= if end < len {
                without_cr(whole)
            } else {
                whole
            });
            let rest = if end >= len {
                Seq::<Seq<char>>::empty()
            } else {
                lines_from(s@, end + 1)
            };
            assert(lines_from(s@, from as int) =~= seq![line@] + rest);
            assert(done.push(line@) + rest =~= done + lines_from(s@, from as int));
            done = done.push(line@);
        }
        out.push(line);
        if end >= len {
            from = len;
        } else {
            from = end + 1;
        }
    }
    proof {
        assert(lines_from(s@, from as int) =~= Seq::<Seq<char>>::empty());
        assert(done + Seq::<Seq<char>>::empty() =~= done);
    }
    out
}

/// Why a text is no number.
#[derive(Debug, Clone, Copy, PartialEq, Eq, Structural)]
pub enum NumberError {
    /// Nothing to parse.
    Empty,
    /// A character that is no decimal digit, or a sign alone.
    InvalidDigit,
    /// More than the largest value allowed.
    TooLarge,
}

impl NumberError {
    /// The reason in the words of the standard library.
    pub open spec fn text(self) -> Seq<char> {
        match self {
            NumberError::Empty => "cannot parse integer from empty string"@,
            NumberError::InvalidDigit => "invalid digit found in string"@,
            NumberError::TooLarge => "number too large to fit in target type"@,
        }
    }

    /// The reason in words.
    pub fn describe(&self) -> (r: &'static str)
        ensures
            r@ == self.text(),
    {
        match self {
            NumberError::Empty => "cannot parse integer from empty string",
            NumberError::InvalidDigit => "invalid digit found in string",
            NumberError::TooLarge => "number too large to fit in target type",
        }
    }
}

/// Value of a decimal digit.
pub open spec fn digit_value(c: char) -> Option<int> {
    if '0' <= c <= '9' {
        Some(c as int - '0' as int)
    } else {
        None
    }
}

/// Value of a run of decimal digits, read from the left. The first
/// character that is no digit, or with which the value exceeds `max`,
/// decides the error.
pub open spec fn digits_value(s: Seq<char>, max: int) -> Result<int, NumberError>
    decreases s.len(),
{
    if s.len() == 0 {
        Ok(0)
    } else {
        match digits_value(s.drop_last(), max) {
            Err(e) => Err(e),
            Ok(v) => match digit_value(s.last()) {
                None => Err(NumberError::InvalidDigit),
                Some(d) => if v * 10 + d > max {
                    Err(NumberError::TooLarge)
                } else {
                    Ok(v * 10 + d)
                },
            },
        }
    }
}

/// The number a text denotes: decimal digits, with an optional `+` in
/// front, and no more than `max`.
pub open spec fn number_value(s: Seq<char>, max: int) -> Result<int, NumberError> {
    if s.len() == 0 {
        Err(NumberError::Empty)
    } else if s[0] == '+' {
        if s.len() == 1 {
            Err(NumberError::InvalidDigit)
        } else {
            digits_value(s.skip(1), max)
        }
    } else {
        digits_value(s, max)
    }
}

/// Reads a number that is at most `max`.
pub fn parse_number(text: &str, max: u64) -> (r: Result<u64, NumberError>)
    ensures
        r is Ok <==> number_value(text@, max as int) is Ok,
        r is Ok ==> r->Ok_0 == number_value(text@, max as int)->Ok_0,
        r is Err ==> r->Err_0 == number_value(text@, max as int)->Err_0,
{
    let v = chars_of(text);
    let len: usize = v.len();
    if len == 0 {
        return Err(NumberError::Empty);
    }
    let start: usize = if v[0] == '+' {
        1
    } else {
        0
    };
    if start == len {
        return Err(NumberError::InvalidDigit);
    }
    let ghost body = text@.skip(start as int);
    let mut value: u64 = 0;
    let mut i: usize = start;
    proof {
        assert(body.take(0) =~= Seq::<char>::empty());
        if start == 0 {
            assert(body =~= text@);
        }
        assert(number_value(text@, max as int) == digits_value(body, max as int));
    }
    while i < len
        invariant
            v@ == text@,
            len == text@.len(),
            start <= i <= len,
            body == text@.skip(start as int),
            number_value(text@, max as int) == digits_value(body, max as int),
            digits_value(body.take(i - start), max as int) == Ok::<int, NumberError>(
                value as int,
            ),
            value <= max,
        decreases len - i,
    {
        let c: char = v[i];
        let ghost upto = body.take(i - start + 1);
        proof {
            assert(upto.drop_last() =~= body.take(i - start));
            assert(upto.last() == c);
        }
        if c < '0' || c > '9' {
            proof {
                assert(digit_value(c) is None);
                assert(digits_value(upto, max as int) == Err::<int, NumberError>(
                    NumberError::InvalidDigit,
                ));
                lemma_digits_error_stays(body, max as int, i - start + 1);
            }
            return Err(NumberError::InvalidDigit);
        }
        let d: u64 = ((c as u32) - ('0' as u32)) as u64;
        assert(digit_value(c) == Some(d as int));
        if d > max || value > (max - d) / 10 {
            proof {
                assert(value * 10 + d > max) by (nonlinear_arith)
                    requires
                        d > max || (d <= max && value > (max - d) / 10),
                        0 <= d <= 9,
                        0 <= value,
                ;
                assert(digits_value(upto, max as int) == Err::<int, NumberError>(
                    NumberError::TooLarge,
                ));
                lemma_digits_error_stays(body, max as int, i - start + 1);
            }
            return Err(NumberError::TooLarge);
        }
        assert(value * 10 + d <= max) by (nonlinear_arith)
            requires
                value <= (max - d) / 10,
                0 <= d <= max,
        ;
        value = value * 10 + d;
        assert(digits_value(upto, max as int) == Ok::<int, NumberError>(value as int));
        i = i + 1;
    }
    proof {
        assert(body.take(len - start) =~= body);
    }
    Ok(value)
}

/// Once a prefix is in error, so is the whole, with the same error.
pub proof fn lemma_digits_error_stays(s: Seq<char>, max: int, n: int)
    requires
        0 <= n <= s.len(),
        digits_value(s.take(n), max) is Err,
    ensures
        digits_value(s, max) == digits_value(s.take(n), max),
    decreases s.len() - n,
{
    if n == s.len() {
        assert(s.take(n) =~= s);
    } else {
        assert(s.take(n + 1).drop_last() =~= s.take(n));
        lemma_digits_error_stays(s, max, n + 1);
    }
}

} // verus!
