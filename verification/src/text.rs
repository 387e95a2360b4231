//! Text helpers shared by the bot's formatting and parsing code.

use vstd::prelude::*;

verus! {

broadcast use vstd::string::group_string_axioms;

pub assume_specification[ std::string::String::push ](s: &mut String, ch: char)
    ensures
        final(s)@ == old(s)@.push(ch),
;

/// Returns the characters of `s` as a vector.
pub fn chars_of(s: &str) -> (v: Vec<char>)
    ensures
        v@ == s@,
{
    let mut v: Vec<char> = Vec::new();
    for c in it: s.chars()
        invariant
            v@ == it.seq().take(it.index()),
            it.seq() == s@,
    {
        v.push(c);
    }
    v
}

/// Builds a `String` from a sequence of characters.
pub fn string_from_chars(v: &Vec<char>) -> (s: String)
    ensures
        s@ == v@,
{
    let mut s = String::new();
    let mut i: usize = 0;
    while i < v.len()
        invariant
            i <= v.len(),
            s@ == v@.take(i as int),
        decreases v.len() - i,
    {
        s.push(v[i]);
        assert(v@.take(i as int).push(v@[i as int]) =~= v@.take(i + 1));
        i = i + 1;
    }
    assert(v@.take(v.len() as int) =~= v@);
    s
}

} // verus!

verus! {

/// The character of a decimal digit.
pub open spec fn digit_char(d: nat) -> char {
    if d == 0 { '0' }
    else if d == 1 { '1' }
    else if d == 2 { '2' }
    else if d == 3 { '3' }
    else if d == 4 { '4' }
    else if d == 5 { '5' }
    else if d == 6 { '6' }
    else if d == 7 { '7' }
    else if d == 8 { '8' }
    else { '9' }
}

/// Decimal notation of a natural number, without leading zeros.
pub open spec fn decimal(n: nat) -> Seq<char>
    decreases n,
{
    if n < 10 {
        seq![digit_char(n)]
    } else {
        decimal(n / 10).push(digit_char(n % 10))
    }
}

/// Decimal notation padded with zeros to at least two digits (`{:02}`).
pub open spec fn decimal_pad2(n: nat) -> Seq<char> {
    if n < 10 {
        seq!['0', digit_char(n)]
    } else {
        decimal(n)
    }
}

/// Decimal notation of a signed integer (`{}` of an `i64`).
pub open spec fn signed_decimal(n: int) -> Seq<char> {
    if n < 0 {
        seq!['-'] + decimal((-n) as nat)
    } else {
        decimal(n as nat)
    }
}

fn digit(d: u64) -> (c: char)
    requires
        d < 10,
    ensures
        c == digit_char(d as nat),
{
    match d {
        0 => '0',
        1 => '1',
        2 => '2',
        3 => '3',
        4 => '4',
        5 => '5',
        6 => '6',
        7 => '7',
        8 => '8',
        _ => '9',
    }
}

/// Appends the decimal notation of `n` to `s`.
pub fn push_decimal(s: &mut String, n: u64)
    ensures
        final(s)@ == old(s)@ + decimal(n as nat),
    decreases n,
{
    if n >= 10 {
        push_decimal(s, n / 10);
    }
    s.push(digit(n % 10));
    proof {
        if n >= 10 {
            assert(old(s)@ + decimal(n as nat) =~= old(s)@ + decimal((n / 10) as nat) + seq![
                digit_char((n % 10) as nat),
            ]);
        } else {
            assert(old(s)@ + decimal(n as nat) =~= old(s)@.push(digit_char(n as nat)));
        }
    }
}

/// Appends `n` zero-padded to two digits.
pub fn push_decimal_pad2(s: &mut String, n: u64)
    ensures
        final(s)@ == old(s)@ + decimal_pad2(n as nat),
{
    if n < 10 {
        s.push('0');
        s.push(digit(n));
        assert(final(s)@ =~= old(s)@ + decimal_pad2(n as nat));
    } else {
        push_decimal(s, n);
    }
}

/// Appends the decimal notation of a signed integer.
pub fn push_signed_decimal(s: &mut String, n: i64)
    ensures
        final(s)@ == old(s)@ + signed_decimal(n as int),
{
    if n < 0 {
        s.push('-');
        let magnitude: u64 = ((-(n + 1)) as u64) + 1;
        push_decimal(s, magnitude);
        assert(final(s)@ =~= old(s)@ + signed_decimal(n as int));
    } else {
        push_decimal(s, n as u64);
    }
}

/// Appends a string slice.
pub fn push_str(s: &mut String, t: &str)
    ensures
        final(s)@ == old(s)@ + t@,
{
    for c in it: t.chars()
        invariant
            s@ == old(s)@ + it.seq().take(it.index()),
            it.seq() == t@,
    {
        s.push(c);
        assert(old(s)@ + it.seq().take(it.index() + 1) =~= (old(s)@ + it.seq().take(it.index())).push(c));
    }
    assert(t@.take(t@.len() as int) =~= t@);
}

} // verus!

verus! {

/// Whether `c` has the Unicode `White_Space` property, which is what
/// `char::is_whitespace`, `str::trim` and `str::split_whitespace` test.
pub open spec fn is_whitespace(c: char) -> bool {
    let x = c as u32;
    (0x9 <= x && x <= 0xd) || x == 0x20 || x == 0x85 || x == 0xa0 || x == 0x1680 || (0x2000 <= x && x
        <= 0x200a) || x == 0x2028 || x == 0x2029 || x == 0x202f || x == 0x205f || x == 0x3000
}

/// Tests `c` for the Unicode `White_Space` property.
pub fn char_is_whitespace(c: char) -> (r: bool)
    ensures
        r == is_whitespace(c),
{
    let x = c as u32;
    (0x9 <= x && x <= 0xd) || x == 0x20 || x == 0x85 || x == 0xa0 || x == 0x1680 || (0x2000 <= x && x
        <= 0x200a) || x == 0x2028 || x == 0x2029 || x == 0x202f || x == 0x205f || x == 0x3000
}

/// Whether `s` holds nothing but whitespace, i.e. `s.trim()` is empty.
pub open spec fn is_blank(s: Seq<char>) -> bool {
    forall|i: int| 0 <= i < s.len() ==> is_whitespace(#[trigger] s[i])
}

/// Whether `s.trim().is_empty()`.
pub fn str_is_blank(s: &str) -> (r: bool)
    ensures
        r == is_blank(s@),
{
    let v = chars_of(s);
    let mut i: usize = 0;
    while i < v.len()
        invariant
            v@ == s@,
            i <= v.len(),
            forall|k: int| 0 <= k < i ==> is_whitespace(#[trigger] s@[k]),
        decreases v.len() - i,
    {
        if !char_is_whitespace(v[i]) {
            return false;
        }
        i = i + 1;
    }
    true
}

/// Length of the run of non-whitespace characters that `s` starts with.
pub open spec fn word_len(s: Seq<char>) -> nat
    decreases s.len(),
{
    if s.len() == 0 || is_whitespace(s[0]) {
        0
    } else {
        1 + word_len(s.drop_first())
    }
}

pub proof fn lemma_word_len_bounds(s: Seq<char>)
    ensures
        word_len(s) <= s.len(),
        s.len() > 0 && !is_whitespace(s[0]) ==> word_len(s) >= 1,
    decreases s.len(),
{
    if s.len() > 0 && !is_whitespace(s[0]) {
        lemma_word_len_bounds(s.drop_first());
    }
}

/// The whitespace-separated words of `s`, as `str::split_whitespace` yields them.
pub open spec fn words(s: Seq<char>) -> Seq<Seq<char>>
    decreases s.len(),
{
    if s.len() == 0 {
        Seq::empty()
    } else if is_whitespace(s[0]) {
        words(s.drop_first())
    } else {
        proof {
            lemma_word_len_bounds(s);
        }
        seq![s.take(word_len(s) as int)] + words(s.skip(word_len(s) as int))
    }
}

/// Finds the first word of `v` at or after `from`: its start and end.
pub fn next_word(v: &Vec<char>, from: usize) -> (found: Option<(usize, usize)>)
    requires
        from <= v.len(),
    ensures
        found is None ==> words(v@.skip(from as int)).len() == 0,
        found matches Some((start, end)) ==> {
            &&& from <= start < end <= v.len()
            &&& words(v@.skip(from as int)).len() > 0
            &&& words(v@.skip(from as int))[0] == v@.subrange(start as int, end as int)
            &&& words(v@.skip(from as int)).drop_first() == words(v@.skip(end as int))
        },
{
    let mut i = from;
    while i < v.len() && char_is_whitespace(v[i])
        invariant
            from <= i <= v.len(),
            words(v@.skip(from as int)) == words(v@.skip(i as int)),
        decreases v.len() - i,
    {
        assert(v@.skip(i as int).drop_first() =~= v@.skip(i + 1));
        i = i + 1;
    }
    if i == v.len() {
        assert(v@.skip(i as int) =~= Seq::<char>::empty());
        return None;
    }
    let mut j = i + 1;
    assert(v@.skip(i as int).drop_first() =~= v@.skip(j as int));
    while j < v.len() && !char_is_whitespace(v[j])
        invariant
            i < j <= v.len(),
            word_len(v@.skip(i as int)) == (j - i) + word_len(v@.skip(j as int)),
        decreases v.len() - j,
    {
        assert(v@.skip(j as int).drop_first() =~= v@.skip(j + 1));
        j = j + 1;
    }
    assert(word_len(v@.skip(j as int)) == 0);
    let ghost rest = v@.skip(i as int);
    assert(rest.take((j - i) as int) =~= v@.subrange(i as int, j as int));
    assert(rest.skip((j - i) as int) =~= v@.skip(j as int));
    Some((i, j))
}

/// Whether two strings hold the same text.
pub fn same_text(a: &str, b: &str) -> (r: bool)
    ensures
        r == (a@ == b@),
{
    let x = a.to_owned();
    let y = b.to_owned();
    x.eq(&y)
}

/// Whether `s` begins with `prefix`.
pub open spec fn has_prefix(s: Seq<char>, prefix: Seq<char>) -> bool {
    prefix.len() <= s.len() && s.take(prefix.len() as int) == prefix
}

/// Whether the text of `s` begins with the text of `prefix` (`str::starts_with`).
pub fn chars_start_with(s: &Vec<char>, prefix: &Vec<char>) -> (r: bool)
    ensures
        r == has_prefix(s@, prefix@),
{
    if prefix.len() > s.len() {
        return false;
    }
    let mut i: usize = 0;
    while i < prefix.len()
        invariant
            prefix.len() <= s.len(),
            i <= prefix.len(),
            forall|k: int| 0 <= k < i ==> s@[k] == prefix@[k],
        decreases prefix.len() - i,
    {
        if s[i] != prefix[i] {
            assert(s@.take(prefix.len() as int)[i as int] != prefix@[i as int]);
            return false;
        }
        i = i + 1;
    }
    assert(s@.take(prefix.len() as int) =~= prefix@);
    true
}

/// Copies `v[start..end]` into a new `String`.
pub fn string_from_range(v: &Vec<char>, start: usize, end: usize) -> (s: String)
    requires
        start <= end <= v.len(),
    ensures
        s@ == v@.subrange(start as int, end as int),
{
    let mut s = String::new();
    let mut i = start;
    while i < end
        invariant
            start <= i <= end <= v.len(),
            s@ == v@.subrange(start as int, i as int),
        decreases end - i,
    {
        s.push(v[i]);
        assert(v@.subrange(start as int, i as int).push(v@[i as int]) =~= v@.subrange(start as int, i + 1));
        i = i + 1;
    }
    s
}

} // verus!

verus! {

/// Number of characters before the first `sep` in `s` (all of them when there is none).
pub open spec fn segment_len(s: Seq<char>, sep: char) -> nat
    decreases s.len(),
{
    if s.len() == 0 || s[0] == sep {
        0
    } else {
        1 + segment_len(s.drop_first(), sep)
    }
}

pub proof fn lemma_segment_len_bounds(s: Seq<char>, sep: char)
    ensures
        segment_len(s, sep) <= s.len(),
        segment_len(s, sep) < s.len() ==> s[segment_len(s, sep) as int] == sep,
    decreases s.len(),
{
    if s.len() > 0 && s[0] != sep {
        lemma_segment_len_bounds(s.drop_first(), sep);
    }
}

/// The pieces of `s` between occurrences of `sep`, as `str::split(sep)` yields them.
pub open spec fn split_on(s: Seq<char>, sep: char) -> Seq<Seq<char>>
    decreases s.len(),
{
    proof {
        lemma_segment_len_bounds(s, sep);
    }
    if segment_len(s, sep) < s.len() {
        seq![s.take(segment_len(s, sep) as int)] + split_on(s.skip(segment_len(s, sep) as int + 1), sep)
    } else {
        seq![s]
    }
}

/// Finds where the piece of `v` that starts at `from` ends: at the next `sep`, or at the end.
pub fn segment_end(v: &Vec<char>, from: usize, sep: char) -> (end: usize)
    requires
        from <= v.len(),
    ensures
        from <= end <= v.len(),
        end < v.len() ==> split_on(v@.skip(from as int), sep) == seq![v@.subrange(from as int, end as int)]
            + split_on(v@.skip(end + 1), sep),
        end == v.len() ==> split_on(v@.skip(from as int), sep) == seq![v@.subrange(from as int, end as int)],
{
    let mut j = from;
    while j < v.len() && v[j] != sep
        invariant
            from <= j <= v.len(),
            segment_len(v@.skip(from as int), sep) == (j - from) + segment_len(v@.skip(j as int), sep),
        decreases v.len() - j,
    {
        assert(v@.skip(j as int).drop_first() =~= v@.skip(j + 1));
        j = j + 1;
    }
    let ghost rest = v@.skip(from as int);
    assert(segment_len(v@.skip(j as int), sep) == 0);
    assert(rest.take((j - from) as int) =~= v@.subrange(from as int, j as int));
    if j < v.len() {
        assert(rest.skip((j - from) + 1) =~= v@.skip(j + 1));
    } else {
        assert(rest =~= v@.subrange(from as int, j as int));
    }
    j
}

/// Copies `v[start..end]` into a new vector.
pub fn chars_range(v: &Vec<char>, start: usize, end: usize) -> (r: Vec<char>)
    requires
        start <= end <= v.len(),
    ensures
        r@ == v@.subrange(start as int, end as int),
{
    let mut r: Vec<char> = Vec::new();
    let mut i = start;
    while i < end
        invariant
            start <= i <= end <= v.len(),
            r@ == v@.subrange(start as int, i as int),
        decreases end - i,
    {
        r.push(v[i]);
        assert(v@.subrange(start as int, i as int).push(v@[i as int]) =~= v@.subrange(start as int, i + 1));
        i = i + 1;
    }
    r
}

/// Appends `v[start..end]` to `s`.
pub fn push_range(s: &mut String, v: &Vec<char>, start: usize, end: usize)
    requires
        start <= end <= v.len(),
    ensures
        final(s)@ == old(s)@ + v@.subrange(start as int, end as int),
{
    let mut i = start;
    while i < end
        invariant
            start <= i <= end <= v.len(),
            s@ == old(s)@ + v@.subrange(start as int, i as int),
        decreases end - i,
    {
        s.push(v[i]);
        assert(old(s)@ + v@.subrange(start as int, i + 1) =~= (old(s)@ + v@.subrange(start as int, i as int)).push(v@[i as int]));
        i = i + 1;
    }
}

/// The first whitespace-separated word of `s`, or all of `s` when it has none
/// (`s.split_whitespace().next().unwrap_or(s)`).
pub open spec fn first_word_or_all(s: Seq<char>) -> Seq<char> {
    if words(s).len() > 0 {
        words(s)[0]
    } else {
        s
    }
}

} // verus!

verus! {

/// `s` without every trailing `c` (`str::trim_end_matches(c)`).
pub open spec fn trim_end_char(s: Seq<char>, c: char) -> Seq<char>
    decreases s.len(),
{
    if s.len() > 0 && s.last() == c {
        trim_end_char(s.drop_last(), c)
    } else {
        s
    }
}

/// Appends `t` without its trailing `c` characters to `s`.
pub fn push_trimmed_end(s: &mut String, t: &str, c: char)
    ensures
        final(s)@ == old(s)@ + trim_end_char(t@, c),
{
    let v = chars_of(t);
    let mut end = v.len();
    assert(v@.take(end as int) =~= v@);
    while end > 0 && v[end - 1] == c
        invariant
            end <= v.len(),
            v@ == t@,
            trim_end_char(t@, c) == trim_end_char(v@.take(end as int), c),
        decreases end,
    {
        assert(v@.take(end as int).drop_last() =~= v@.take(end - 1));
        end = end - 1;
    }
    assert(trim_end_char(v@.take(end as int), c) == v@.take(end as int));
    assert(v@.take(end as int) =~= v@.subrange(0, end as int));
    push_range(s, &v, 0, end);
}

} // verus!

verus! {

/// The text of an optional string.
pub open spec fn opt_text(o: Option<String>) -> Option<Seq<char>> {
    match o {
        Some(s) => Some(s@),
        None => None,
    }
}

/// The text of an optional string slice.
pub open spec fn opt_str_text(o: Option<&str>) -> Option<Seq<char>> {
    match o {
        Some(s) => Some(s@),
        None => None,
    }
}

/// A copy of a string slice.
pub fn owned(s: &str) -> (r: String)
    ensures
        r@ == s@,
{
    s.to_owned()
}

} // verus!

verus! {

/// `line` without the carriage return that ends it, if any.
pub open spec fn strip_cr(line: Seq<char>) -> Seq<char> {
    if line.len() > 0 && line.last() == '\r' {
        line.drop_last()
    } else {
        line
    }
}

/// The lines of `s`, as `str::lines` yields them: split at each `\n`, with a
/// `\r` just before the `\n` dropped, and no empty line after a final `\n`.
pub open spec fn lines(s: Seq<char>) -> Seq<Seq<char>>
    decreases s.len(),
{
    if s.len() == 0 {
        Seq::empty()
    } else {
        proof {
            lemma_segment_len_bounds(s, '\n');
        }
        if segment_len(s, '\n') < s.len() {
            seq![strip_cr(s.take(segment_len(s, '\n') as int))] + lines(s.skip(segment_len(s, '\n') as int + 1))
        } else {
            seq![s]
        }
    }
}

/// Finds the line of `v` that starts at `from`: where its text ends and
/// where the line ends (at its `\n`, or at the end of `v`).
pub fn line_at(v: &Vec<char>, from: usize) -> (bounds: (usize, usize))
    requires
        from < v.len(),
    ensures
        from <= bounds.0 <= bounds.1 <= v.len(),
        lines(v@.skip(from as int)).len() > 0,
        lines(v@.skip(from as int))[0] == v@.subrange(from as int, bounds.0 as int),
        bounds.1 < v.len() ==> lines(v@.skip(from as int)).drop_first() == lines(v@.skip(bounds.1 + 1)),
        bounds.1 == v.len() ==> lines(v@.skip(from as int)).len() == 1,
{
    let mut j = from;
    while j < v.len() && v[j] != '\n'
        invariant
            from <= j <= v.len(),
            segment_len(v@.skip(from as int), '\n') == (j - from) + segment_len(v@.skip(j as int), '\n'),
        decreases v.len() - j,
    {
        assert(v@.skip(j as int).drop_first() =~= v@.skip(j + 1));
        j = j + 1;
    }
    let ghost rest = v@.skip(from as int);
    assert(segment_len(v@.skip(j as int), '\n') == 0);
    assert(rest.take((j - from) as int) =~= v@.subrange(from as int, j as int));
    if j < v.len() {
        assert(rest.skip((j - from) as int + 1) =~= v@.skip(j + 1));
        let text_end = if j > from && v[j - 1] == '\r' { j - 1 } else { j };
        assert(strip_cr(v@.subrange(from as int, j as int)) =~= v@.subrange(from as int, text_end as int));
        assert(lines(rest) =~= seq![v@.subrange(from as int, text_end as int)] + lines(v@.skip(j + 1)));
        (text_end, j)
    } else {
        assert(rest =~= v@.subrange(from as int, j as int));
        (j, j)
    }
}

/// Whether `c` is an ASCII decimal digit.
pub open spec fn is_ascii_digit(c: char) -> bool {
    '0' <= c <= '9'
}

/// The value of a run of decimal digits.
pub open spec fn digits_value(d: Seq<char>) -> nat
    decreases d.len(),
{
    if d.len() == 0 {
        0
    } else {
        digits_value(d.drop_last()) * 10 + ((d.last() as u32) - ('0' as u32)) as nat
    }
}

proof fn lemma_digit_char_value(d: nat)
    requires
        d < 10,
    ensures
        is_ascii_digit(digit_char(d)),
        ((digit_char(d) as u32) - ('0' as u32)) as nat == d,
{
    assert('0' as u32 == 48);
    assert('9' as u32 == 57);
}

/// The decimal notation reads back as the number: it is a non-empty run of
/// ASCII digits whose value is `n`.
pub proof fn lemma_decimal_reads_back(n: nat)
    ensures
        decimal(n).len() > 0,
        forall|i: int| 0 <= i < decimal(n).len() ==> is_ascii_digit(#[trigger] decimal(n)[i]),
        digits_value(decimal(n)) == n,
    decreases n,
{
    let d = decimal(n);
    lemma_digit_char_value(n % 10);
    if n < 10 {
        assert(d =~= seq![digit_char(n)]);
        assert(d.drop_last() =~= Seq::<char>::empty());
        assert(d.last() == digit_char(n));
        assert(digits_value(d) == digits_value(d.drop_last()) * 10 + ((d.last() as u32) - ('0' as u32)) as nat);
    } else {
        lemma_decimal_reads_back(n / 10);
        let init = decimal(n / 10);
        assert(d =~= init.push(digit_char(n % 10)));
        assert(d.drop_last() =~= init);
        assert(d.last() == digit_char(n % 10));
        assert(digits_value(d) == digits_value(d.drop_last()) * 10 + ((d.last() as u32) - ('0' as u32)) as nat);
        assert forall|i: int| 0 <= i < d.len() implies is_ascii_digit(#[trigger] d[i]) by {
            if i < init.len() {
                assert(d[i] == init[i]);
            }
        }
    }
}

/// The two-digit notation reads back as the number: below 100 it is exactly
/// two ASCII digits whose value is `n`.
pub proof fn lemma_decimal_pad2_reads_back(n: nat)
    requires
        n < 100,
    ensures
        decimal_pad2(n).len() == 2,
        forall|i: int| 0 <= i < 2 ==> is_ascii_digit(#[trigger] decimal_pad2(n)[i]),
        digits_value(decimal_pad2(n)) == n,
{
    let d = decimal_pad2(n);
    lemma_digit_char_value(0);
    lemma_digit_char_value(n % 10);
    if n < 10 {
        assert(d =~= seq!['0', digit_char(n)]);
        assert(d.drop_last() =~= seq!['0']);
        assert(seq!['0'].drop_last() =~= Seq::<char>::empty());
        assert(seq!['0'].last() == '0');
        assert(digits_value(seq!['0']) == digits_value(seq!['0'].drop_last()) * 10 + (('0' as u32) - ('0' as u32)) as nat);
        assert(digits_value(d) == digits_value(d.drop_last()) * 10 + ((d.last() as u32) - ('0' as u32)) as nat);
    } else {
        lemma_decimal_reads_back(n);
        lemma_digit_char_value(n / 10);
        assert(decimal(n / 10) == seq![digit_char(n / 10)]);
    }
}

/// `t` without one leading `+`.
pub open spec fn unsigned_digits(t: Seq<char>) -> Seq<char> {
    if t.len() > 0 && t[0] == '+' {
        t.drop_first()
    } else {
        t
    }
}

/// What `str::parse::<u64>` gives for `t`: an optional `+` followed by at
/// least one ASCII digit, whose value fits in a `u64`.
pub open spec fn parse_u64(t: Seq<char>) -> Option<u64> {
    let d = unsigned_digits(t);
    if d.len() > 0 && (forall|i: int| 0 <= i < d.len() ==> is_ascii_digit(#[trigger] d[i])) && digits_value(d)
        <= u64::MAX {
        Some(digits_value(d) as u64)
    } else {
        None
    }
}

proof fn lemma_digits_value_monotone(d: Seq<char>, k: int)
    requires
        0 <= k <= d.len(),
        forall|i: int| 0 <= i < d.len() ==> is_ascii_digit(#[trigger] d[i]),
    ensures
        digits_value(d.take(k)) <= digits_value(d),
    decreases d.len(),
{
    if k < d.len() {
        let init = d.drop_last();
        assert forall|i: int| 0 <= i < init.len() implies is_ascii_digit(#[trigger] init[i]) by {
            assert(init[i] == d[i]);
        }
        lemma_digits_value_monotone(init, k);
        assert(init.take(k) =~= d.take(k));
    } else {
        assert(d.take(k) =~= d);
    }
}

/// Parses `v[start..end]` as `str::parse::<u64>` does.
pub fn parse_u64_range(v: &Vec<char>, start: usize, end: usize) -> (value: Option<u64>)
    requires
        start <= end <= v.len(),
    ensures
        value == parse_u64(v@.subrange(start as int, end as int)),
{
    let ghost t = v@.subrange(start as int, end as int);
    let mut i = start;
    if i < end && v[i] == '+' {
        i = i + 1;
    }
    let ghost d = unsigned_digits(t);
    assert(d =~= v@.subrange(i as int, end as int));
    if i == end {
        return None;
    }
    let first = i;
    let mut value: u64 = 0;
    while i < end
        invariant
            start <= first <= i <= end <= v.len(),
            first < end,
            d == v@.subrange(first as int, end as int),
            d == unsigned_digits(t),
            t == v@.subrange(start as int, end as int),
            forall|k: int| 0 <= k < i - first ==> is_ascii_digit(#[trigger] d[k]),
            value == digits_value(d.take(i - first)),
        decreases end - i,
    {
        let c = v[i];
        if !('0' <= c && c <= '9') {
            assert(!is_ascii_digit(d[i - first]));
            return None;
        }
        let digit = (c as u32 - '0' as u32) as u64;
        assert(d.take(i - first + 1).drop_last() =~= d.take(i - first));
        match value.checked_mul(10) {
            None => {
                proof {
                    if forall|k: int| 0 <= k < d.len() ==> is_ascii_digit(#[trigger] d[k]) {
                        lemma_digits_value_monotone(d, i - first + 1);
                    }
                }
                return None;
            },
            Some(scaled) => match scaled.checked_add(digit) {
                None => {
                    proof {
                        if forall|k: int| 0 <= k < d.len() ==> is_ascii_digit(#[trigger] d[k]) {
                            lemma_digits_value_monotone(d, i - first + 1);
                        }
                    }
                    return None;
                },
                Some(next) => {
                    value = next;
                },
            },
        }
        i = i + 1;
    }
    assert(d.take(end - first) =~= d);
    Some(value)
}

} // verus!

verus! {

/// `s` without every leading `c` (`str::trim_start_matches(c)`).
pub open spec fn trim_start_char(s: Seq<char>, c: char) -> Seq<char>
    decreases s.len(),
{
    if s.len() > 0 && s[0] == c {
        trim_start_char(s.drop_first(), c)
    } else {
        s
    }
}

/// Copies `t` without its leading `c` characters.
pub fn trimmed_start(t: &str, c: char) -> (r: String)
    ensures
        r@ == trim_start_char(t@, c),
{
    let v = chars_of(t);
    let mut start: usize = 0;
    assert(v@.skip(0) =~= v@);
    while start < v.len() && v[start] == c
        invariant
            start <= v.len(),
            v@ == t@,
            trim_start_char(t@, c) == trim_start_char(v@.skip(start as int), c),
        decreases v.len() - start,
    {
        assert(v@.skip(start as int).drop_first() =~= v@.skip(start + 1));
        start = start + 1;
    }
    assert(v@.skip(start as int) =~= v@.subrange(start as int, v@.len() as int));
    string_from_range(&v, start, v.len())
}

} // verus!
