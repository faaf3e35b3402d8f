use vstd::prelude::*;
use vstd::string::*;

verus! {

/// The characters of `s`, in order.
pub fn chars_of(s: &str) -> (r: Vec<char>)
    ensures
        r@ == s@,
{
    broadcast use vstd::string::group_string_axioms;
    let mut r: Vec<char> = Vec::new();
    for c in it: s.chars()
        invariant
            it.seq() == s@,
            r@ == it.seq().take(it.index() as int),
    {
        r.push(c);
    }
    r
}

} // verus!

verus! {

/// `s` cut at every `'\n'`; the separators are dropped and there is always at
/// least one piece (the text after the last separator, maybe empty).
pub open spec fn split_newlines(s: Seq<char>) -> Seq<Seq<char>>
    decreases s.len(),
{
    if s.len() == 0 {
        seq![Seq::<char>::empty()]
    } else if s.last() == '\n' {
        split_newlines(s.drop_last()).push(Seq::<char>::empty())
    } else {
        let p = split_newlines(s.drop_last());
        p.update(p.len() - 1, p.last().push(s.last()))
    }
}

/// A line without the `'\r'` of a `"\r\n"` ending.
pub open spec fn strip_carriage_return(l: Seq<char>) -> Seq<char> {
    if l.len() > 0 && l.last() == '\r' {
        l.drop_last()
    } else {
        l
    }
}

/// The lines of a text: every piece ended by `'\n'` (less a `'\r'` before
/// it), then what follows the last `'\n'` if it is not empty.
pub open spec fn lines_of(s: Seq<char>) -> Seq<Seq<char>> {
    let p = split_newlines(s);
    let ended = p.drop_last().map_values(|l: Seq<char>| strip_carriage_return(l));
    if p.last().len() == 0 {
        ended
    } else {
        ended.push(p.last())
    }
}

proof fn lemma_split_newlines_nonempty(s: Seq<char>)
    ensures
        split_newlines(s).len() >= 1,
    decreases s.len(),
{
    if s.len() > 0 {
        lemma_split_newlines_nonempty(s.drop_last());
    }
}

/// The spans `[start, end)` of the lines of `chars`, in order.
pub fn line_spans(chars: &Vec<char>) -> (r: Vec<(usize, usize)>)
    ensures
        r@.len() == lines_of(chars@).len(),
        forall|k: int|
            0 <= k < r@.len() ==> {
                &&& (#[trigger] r@[k]).0 <= r@[k].1 <= chars@.len()
                &&& chars@.subrange(r@[k].0 as int, r@[k].1 as int) == lines_of(chars@)[k]
            },
{
    let ghost s = chars@;
    let n = chars.len();
    let mut done: Vec<(usize, usize)> = Vec::new();
    let mut start: usize = 0;
    let mut i: usize = 0;
    assert(s.take(0) =~= Seq::<char>::empty());
    assert(s.subrange(0, 0) =~= Seq::<char>::empty());
    while i < n
        invariant
            n == s.len(),
            s == chars@,
            start <= i <= n,
            split_newlines(s.take(i as int)).len() == done@.len() + 1,
            split_newlines(s.take(i as int)).last() == s.subrange(start as int, i as int),
            forall|k: int|
                0 <= k < done@.len() ==> {
                    &&& (#[trigger] done@[k]).0 <= done@[k].1 <= i
                    &&& s.subrange(done@[k].0 as int, done@[k].1 as int) == split_newlines(
                        s.take(i as int),
                    )[k]
                },
        decreases n - i,
    {
        let c = chars[i];
        let ghost prev = split_newlines(s.take(i as int));
        assert(s.take(i + 1).drop_last() =~= s.take(i as int));
        assert(s.take(i + 1).last() == c);
        if c == '\n' {
            done.push((start, i));
            start = i + 1;
            assert(s.subrange(start as int, i + 1) =~= Seq::<char>::empty());
        } else {
            assert(s.subrange(start as int, i + 1) =~= s.subrange(start as int, i as int).push(c));
        }
        i = i + 1;
    }
    assert(s.take(n as int) =~= s);
    proof {
        lemma_split_newlines_nonempty(s);
    }
    let ghost p = split_newlines(s);
    let mut r: Vec<(usize, usize)> = Vec::new();
    let mut k: usize = 0;
    while k < done.len()
        invariant
            s == chars@,
            n == s.len(),
            p == split_newlines(s),
            p.len() == done@.len() + 1,
            k <= done@.len(),
            r@.len() == k,
            forall|j: int|
                0 <= j < done@.len() ==> {
                    &&& (#[trigger] done@[j]).0 <= done@[j].1 <= n
                    &&& s.subrange(done@[j].0 as int, done@[j].1 as int) == p[j]
                },
            forall|j: int|
                0 <= j < k ==> {
                    &&& (#[trigger] r@[j]).0 <= r@[j].1 <= n
                    &&& s.subrange(r@[j].0 as int, r@[j].1 as int) == strip_carriage_return(p[j])
                },
        decreases done@.len() - k,
    {
        let (a, b) = done[k];
        let ghost piece = s.subrange(a as int, b as int);
        if b > a && chars[b - 1] == '\r' {
            assert(s.subrange(a as int, b - 1) =~= piece.drop_last());
            r.push((a, b - 1));
        } else {
            r.push((a, b));
        }
        k = k + 1;
    }
    let ghost ended = p.drop_last().map_values(|l: Seq<char>| strip_carriage_return(l));
    assert(ended.len() == r@.len());
    if start < n {
        r.push((start, n));
    }
    assert forall|j: int| 0 <= j < r@.len() implies (#[trigger] r@[j]).0 <= r@[j].1 <= chars@.len()
        && chars@.subrange(r@[j].0 as int, r@[j].1 as int) == lines_of(chars@)[j] by {
        if j < ended.len() {
            assert(ended[j] == strip_carriage_return(p[j]));
        }
    }
    r
}

} // verus!

verus! {

/// The index of the last `c` in `s`, or -1 where there is none.
pub open spec fn last_index_of(s: Seq<char>, c: char) -> int
    decreases s.len(),
{
    if s.len() == 0 {
        -1
    } else if s.last() == c {
        s.len() - 1
    } else {
        last_index_of(s.drop_last(), c)
    }
}

/// `last_index_of` is -1 or the index of a `c`.
pub proof fn lemma_last_index_of_range(s: Seq<char>, c: char)
    ensures
        -1 <= last_index_of(s, c) < s.len(),
        last_index_of(s, c) >= 0 ==> s[last_index_of(s, c)] == c,
    decreases s.len(),
{
    if s.len() > 0 && s.last() != c {
        lemma_last_index_of_range(s.drop_last(), c);
    }
}

/// The index of the last `c` in `chars[0..end)`, or `None`.
pub fn find_last(chars: &Vec<char>, end: usize, c: char) -> (r: Option<usize>)
    requires
        end <= chars@.len(),
    ensures
        last_index_of(chars@.take(end as int), c) == match r {
            Some(i) => i as int,
            None => -1,
        },
{
    let mut i: usize = end;
    while i > 0
        invariant
            i <= end <= chars@.len(),
            last_index_of(chars@.take(end as int), c) == last_index_of(chars@.take(i as int), c),
        decreases i,
    {
        assert(chars@.take(i as int).drop_last() =~= chars@.take(i - 1));
        if chars[i - 1] == c {
            return Some(i - 1);
        }
        i = i - 1;
    }
    None
}

/// Whether `c` is an ASCII decimal digit.
pub open spec fn is_digit(c: char) -> bool {
    '0' <= c && c <= '9'
}

/// The value of a decimal digit.
pub open spec fn digit_value(c: char) -> nat {
    (c as u32 - '0' as u32) as nat
}

/// Whether `s` is a non-empty run of decimal digits.
pub open spec fn all_digits(s: Seq<char>) -> bool {
    s.len() > 0 && forall|i: int| 0 <= i < s.len() ==> is_digit(#[trigger] s[i])
}

/// The number that a run of decimal digits writes.
pub open spec fn decimal_value(s: Seq<char>) -> nat
    decreases s.len(),
{
    if s.len() == 0 {
        0
    } else {
        decimal_value(s.drop_last()) * 10 + digit_value(s.last())
    }
}

/// A `u32` written in decimal, without sign or blanks; `None` where `s` is
/// empty, holds another character, or writes a number over `u32::MAX`.
pub open spec fn parse_decimal(s: Seq<char>) -> Option<u32> {
    if all_digits(s) && decimal_value(s) <= u32::MAX {
        Some(decimal_value(s) as u32)
    } else {
        None
    }
}

proof fn lemma_decimal_value_grows(s: Seq<char>, i: int)
    requires
        0 <= i <= s.len(),
    ensures
        decimal_value(s.take(i)) <= decimal_value(s),
    decreases s.len() - i,
{
    if i < s.len() {
        assert(s.take(i + 1).drop_last() =~= s.take(i));
        lemma_decimal_value_grows(s, i + 1);
    } else {
        assert(s.take(i) =~= s);
    }
}

/// Reads `chars[start..end)` as a decimal `u32`.
pub fn parse_decimal_span(chars: &Vec<char>, start: usize, end: usize) -> (r: Option<u32>)
    requires
        start <= end <= chars@.len(),
    ensures
        r == parse_decimal(chars@.subrange(start as int, end as int)),
{
    let ghost s = chars@.subrange(start as int, end as int);
    if start == end {
        return None;
    }
    let mut acc: u64 = 0;
    let mut i: usize = start;
    assert(s.take(0) =~= Seq::<char>::empty());
    while i < end
        invariant
            start <= i <= end <= chars@.len(),
            s == chars@.subrange(start as int, end as int),
            acc as nat == decimal_value(s.take(i - start)),
            acc <= u32::MAX,
            forall|j: int| 0 <= j < i - start ==> is_digit(#[trigger] s[j]),
        decreases end - i,
    {
        let c = chars[i];
        assert(s[i - start] == c);
        if !('0' <= c && c <= '9') {
            return None;
        }
        assert(s.take(i - start + 1).drop_last() =~= s.take(i - start));
        let d = (c as u32 - '0' as u32) as u64;
        acc = acc * 10 + d;
        i = i + 1;
        if acc > u32::MAX as u64 {
            proof {
                lemma_decimal_value_grows(s, i - start);
            }
            return None;
        }
    }
    assert(s.take(end - start) =~= s);
    Some(acc as u32)
}

/// Seconds written as `digits` or `digits.digits`, as whole milliseconds:
/// the fraction is cut after its third digit and padded with zeros.
pub open spec fn parse_seconds_as_millis(s: Seq<char>) -> Option<u32> {
    let dot = last_index_of(s, '.');
    let whole = if dot < 0 {
        s
    } else {
        s.take(dot)
    };
    let frac = if dot < 0 {
        Seq::<char>::empty()
    } else {
        s.skip(dot + 1)
    };
    if all_digits(whole) && (frac.len() == 0 || all_digits(frac)) {
        parse_decimal(whole + (frac + seq!['0', '0', '0']).take(3))
    } else {
        None
    }
}

} // verus!

verus! {

/// Whether `chars[start..end)` spells `word`.
pub fn span_equals(chars: &Vec<char>, start: usize, end: usize, word: &Vec<char>) -> (r: bool)
    requires
        start <= end <= chars@.len(),
    ensures
        r == (chars@.subrange(start as int, end as int) == word@),
{
    if end - start != word.len() {
        return false;
    }
    let mut i: usize = 0;
    while i < word.len()
        invariant
            start <= end <= chars@.len(),
            end - start == word@.len(),
            i <= word@.len(),
            forall|j: int| 0 <= j < i ==> chars@[start + j] == #[trigger] word@[j],
        decreases word@.len() - i,
    {
        if chars[start + i] != word[i] {
            assert(chars@.subrange(start as int, end as int)[i as int] != word@[i as int]);
            return false;
        }
        i = i + 1;
    }
    assert(chars@.subrange(start as int, end as int) =~= word@);
    true
}

/// Whether every character of `chars[start..end)` is a decimal digit.
pub fn span_all_digits(chars: &Vec<char>, start: usize, end: usize) -> (r: bool)
    requires
        start <= end <= chars@.len(),
    ensures
        r == all_digits(chars@.subrange(start as int, end as int)),
{
    let ghost s = chars@.subrange(start as int, end as int);
    if start == end {
        return false;
    }
    let mut i: usize = start;
    while i < end
        invariant
            start <= i <= end <= chars@.len(),
            s == chars@.subrange(start as int, end as int),
            forall|j: int| 0 <= j < i - start ==> is_digit(#[trigger] s[j]),
        decreases end - i,
    {
        let c = chars[i];
        assert(s[i - start] == c);
        if !('0' <= c && c <= '9') {
            return false;
        }
        i = i + 1;
    }
    true
}

/// Reads `chars[start..end)` as seconds, in whole milliseconds.
pub fn parse_seconds_span(chars: &Vec<char>, start: usize, end: usize) -> (r: Option<u32>)
    requires
        start <= end <= chars@.len(),
    ensures
        r == parse_seconds_as_millis(chars@.subrange(start as int, end as int)),
{
    let ghost s = chars@.subrange(start as int, end as int);
    let found = find_last(chars, end, '.');
    proof {
        lemma_last_index_of_range(chars@.take(end as int), '.');
        lemma_last_index_in_suffix(chars@.take(end as int), start as int, '.');
        assert(chars@.take(end as int).skip(start as int) =~= s);
    }
    let ghost dot = last_index_of(s, '.');
    let has_dot = match found {
        Some(d) => d >= start,
        None => false,
    };
    let whole_end = match found {
        Some(d) => if d >= start {
            d
        } else {
            end
        },
        None => end,
    };
    let frac_start = if has_dot {
        whole_end + 1
    } else {
        end
    };
    assert(has_dot <==> dot >= 0);
    assert(has_dot ==> whole_end == start + dot);
    let ghost frac = chars@.subrange(frac_start as int, end as int);
    let ghost whole = chars@.subrange(start as int, whole_end as int);
    proof {
        if dot < 0 {
            assert(whole =~= s);
            assert(frac =~= Seq::<char>::empty());
        } else {
            assert(whole =~= s.take(dot));
            assert(frac =~= s.skip(dot + 1));
        }
    }
    if !span_all_digits(chars, start, whole_end) {
        return None;
    }
    if frac_start < end && !span_all_digits(chars, frac_start, end) {
        return None;
    }
    let mut digits: Vec<char> = Vec::new();
    let mut i: usize = start;
    while i < whole_end
        invariant
            start <= i <= whole_end <= end <= chars@.len(),
            digits@ == chars@.subrange(start as int, i as int),
        decreases whole_end - i,
    {
        digits.push(chars[i]);
        i = i + 1;
        assert(digits@ =~= chars@.subrange(start as int, i as int));
    }
    let ghost padded = frac + seq!['0', '0', '0'];
    let mut j: usize = 0;
    while j < 3
        invariant
            j <= 3,
            frac_start <= end <= chars@.len(),
            frac == chars@.subrange(frac_start as int, end as int),
            padded == frac + seq!['0', '0', '0'],
            digits@ == whole + padded.take(j as int),
        decreases 3 - j,
    {
        if j < end - frac_start {
            digits.push(chars[frac_start + j]);
        } else {
            digits.push('0');
        }
        assert(digits@ =~= whole + padded.take(j + 1));
        j = j + 1;
    }
    let n = digits.len();
    assert(digits@.subrange(0, n as int) =~= digits@);
    parse_decimal_span(&digits, 0, n)
}

proof fn lemma_last_index_in_suffix(s: Seq<char>, start: int, c: char)
    requires
        0 <= start <= s.len(),
    ensures
        last_index_of(s, c) >= start ==> last_index_of(s.skip(start), c) == last_index_of(s, c)
            - start,
        last_index_of(s, c) < start ==> last_index_of(s.skip(start), c) == -1,
    decreases s.len(),
{
    lemma_last_index_of_range(s, c);
    if s.len() > start {
        assert(s.skip(start).drop_last() =~= s.drop_last().skip(start));
        if s.last() != c {
            lemma_last_index_in_suffix(s.drop_last(), start, c);
        }
    } else {
        assert(s.skip(start) =~= Seq::<char>::empty());
    }
}

} // verus!

verus! {

/// The character of a decimal digit.
pub open spec fn digit_char(d: nat) -> char {
    if d == 0 {
        '0'
    } else if d == 1 {
        '1'
    } else if d == 2 {
        '2'
    } else if d == 3 {
        '3'
    } else if d == 4 {
        '4'
    } else if d == 5 {
        '5'
    } else if d == 6 {
        '6'
    } else if d == 7 {
        '7'
    } else if d == 8 {
        '8'
    } else {
        '9'
    }
}

/// `n` written in decimal, without leading zeros.
pub open spec fn decimal_text(n: nat) -> Seq<char>
    decreases n,
{
    if n < 10 {
        seq![digit_char(n)]
    } else {
        decimal_text(n / 10).push(digit_char(n % 10))
    }
}

fn digit_str(d: u64) -> (r: &'static str)
    requires
        d < 10,
    ensures
        r@ == seq![digit_char(d as nat)],
{
    if d == 0 {
        proof { reveal_strlit("0"); }
        "0"
    } else if d == 1 {
        proof { reveal_strlit("1"); }
        "1"
    } else if d == 2 {
        proof { reveal_strlit("2"); }
        "2"
    } else if d == 3 {
        proof { reveal_strlit("3"); }
        "3"
    } else if d == 4 {
        proof { reveal_strlit("4"); }
        "4"
    } else if d == 5 {
        proof { reveal_strlit("5"); }
        "5"
    } else if d == 6 {
        proof { reveal_strlit("6"); }
        "6"
    } else if d == 7 {
        proof { reveal_strlit("7"); }
        "7"
    } else if d == 8 {
        proof { reveal_strlit("8"); }
        "8"
    } else {
        proof { reveal_strlit("9"); }
        "9"
    }
}

/// Appends `n` in decimal to `s`.
pub fn push_decimal(s: &mut String, n: u64)
    ensures
        final(s)@ == old(s)@ + decimal_text(n as nat),
    decreases n,
{
    if n >= 10 {
        push_decimal(s, n / 10);
        s.append(digit_str(n % 10));
        assert(old(s)@ + decimal_text(n as nat) =~= old(s)@ + decimal_text((n / 10) as nat) + seq![
            digit_char((n % 10) as nat),
        ]);
    } else {
        s.append(digit_str(n));
    }
}

/// A duration in milliseconds written as seconds with three decimals.
pub open spec fn seconds_text(ms: nat) -> Seq<char> {
    decimal_text(ms / 1000) + seq![
        '.',
        digit_char((ms % 1000) / 100),
        digit_char((ms % 100) / 10),
        digit_char(ms % 10),
    ]
}

/// Appends a duration in milliseconds to `s`, as seconds with three decimals.
pub fn push_seconds(s: &mut String, ms: u64)
    ensures
        final(s)@ == old(s)@ + seconds_text(ms as nat),
{
    push_decimal(s, ms / 1000);
    proof { reveal_strlit("."); }
    s.append(".");
    s.append(digit_str((ms % 1000) / 100));
    s.append(digit_str((ms % 100) / 10));
    s.append(digit_str(ms % 10));
    assert(s@ =~= old(s)@ + seconds_text(ms as nat));
}

/// `prefix` followed by `rest`, as a new string.
pub fn concat_str(prefix: &str, rest: &str) -> (r: String)
    ensures
        r@ == prefix@ + rest@,
{
    let mut r = String::from_str(prefix);
    r.append(rest);
    r
}

} // verus!

verus! {

/// `s` ending in a newline: one is added unless `s` is empty or already
/// ends with one.
pub open spec fn with_newline(s: Seq<char>) -> Seq<char> {
    if s.len() > 0 && s.last() != '\n' {
        s.push('\n')
    } else {
        s
    }
}

/// Text that should end with a line break.
pub trait NewLine {
    spec fn text(&self) -> Seq<char>;

    fn add_new_line_if_none(&mut self)
        ensures
            final(self).text() == with_newline(old(self).text()),
    ;
}

impl NewLine for String {
    open spec fn text(&self) -> Seq<char> {
        self@
    }

    fn add_new_line_if_none(&mut self) {
        let n = self.as_str().unicode_len();
        if n > 0 && self.as_str().get_char(n - 1) != '\n' {
            proof {
                reveal_strlit("\n");
            }
            self.append("\n");
        }
    }
}

} // verus!
