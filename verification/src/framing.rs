//! Line framing: every message and log record travels as one line.

use vstd::prelude::*;

verus! {

/// The characters that Unicode calls white space (those `char::is_whitespace`
/// accepts).
pub open spec fn spec_is_whitespace(c: char) -> bool {
    ||| '\u{9}' <= c <= '\u{d}'
    ||| c == ' '
    ||| c == '\u{85}'
    ||| c == '\u{a0}'
    ||| c == '\u{1680}'
    ||| '\u{2000}' <= c <= '\u{200a}'
    ||| c == '\u{2028}'
    ||| c == '\u{2029}'
    ||| c == '\u{202f}'
    ||| c == '\u{205f}'
    ||| c == '\u{3000}'
}

/// Whether `c` is white space.
pub fn is_whitespace(c: char) -> (r: bool)
    ensures
        r == spec_is_whitespace(c),
{
    ('\u{9}' <= c && c <= '\u{d}') || c == ' ' || c == '\u{85}' || c == '\u{a0}' || c == '\u{1680}'
        || ('\u{2000}' <= c && c <= '\u{200a}') || c == '\u{2028}' || c == '\u{2029}' || c
        == '\u{202f}' || c == '\u{205f}' || c == '\u{3000}'
}

/// `s` without its trailing white space.
pub open spec fn spec_trim_end(s: Seq<char>) -> Seq<char>
    decreases s.len(),
{
    if s.len() > 0 && spec_is_whitespace(s.last()) {
        spec_trim_end(s.drop_last())
    } else {
        s
    }
}

/// `s` without its leading white space.
pub open spec fn spec_trim_start(s: Seq<char>) -> Seq<char>
    decreases s.len(),
{
    if s.len() > 0 && spec_is_whitespace(s[0]) {
        spec_trim_start(s.drop_first())
    } else {
        s
    }
}

/// `s` without its leading and trailing white space.
pub open spec fn spec_trim(s: Seq<char>) -> Seq<char> {
    spec_trim_start(spec_trim_end(s))
}

/// `s` without its trailing white space (what `str::trim_end` returns).
pub fn trim_end(s: &str) -> (r: String)
    ensures
        r@ == spec_trim_end(s@),
{
    let n = s.unicode_len();
    let mut j: usize = n;
    assert(s@.subrange(0, n as int) =~= s@);
    while j > 0 && is_whitespace(s.get_char(j - 1))
        invariant
            n == s@.len(),
            j <= n,
            spec_trim_end(s@) == spec_trim_end(s@.subrange(0, j as int)),
        decreases j,
    {
        assert(s@.subrange(0, j as int).drop_last() =~= s@.subrange(0, j - 1));
        j = j - 1;
    }
    String::from_str(s.substring_char(0, j))
}

/// `s` without its leading and trailing white space (what `str::trim` returns).
pub fn trim(s: &str) -> (r: String)
    ensures
        r@ == spec_trim(s@),
{
    let t = trim_end(s);
    let u = t.as_str();
    let n = u.unicode_len();
    let mut i: usize = 0;
    assert(u@.subrange(0, n as int) =~= u@);
    while i < n && is_whitespace(u.get_char(i))
        invariant
            n == u@.len(),
            i <= n,
            spec_trim_start(u@) == spec_trim_start(u@.subrange(i as int, n as int)),
        decreases n - i,
    {
        assert(u@.subrange(i as int, n as int).drop_first() =~= u@.subrange(i + 1, n as int));
        i = i + 1;
    }
    String::from_str(u.substring_char(i, n))
}

/// A message or record as one line: its text followed by a newline.
pub fn frame(text: String) -> (line: String)
    ensures
        line@ == text@.push('\n'),
{
    proof {
        reveal_strlit("\n");
    }
    let line = text.concat("\n");
    assert(line@ =~= text@.push('\n'));
    line
}

/// The fields of `s` separated by commas, as `str::split(',')` yields them.
pub open spec fn spec_split_commas(s: Seq<char>) -> Seq<Seq<char>>
    decreases s.len(),
{
    if s.len() == 0 {
        seq![Seq::empty()]
    } else {
        let earlier = spec_split_commas(s.drop_last());
        if s.last() == ',' {
            earlier.push(Seq::empty())
        } else {
            earlier.update(earlier.len() - 1, earlier.last().push(s.last()))
        }
    }
}

/// There is always at least one field.
pub proof fn lemma_split_nonempty(s: Seq<char>)
    ensures
        spec_split_commas(s).len() >= 1,
    decreases s.len(),
{
    if s.len() > 0 {
        lemma_split_nonempty(s.drop_last());
    }
}

/// Splitting the first `j` characters, where the last comma before `j` is
/// just before `start`: the fields closed so far, then `s[start..j]`.
proof fn lemma_split_step(s: Seq<char>, j: int)
    requires
        0 <= j < s.len(),
    ensures
        spec_split_commas(s.subrange(0, j + 1)) == if s[j] == ',' {
            spec_split_commas(s.subrange(0, j)).push(Seq::empty())
        } else {
            let e = spec_split_commas(s.subrange(0, j));
            e.update(e.len() - 1, e.last().push(s[j]))
        },
{
    assert(s.subrange(0, j + 1).drop_last() =~= s.subrange(0, j));
}

/// The comma-separated fields of `s`.
pub fn split_fields(s: &str) -> (fields: Vec<String>)
    ensures
        fields@.map_values(|f: String| f@) == spec_split_commas(s@),
{
    let n = s.unicode_len();
    let mut fields: Vec<String> = Vec::new();
    let mut start: usize = 0;
    let mut j: usize = 0;
    assert(s@.subrange(0, 0) =~= Seq::<char>::empty());
    assert(fields@.map_values(|f: String| f@) =~= Seq::<Seq<char>>::empty());
    assert(fields@.map_values(|f: String| f@).push(s@.subrange(0, 0)) =~= seq![Seq::<char>::empty()]);
    while j < n
        invariant
            n == s@.len(),
            start <= j <= n,
            fields@.map_values(|f: String| f@).push(s@.subrange(start as int, j as int))
                == spec_split_commas(s@.subrange(0, j as int)),
        decreases n - j,
    {
        let ghost prev = fields@.map_values(|f: String| f@);
        proof {
            lemma_split_step(s@, j as int);
            lemma_split_nonempty(s@.subrange(0, j as int));
        }
        if s.get_char(j) == ',' {
            let f = String::from_str(s.substring_char(start, j));
            fields.push(f);
            assert(fields@.map_values(|f: String| f@) =~= prev.push(s@.subrange(start as int, j as int)));
            assert(s@.subrange(j + 1, j + 1) =~= Seq::<char>::empty());
            start = j + 1;
        } else {
            assert(s@.subrange(start as int, j + 1) =~= s@.subrange(start as int, j as int).push(s@[j as int]));
        }
        j = j + 1;
    }
    let last = String::from_str(s.substring_char(start, n));
    let ghost prev = fields@.map_values(|f: String| f@);
    fields.push(last);
    assert(fields@.map_values(|f: String| f@) =~= prev.push(s@.subrange(start as int, n as int)));
    assert(s@.subrange(0, n as int) =~= s@);
    fields
}

/// A framed line, read back with its trailing white space removed, gives
/// back the text it carried, whenever the text itself does not end in white
/// space (as JSON text never does).
pub proof fn law_frame_then_trim_end(text: Seq<char>)
    requires
        text.len() == 0 || !spec_is_whitespace(text.last()),
    ensures
        spec_trim_end(text.push('\n')) == text,
{
    let framed = text.push('\n');
    assert(framed.drop_last() =~= text);
    assert(spec_is_whitespace(framed.last()));
    assert(spec_trim_end(framed) == spec_trim_end(text));
    assert(spec_trim_end(text) == text);
}

/// The fields joined back, with a comma between consecutive fields.
pub open spec fn join_commas(fields: Seq<Seq<char>>) -> Seq<char>
    decreases fields.len(),
{
    if fields.len() == 0 {
        Seq::empty()
    } else if fields.len() == 1 {
        fields[0]
    } else {
        join_commas(fields.drop_last()).push(',') + fields.last()
    }
}

/// Splitting at the commas loses nothing: joining the fields with commas
/// gives back the line, and no field holds a comma.
pub proof fn law_split_rejoins(s: Seq<char>)
    ensures
        join_commas(spec_split_commas(s)) == s,
        forall|i: int, j: int|
            0 <= i < spec_split_commas(s).len() && 0 <= j < spec_split_commas(s)[i].len()
                ==> spec_split_commas(s)[i][j] != ',',
    decreases s.len(),
{
    if s.len() > 0 {
        let prev = s.drop_last();
        law_split_rejoins(prev);
        lemma_split_nonempty(prev);
        let e = spec_split_commas(prev);
        let f = spec_split_commas(s);
        if s.last() == ',' {
            assert(f == e.push(Seq::<char>::empty()));
            assert(f.drop_last() =~= e);
            assert(join_commas(f) =~= join_commas(e).push(','));
            assert(s =~= prev.push(','));
        } else {
            let last = e.last().push(s.last());
            assert(f == e.update(e.len() - 1, last));
            if e.len() == 1 {
                assert(join_commas(e) == e[0]);
                assert(join_commas(f) == f[0]);
                assert(s =~= prev.push(s.last()));
            } else {
                assert(f.drop_last() =~= e.drop_last());
                assert(join_commas(f) == join_commas(e.drop_last()).push(',') + last);
                assert(join_commas(e) == join_commas(e.drop_last()).push(',') + e.last());
                assert(join_commas(f) =~= join_commas(e).push(s.last()));
                assert(s =~= prev.push(s.last()));
            }
            assert forall|i: int, j: int|
                0 <= i < f.len() && 0 <= j < f[i].len() implies f[i][j] != ',' by {
                if i == f.len() - 1 {
                    if j < e.last().len() {
                        assert(f[i][j] == e.last()[j]);
                    }
                } else {
                    assert(f[i] == e[i]);
                }
            }
        }
    }
}

/// A decimal digit.
pub open spec fn spec_is_digit(c: char) -> bool {
    '0' <= c <= '9'
}

/// Every character of `s` is a decimal digit.
pub open spec fn all_digits(s: Seq<char>) -> bool {
    forall|i: int| 0 <= i < s.len() ==> spec_is_digit(#[trigger] s[i])
}

/// The number the decimal digits `s` write.
pub open spec fn decimal_value(s: Seq<char>) -> int
    decreases s.len(),
{
    if s.len() == 0 {
        0
    } else {
        decimal_value(s.drop_last()) * 10 + (s.last() as int - '0' as int)
    }
}

/// What `str::parse::<i32>` gives: an optional `+` or `-` sign followed by
/// at least one decimal digit and nothing else, whose value fits an `i32`.
pub open spec fn spec_parse_i32(s: Seq<char>) -> Option<i32> {
    let negative = s.len() > 0 && s[0] == '-';
    let body = if s.len() > 0 && (s[0] == '-' || s[0] == '+') {
        s.drop_first()
    } else {
        s
    };
    if body.len() == 0 || !all_digits(body) {
        None
    } else {
        let v = if negative {
            -decimal_value(body)
        } else {
            decimal_value(body)
        };
        if i32::MIN <= v <= i32::MAX {
            Some(v as i32)
        } else {
            None
        }
    }
}

/// Digit strings are worth at least nothing.
pub proof fn lemma_decimal_nonnegative(s: Seq<char>)
    requires
        all_digits(s),
    ensures
        decimal_value(s) >= 0,
    decreases s.len(),
{
    if s.len() > 0 {
        assert(all_digits(s.drop_last())) by {
            assert forall|i: int| 0 <= i < s.drop_last().len() implies spec_is_digit(#[trigger] s.drop_last()[i]) by {
                assert(s.drop_last()[i] == s[i]);
            }
        }
        lemma_decimal_nonnegative(s.drop_last());
        assert(spec_is_digit(s[s.len() - 1]));
    }
}

/// The integer written by `s`, as `str::parse::<i32>` reads it.
pub fn parse_i32(s: &str) -> (r: Option<i32>)
    ensures
        r == spec_parse_i32(s@),
{
    let n = s.unicode_len();
    if n == 0 {
        return None;
    }
    let first = s.get_char(0);
    let negative = first == '-';
    let start: usize = if first == '-' || first == '+' {
        1
    } else {
        0
    };
    let ghost body = s@.subrange(start as int, n as int);
    assert(body == (if first == '-' || first == '+' {
        s@.drop_first()
    } else {
        s@
    }));
    if start == n {
        return None;
    }
    let cap: i64 = 2_147_483_649;
    let mut acc: i64 = 0;
    let mut i: usize = start;
    assert(body.take(0) =~= Seq::<char>::empty());
    while i < n
        invariant
            0 <= start <= i <= n,
            n == s@.len(),
            n > 0,
            start == (if s@[0] == '-' || s@[0] == '+' { 1int } else { 0 }),
            body == (if s@[0] == '-' || s@[0] == '+' { s@.drop_first() } else { s@ }),
            body == s@.subrange(start as int, n as int),
            cap == 2_147_483_649,
            0 <= acc <= cap,
            all_digits(body.take(i - start)),
            acc == if decimal_value(body.take(i - start)) >= cap {
                cap as int
            } else {
                decimal_value(body.take(i - start))
            },
        decreases n - i,
    {
        let c = s.get_char(i);
        let ghost k = i - start;
        assert(body[k] == c);
        if !('0' <= c && c <= '9') {
            assert(!all_digits(body));
            return None;
        }
        assert(body.take(k + 1).drop_last() =~= body.take(k));
        assert(body.take(k + 1).last() == c);
        proof {
            lemma_decimal_nonnegative(body.take(k));
            assert(all_digits(body.take(k + 1))) by {
                assert forall|j: int| 0 <= j < k + 1 implies spec_is_digit(#[trigger] body.take(k + 1)[j]) by {
                    if j < k {
                        assert(body.take(k + 1)[j] == body.take(k)[j]);
                    }
                }
            }
        }
        let d: i64 = (c as u32 - '0' as u32) as i64;
        if acc >= cap {
            acc = cap;
        } else {
            let next = acc * 10 + d;
            acc = if next >= cap {
                cap
            } else {
                next
            };
        }
        i = i + 1;
    }
    assert(body.take(n - start) =~= body);
    if acc >= cap {
        None
    } else if negative {
        if acc <= 2_147_483_648 {
            Some((-acc) as i32)
        } else {
            None
        }
    } else {
        if acc <= 2_147_483_647 {
            Some(acc as i32)
        } else {
            None
        }
    }
}

/// The character that writes the decimal digit `d` (0 to 9).
pub open spec fn digit_char(d: int) -> char {
    if d == 0 {
        '0'
    } else if d == 1 {
        '1'
    } else if d == 2 {
        '2'
    } else if d == 3 {
        '3'
    } else if d == 4 {
        '4'
    } else if d == 5 {
        '5'
    } else if d == 6 {
        '6'
    } else if d == 7 {
        '7'
    } else if d == 8 {
        '8'
    } else {
        '9'
    }
}

/// The decimal text of `n`, without a sign or leading zeros (what
/// `n.to_string()` writes).
pub open spec fn decimal_text(n: nat) -> Seq<char>
    decreases n,
{
    if n < 10 {
        seq![digit_char(n as int)]
    } else {
        decimal_text(n / 10).push(digit_char((n % 10) as int))
    }
}

/// The decimal text of `n` is a non-empty string of digits that is worth `n`.
pub proof fn lemma_decimal_text(n: nat)
    ensures
        decimal_text(n).len() >= 1,
        all_digits(decimal_text(n)),
        decimal_value(decimal_text(n)) == n,
    decreases n,
{
    let t = decimal_text(n);
    if n < 10 {
        assert(t.drop_last() =~= Seq::<char>::empty());
        assert(spec_is_digit(t[0]));
        assert(digit_char(n as int) as int - '0' as int == n);
        assert(t.last() == digit_char(n as int));
        assert(decimal_value(t) == decimal_value(t.drop_last()) * 10 + (t.last() as int - '0' as int));
    } else {
        lemma_decimal_text(n / 10);
        let prev = decimal_text(n / 10);
        assert(t.drop_last() =~= prev);
        assert(spec_is_digit(digit_char((n % 10) as int)));
        assert forall|i: int| 0 <= i < t.len() implies spec_is_digit(#[trigger] t[i]) by {
            if i < prev.len() {
                assert(t[i] == prev[i]);
            }
        }
        assert(digit_char((n % 10) as int) as int - '0' as int == n % 10);
        assert(n == (n / 10) * 10 + n % 10);
        assert(t.last() == digit_char((n % 10) as int));
        assert(decimal_value(t) == decimal_value(t.drop_last()) * 10 + (t.last() as int - '0' as int));
    }
}

/// Reading the decimal text of any `i32` gives it back: `parse_i32` agrees
/// with `i32::to_string` on every value, positive or negative (the minus
/// sign written before the digits of the magnitude), and accepts a leading
/// `+` on non-negative values.
pub proof fn law_parse_reads_decimal_text(n: nat)
    ensures
        n <= i32::MAX ==> spec_parse_i32(decimal_text(n)) == Some(n as i32),
        n <= i32::MAX ==> spec_parse_i32(seq!['+'] + decimal_text(n)) == Some(n as i32),
        n <= 2_147_483_648 ==> spec_parse_i32(seq!['-'] + decimal_text(n)) == Some((-n) as i32),
        n > 2_147_483_648 ==> spec_parse_i32(seq!['-'] + decimal_text(n)) is None,
        n > i32::MAX ==> spec_parse_i32(decimal_text(n)) is None,
{
    lemma_decimal_text(n);
    let t = decimal_text(n);
    assert(spec_is_digit(t[0]));
    assert((seq!['+'] + t).drop_first() =~= t);
    assert((seq!['-'] + t).drop_first() =~= t);
    assert((seq!['+'] + t)[0] == '+');
    assert((seq!['-'] + t)[0] == '-');
}

} // verus!
