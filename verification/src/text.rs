//! Text model shared by the parsers: Unicode white space, trimming, line
//! splitting, decimal numbers.
use vstd::prelude::*;

verus! {

/// Unicode `White_Space`, the set that `char::is_whitespace`, `str::trim` and
/// the `\s` class of regular expressions agree on.
pub open spec fn is_ws(c: char) -> bool {
    let u = c as u32;
    ||| (0x09 <= u && u <= 0x0d)
    ||| u == 0x20
    ||| u == 0x85
    ||| u == 0xa0
    ||| u == 0x1680
    ||| (0x2000 <= u && u <= 0x200a)
    ||| u == 0x2028
    ||| u == 0x2029
    ||| u == 0x202f
    ||| u == 0x205f
    ||| u == 0x3000
}

/// Executable form of [`is_ws`].
pub fn is_whitespace(c: char) -> (b: bool)
    ensures
        b == is_ws(c),
{
    let u = c as u32;
    (0x09 <= u && u <= 0x0d) || u == 0x20 || u == 0x85 || u == 0xa0 || u == 0x1680 || (0x2000
        <= u && u <= 0x200a) || u == 0x2028 || u == 0x2029 || u == 0x202f || u == 0x205f || u
        == 0x3000
}

/// Position of the first `x` in `s`, or `s.len()` when `x` does not occur.
pub open spec fn find<A>(s: Seq<A>, x: A) -> int
    decreases s.len(),
{
    if s.len() == 0 {
        0
    } else if s[0] == x {
        0
    } else {
        1 + find(s.drop_first(), x)
    }
}

/// What [`find`] returns: the first occurrence, or the end.
pub proof fn lemma_find<A>(s: Seq<A>, x: A)
    ensures
        0 <= find(s, x) <= s.len(),
        forall|j: int| 0 <= j < find(s, x) ==> s[j] != x,
        find(s, x) < s.len() ==> s[find(s, x)] == x,
    decreases s.len(),
{
    if s.len() > 0 && s[0] != x {
        lemma_find(s.drop_first(), x);
        assert forall|j: int| 0 <= j < find(s, x) implies s[j] != x by {
            if j > 0 {
                assert(s[j] == s.drop_first()[j - 1]);
            }
        }
    }
}

/// Any position with the properties of [`lemma_find`] is the one `find` gives.
pub proof fn lemma_find_unique<A>(s: Seq<A>, x: A, r: int)
    requires
        0 <= r <= s.len(),
        forall|j: int| 0 <= j < r ==> s[j] != x,
        r < s.len() ==> s[r] == x,
    ensures
        find(s, x) == r,
    decreases s.len(),
{
    if s.len() > 0 && s[0] != x {
        assert forall|j: int| 0 <= j < r - 1 implies s.drop_first()[j] != x by {
            assert(s.drop_first()[j] == s[j + 1]);
        }
        if r - 1 < s.len() - 1 {
            assert(s.drop_first()[r - 1] == s[r]);
        }
        lemma_find_unique(s.drop_first(), x, r - 1);
    }
}

/// `line` without one carriage return at its end.
pub open spec fn strip_cr<A>(line: Seq<A>, cr: A) -> Seq<A> {
    if line.len() > 0 && line.last() == cr {
        line.drop_last()
    } else {
        line
    }
}

/// The lines of `s` as `str::lines` and `BufRead::lines` cut them: at each
/// `nl`, dropping a `cr` right before it; the last line needs no `nl`, and an
/// `nl` at the very end opens no further line.
pub open spec fn split_lines<A>(s: Seq<A>, nl: A, cr: A) -> Seq<Seq<A>>
    decreases s.len(),
{
    if s.len() == 0 {
        seq![]
    } else {
        let i = find(s, nl);
        if 0 <= i < s.len() {
            seq![strip_cr(s.subrange(0, i), cr)] + split_lines(s.subrange(i + 1, s.len() as int), nl, cr)
        } else {
            seq![s]
        }
    }
}

/// The lines of a text.
pub open spec fn lines(s: Seq<char>) -> Seq<Seq<char>> {
    split_lines(s, '\n', '\r')
}

/// First position at or after `from` that holds `x`, or the length.
pub fn find_char(s: &[char], from: usize, x: char) -> (r: usize)
    requires
        from <= s@.len(),
    ensures
        r == from + find(s@.subrange(from as int, s@.len() as int), x),
        from <= r <= s@.len(),
        forall|j: int| from <= j < r ==> s@[j] != x,
        r < s@.len() ==> s@[r as int] == x,
{
    let mut i = from;
    while i < s.len() && s[i] != x
        invariant
            from <= i <= s@.len(),
            forall|j: int| from <= j < i ==> s@[j] != x,
        decreases s@.len() - i,
    {
        i = i + 1;
    }
    proof {
        let t = s@.subrange(from as int, s@.len() as int);
        lemma_find_unique(t, x, i - from);
    }
    i
}

/// First position at or after `from` that holds `x`, or the length.
pub fn find_byte(s: &[u8], from: usize, x: u8) -> (r: usize)
    requires
        from <= s@.len(),
    ensures
        r == from + find(s@.subrange(from as int, s@.len() as int), x),
        from <= r <= s@.len(),
        forall|j: int| from <= j < r ==> s@[j] != x,
        r < s@.len() ==> s@[r as int] == x,
{
    let mut i = from;
    while i < s.len() && s[i] != x
        invariant
            from <= i <= s@.len(),
            forall|j: int| from <= j < i ==> s@[j] != x,
        decreases s@.len() - i,
    {
        i = i + 1;
    }
    proof {
        let t = s@.subrange(from as int, s@.len() as int);
        lemma_find_unique(t, x, i - from);
    }
    i
}

/// Copy of `s[a..b]`.
pub fn copy_chars(s: &[char], a: usize, b: usize) -> (r: Vec<char>)
    requires
        a <= b <= s@.len(),
    ensures
        r@ == s@.subrange(a as int, b as int),
{
    let mut r: Vec<char> = Vec::new();
    let mut i = a;
    while i < b
        invariant
            a <= i <= b <= s@.len(),
            r@ == s@.subrange(a as int, i as int),
        decreases b - i,
    {
        r.push(s[i]);
        assert(s@.subrange(a as int, i + 1) == s@.subrange(a as int, i as int).push(s@[i as int]));
        i = i + 1;
    }
    r
}

/// Copy of `s[a..b]`.
pub fn copy_bytes(s: &[u8], a: usize, b: usize) -> (r: Vec<u8>)
    requires
        a <= b <= s@.len(),
    ensures
        r@ == s@.subrange(a as int, b as int),
{
    let mut r: Vec<u8> = Vec::new();
    let mut i = a;
    while i < b
        invariant
            a <= i <= b <= s@.len(),
            r@ == s@.subrange(a as int, i as int),
        decreases b - i,
    {
        r.push(s[i]);
        assert(s@.subrange(a as int, i + 1) == s@.subrange(a as int, i as int).push(s@[i as int]));
        i = i + 1;
    }
    r
}

} // verus!

verus! {

/// The lines of a text, cut as [`lines`] says.
pub fn split_text_lines(s: &[char]) -> (r: Vec<Vec<char>>)
    ensures
        r.deep_view() == lines(s@),
{
    let mut out: Vec<Vec<char>> = Vec::new();
    let mut pos: usize = 0;
    assert(s@.subrange(0, s@.len() as int) =~= s@);
    assert(out.deep_view() + lines(s@) =~= lines(s@));
    while pos < s.len()
        invariant
            pos <= s@.len(),
            out.deep_view() + lines(s@.subrange(pos as int, s@.len() as int)) == lines(s@),
        decreases s@.len() - pos,
    {
        let ghost t = s@.subrange(pos as int, s@.len() as int);
        let ghost prev = out.deep_view();
        let i = find_char(s, pos, '\n');
        if i < s.len() {
            let mut line_end = i;
            if i > pos && s[i - 1] == '\r' {
                line_end = i - 1;
            }
            let line = copy_chars(s, pos, line_end);
            proof {
                assert(t.subrange(0, i - pos) =~= s@.subrange(pos as int, i as int));
                assert(t.subrange(i - pos + 1, t.len() as int) =~= s@.subrange(i + 1, s@.len() as int));
                assert(line@ =~= strip_cr(t.subrange(0, i - pos), '\r'));
            }
            proof {
                assert(line.deep_view() =~= line@);
            }
            out.push(line);
            proof {
                assert(out.deep_view() =~= prev.push(line@));
                assert(lines(t) == seq![line@] + lines(s@.subrange(i + 1, s@.len() as int)));
                assert(prev + lines(t) =~= prev.push(line@) + lines(s@.subrange(i + 1, s@.len() as int)));
            }
            pos = i + 1;
        } else {
            let line = copy_chars(s, pos, s.len());
            proof {
                assert(line.deep_view() =~= line@);
            }
            out.push(line);
            proof {
                assert(out.deep_view() =~= prev.push(line@));
                assert(line@ =~= t);
                assert(lines(t) == seq![t]);
                assert(s@.subrange(s@.len() as int, s@.len() as int) =~= Seq::<char>::empty());
                assert(prev + lines(t) =~= prev.push(line@) + lines(Seq::<char>::empty()));
            }
            pos = s.len();
        }
    }
    assert(s@.subrange(pos as int, s@.len() as int) =~= Seq::<char>::empty());
    assert(out.deep_view() + lines(Seq::<char>::empty()) =~= out.deep_view());
    out
}

} // verus!

verus! {

/// The character of decimal digit `d`.
pub open spec fn digit_char(d: int) -> char {
    if d == 0 {
        '0'
    } else if d == 1 {
        '1'
    } else if d == 2 {
        '2'
    } else if d == 3 {
        '3'
    } else if d == 4 {
        '4'
    } else if d == 5 {
        '5'
    } else if d == 6 {
        '6'
    } else if d == 7 {
        '7'
    } else if d == 8 {
        '8'
    } else {
        '9'
    }
}

/// Decimal notation of a natural number, as `Display` writes it.
pub open spec fn decimal(n: nat) -> Seq<char>
    decreases n,
{
    if n < 10 {
        seq![digit_char(n as int)]
    } else {
        decimal(n / 10).push(digit_char((n % 10) as int))
    }
}

/// Decimal notation of an integer, with a minus sign when negative.
pub open spec fn int_decimal(i: int) -> Seq<char> {
    if i < 0 {
        seq!['-'] + decimal((-i) as nat)
    } else {
        decimal(i as nat)
    }
}

fn digit(d: u64) -> (c: char)
    requires
        d < 10,
    ensures
        c == digit_char(d as int),
{
    if d == 0 {
        '0'
    } else if d == 1 {
        '1'
    } else if d == 2 {
        '2'
    } else if d == 3 {
        '3'
    } else if d == 4 {
        '4'
    } else if d == 5 {
        '5'
    } else if d == 6 {
        '6'
    } else if d == 7 {
        '7'
    } else if d == 8 {
        '8'
    } else {
        '9'
    }
}

/// Decimal notation of `n`.
pub fn u64_decimal(n: u64) -> (r: Vec<char>)
    ensures
        r@ == decimal(n as nat),
{
    let mut m: u64 = n;
    let mut acc: Vec<char> = Vec::new();
    while m >= 10
        invariant
            decimal(n as nat) == decimal(m as nat) + acc@,
        decreases m,
    {
        let c = digit(m % 10);
        let ghost acc0 = acc@;
        acc.insert(0, c);
        proof {
            assert(decimal(m as nat) == decimal((m / 10) as nat).push(digit_char((m % 10) as int)));
            assert(acc@ =~= seq![c] + acc0);
            assert(decimal((m / 10) as nat).push(c) + acc0 =~= decimal((m / 10) as nat) + acc@);
        }
        m = m / 10;
    }
    let c = digit(m);
    let ghost acc0 = acc@;
    acc.insert(0, c);
    assert(decimal(m as nat) == seq![c]);
    assert(acc@ =~= decimal(m as nat) + acc0);
    acc
}

/// Decimal notation of `i`, with a minus sign when negative.
pub fn i64_decimal(i: i64) -> (r: Vec<char>)
    ensures
        r@ == int_decimal(i as int),
{
    if i < 0 {
        let mag: u64 = if i == i64::MIN {
            9223372036854775808u64
        } else {
            (-i) as u64
        };
        let digits = u64_decimal(mag);
        let mut r: Vec<char> = Vec::new();
        r.push('-');
        let mut d = digits;
        let ghost r0 = r@;
        let ghost d0 = d@;
        r.append(&mut d);
        assert(r@ =~= seq!['-'] + d0);
        r
    } else {
        u64_decimal(i as u64)
    }
}

/// Decimal notation of `n` as a string.
pub fn u64_string(n: u64) -> (s: String)
    ensures
        s@ == decimal(n as nat),
{
    let v = u64_decimal(n);
    crate::outside::string_of(v.as_slice())
}

/// Decimal notation of `i` as a string.
pub fn i64_string(i: i64) -> (s: String)
    ensures
        s@ == int_decimal(i as int),
{
    let v = i64_decimal(i);
    crate::outside::string_of(v.as_slice())
}

} // verus!

verus! {

/// An ASCII decimal digit.
pub open spec fn is_digit(c: char) -> bool {
    '0' <= c && c <= '9'
}

/// The value of a run of ASCII digits.
pub open spec fn digits_value(s: Seq<char>) -> nat
    decreases s.len(),
{
    if s.len() == 0 {
        0
    } else {
        digits_value(s.drop_last()) * 10 + ((s.last() as u32) - ('0' as u32)) as nat
    }
}

/// A non-empty run of ASCII digits.
pub open spec fn all_digits(s: Seq<char>) -> bool {
    s.len() > 0 && forall|i: int| 0 <= i < s.len() ==> is_digit(#[trigger] s[i])
}

/// The integer that `str::parse` reads from `s`: an optional `+` (or `-` when
/// `signed`), then one or more ASCII digits and nothing else. The range of the
/// target type is checked apart.
pub open spec fn parse_integer(s: Seq<char>, signed: bool) -> Option<int> {
    if s.len() > 0 && s[0] == '+' {
        if all_digits(s.drop_first()) {
            Some(digits_value(s.drop_first()) as int)
        } else {
            None
        }
    } else if signed && s.len() > 0 && s[0] == '-' {
        if all_digits(s.drop_first()) {
            Some(-(digits_value(s.drop_first()) as int))
        } else {
            None
        }
    } else if all_digits(s) {
        Some(digits_value(s) as int)
    } else {
        None
    }
}

/// `str::parse` into an integer type whose values are `lo..=hi`.
pub open spec fn parse_in_range(s: Seq<char>, signed: bool, lo: int, hi: int) -> Option<int> {
    match parse_integer(s, signed) {
        Some(v) => if lo <= v && v <= hi {
            Some(v)
        } else {
            None
        },
        None => None,
    }
}

const BIG: u128 = 0x1_0000_0000_0000_0000u128;

/// Value of the digits `s[a..b]`, or `None` when one is not a digit or the
/// run is empty; values above 2^64 come back as `Some(BIG + 1)`.
fn digits_run(s: &[char], a: usize) -> (r: Option<u128>)
    requires
        a <= s@.len(),
    ensures
        r.is_some() == all_digits(s@.subrange(a as int, s@.len() as int)),
        r matches Some(v) ==> (if digits_value(s@.subrange(a as int, s@.len() as int)) <= BIG {
            v == digits_value(s@.subrange(a as int, s@.len() as int))
        } else {
            v == BIG + 1
        }),
{
    if a == s.len() {
        return None;
    }
    let mut v: u128 = 0;
    let mut i: usize = a;
    while i < s.len()
        invariant
            a <= i <= s@.len(),
            forall|j: int| a <= j < i ==> is_digit(#[trigger] s@[j]),
            v <= BIG + 1,
            digits_value(s@.subrange(a as int, i as int)) <= BIG ==> v == digits_value(
                s@.subrange(a as int, i as int),
            ),
            digits_value(s@.subrange(a as int, i as int)) > BIG ==> v == BIG + 1,
        decreases s@.len() - i,
    {
        let c = s[i];
        if !('0' <= c && c <= '9') {
            proof {
                let t = s@.subrange(a as int, s@.len() as int);
                assert(t[i - a] == c);
            }
            return None;
        }
        let d: u128 = ((c as u32) - ('0' as u32)) as u128;
        proof {
            let p = s@.subrange(a as int, i as int);
            let q = s@.subrange(a as int, i + 1);
            assert(q.drop_last() =~= p);
            assert(q.last() == c);
            assert(digits_value(q) == digits_value(p) * 10 + d);
        }
        if v > BIG {
            v = BIG + 1;
        } else {
            let w = v * 10 + d;
            if w > BIG {
                v = BIG + 1;
            } else {
                v = w;
            }
        }
        i = i + 1;
    }
    proof {
        let t = s@.subrange(a as int, s@.len() as int);
        assert forall|j: int| 0 <= j < t.len() implies is_digit(#[trigger] t[j]) by {
            assert(t[j] == s@[a + j]);
        }
    }
    Some(v)
}

/// `str::parse` of `s` into an integer type whose values are `lo..=hi`.
pub fn parse_int(s: &[char], signed: bool, lo: i128, hi: i128) -> (r: Option<i128>)
    requires
        -0x1_0000_0000_0000_0000 <= lo <= hi <= 0x1_0000_0000_0000_0000,
    ensures
        r.is_some() == (parse_in_range(s@, signed, lo as int, hi as int) is Some),
        r matches Some(v) ==> parse_in_range(s@, signed, lo as int, hi as int) == Some(v as int),
{
    let mut start: usize = 0;
    let mut negative = false;
    if s.len() > 0 && s[0] == '+' {
        start = 1;
    } else if signed && s.len() > 0 && s[0] == '-' {
        start = 1;
        negative = true;
    }
    proof {
        if start == 1 {
            assert(s@.subrange(1, s@.len() as int) =~= s@.drop_first());
        } else {
            assert(s@.subrange(0, s@.len() as int) =~= s@);
        }
    }
    match digits_run(s, start) {
        None => None,
        Some(m) => {
            if m > BIG {
                None
            } else {
                let v: i128 = if negative {
                    -(m as i128)
                } else {
                    m as i128
                };
                if lo <= v && v <= hi {
                    Some(v)
                } else {
                    None
                }
            }
        },
    }
}

} // verus!

verus! {

/// `s` without its leading white space.
pub open spec fn trim_start(s: Seq<char>) -> Seq<char>
    decreases s.len(),
{
    if s.len() > 0 && is_ws(s[0]) {
        trim_start(s.drop_first())
    } else {
        s
    }
}

/// `s` without its trailing white space.
pub open spec fn trim_end(s: Seq<char>) -> Seq<char>
    decreases s.len(),
{
    if s.len() > 0 && is_ws(s.last()) {
        trim_end(s.drop_last())
    } else {
        s
    }
}

/// `s` without leading and trailing white space, as `str::trim` gives it.
pub open spec fn trim(s: Seq<char>) -> Seq<char> {
    trim_end(trim_start(s))
}

/// Where the text left after dropping the leading white space of `s[a..]` begins.
pub fn skip_ws(s: &[char], a: usize) -> (r: usize)
    requires
        a <= s@.len(),
    ensures
        a <= r <= s@.len(),
        trim_start(s@.subrange(a as int, s@.len() as int)) == s@.subrange(r as int, s@.len() as int),
        forall|j: int| a <= j < r ==> is_ws(#[trigger] s@[j]),
        r < s@.len() ==> !is_ws(s@[r as int]),
{
    let mut i = a;
    while i < s.len() && is_whitespace(s[i])
        invariant
            a <= i <= s@.len(),
            trim_start(s@.subrange(a as int, s@.len() as int)) == trim_start(
                s@.subrange(i as int, s@.len() as int),
            ),
            forall|j: int| a <= j < i ==> is_ws(#[trigger] s@[j]),
        decreases s@.len() - i,
    {
        proof {
            let t = s@.subrange(i as int, s@.len() as int);
            assert(t[0] == s@[i as int]);
            assert(t.drop_first() =~= s@.subrange(i + 1, s@.len() as int));
        }
        i = i + 1;
    }
    proof {
        let t = s@.subrange(i as int, s@.len() as int);
        if i < s@.len() {
            assert(t[0] == s@[i as int]);
        }
    }
    i
}

/// Where the text `s[a..b]` ends once its trailing white space is dropped.
pub fn skip_ws_back(s: &[char], a: usize, b: usize) -> (r: usize)
    requires
        a <= b <= s@.len(),
    ensures
        a <= r <= b,
        trim_end(s@.subrange(a as int, b as int)) == s@.subrange(a as int, r as int),
        forall|j: int| r <= j < b ==> is_ws(#[trigger] s@[j]),
        r > a ==> !is_ws(s@[r - 1]),
{
    let mut j = b;
    while j > a && is_whitespace(s[j - 1])
        invariant
            a <= j <= b <= s@.len(),
            trim_end(s@.subrange(a as int, b as int)) == trim_end(s@.subrange(a as int, j as int)),
            forall|k: int| j <= k < b ==> is_ws(#[trigger] s@[k]),
        decreases j - a,
    {
        proof {
            let t = s@.subrange(a as int, j as int);
            assert(t.last() == s@[j - 1]);
            assert(t.drop_last() =~= s@.subrange(a as int, j - 1));
        }
        j = j - 1;
    }
    proof {
        let t = s@.subrange(a as int, j as int);
        if j > a {
            assert(t.last() == s@[j - 1]);
        }
    }
    j
}

/// The bounds of `s[a..b]` trimmed at both ends.
pub fn trim_bounds(s: &[char], a: usize, b: usize) -> (r: (usize, usize))
    requires
        a <= b <= s@.len(),
    ensures
        a <= r.0 <= r.1 <= b,
        s@.subrange(r.0 as int, r.1 as int) == trim(s@.subrange(a as int, b as int)),
{
    let ghost t = s@.subrange(a as int, b as int);
    let i = skip_ws(s, a);
    let i2 = if i > b { b } else { i };
    proof {
        // the leading white space of s[a..b] is that of s[a..], cut at b
        lemma_trim_start_prefix(s@, a as int, b as int, i as int);
    }
    let j = skip_ws_back(s, i2, b);
    (i2, j)
}

proof fn lemma_trim_start_prefix(s: Seq<char>, a: int, b: int, i: int)
    requires
        0 <= a <= b <= s.len(),
        a <= i <= s.len(),
        forall|j: int| a <= j < i ==> is_ws(#[trigger] s[j]),
        i < s.len() ==> !is_ws(s[i]),
    ensures
        trim_start(s.subrange(a, b)) == s.subrange(if i > b { b } else { i }, b),
    decreases b - a,
{
    let t = s.subrange(a, b);
    if t.len() > 0 && is_ws(t[0]) {
        assert(t[0] == s[a]);
        assert(t.drop_first() =~= s.subrange(a + 1, b));
        if a < i {
            lemma_trim_start_prefix(s, a + 1, b, i);
        } else {
            assert(i == a);
            assert(i < s.len());
        }
    } else {
        if t.len() > 0 {
            assert(t[0] == s[a]);
            assert(a == i || !(a < i)) by {
                if a < i {
                    assert(is_ws(s[a]));
                }
            }
        }
    }
}

/// A copy of `s[a..b]` trimmed at both ends.
pub fn trimmed(s: &[char], a: usize, b: usize) -> (r: Vec<char>)
    requires
        a <= b <= s@.len(),
    ensures
        r@ == trim(s@.subrange(a as int, b as int)),
{
    let (x, y) = trim_bounds(s, a, b);
    copy_chars(s, x, y)
}

/// A copy of `s[a..b]` without its trailing white space.
pub fn trimmed_end(s: &[char], a: usize, b: usize) -> (r: Vec<char>)
    requires
        a <= b <= s@.len(),
    ensures
        r@ == trim_end(s@.subrange(a as int, b as int)),
{
    let y = skip_ws_back(s, a, b);
    copy_chars(s, a, y)
}

} // verus!

verus! {

/// The text that valid UTF-8 bytes encode.
pub open spec fn utf8_text(b: Seq<u8>) -> Option<Seq<char>> {
    if vstd::utf8::valid_utf8(b) {
        Some(vstd::utf8::decode_utf8(b))
    } else {
        None
    }
}

/// The characters of an output read through `rustix::path::Arg::as_str`;
/// bytes that are not UTF-8 give its `Errno`.
pub fn rustix_text(b: &Vec<u8>) -> (r: Result<Vec<char>, crate::error::AdbError>)
    ensures
        utf8_text(b@) is Some <==> r is Ok,
        r matches Ok(v) ==> Some(v@) == utf8_text(b@),
        r matches Err(e) ==> e == crate::error::AdbError::Errno(22),
{
    match crate::outside::rustix_as_str(b) {
        Ok(s) => Ok(crate::outside::chars_of(s)),
        Err(code) => Err(crate::error::AdbError::Errno(code)),
    }
}

/// The characters of an output read through `simple_cmd`'s `as_str`.
pub fn cmd_text(b: &Vec<u8>) -> (r: Option<Vec<char>>)
    ensures
        utf8_text(b@) is Some <==> r is Some,
        r matches Some(v) ==> Some(v@) == utf8_text(b@),
{
    match crate::outside::simple_cmd_as_str(b) {
        Some(s) => Some(crate::outside::chars_of(s)),
        None => None,
    }
}

} // verus!

verus! {

/// Whether two texts are equal.
pub fn str_eq(a: &str, b: &str) -> (r: bool)
    ensures
        r == (a@ == b@),
{
    let x = crate::outside::chars_of(a);
    let y = crate::outside::chars_of(b);
    if x.len() != y.len() {
        return false;
    }
    let mut i: usize = 0;
    while i < x.len()
        invariant
            x@ == a@,
            y@ == b@,
            x@.len() == y@.len(),
            i <= x@.len(),
            forall|j: int| 0 <= j < i ==> x@[j] == y@[j],
        decreases x@.len() - i,
    {
        if x[i] != y[i] {
            return false;
        }
        i = i + 1;
    }
    assert(x@ =~= y@);
    true
}

} // verus!

verus! {

/// The lines of bytes, cut as [`split_lines`] says at `\n`, dropping a `\r`
/// before it.
pub fn split_byte_lines(s: &[u8]) -> (r: Vec<Vec<u8>>)
    ensures
        r.deep_view() == split_lines(s@, 10u8, 13u8),
{
    let mut out: Vec<Vec<u8>> = Vec::new();
    let mut pos: usize = 0;
    assert(s@.subrange(0, s@.len() as int) =~= s@);
    assert(out.deep_view() + split_lines(s@, 10u8, 13u8) =~= split_lines(s@, 10u8, 13u8));
    while pos < s.len()
        invariant
            pos <= s@.len(),
            out.deep_view() + split_lines(s@.subrange(pos as int, s@.len() as int), 10u8, 13u8)
                == split_lines(s@, 10u8, 13u8),
        decreases s@.len() - pos,
    {
        let ghost t = s@.subrange(pos as int, s@.len() as int);
        let ghost prev = out.deep_view();
        let i = find_byte(s, pos, 10u8);
        if i < s.len() {
            let mut line_end = i;
            if i > pos && s[i - 1] == 13u8 {
                line_end = i - 1;
            }
            let line = copy_bytes(s, pos, line_end);
            proof {
                assert(t.subrange(0, i - pos) =~= s@.subrange(pos as int, i as int));
                assert(t.subrange(i - pos + 1, t.len() as int) =~= s@.subrange(i + 1, s@.len() as int));
                assert(line@ =~= strip_cr(t.subrange(0, i - pos), 13u8));
                assert(line.deep_view() =~= line@);
            }
            out.push(line);
            proof {
                assert(out.deep_view() =~= prev.push(line@));
                assert(split_lines(t, 10u8, 13u8) == seq![line@] + split_lines(
                    s@.subrange(i + 1, s@.len() as int),
                    10u8,
                    13u8,
                ));
                assert(prev + split_lines(t, 10u8, 13u8) =~= prev.push(line@) + split_lines(
                    s@.subrange(i + 1, s@.len() as int),
                    10u8,
                    13u8,
                ));
            }
            pos = i + 1;
        } else {
            let line = copy_bytes(s, pos, s.len());
            proof {
                assert(line.deep_view() =~= line@);
            }
            out.push(line);
            proof {
                assert(out.deep_view() =~= prev.push(line@));
                assert(line@ =~= t);
                assert(split_lines(t, 10u8, 13u8) == seq![t]);
                assert(s@.subrange(s@.len() as int, s@.len() as int) =~= Seq::<u8>::empty());
                assert(prev + split_lines(t, 10u8, 13u8) =~= prev.push(line@) + split_lines(
                    Seq::<u8>::empty(),
                    10u8,
                    13u8,
                ));
            }
            pos = s.len();
        }
    }
    assert(s@.subrange(pos as int, s@.len() as int) =~= Seq::<u8>::empty());
    assert(out.deep_view() + split_lines(Seq::<u8>::empty(), 10u8, 13u8) =~= out.deep_view());
    out
}

/// The decoded lines among `ls` that are valid UTF-8, in order.
pub open spec fn utf8_lines_of(ls: Seq<Seq<u8>>) -> Seq<Seq<char>>
    decreases ls.len(),
{
    if ls.len() == 0 {
        seq![]
    } else {
        let rest = utf8_lines_of(ls.drop_last());
        match utf8_text(ls.last()) {
            Some(t) => rest.push(t),
            None => rest,
        }
    }
}

/// The lines that `BufRead::lines` yields for `b` and that are valid UTF-8:
/// what `lines().filter_map(|l| l.ok())` keeps.
pub open spec fn read_lines_of(b: Seq<u8>) -> Seq<Seq<char>> {
    utf8_lines_of(split_lines(b, 10u8, 13u8))
}

/// The lines of `b` that are valid UTF-8, as [`read_lines_of`] says.
pub fn read_lines(b: &[u8]) -> (r: Vec<Vec<char>>)
    ensures
        r.deep_view() == read_lines_of(b@),
{
    let ls = split_byte_lines(b);
    let ghost all = ls.deep_view();
    let mut out: Vec<Vec<char>> = Vec::new();
    let mut i: usize = 0;
    assert(all.subrange(0, 0) =~= Seq::<Seq<u8>>::empty());
    while i < ls.len()
        invariant
            i <= ls@.len(),
            all == ls.deep_view(),
            out.deep_view() == utf8_lines_of(all.subrange(0, i as int)),
        decreases ls@.len() - i,
    {
        let ghost prev = out.deep_view();
        proof {
            assert(all.subrange(0, i + 1).drop_last() =~= all.subrange(0, i as int));
            assert(all.subrange(0, i + 1).last() == ls@[i as int]@);
        }
        match crate::outside::str_from_utf8(ls[i].as_slice()) {
            Some(s) => {
                let cs = crate::outside::chars_of(s);
                assert(cs.deep_view() =~= cs@);
                out.push(cs);
                proof {
                    assert(out.deep_view() =~= prev.push(cs@));
                }
            },
            None => {},
        }
        i = i + 1;
    }
    assert(all.subrange(0, ls@.len() as int) =~= all);
    out
}

/// Whether `p` occurs in `s` at position `i`.
pub open spec fn occurs_at(s: Seq<char>, p: Seq<char>, i: int) -> bool {
    0 <= i && i + p.len() <= s.len() && s.subrange(i, i + p.len()) == p
}

/// Whether `p` occurs in `s`, as `str::contains` tells.
pub open spec fn text_contains(s: Seq<char>, p: Seq<char>) -> bool {
    exists|i: int| occurs_at(s, p, i)
}

/// The lines, all decoded, when every one is UTF-8; none otherwise (lines
/// read one by one and collected, the first bad line stopping the read).
pub open spec fn all_utf8_lines(ls: Seq<Seq<u8>>) -> Option<Seq<Seq<char>>>
    decreases ls.len(),
{
    if ls.len() == 0 {
        Some(seq![])
    } else {
        match all_utf8_lines(ls.drop_last()) {
            None => None,
            Some(p) => match utf8_text(ls.last()) {
                Some(t) => Some(p.push(t)),
                None => None,
            },
        }
    }
}

proof fn lemma_all_utf8_none(ls: Seq<Seq<u8>>, n: int, m: int)
    requires
        0 <= n <= m <= ls.len(),
        all_utf8_lines(ls.subrange(0, n)) is None,
    ensures
        all_utf8_lines(ls.subrange(0, m)) is None,
    decreases m - n,
{
    if n < m {
        assert(ls.subrange(0, n + 1).drop_last() =~= ls.subrange(0, n));
        lemma_all_utf8_none(ls, n + 1, m);
    }
}

/// The lines of `b` as strings when each is UTF-8 (see
/// [`all_utf8_lines`]); none otherwise.
pub fn strict_lines(b: &[u8]) -> (r: Option<Vec<String>>)
    ensures
        match all_utf8_lines(split_lines(b@, 10u8, 13u8)) {
            Some(ls) => r matches Some(v) && v.deep_view() == ls,
            None => r is None,
        },
{
    let ls = split_byte_lines(b);
    let ghost all = ls.deep_view();
    let mut out: Vec<String> = Vec::new();
    let mut i: usize = 0;
    assert(all.subrange(0, 0) =~= Seq::<Seq<u8>>::empty());
    while i < ls.len()
        invariant
            i <= ls@.len(),
            all == ls.deep_view(),
            all == split_lines(b@, 10u8, 13u8),
            all_utf8_lines(all.subrange(0, i as int)) == Some(out.deep_view()),
        decreases ls@.len() - i,
    {
        let ghost prev = out.deep_view();
        proof {
            assert(all.subrange(0, i + 1).drop_last() =~= all.subrange(0, i as int));
            assert(all.subrange(0, i + 1).last() == ls@[i as int]@);
        }
        match crate::outside::str_from_utf8(ls[i].as_slice()) {
            Some(s) => {
                let t = s.to_owned();
                let ghost tv = t@;
                out.push(t);
                proof {
                    assert(out.deep_view() =~= prev.push(tv));
                }
            },
            None => {
                proof {
                    lemma_all_utf8_none(all, i + 1, all.len() as int);
                    assert(all.subrange(0, all.len() as int) =~= all);
                }
                return None;
            },
        }
        i = i + 1;
    }
    assert(all.subrange(0, ls@.len() as int) =~= all);
    Some(out)
}

/// Whether `p` occurs in `s` at position `i`.
pub fn matches_at(s: &[char], p: &[char], i: usize) -> (r: bool)
    ensures
        r == occurs_at(s@, p@, i as int),
{
    if i > s.len() || p.len() > s.len() - i {
        return false;
    }
    let mut k: usize = 0;
    while k < p.len()
        invariant
            i + p@.len() <= s@.len(),
            s@.len() == s.len(),
            k <= p@.len(),
            forall|j: int| 0 <= j < k ==> s@[i + j] == p@[j],
        decreases p@.len() - k,
    {
        if s[i + k] != p[k] {
            assert(s@.subrange(i as int, i + p@.len())[k as int] != p@[k as int]);
            return false;
        }
        k = k + 1;
    }
    assert(s@.subrange(i as int, i + p@.len()) =~= p@);
    true
}

/// Whether `p` occurs in `s`.
pub fn contains_text(s: &[char], p: &[char]) -> (r: bool)
    ensures
        r == text_contains(s@, p@),
{
    let mut i: usize = 0;
    while i < s.len()
        invariant
            i <= s@.len(),
            forall|j: int| 0 <= j < i ==> !occurs_at(s@, p@, j),
        decreases s@.len() - i,
    {
        if matches_at(s, p, i) {
            return true;
        }
        i = i + 1;
    }
    if matches_at(s, p, i) {
        return true;
    }
    assert forall|j: int| !occurs_at(s@, p@, j) by {
        if 0 <= j && j <= i {
        }
    }
    false
}

} // verus!

verus! {

/// The first position at or after `i` that does not hold white space.
pub open spec fn ws_end(s: Seq<char>, i: int) -> int
    decreases s.len() - i,
{
    if 0 <= i < s.len() && is_ws(s[i]) {
        ws_end(s, i + 1)
    } else {
        i
    }
}

/// Bounds of [`ws_end`].
pub proof fn lemma_ws_end(s: Seq<char>, i: int)
    requires
        0 <= i <= s.len(),
    ensures
        i <= ws_end(s, i) <= s.len(),
        forall|j: int| i <= j < ws_end(s, i) ==> is_ws(#[trigger] s[j]),
        ws_end(s, i) < s.len() ==> !is_ws(s[ws_end(s, i)]),
    decreases s.len() - i,
{
    if i < s.len() && is_ws(s[i]) {
        lemma_ws_end(s, i + 1);
    }
}

/// [`ws_end`] of `s` from `a`.
pub fn skip_spaces(s: &[char], a: usize) -> (r: usize)
    requires
        a <= s@.len(),
    ensures
        r == ws_end(s@, a as int),
        a <= r <= s@.len(),
{
    let mut i = a;
    proof {
        lemma_ws_end(s@, a as int);
    }
    while i < s.len() && is_whitespace(s[i])
        invariant
            a <= i <= s@.len(),
            ws_end(s@, i as int) == ws_end(s@, a as int),
        decreases s@.len() - i,
    {
        i = i + 1;
    }
    i
}

/// The last position before `e` that holds `c`, or -1.
pub open spec fn last_index_before(s: Seq<char>, c: char, e: int) -> int
    decreases e,
{
    if e <= 0 {
        -1
    } else if s[e - 1] == c {
        e - 1
    } else {
        last_index_before(s, c, e - 1)
    }
}

/// Bounds of [`last_index_before`].
pub proof fn lemma_last_index_before(s: Seq<char>, c: char, e: int)
    requires
        e <= s.len(),
    ensures
        -1 <= last_index_before(s, c, e) < e || (e <= 0 && last_index_before(s, c, e) == -1),
        last_index_before(s, c, e) >= 0 ==> s[last_index_before(s, c, e)] == c,
        forall|j: int| last_index_before(s, c, e) < j < e ==> s[j] != c,
    decreases e,
{
    if e > 0 && s[e - 1] != c {
        lemma_last_index_before(s, c, e - 1);
    }
}

/// [`last_index_before`] of `s`, `None` for -1.
pub fn rfind_before(s: &[char], c: char, e: usize) -> (r: Option<usize>)
    requires
        e <= s@.len(),
    ensures
        match r {
            Some(i) => i as int == last_index_before(s@, c, e as int) && i < e,
            None => last_index_before(s@, c, e as int) == -1,
        },
{
    let mut j = e;
    while j > 0 && s[j - 1] != c
        invariant
            j <= e <= s@.len(),
            last_index_before(s@, c, j as int) == last_index_before(s@, c, e as int),
        decreases j,
    {
        j = j - 1;
    }
    if j == 0 {
        None
    } else {
        Some(j - 1)
    }
}

/// The pieces of `s` between the occurrences of `c`, as `str::split` cuts
/// them: one more piece than there are occurrences, empty ones included.
pub open spec fn split_on(s: Seq<char>, c: char) -> Seq<Seq<char>>
    decreases s.len(),
{
    let i = find(s, c);
    if 0 <= i < s.len() {
        seq![s.subrange(0, i)] + split_on(s.subrange(i + 1, s.len() as int), c)
    } else {
        seq![s]
    }
}

/// The pieces of `s[a..]` cut at `c`, as owned strings.
pub fn split_string(s: &[char], a: usize, c: char) -> (r: Vec<String>)
    requires
        a <= s@.len(),
    ensures
        r.deep_view() == split_on(s@.subrange(a as int, s@.len() as int), c),
{
    let mut out: Vec<String> = Vec::new();
    let mut pos: usize = a;
    let ghost whole = s@.subrange(a as int, s@.len() as int);
    assert(out.deep_view() + split_on(whole, c) =~= split_on(whole, c));
    loop
        invariant
            a <= pos <= s@.len(),
            whole == s@.subrange(a as int, s@.len() as int),
            out.deep_view() + split_on(s@.subrange(pos as int, s@.len() as int), c) == split_on(whole, c),
        decreases s@.len() - pos,
    {
        let ghost t = s@.subrange(pos as int, s@.len() as int);
        let ghost prev = out.deep_view();
        let i = find_char(s, pos, c);
        proof {
            lemma_find(t, c);
            lemma_find_unique(t, c, i - pos);
        }
        let piece_chars = copy_chars(s, pos, i);
        let piece = crate::outside::string_of(piece_chars.as_slice());
        out.push(piece);
        proof {
            assert(out.deep_view() =~= prev.push(piece@));
            assert(t.subrange(0, i - pos) =~= s@.subrange(pos as int, i as int));
        }
        if i < s.len() {
            proof {
                assert(t.subrange(i - pos + 1, t.len() as int) =~= s@.subrange(i + 1, s@.len() as int));
                assert(prev + split_on(t, c) =~= out.deep_view() + split_on(
                    s@.subrange(i + 1, s@.len() as int),
                    c,
                ));
            }
            pos = i + 1;
        } else {
            proof {
                assert(split_on(t, c) == seq![t]);
                assert(piece@ =~= t);
                assert(prev + split_on(t, c) =~= out.deep_view());
                assert(out.deep_view() == split_on(whole, c));
            }
            return out;
        }
    }
}

/// A string of the characters of `s[a..b]`.
pub fn string_from(s: &[char], a: usize, b: usize) -> (r: String)
    requires
        a <= b <= s@.len(),
    ensures
        r@ == s@.subrange(a as int, b as int),
{
    let v = copy_chars(s, a, b);
    crate::outside::string_of(v.as_slice())
}

/// `s` trimmed at both ends, as a string.
pub fn trim_string(s: &[char]) -> (r: String)
    ensures
        r@ == trim(s@),
{
    let v = trimmed(s, 0, s.len());
    assert(s@.subrange(0, s@.len() as int) =~= s@);
    crate::outside::string_of(v.as_slice())
}

/// `s` without its trailing white space, as a string.
pub fn trim_end_string(s: &[char]) -> (r: String)
    ensures
        r@ == trim_end(s@),
{
    let v = trimmed_end(s, 0, s.len());
    assert(s@.subrange(0, s@.len() as int) =~= s@);
    crate::outside::string_of(v.as_slice())
}

} // verus!

verus! {

/// The first position at or after `i` that holds `c`, or `i` when `i` is
/// past the end.
pub open spec fn next_index(s: Seq<char>, c: char, i: int) -> int
    decreases s.len() - i,
{
    if 0 <= i < s.len() && s[i] != c {
        next_index(s, c, i + 1)
    } else {
        i
    }
}

/// Bounds of [`next_index`].
pub proof fn lemma_next_index(s: Seq<char>, c: char, i: int)
    requires
        0 <= i <= s.len(),
    ensures
        i <= next_index(s, c, i) <= s.len(),
        forall|j: int| i <= j < next_index(s, c, i) ==> #[trigger] s[j] != c,
        next_index(s, c, i) < s.len() ==> s[next_index(s, c, i)] == c,
    decreases s.len() - i,
{
    if i < s.len() && s[i] != c {
        lemma_next_index(s, c, i + 1);
    }
}

/// [`next_index`] of `s`.
pub fn next_index_of(s: &[char], c: char, a: usize) -> (r: usize)
    requires
        a <= s@.len(),
    ensures
        r == next_index(s@, c, a as int),
        a <= r <= s@.len(),
{
    proof {
        lemma_next_index(s@, c, a as int);
    }
    let mut i = a;
    while i < s.len() && s[i] != c
        invariant
            a <= i <= s@.len(),
            next_index(s@, c, i as int) == next_index(s@, c, a as int),
        decreases s@.len() - i,
    {
        i = i + 1;
    }
    i
}

/// The first position at or after `i` that does not hold an ASCII digit.
pub open spec fn digits_end(s: Seq<char>, i: int) -> int
    decreases s.len() - i,
{
    if 0 <= i < s.len() && is_digit(s[i]) {
        digits_end(s, i + 1)
    } else {
        i
    }
}

/// [`digits_end`] of `s`.
pub fn skip_digits(s: &[char], a: usize) -> (r: usize)
    requires
        a <= s@.len(),
    ensures
        r == digits_end(s@, a as int),
        a <= r <= s@.len(),
{
    let mut i = a;
    while i < s.len() && '0' <= s[i] && s[i] <= '9'
        invariant
            a <= i <= s@.len(),
            digits_end(s@, i as int) == digits_end(s@, a as int),
        decreases s@.len() - i,
    {
        i = i + 1;
    }
    i
}

} // verus!
