//! Character-level helpers on strings, each with its contract over `Seq<char>`.
use vstd::prelude::*;
use vstd::string::StringExecFns;

verus! {

/// The characters of `s`, in order.
pub fn chars_of(s: &str) -> (v: Vec<char>)
    ensures
        v@ == s@,
{
    let mut v: Vec<char> = Vec::new();
    for c in it: s.chars()
        invariant
            v@ == it.seq().take(it.index() as int),
    {
        v.push(c);
    }
    v
}

/// Whether two strings hold the same characters.
pub fn str_eq(a: &str, b: &str) -> (r: bool)
    ensures
        r == (a@ == b@),
{
    let x = chars_of(a);
    let y = chars_of(b);
    if x.len() != y.len() {
        assert(a@.len() != b@.len());
        return false;
    }
    let n = x.len();
    let mut i: usize = 0;
    while i < n
        invariant
            n == x@.len(),
            n == y@.len(),
            x@ == a@,
            y@ == b@,
            i <= n,
            forall|j: int| 0 <= j < i ==> x@[j] == y@[j],
        decreases n - i,
    {
        if x[i] != y[i] {
            assert(a@[i as int] != b@[i as int]);
            return false;
        }
        i = i + 1;
    }
    assert(x@ =~= y@);
    true
}

/// `a` followed by `b`.
pub fn concat(a: &str, b: &str) -> (r: String)
    ensures
        r@ == a@ + b@,
{
    let mut r = a.to_owned();
    r.append(b);
    r
}

/// `a`, then `b`, then `c`.
pub fn concat3(a: &str, b: &str, c: &str) -> (r: String)
    ensures
        r@ == a@ + b@ + c@,
{
    let mut r = a.to_owned();
    r.append(b);
    r.append(c);
    r
}

/// `a`, then `b`, then `c`, then `d`.
pub fn concat4(a: &str, b: &str, c: &str, d: &str) -> (r: String)
    ensures
        r@ == a@ + b@ + c@ + d@,
{
    let mut r = a.to_owned();
    r.append(b);
    r.append(c);
    r.append(d);
    r
}


/// Whether `c` has the Unicode `White_Space` property, as `char::is_whitespace` decides.
pub open spec fn is_ws(c: char) -> bool {
    let u = c as u32;
    ||| (0x9 <= u && u <= 0xd)
    ||| u == 0x20
    ||| u == 0x85
    ||| u == 0xa0
    ||| u == 0x1680
    ||| (0x2000 <= u && u <= 0x200a)
    ||| u == 0x2028
    ||| u == 0x2029
    ||| u == 0x202f
    ||| u == 0x205f
    ||| u == 0x3000
}

/// Whether `c` is white space.
pub fn is_whitespace(c: char) -> (b: bool)
    ensures
        b == is_ws(c),
{
    let u = c as u32;
    (0x9 <= u && u <= 0xd) || u == 0x20 || u == 0x85 || u == 0xa0 || u == 0x1680 || (0x2000 <= u
        && u <= 0x200a) || u == 0x2028 || u == 0x2029 || u == 0x202f || u == 0x205f || u == 0x3000
}

/// `s` without its leading white space.
pub open spec fn trim_start(s: Seq<char>) -> Seq<char>
    decreases s.len(),
{
    if s.len() > 0 && is_ws(s[0]) {
        trim_start(s.drop_first())
    } else {
        s
    }
}

/// `s` without its trailing white space.
pub open spec fn trim_end(s: Seq<char>) -> Seq<char>
    decreases s.len(),
{
    if s.len() > 0 && is_ws(s.last()) {
        trim_end(s.drop_last())
    } else {
        s
    }
}

/// `s` without leading and trailing white space.
pub open spec fn trim(s: Seq<char>) -> Seq<char> {
    trim_end(trim_start(s))
}

proof fn lemma_trim_start_skip(s: Seq<char>, i: int)
    requires
        0 <= i <= s.len(),
        forall|j: int| 0 <= j < i ==> is_ws(#[trigger] s[j]),
    ensures
        trim_start(s) == trim_start(s.skip(i)),
    decreases i,
{
    if i > 0 {
        assert(s.drop_first().skip(i - 1) =~= s.skip(i));
        lemma_trim_start_skip(s.drop_first(), i - 1);
    } else {
        assert(s.skip(0) =~= s);
    }
}

proof fn lemma_trim_end_take(s: Seq<char>, i: int)
    requires
        0 <= i <= s.len(),
        forall|j: int| i <= j < s.len() ==> is_ws(#[trigger] s[j]),
    ensures
        trim_end(s) == trim_end(s.take(i)),
    decreases s.len() - i,
{
    if i < s.len() {
        assert(s.drop_last().take(i) =~= s.take(i));
        lemma_trim_end_take(s.drop_last(), i);
    } else {
        assert(s.take(i) =~= s);
    }
}

/// The characters `v[from..to]` as a string.
pub fn string_of(v: &Vec<char>, from: usize, to: usize) -> (r: String)
    requires
        from <= to <= v@.len(),
    ensures
        r@ == v@.subrange(from as int, to as int),
{
    let mut r = String::new();
    let mut i = from;
    while i < to
        invariant
            from <= i <= to,
            to <= v@.len(),
            r@ == v@.subrange(from as int, i as int),
        decreases to - i,
    {
        push_char(&mut r, v[i]);
        proof {
            assert(r@ =~= v@.subrange(from as int, i + 1));
        }
        i = i + 1;
    }
    r
}

/// Appends `c` to `s`: `String::push`.
#[verifier::external_body]
pub(crate) fn push_char(s: &mut String, c: char)
    ensures
        final(s)@ == old(s)@.push(c),
{
    s.push(c);
}

/// `s` without leading and trailing white space, as `str::trim` gives it.
pub fn trimmed(s: &str) -> (r: String)
    ensures
        r@ == trim(s@),
{
    let v = chars_of(s);
    let n = v.len();
    let mut a: usize = 0;
    while a < n && is_whitespace(v[a])
        invariant
            a <= n,
            n == v@.len(),
            forall|j: int| 0 <= j < a ==> is_ws(#[trigger] v@[j]),
        decreases n - a,
    {
        a = a + 1;
    }
    proof {
        lemma_trim_start_skip(v@, a as int);
        if a < n {
            assert(!is_ws(v@.skip(a as int)[0]));
        }
        assert(trim_start(v@.skip(a as int)) == v@.skip(a as int));
    }
    let mut b: usize = n;
    while b > a && is_whitespace(v[b - 1])
        invariant
            a <= b <= n,
            n == v@.len(),
            forall|j: int| b <= j < n ==> is_ws(#[trigger] v@[j]),
        decreases b,
    {
        b = b - 1;
    }
    proof {
        let t = v@.skip(a as int);
        assert forall|j: int| (b - a) <= j < t.len() implies is_ws(#[trigger] t[j]) by {
            assert(t[j] == v@[j + a]);
        }
        lemma_trim_end_take(t, (b - a) as int);
        let u = t.take((b - a) as int);
        if b > a {
            assert(u.last() == v@[b - 1]);
        }
        assert(trim_end(u) == u);
        assert(u =~= v@.subrange(a as int, b as int));
    }
    string_of(&v, a, b)
}

/// `parts` joined with `sep` between each two.
pub open spec fn join(parts: Seq<Seq<char>>, sep: char) -> Seq<char>
    decreases parts.len(),
{
    if parts.len() == 0 {
        Seq::empty()
    } else if parts.len() == 1 {
        parts[0]
    } else {
        join(parts.drop_last(), sep) + seq![sep] + parts.last()
    }
}

/// Whether `parts` is `s` split at every `sep`, as `str::split` gives it.
pub open spec fn is_split_of(parts: Seq<Seq<char>>, s: Seq<char>, sep: char) -> bool {
    &&& parts.len() >= 1
    &&& join(parts, sep) == s
    &&& forall|i: int| 0 <= i < parts.len() ==> !(#[trigger] parts[i]).contains(sep)
}

/// The pieces of `s` between the occurrences of `sep`.
pub fn split_on(s: &str, sep: char) -> (parts: Vec<String>)
    ensures
        is_split_of(parts@.map_values(|p: String| p@), s@, sep),
{
    let v = chars_of(s);
    let n = v.len();
    let mut out: Vec<String> = Vec::new();
    let mut start: usize = 0;
    let mut i: usize = 0;
    while i < n
        invariant
            n == v@.len(),
            start <= i <= n,
            v@ == s@,
            join(out@.map_values(|p: String| p@).push(v@.subrange(start as int, i as int)), sep)
                == v@.take(i as int),
            forall|j: int| 0 <= j < out@.len() ==> !(#[trigger] out@[j])@.contains(sep),
            forall|j: int| start <= j < i ==> v@[j] != sep,
        decreases n - i,
    {
        let ghost done = out@.map_values(|p: String| p@);
        if v[i] == sep {
            let piece = string_of(&v, start, i);
            proof {
                assert(!piece@.contains(sep)) by {
                    if piece@.contains(sep) {
                        let j = choose|j: int| 0 <= j < piece@.len() && piece@[j] == sep;
                        assert(v@[start + j] == sep);
                    }
                }
            }
            out.push(piece);
            proof {
                let ps = out@.map_values(|p: String| p@);
                assert(ps =~= done.push(v@.subrange(start as int, i as int)));
                let ps2 = ps.push(v@.subrange(i + 1, i + 1));
                assert(ps2.drop_last() =~= ps);
                assert(ps2.len() >= 2);
                assert(join(ps2, sep) == join(ps, sep) + seq![sep] + ps2.last());
                assert(join(ps, sep) == v@.take(i as int));
                assert(v@.take(i + 1) =~= v@.take(i as int) + seq![sep] + v@.subrange(i + 1, i + 1));
            }
            start = i + 1;
        } else {
            proof {
                let ps = done.push(v@.subrange(start as int, i as int));
                let ps2 = done.push(v@.subrange(start as int, i + 1));
                if done.len() == 0 {
                    assert(join(ps2, sep) == ps2[0]);
                    assert(join(ps, sep) == ps[0]);
                } else {
                    assert(ps2.drop_last() =~= done);
                    assert(ps.drop_last() =~= done);
                }
                assert(v@.take(i + 1) =~= v@.take(i as int).push(v@[i as int]));
                assert(v@.subrange(start as int, i + 1) =~= v@.subrange(start as int, i as int).push(v@[i as int]));
            }
        }
        i = i + 1;
    }
    let last = string_of(&v, start, n);
    let ghost done = out@.map_values(|p: String| p@);
    proof {
        assert(!last@.contains(sep)) by {
            if last@.contains(sep) {
                let j = choose|j: int| 0 <= j < last@.len() && last@[j] == sep;
                assert(v@[start + j] == sep);
            }
        }
    }
    out.push(last);
    proof {
        let ps = out@.map_values(|p: String| p@);
        assert(ps =~= done.push(v@.subrange(start as int, n as int)));
        assert(v@.take(n as int) =~= s@);
        assert forall|j: int| 0 <= j < ps.len() implies !(#[trigger] ps[j]).contains(sep) by {
            if j < out@.len() - 1 {
                assert(ps[j] == out@[j]@);
            }
        }
    }
    out
}


/// Whether `s` begins with `prefix`.
pub open spec fn starts_with(s: Seq<char>, prefix: Seq<char>) -> bool {
    prefix.len() <= s.len() && s.take(prefix.len() as int) == prefix
}

/// Whether the characters `v` begin with `prefix`.
pub fn chars_start_with(v: &Vec<char>, prefix: &str) -> (b: bool)
    ensures
        b == starts_with(v@, prefix@),
{
    let p = chars_of(prefix);
    if p.len() > v.len() {
        return false;
    }
    let n = p.len();
    let mut i: usize = 0;
    while i < n
        invariant
            n == p@.len(),
            n <= v@.len(),
            p@ == prefix@,
            i <= n,
            forall|j: int| 0 <= j < i ==> v@[j] == p@[j],
        decreases n - i,
    {
        if v[i] != p[i] {
            assert(v@.take(n as int)[i as int] != prefix@[i as int]);
            return false;
        }
        i = i + 1;
    }
    assert(v@.take(n as int) =~= prefix@);
    true
}

/// `s` without `prefix`, when `s` begins with it.
pub fn strip_prefix(s: &str, prefix: &str) -> (r: Option<String>)
    ensures
        match r {
            Some(rest) => starts_with(s@, prefix@) && rest@ == s@.skip(prefix@.len() as int),
            None => !starts_with(s@, prefix@),
        },
{
    let v = chars_of(s);
    if chars_start_with(&v, prefix) {
        let n = prefix.unicode_len();
        Some(string_of(&v, n, v.len()))
    } else {
        None
    }
}


/// The digit character of `d`, for `d` below ten.
pub open spec fn digit_char(d: nat) -> char {
    ((d + 48) as u8) as char
}

/// The decimal text of `n`, without leading zeros.
pub open spec fn decimal(n: nat) -> Seq<char>
    decreases n,
{
    if n < 10 {
        seq![digit_char(n)]
    } else {
        decimal(n / 10) + seq![digit_char(n % 10)]
    }
}

fn digit(d: u64) -> (c: char)
    requires
        d < 10,
    ensures
        c == digit_char(d as nat),
{
    let b: u8 = (d as u8) + 48;
    b as char
}

/// The decimal text of `n`, as `to_string` writes it.
pub fn u64_to_text(n: u64) -> (r: String)
    ensures
        r@ == decimal(n as nat),
    decreases n,
{
    if n < 10 {
        let mut r = String::new();
        push_char(&mut r, digit(n));
        assert(r@ =~= decimal(n as nat));
        r
    } else {
        let mut r = u64_to_text(n / 10);
        push_char(&mut r, digit(n % 10));
        assert(r@ =~= decimal(n as nat));
        r
    }
}


/// The position of the first line feed at or after `i`, or the length of `s`.
pub open spec fn next_newline(s: Seq<char>, i: int) -> int
    decreases s.len() - i,
{
    if i >= s.len() {
        s.len() as int
    } else if s[i] == '\n' {
        i
    } else {
        next_newline(s, i + 1)
    }
}

/// The line of `s` that begins at `start`: up to the next line feed, without
/// the carriage return that may stand before that line feed.
pub open spec fn line_at(s: Seq<char>, start: int) -> Seq<char> {
    let e = next_newline(s, start);
    let raw = s.subrange(start, e);
    if e < s.len() && raw.len() > 0 && raw.last() == '\r' {
        raw.drop_last()
    } else {
        raw
    }
}

/// The lines of `s` from `start` on, as `str::lines` gives them: split at
/// each line feed, a carriage return before a line feed dropped, and no
/// empty line after a final line feed.
pub open spec fn lines_from(s: Seq<char>, start: int) -> Seq<Seq<char>>
    decreases s.len() - start,
{
    if start < 0 || start >= s.len() {
        Seq::empty()
    } else {
        let e = next_newline(s, start);
        let next = if e >= start && e < s.len() { e + 1 } else { s.len() as int };
        seq![line_at(s, start)] + lines_from(s, next)
    }
}

/// The lines of `s`.
pub open spec fn lines(s: Seq<char>) -> Seq<Seq<char>> {
    lines_from(s, 0)
}

pub proof fn lemma_next_newline_bounds(s: Seq<char>, i: int)
    requires
        0 <= i <= s.len(),
    ensures
        i <= next_newline(s, i) <= s.len(),
        next_newline(s, i) < s.len() ==> s[next_newline(s, i)] == '\n',
        forall|j: int| i <= j < next_newline(s, i) ==> s[j] != '\n',
    decreases s.len() - i,
{
    if i < s.len() && s[i] != '\n' {
        lemma_next_newline_bounds(s, i + 1);
    }
}

/// The lines of `s`, as `str::lines` gives them.
pub fn lines_of(s: &str) -> (r: Vec<String>)
    ensures
        r@.map_values(|l: String| l@) == lines(s@),
{
    let v = chars_of(s);
    let n = v.len();
    let mut out: Vec<String> = Vec::new();
    let mut start: usize = 0;
    while start < n
        invariant
            n == v@.len(),
            v@ == s@,
            start <= n,
            out@.map_values(|l: String| l@) + lines_from(v@, start as int) == lines(v@),
        decreases n - start,
    {
        let mut e = start;
        while e < n && v[e] != '\n'
            invariant
                start <= e <= n,
                n == v@.len(),
                next_newline(v@, start as int) == next_newline(v@, e as int),
            decreases n - e,
        {
            e = e + 1;
        }
        proof {
            lemma_next_newline_bounds(v@, start as int);
            assert(next_newline(v@, e as int) == e as int);
        }
        let mut stop = e;
        if e < n && e > start && v[e - 1] == '\r' {
            stop = e - 1;
        }
        let line = string_of(&v, start, stop);
        let ghost before = out@.map_values(|l: String| l@);
        proof {
            let raw = v@.subrange(start as int, e as int);
            if e < n && e > start && v@[e - 1] == '\r' {
                assert(raw.drop_last() =~= v@.subrange(start as int, stop as int));
            }
            assert(line@ == line_at(v@, start as int));
        }
        out.push(line);
        proof {
            assert(out@.map_values(|l: String| l@) =~= before.push(line@));
        }
        let next = if e < n { e + 1 } else { n };
        proof {
            assert(lines_from(v@, start as int) == seq![line@] + lines_from(v@, next as int));
            assert(before.push(line@) + lines_from(v@, next as int) =~= before + lines_from(v@, start as int));
        }
        start = next;
    }
    proof {
        assert(lines_from(v@, start as int) =~= Seq::<Seq<char>>::empty());
        assert(out@.map_values(|l: String| l@) + Seq::<Seq<char>>::empty() =~= out@.map_values(|l: String| l@));
    }
    out
}

/// Whether `c` is a decimal digit.
pub open spec fn is_digit(c: char) -> bool {
    '0' <= c && c <= '9'
}

/// The number that the decimal digits `d` write.
pub open spec fn digits_value(d: Seq<char>) -> nat
    decreases d.len(),
{
    if d.len() == 0 {
        0
    } else {
        digits_value(d.drop_last()) * 10 + ((d.last() as u32) - 48) as nat
    }
}

/// The number that `s` writes as an unsigned integer, as `str::parse` reads
/// it: an optional `+`, then at least one decimal digit and nothing else;
/// `None` otherwise.  Whether it fits the target type is checked apart.
pub open spec fn parse_unsigned(s: Seq<char>) -> Option<nat> {
    let d = unsigned_digits(s);
    if d.len() > 0 && all_digits(d) {
        Some(digits_value(d))
    } else {
        None
    }
}

/// `s` without the `+` that may lead it.
pub open spec fn unsigned_digits(s: Seq<char>) -> Seq<char> {
    if s.len() > 0 && s[0] == '+' {
        s.drop_first()
    } else {
        s
    }
}

/// Whether every character of `d` is a decimal digit.
pub open spec fn all_digits(d: Seq<char>) -> bool {
    forall|i: int| 0 <= i < d.len() ==> is_digit(#[trigger] d[i])
}

proof fn lemma_digits_value_grows(d: Seq<char>, i: int)
    requires
        0 <= i <= d.len(),
    ensures
        digits_value(d.take(i)) <= digits_value(d),
    decreases d.len() - i,
{
    if i < d.len() {
        lemma_digits_value_grows(d, i + 1);
        let t = d.take(i + 1);
        assert(t.drop_last() =~= d.take(i));
    } else {
        assert(d.take(i) =~= d);
    }
}

/// `s` read as an unsigned integer no larger than `max`, as `str::parse`
/// reads a `u64` (with `max` the type's largest value).
pub fn parse_bounded(s: &str, max: u64) -> (r: Option<u64>)
    ensures
        r == (match parse_unsigned(s@) {
            Some(v) => if v <= max { Some(v as u64) } else { None },
            None => None,
        }),
{
    let v = chars_of(s);
    let mut i: usize = 0;
    if v.len() > 0 && v[0] == '+' {
        i = 1;
    }
    let ghost d = if v@.len() > 0 && v@[0] == '+' { v@.drop_first() } else { v@ };
    let first = i;
    if first >= v.len() {
        assert(d.len() == 0);
        return None;
    }
    let n = v.len();
    let mut acc: u64 = 0;
    while i < n
        invariant
            v@ == s@,
            n == v@.len(),
            first <= i <= n,
            first < n,
            d == v@.skip(first as int),
            d == unsigned_digits(s@),
            forall|j: int| first <= j < i ==> is_digit(#[trigger] v@[j]),
            acc as nat == digits_value(d.take(i - first)),
            acc <= max,
        decreases n - i,
    {
        let c = v[i];
        if !('0' <= c && c <= '9') {
            proof {
                assert(d[i - first] == v@[i as int]);
                assert(!is_digit(d[i - first]));
                assert(!(forall|j: int| 0 <= j < d.len() ==> is_digit(#[trigger] d[j])));
                assert(parse_unsigned(s@) is None);
            }
            return None;
        }
        let dv: u64 = (c as u32 - 48) as u64;
        proof {
            let t = d.take(i - first + 1);
            assert(t.drop_last() =~= d.take(i - first));
            assert(t.last() == c);
            assert(digits_value(t) == acc * 10 + dv);
        }
        if dv > max || acc > (max - dv) / 10 {
            proof {
                if dv <= max {
                    assert(acc * 10 + dv > max) by (nonlinear_arith)
                        requires
                            acc > (max - dv) / 10,
                            dv <= max,
                            dv < 10,
                    ;
                }
                assert forall|j: int| 0 <= j < (i - first + 1) implies is_digit(#[trigger] d[j]) by {
                    assert(d[j] == v@[j + first]);
                }
                lemma_digits_value_grows(d, i - first + 1);
                if forall|j: int| 0 <= j < d.len() ==> is_digit(#[trigger] d[j]) {
                    assert(d.take(d.len() as int) =~= d);
                    assert(digits_value(d) > max);
                    assert(parse_unsigned(s@) == Some(digits_value(d)));
                } else {
                    assert(parse_unsigned(s@) is None);
                }
            }
            return None;
        }
        acc = acc * 10 + dv;
        i = i + 1;
    }
    proof {
        assert(d.take(n - first) =~= d);
        assert forall|j: int| 0 <= j < d.len() implies is_digit(#[trigger] d[j]) by {
            assert(d[j] == v@[j + first]);
        }
    }
    Some(acc)
}


/// Whether `s` ends with `suffix`.
pub open spec fn ends_with(s: Seq<char>, suffix: Seq<char>) -> bool {
    suffix.len() <= s.len() && s.skip(s.len() - suffix.len()) == suffix
}

/// Whether the characters `v` end with `suffix`.
pub fn chars_end_with(v: &Vec<char>, suffix: &str) -> (b: bool)
    ensures
        b == ends_with(v@, suffix@),
{
    let p = chars_of(suffix);
    if p.len() > v.len() {
        return false;
    }
    let n = p.len();
    let off = v.len() - n;
    let mut i: usize = 0;
    while i < n
        invariant
            n == p@.len(),
            off + n == v.len(),
            p@ == suffix@,
            i <= n,
            forall|j: int| 0 <= j < i ==> v@[off + j] == p@[j],
        decreases n - i,
    {
        if v[off + i] != p[i] {
            assert(v@.skip(off as int)[i as int] != suffix@[i as int]);
            return false;
        }
        i = i + 1;
    }
    assert(v@.skip(off as int) =~= suffix@);
    true
}

/// Whether `pat` occurs in `s` at position `i`.
pub open spec fn occurs_at(s: Seq<char>, pat: Seq<char>, i: int) -> bool {
    0 <= i && i + pat.len() <= s.len() && s.subrange(i, i + pat.len()) == pat
}

/// Whether `pat` occurs somewhere in `s`.
pub open spec fn contains_text(s: Seq<char>, pat: Seq<char>) -> bool {
    exists|i: int| occurs_at(s, pat, i)
}

/// Whether `pat` occurs in the characters `v` at position `at`.
pub fn chars_occur_at(v: &Vec<char>, p: &Vec<char>, at: usize) -> (b: bool)
    ensures
        b == occurs_at(v@, p@, at as int),
{
    if at > v.len() || p.len() > v.len() - at {
        return false;
    }
    let n = p.len();
    let mut i: usize = 0;
    while i < n
        invariant
            n == p@.len(),
            at + n <= v.len(),
            i <= n,
            forall|j: int| 0 <= j < i ==> v@[at + j] == p@[j],
        decreases n - i,
    {
        if v[at + i] != p[i] {
            assert(v@.subrange(at as int, at + n)[i as int] != p@[i as int]);
            return false;
        }
        i = i + 1;
    }
    assert(v@.subrange(at as int, at + n) =~= p@);
    true
}

/// Whether `pat` occurs in `s`.
pub fn contains_str(s: &str, pat: &str) -> (b: bool)
    ensures
        b == contains_text(s@, pat@),
{
    let v = chars_of(s);
    let p = chars_of(pat);
    if p.len() > v.len() {
        return false;
    }
    let last = v.len() - p.len();
    let mut i: usize = 0;
    while i < last
        invariant
            v@ == s@,
            p@ == pat@,
            last + p@.len() == v@.len(),
            i <= last,
            forall|j: int| 0 <= j < i ==> !occurs_at(v@, p@, j),
        decreases last - i,
    {
        if chars_occur_at(&v, &p, i) {
            return true;
        }
        i = i + 1;
    }
    if chars_occur_at(&v, &p, last) {
        return true;
    }
    assert forall|j: int| !occurs_at(v@, p@, j) by {
        if j > last {
        }
    }
    false
}

/// `s` with every occurrence of the non-empty `pat` taken out, scanning from
/// the left as `str::replace(pat, "")` does.
pub open spec fn remove_all(s: Seq<char>, pat: Seq<char>) -> Seq<char>
    decreases s.len(),
{
    if pat.len() == 0 || s.len() == 0 {
        s
    } else if occurs_at(s, pat, 0) {
        remove_all(s.skip(pat.len() as int), pat)
    } else {
        seq![s[0]] + remove_all(s.drop_first(), pat)
    }
}

proof fn lemma_remove_all_skip(s: Seq<char>, pat: Seq<char>, i: int)
    requires
        pat.len() > 0,
        0 <= i <= s.len(),
    ensures
        remove_all(s.skip(i), pat) == (if i < s.len() {
            if occurs_at(s, pat, i) {
                remove_all(s.skip(i + pat.len()), pat)
            } else {
                seq![s[i]] + remove_all(s.skip(i + 1), pat)
            }
        } else {
            Seq::<char>::empty()
        }),
{
    let t = s.skip(i);
    if i < s.len() {
        if occurs_at(s, pat, i) {
            assert(t.subrange(0, pat.len() as int) =~= s.subrange(i, i + pat.len()));
            assert(t.skip(pat.len() as int) =~= s.skip(i + pat.len()));
        } else {
            if occurs_at(t, pat, 0) {
                assert(t.subrange(0, pat.len() as int) =~= s.subrange(i, i + pat.len()));
            }
            assert(t.drop_first() =~= s.skip(i + 1));
        }
    } else {
        assert(t =~= Seq::<char>::empty());
    }
}

/// `s` with every occurrence of `pat` taken out.
pub fn without(s: &str, pat: &str) -> (r: String)
    ensures
        r@ == remove_all(s@, pat@),
{
    let v = chars_of(s);
    let p = chars_of(pat);
    if p.len() == 0 {
        return string_of(&v, 0, v.len());
    }
    let mut out = String::new();
    let mut i: usize = 0;
    proof {
        assert(v@.skip(0) =~= v@);
        assert(out@ + remove_all(v@, p@) =~= remove_all(v@, p@));
    }
    while i < v.len()
        invariant
            v@ == s@,
            p@ == pat@,
            p@.len() > 0,
            i <= v@.len(),
            out@ + remove_all(v@.skip(i as int), p@) == remove_all(v@, p@),
        decreases v@.len() - i,
    {
        proof {
            lemma_remove_all_skip(v@, p@, i as int);
        }
        if chars_occur_at(&v, &p, i) {
            i = i + p.len();
        } else {
            let ghost before = out@;
            push_char(&mut out, v[i]);
            proof {
                assert(out@ + remove_all(v@.skip(i + 1), p@) =~= before + (seq![v@[i as int]] + remove_all(v@.skip(i + 1), p@)));
            }
            i = i + 1;
        }
    }
    proof {
        assert(v@.skip(i as int) =~= Seq::<char>::empty());
        assert(out@ + Seq::<char>::empty() =~= out@);
    }
    out
}

/// `s` with every `from` turned into `to`.
pub fn replace_char(s: &str, from: char, to: char) -> (r: String)
    ensures
        r@ == s@.map_values(|c: char| if c == from { to } else { c }),
{
    let v = chars_of(s);
    let mut out = String::new();
    let mut i: usize = 0;
    while i < v.len()
        invariant
            v@ == s@,
            i <= v@.len(),
            out@ == v@.take(i as int).map_values(|c: char| if c == from { to } else { c }),
        decreases v@.len() - i,
    {
        let c = v[i];
        push_char(&mut out, if c == from { to } else { c });
        proof {
            assert(out@ =~= v@.take(i + 1).map_values(|c: char| if c == from { to } else { c }));
        }
        i = i + 1;
    }
    proof {
        assert(v@.take(v@.len() as int) =~= v@);
    }
    out
}

/// `s` without the leading and trailing characters equal to `c`, as
/// `str::trim_matches(c)` gives it.
pub open spec fn trim_char(s: Seq<char>, c: char) -> Seq<char> {
    strip_end_char(strip_start_char(s, c), c)
}

pub open spec fn strip_start_char(s: Seq<char>, c: char) -> Seq<char>
    decreases s.len(),
{
    if s.len() > 0 && s[0] == c {
        strip_start_char(s.drop_first(), c)
    } else {
        s
    }
}

pub open spec fn strip_end_char(s: Seq<char>, c: char) -> Seq<char>
    decreases s.len(),
{
    if s.len() > 0 && s.last() == c {
        strip_end_char(s.drop_last(), c)
    } else {
        s
    }
}

proof fn lemma_strip_start_skip(s: Seq<char>, c: char, i: int)
    requires
        0 <= i <= s.len(),
        forall|j: int| 0 <= j < i ==> #[trigger] s[j] == c,
    ensures
        strip_start_char(s, c) == strip_start_char(s.skip(i), c),
    decreases i,
{
    if i > 0 {
        assert(s.drop_first().skip(i - 1) =~= s.skip(i));
        lemma_strip_start_skip(s.drop_first(), c, i - 1);
    } else {
        assert(s.skip(0) =~= s);
    }
}

proof fn lemma_strip_end_take(s: Seq<char>, c: char, i: int)
    requires
        0 <= i <= s.len(),
        forall|j: int| i <= j < s.len() ==> #[trigger] s[j] == c,
    ensures
        strip_end_char(s, c) == strip_end_char(s.take(i), c),
    decreases s.len() - i,
{
    if i < s.len() {
        assert(s.drop_last().take(i) =~= s.take(i));
        lemma_strip_end_take(s.drop_last(), c, i);
    } else {
        assert(s.take(i) =~= s);
    }
}

/// `s` without leading and trailing `c`.
pub fn trimmed_of(s: &str, c: char) -> (r: String)
    ensures
        r@ == trim_char(s@, c),
{
    let v = chars_of(s);
    let n = v.len();
    let mut a: usize = 0;
    while a < n && v[a] == c
        invariant
            a <= n,
            n == v@.len(),
            forall|j: int| 0 <= j < a ==> #[trigger] v@[j] == c,
        decreases n - a,
    {
        a = a + 1;
    }
    proof {
        lemma_strip_start_skip(v@, c, a as int);
        if a < n {
            assert(v@.skip(a as int)[0] != c);
        }
        assert(strip_start_char(v@.skip(a as int), c) == v@.skip(a as int));
    }
    let mut b: usize = n;
    while b > a && v[b - 1] == c
        invariant
            a <= b <= n,
            n == v@.len(),
            forall|j: int| b <= j < n ==> #[trigger] v@[j] == c,
        decreases b,
    {
        b = b - 1;
    }
    proof {
        let t = v@.skip(a as int);
        assert forall|j: int| (b - a) <= j < t.len() implies #[trigger] t[j] == c by {
            assert(t[j] == v@[j + a]);
        }
        lemma_strip_end_take(t, c, (b - a) as int);
        let u = t.take((b - a) as int);
        if b > a {
            assert(u.last() == v@[b - 1]);
        }
        assert(strip_end_char(u, c) == u);
        assert(u =~= v@.subrange(a as int, b as int));
    }
    string_of(&v, a, b)
}

/// The first run of non-white-space characters of `s`, if any, as
/// `split_whitespace().next()` gives it.
pub open spec fn first_word(s: Seq<char>) -> Option<Seq<char>> {
    let t = trim_start(s);
    if t.len() == 0 {
        None
    } else {
        Some(t.take(word_end(t, 0)))
    }
}

/// The position of the first white space at or after `i`, or the length.
pub open spec fn word_end(s: Seq<char>, i: int) -> int
    decreases s.len() - i,
{
    if i >= s.len() {
        s.len() as int
    } else if is_ws(s[i]) {
        i
    } else {
        word_end(s, i + 1)
    }
}

proof fn lemma_word_end_bounds(s: Seq<char>, i: int)
    requires
        0 <= i <= s.len(),
    ensures
        i <= word_end(s, i) <= s.len(),
    decreases s.len() - i,
{
    if i < s.len() && !is_ws(s[i]) {
        lemma_word_end_bounds(s, i + 1);
    }
}

/// The first word of `s`.
pub fn first_word_of(s: &str) -> (r: Option<String>)
    ensures
        match r {
            Some(w) => first_word(s@) == Some(w@),
            None => first_word(s@) is None,
        },
{
    let v = chars_of(s);
    let n = v.len();
    let mut a: usize = 0;
    while a < n && is_whitespace(v[a])
        invariant
            a <= n,
            n == v@.len(),
            forall|j: int| 0 <= j < a ==> is_ws(#[trigger] v@[j]),
        decreases n - a,
    {
        a = a + 1;
    }
    proof {
        lemma_trim_start_skip(v@, a as int);
        if a < n {
            assert(!is_ws(v@.skip(a as int)[0]));
        }
        assert(trim_start(v@.skip(a as int)) == v@.skip(a as int));
    }
    if a == n {
        assert(v@.skip(a as int).len() == 0);
        return None;
    }
    let ghost t = v@.skip(a as int);
    let mut b = a;
    while b < n && !is_whitespace(v[b])
        invariant
            a <= b <= n,
            n == v@.len(),
            t == v@.skip(a as int),
            word_end(t, 0) == word_end(t, b - a),
        decreases n - b,
    {
        proof {
            assert(t[b - a] == v@[b as int]);
        }
        b = b + 1;
    }
    proof {
        if b < n {
            assert(t[b - a] == v@[b as int]);
        }
        assert(word_end(t, b - a) == b - a);
        assert(t.take(b - a) =~= v@.subrange(a as int, b as int));
    }
    Some(string_of(&v, a, b))
}


/// The runs of non-white-space characters of `s` from position `i` on, as
/// `split_whitespace` gives them.
pub open spec fn words_from(s: Seq<char>, i: int) -> Seq<Seq<char>>
    decreases s.len() - i,
{
    if i < 0 || i >= s.len() {
        Seq::empty()
    } else if is_ws(s[i]) {
        words_from(s, i + 1)
    } else {
        let e = word_end(s, i);
        if e <= i || e > s.len() {
            Seq::empty()
        } else {
            seq![s.subrange(i, e)] + words_from(s, e)
        }
    }
}

/// The words of `s`.
pub open spec fn words(s: Seq<char>) -> Seq<Seq<char>> {
    words_from(s, 0)
}

/// The words of `s`, as `str::split_whitespace` gives them.
pub fn split_words(s: &str) -> (r: Vec<String>)
    ensures
        r@.map_values(|w: String| w@) == words(s@),
{
    let v = chars_of(s);
    let n = v.len();
    let mut out: Vec<String> = Vec::new();
    let mut i: usize = 0;
    while i < n
        invariant
            n == v@.len(),
            v@ == s@,
            i <= n,
            out@.map_values(|w: String| w@) + words_from(v@, i as int) == words(v@),
        decreases n - i,
    {
        if is_whitespace(v[i]) {
            i = i + 1;
        } else {
            let mut e = i + 1;
            proof {
                lemma_word_end_bounds(v@, i as int);
            }
            while e < n && !is_whitespace(v[e])
                invariant
                    i < e <= n,
                    n == v@.len(),
                    !is_ws(v@[i as int]),
                    word_end(v@, i as int) == word_end(v@, e as int),
                decreases n - e,
            {
                e = e + 1;
            }
            let w = string_of(&v, i, e);
            let ghost before = out@.map_values(|w: String| w@);
            out.push(w);
            proof {
                assert(word_end(v@, e as int) == e);
                assert(out@.map_values(|w: String| w@) =~= before.push(v@.subrange(i as int, e as int)));
            }
            i = e;
        }
    }
    proof {
        assert(out@.map_values(|w: String| w@) + Seq::<Seq<char>>::empty() =~= out@.map_values(|w: String| w@));
    }
    out
}

/// `parts` joined with `sep` between each two.
pub open spec fn join_with(parts: Seq<Seq<char>>, sep: Seq<char>) -> Seq<char>
    decreases parts.len(),
{
    if parts.len() == 0 {
        Seq::empty()
    } else if parts.len() == 1 {
        parts[0]
    } else {
        join_with(parts.drop_last(), sep) + sep + parts.last()
    }
}

/// `parts` joined with `sep`, as `[String]::join` gives it.
pub fn joined(parts: &Vec<String>, sep: &str) -> (r: String)
    ensures
        r@ == join_with(parts@.map_values(|p: String| p@), sep@),
{
    let mut out = String::new();
    let mut i: usize = 0;
    while i < parts.len()
        invariant
            i <= parts@.len(),
            out@ == join_with(parts@.take(i as int).map_values(|p: String| p@), sep@),
        decreases parts@.len() - i,
    {
        let ghost before = parts@.take(i as int).map_values(|p: String| p@);
        let ghost after = parts@.take(i + 1).map_values(|p: String| p@);
        assert(after.drop_last() =~= before);
        if i == 0 {
            out = parts[i].clone();
            assert(after.len() == 1);
        } else {
            out = concat3(&out, sep, &parts[i]);
        }
        i = i + 1;
    }
    assert(parts@.take(parts@.len() as int) =~= parts@);
    out
}

/// What `str::to_lowercase` gives for `s`: the Unicode lower case of each
/// character, which may be more than one character.
pub uninterp spec fn lowercase(s: Seq<char>) -> Seq<char>;

/// `str::to_lowercase`: its result is named [`lowercase`] of the argument;
/// nothing more of it is stated.
#[verifier::external_body]
pub(crate) fn to_lowercase(s: &str) -> (r: String)
    ensures
        r@ == lowercase(s@),
{
    s.to_lowercase()
}

/// The number of bytes that `s` takes in UTF-8, as `str::len` counts them.
pub open spec fn byte_len(s: Seq<char>) -> nat {
    vstd::utf8::encode_utf8(s).len()
}

/// The number of bytes of `s` in UTF-8 (a string held in memory has fewer
/// bytes than `usize` counts).
pub fn utf8_len(s: &String) -> (n: usize)
    ensures
        n == byte_len(s@) as usize,
{
    s.as_str().len()
}


/// The position of the first `c` at or after `i`, or the length of `s`.
pub open spec fn next_char(s: Seq<char>, c: char, i: int) -> int
    decreases s.len() - i,
{
    if i >= s.len() {
        s.len() as int
    } else if s[i] == c {
        i
    } else {
        next_char(s, c, i + 1)
    }
}

pub proof fn lemma_next_char_bounds(s: Seq<char>, c: char, i: int)
    requires
        0 <= i <= s.len(),
    ensures
        i <= next_char(s, c, i) <= s.len(),
        next_char(s, c, i) < s.len() ==> s[next_char(s, c, i)] == c,
        forall|j: int| i <= j < next_char(s, c, i) ==> s[j] != c,
    decreases s.len() - i,
{
    if i < s.len() && s[i] != c {
        lemma_next_char_bounds(s, c, i + 1);
    }
}

/// The pieces of `s` from `start` on between the occurrences of `sep`.
pub open spec fn pieces_from(s: Seq<char>, sep: char, start: int) -> Seq<Seq<char>>
    decreases s.len() - start,
{
    if start < 0 || start > s.len() {
        Seq::empty()
    } else {
        let e = next_char(s, sep, start);
        if e < start || e >= s.len() {
            seq![s.subrange(start, s.len() as int)]
        } else {
            seq![s.subrange(start, e)] + pieces_from(s, sep, e + 1)
        }
    }
}

/// The pieces of `s` between the occurrences of `sep`, as `str::split` with
/// a character gives them.
pub open spec fn pieces(s: Seq<char>, sep: char) -> Seq<Seq<char>> {
    pieces_from(s, sep, 0)
}

/// The pieces of `s` between the occurrences of `sep`.
pub fn split_at_char(s: &str, sep: char) -> (r: Vec<String>)
    ensures
        r@.map_values(|p: String| p@) == pieces(s@, sep),
{
    let v = chars_of(s);
    let n = v.len();
    let mut out: Vec<String> = Vec::new();
    let mut start: usize = 0;
    loop
        invariant
            n == v@.len(),
            v@ == s@,
            start <= n,
            out@.map_values(|p: String| p@) + pieces_from(v@, sep, start as int) == pieces(v@, sep),
        decreases n - start,
    {
        let mut e = start;
        while e < n && v[e] != sep
            invariant
                start <= e <= n,
                n == v@.len(),
                next_char(v@, sep, start as int) == next_char(v@, sep, e as int),
            decreases n - e,
        {
            e = e + 1;
        }
        proof {
            lemma_next_char_bounds(v@, sep, start as int);
        }
        let piece = string_of(&v, start, e);
        let ghost before = out@.map_values(|p: String| p@);
        out.push(piece);
        proof {
            assert(out@.map_values(|p: String| p@) =~= before.push(v@.subrange(start as int, e as int)));
        }
        if e >= n {
            proof {
                assert(out@.map_values(|p: String| p@) =~= before + pieces_from(v@, sep, start as int));
            }
            return out;
        }
        proof {
            assert(before + pieces_from(v@, sep, start as int) =~= out@.map_values(|p: String| p@) + pieces_from(v@, sep, e + 1));
        }
        start = e + 1;
    }
}

/// The text that `{:?}` writes for a list of strings.
pub uninterp spec fn debug_list(items: Seq<Seq<char>>) -> Seq<char>;

/// `format!("{:?}", items)`: its result is named [`debug_list`] of the items.
#[verifier::external_body]
pub(crate) fn debug_strings(items: &Vec<String>) -> (r: String)
    ensures
        r@ == debug_list(items@.map_values(|s: String| s@)),
{
    format!("{:?}", items)
}


/// The text of `s` before its first `c`, or all of `s`, as
/// `split(c).next()` gives it.
pub fn before_char(s: &str, c: char) -> (r: String)
    ensures
        r@ == s@.take(next_char(s@, c, 0)),
{
    let v = chars_of(s);
    let mut e: usize = 0;
    while e < v.len() && v[e] != c
        invariant
            e <= v@.len(),
            v@ == s@,
            next_char(v@, c, 0) == next_char(v@, c, e as int),
        decreases v@.len() - e,
    {
        e = e + 1;
    }
    proof {
        lemma_next_char_bounds(v@, c, 0);
        assert(v@.subrange(0, e as int) =~= v@.take(e as int));
    }
    string_of(&v, 0, e)
}

/// Whether `c` occurs in `s`.
pub fn has_char(s: &str, c: char) -> (b: bool)
    ensures
        b == s@.contains(c),
{
    let v = chars_of(s);
    let mut i: usize = 0;
    while i < v.len()
        invariant
            v@ == s@,
            i <= v@.len(),
            forall|j: int| 0 <= j < i ==> v@[j] != c,
        decreases v@.len() - i,
    {
        if v[i] == c {
            assert(s@[i as int] == c);
            return true;
        }
        i = i + 1;
    }
    false
}

/// Whether `s` starts with `prefix`.
pub fn text_starts_with(s: &str, prefix: &str) -> (b: bool)
    ensures
        b == starts_with(s@, prefix@),
{
    chars_start_with(&chars_of(s), prefix)
}

/// The first of `ls` that starts with `prefix`.
pub open spec fn find_prefixed(ls: Seq<Seq<char>>, prefix: Seq<char>) -> Option<Seq<char>>
    decreases ls.len(),
{
    if ls.len() == 0 {
        None
    } else if starts_with(ls[0], prefix) {
        Some(ls[0])
    } else {
        find_prefixed(ls.drop_first(), prefix)
    }
}

/// The first line of `s` that starts with `prefix`, as
/// `lines().find(|l| l.starts_with(prefix))` gives it.
pub fn find_line(s: &str, prefix: &str) -> (r: Option<String>)
    ensures
        opt_chars(r) == find_prefixed(lines(s@), prefix@),
{
    let ls = lines_of(s);
    let ghost ll = ls@.map_values(|l: String| l@);
    let mut i: usize = 0;
    assert(ll.skip(0) =~= ll);
    while i < ls.len()
        invariant
            ll == ls@.map_values(|l: String| l@),
            ll == lines(s@),
            i <= ls@.len(),
            find_prefixed(ll, prefix@) == find_prefixed(ll.skip(i as int), prefix@),
        decreases ls@.len() - i,
    {
        proof {
            assert(ll.skip(i as int).drop_first() =~= ll.skip(i + 1));
            assert(ll.skip(i as int)[0] == ls@[i as int]@);
        }
        if text_starts_with(ls[i].as_str(), prefix) {
            return Some(ls[i].clone());
        }
        i = i + 1;
    }
    proof {
        assert(ll.skip(i as int).len() == 0);
    }
    None
}

/// The characters of an optional string.
pub open spec fn opt_chars(o: Option<String>) -> Option<Seq<char>> {
    match o {
        Some(s) => Some(s@),
        None => None,
    }
}

/// The `n`th piece of `s` between occurrences of `sep`, as
/// `split(sep).nth(n)` gives it.
pub open spec fn nth_piece(s: Seq<char>, sep: char, n: int) -> Option<Seq<char>> {
    let p = pieces(s, sep);
    if 0 <= n < p.len() {
        Some(p[n])
    } else {
        None
    }
}

/// The `n`th piece of `s` between occurrences of `sep`.
pub fn piece_at(s: &str, sep: char, n: usize) -> (r: Option<String>)
    ensures
        opt_chars(r) == nth_piece(s@, sep, n as int),
{
    let p = split_at_char(s, sep);
    if n < p.len() {
        Some(p[n].clone())
    } else {
        None
    }
}

/// The `n`th word of `s`, as `split_whitespace().nth(n)` gives it.
pub fn word_at(s: &str, n: usize) -> (r: Option<String>)
    ensures
        opt_chars(r) == (if 0 <= n < words(s@).len() {
            Some(words(s@)[n as int])
        } else {
            None::<Seq<char>>
        }),
{
    let w = split_words(s);
    if n < w.len() {
        Some(w[n].clone())
    } else {
        None
    }
}
} // verus!
