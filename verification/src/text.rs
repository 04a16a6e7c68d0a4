//! Text primitives shared by the other modules: whitespace trimming,
//! substring search and replacement, and number formatting and parsing.
//!
//! Every function works on the characters of a string; the specifications are
//! stated over `Seq<char>`, the view of `str` and `String`.

use vstd::prelude::*;

verus! {

/// `String::push` appends the character to the string. This is taken from
/// the documentation of the standard library and is not proved here.
pub assume_specification[ String::push ](s: &mut String, c: char)
    ensures
        final(s)@ == old(s)@.push(c),
;

/// The characters with the Unicode `White_Space` property.
pub open spec fn is_whitespace(c: char) -> bool {
    let n = c as u32;
    ||| 0x09 <= n <= 0x0D
    ||| n == 0x20
    ||| n == 0x85
    ||| n == 0xA0
    ||| n == 0x1680
    ||| 0x2000 <= n <= 0x200A
    ||| n == 0x2028
    ||| n == 0x2029
    ||| n == 0x202F
    ||| n == 0x205F
    ||| n == 0x3000
}

/// `s` without its leading whitespace.
pub open spec fn trim_start_of(s: Seq<char>) -> Seq<char>
    decreases s.len(),
{
    if s.len() > 0 && is_whitespace(s[0]) {
        trim_start_of(s.drop_first())
    } else {
        s
    }
}

/// `s` without its trailing whitespace.
pub open spec fn trim_end_of(s: Seq<char>) -> Seq<char>
    decreases s.len(),
{
    if s.len() > 0 && is_whitespace(s.last()) {
        trim_end_of(s.drop_last())
    } else {
        s
    }
}

/// `s` without leading and trailing whitespace.
pub open spec fn trimmed(s: Seq<char>) -> Seq<char> {
    trim_end_of(trim_start_of(s))
}

/// `needle` stands in `hay` at index `i`.
pub open spec fn occurs_at(hay: Seq<char>, needle: Seq<char>, i: int) -> bool {
    &&& 0 <= i
    &&& i + needle.len() <= hay.len()
    &&& hay.subrange(i, i + needle.len()) == needle
}

/// `needle` stands somewhere in `hay`.
pub open spec fn has_substring(hay: Seq<char>, needle: Seq<char>) -> bool {
    exists|i: int| occurs_at(hay, needle, i)
}

/// `s` with every occurrence of the non-empty `pat` replaced by `with`,
/// occurrences taken from the left and never overlapping.
pub open spec fn replaced(s: Seq<char>, pat: Seq<char>, with: Seq<char>) -> Seq<char>
    decreases s.len(),
{
    if s.len() == 0 {
        s
    } else if pat.len() > 0 && occurs_at(s, pat, 0) {
        with + replaced(s.skip(pat.len() as int), pat, with)
    } else {
        seq![s[0]] + replaced(s.drop_first(), pat, with)
    }
}

/// `s` after the non-empty `pat` has been taken off its front as often as it
/// stands there.
pub open spec fn strip_leading(s: Seq<char>, pat: Seq<char>) -> Seq<char>
    decreases s.len(),
{
    if pat.len() > 0 && occurs_at(s, pat, 0) {
        strip_leading(s.skip(pat.len() as int), pat)
    } else {
        s
    }
}

/// The character of the decimal digit `d`.
pub open spec fn digit_of(d: nat) -> char {
    ((48 + d) as u8) as char
}

/// The decimal numeral of `n`, without leading zeros.
pub open spec fn decimal(n: nat) -> Seq<char>
    decreases n,
{
    if n < 10 {
        seq![digit_of(n)]
    } else {
        decimal(n / 10).push(digit_of(n % 10))
    }
}

/// The decimal numeral of `i`, with a minus sign where it is negative.
pub open spec fn signed_decimal(i: int) -> Seq<char> {
    if i < 0 {
        seq!['-'] + decimal((-i) as nat)
    } else {
        decimal(i as nat)
    }
}

/// The value of `c` as a digit in `radix`: `0`-`9`, then the letters of
/// either case from ten on.
pub open spec fn digit_value(c: char, radix: nat) -> Option<nat> {
    let n = c as u32;
    let v: int = if 48 <= n <= 57 {
        n - 48
    } else if 97 <= n <= 122 {
        n - 97 + 10
    } else if 65 <= n <= 90 {
        n - 65 + 10
    } else {
        radix as int
    };
    if v < radix {
        Some(v as nat)
    } else {
        None
    }
}

/// Every character of `s` is a digit in `radix`.
pub open spec fn all_digits(s: Seq<char>, radix: nat) -> bool {
    forall|i: int| 0 <= i < s.len() ==> (#[trigger] digit_value(s[i], radix)) is Some
}

/// The number that the digits `s` denote in `radix`.
pub open spec fn digits_value(s: Seq<char>, radix: nat) -> nat
    decreases s.len(),
{
    if s.len() == 0 {
        0
    } else {
        let d = match digit_value(s.last(), radix) {
            Some(v) => v,
            None => 0,
        };
        digits_value(s.drop_last(), radix) * radix + d
    }
}

/// What a run of digits denotes: at least one digit in `radix`, the whole no
/// greater than `max`.
pub open spec fn numeral_value(body: Seq<char>, radix: nat, max: nat) -> Option<nat> {
    if body.len() > 0 && all_digits(body, radix) && digits_value(body, radix) <= max {
        Some(digits_value(body, radix))
    } else {
        None
    }
}

/// What an unsigned numeral denotes: an optional `+`, then a run of digits.
pub open spec fn parse_unsigned_spec(s: Seq<char>, radix: nat, max: nat) -> Option<nat> {
    if s.len() > 0 && s[0] == '+' {
        numeral_value(s.drop_first(), radix, max)
    } else {
        numeral_value(s, radix, max)
    }
}

pub fn char_is_whitespace(c: char) -> (res: bool)
    ensures
        res == is_whitespace(c),
{
    let n: u32 = c as u32;
    (0x09 <= n && n <= 0x0D) || n == 0x20 || n == 0x85 || n == 0xA0 || n == 0x1680 || (0x2000 <= n
        && n <= 0x200A) || n == 0x2028 || n == 0x2029 || n == 0x202F || n == 0x205F || n == 0x3000
}

/// The characters of a string, one by one.
pub(crate) fn to_chars(s: &str) -> (res: Vec<char>)
    ensures
        res@ == s@,
{
    let mut out: Vec<char> = Vec::new();
    for c in it: s.chars()
        invariant
            it.seq() == s@,
            out@ == s@.take(it.index() as int),
    {
        out.push(c);
        assert(s@.take(it.index() + 1) =~= s@.take(it.index() as int).push(c));
    }
    assert(s@.take(s@.len() as int) =~= s@);
    out
}

/// The string made of `chars[from..to]`.
pub(crate) fn from_chars(chars: &Vec<char>, from: usize, to: usize) -> (res: String)
    requires
        from <= to <= chars.len(),
    ensures
        res@ == chars@.subrange(from as int, to as int),
{
    let mut out = String::new();
    let mut i: usize = from;
    while i < to
        invariant
            from <= i <= to <= chars.len(),
            out@ == chars@.subrange(from as int, i as int),
        decreases to - i,
    {
        out.push(chars[i]);
        i = i + 1;
        assert(chars@.subrange(from as int, i as int) =~= chars@.subrange(from as int, i - 1).push(
            chars@[i - 1],
        ));
    }
    out
}

/// Where the trimmed part of `chars` begins and ends.
pub(crate) fn trim_bounds(chars: &Vec<char>) -> (r: (usize, usize))
    ensures
        r.0 <= r.1 <= chars.len(),
        chars@.subrange(r.0 as int, r.1 as int) == trimmed(chars@),
{
    let mut a: usize = 0;
    assert(chars@.skip(0) =~= chars@);
    while a < chars.len() && char_is_whitespace(chars[a])
        invariant
            a <= chars.len(),
            trim_start_of(chars@) == trim_start_of(chars@.skip(a as int)),
        decreases chars.len() - a,
    {
        assert(chars@.skip(a as int).drop_first() =~= chars@.skip(a + 1));
        a = a + 1;
    }
    assert(trim_start_of(chars@) == chars@.skip(a as int));
    let mut b: usize = chars.len();
    assert(chars@.skip(a as int) =~= chars@.subrange(a as int, b as int));
    while b > a && char_is_whitespace(chars[b - 1])
        invariant
            a <= b <= chars.len(),
            trimmed(chars@) == trim_end_of(chars@.subrange(a as int, b as int)),
        decreases b,
    {
        assert(chars@.subrange(a as int, b as int).drop_last() =~= chars@.subrange(
            a as int,
            b - 1,
        ));
        b = b - 1;
    }
    (a, b)
}

/// The string without leading and trailing whitespace.
pub fn trim(s: &str) -> (res: String)
    ensures
        res@ == trimmed(s@),
{
    let chars = to_chars(s);
    let (a, b) = trim_bounds(&chars);
    from_chars(&chars, a, b)
}

/// Whether `needle` stands in `hay` at index `i`.
pub(crate) fn matches_at(hay: &Vec<char>, needle: &Vec<char>, i: usize) -> (res: bool)
    requires
        i <= hay.len(),
    ensures
        res == occurs_at(hay@, needle@, i as int),
{
    if needle.len() > hay.len() - i {
        return false;
    }
    let mut k: usize = 0;
    while k < needle.len()
        invariant
            i + needle.len() <= hay.len(),
            k <= needle.len(),
            forall|j: int| 0 <= j < k ==> hay@[i + j] == needle@[j],
        decreases needle.len() - k,
    {
        if hay[i + k] != needle[k] {
            assert(hay@.subrange(i as int, i + needle.len())[k as int] != needle@[k as int]);
            return false;
        }
        k = k + 1;
    }
    assert(hay@.subrange(i as int, i + needle.len()) =~= needle@);
    true
}

/// Whether `needle` stands somewhere in `hay`.
pub fn contains(hay: &str, needle: &str) -> (res: bool)
    ensures
        res == has_substring(hay@, needle@),
{
    let h = to_chars(hay);
    let n = to_chars(needle);
    let mut i: usize = 0;
    loop
        invariant
            h@ == hay@,
            n@ == needle@,
            i <= h.len(),
            forall|j: int| 0 <= j < i ==> !occurs_at(h@, n@, j),
        decreases h.len() - i,
    {
        if matches_at(&h, &n, i) {
            return true;
        }
        if i == h.len() {
            return false;
        }
        i = i + 1;
    }
}

/// The string with every occurrence of `pat` replaced by `with`.
pub(crate) fn replace(s: &str, pat: &str, with: &str) -> (res: String)
    requires
        pat@.len() > 0,
    ensures
        res@ == replaced(s@, pat@, with@),
{
    let h = to_chars(s);
    let p = to_chars(pat);
    let w = to_chars(with);
    let mut out: Vec<char> = Vec::new();
    let mut i: usize = 0;
    assert(h@.skip(0) =~= h@);
    assert(out@ + replaced(h@, p@, w@) =~= replaced(h@, p@, w@));
    while i < h.len()
        invariant
            i <= h.len(),
            p@.len() > 0,
            out@ + replaced(h@.skip(i as int), p@, w@) == replaced(h@, p@, w@),
        decreases h.len() - i,
    {
        let ghost rest = h@.skip(i as int);
        let ghost before = out@;
        if matches_at(&h, &p, i) {
            assert(rest.subrange(0, p@.len() as int) =~= h@.subrange(i as int, i + p@.len()));
            let mut k: usize = 0;
            while k < w.len()
                invariant
                    k <= w.len(),
                    out@ == before + w@.take(k as int),
                decreases w.len() - k,
            {
                out.push(w[k]);
                k = k + 1;
                assert(w@.take(k as int) =~= w@.take(k - 1).push(w@[k - 1]));
                assert(before + w@.take(k - 1).push(w@[k - 1]) =~= (before + w@.take(k - 1)).push(
                    w@[k - 1],
                ));
            }
            assert(w@.take(w@.len() as int) =~= w@);
            assert(rest.skip(p@.len() as int) =~= h@.skip(i + p@.len()));
            assert((before + w@) + replaced(rest.skip(p@.len() as int), p@, w@) =~= before + (w@
                + replaced(rest.skip(p@.len() as int), p@, w@)));
            i = i + p.len();
        } else {
            proof {
                if occurs_at(rest, p@, 0) {
                    assert(rest.subrange(0, p@.len() as int) =~= h@.subrange(
                        i as int,
                        i + p@.len(),
                    ));
                }
            }
            out.push(h[i]);
            assert(rest.drop_first() =~= h@.skip(i + 1));
            assert(before.push(h@[i as int]) + replaced(rest.drop_first(), p@, w@) =~= before + (
            seq![rest[0]] + replaced(rest.drop_first(), p@, w@)));
            i = i + 1;
        }
    }
    assert(out@ + Seq::<char>::empty() =~= out@);
    from_chars(&out, 0, out.len())
}

/// The index in `chars` behind the leading repetitions of `pat`.
pub(crate) fn strip_leading_bound(chars: &Vec<char>, from: usize, to: usize, pat: &Vec<char>) -> (res:
    usize)
    requires
        from <= to <= chars.len(),
        pat@.len() > 0,
    ensures
        from <= res <= to,
        chars@.subrange(res as int, to as int) == strip_leading(
            chars@.subrange(from as int, to as int),
            pat@,
        ),
{
    let mut a: usize = from;
    loop
        invariant
            from <= a <= to <= chars.len(),
            pat@.len() > 0,
            strip_leading(chars@.subrange(a as int, to as int), pat@) == strip_leading(
                chars@.subrange(from as int, to as int),
                pat@,
            ),
        decreases to - a,
    {
        let ghost rest = chars@.subrange(a as int, to as int);
        let hit = pat.len() <= to - a && matches_at(chars, pat, a);
        proof {
            if pat@.len() <= to - a {
                assert(rest.subrange(0, pat@.len() as int) =~= chars@.subrange(
                    a as int,
                    a + pat@.len(),
                ));
            }
        }
        if !hit {
            return a;
        }
        assert(rest.skip(pat@.len() as int) =~= chars@.subrange(a + pat@.len(), to as int));
        a = a + pat.len();
    }
}

/// The character of the decimal digit `d`.
pub(crate) fn digit_char(d: u8) -> (c: char)
    requires
        d < 10,
    ensures
        c == digit_of(d as nat),
{
    (48u8 + d) as char
}

/// The decimal numeral of `n`.
pub fn format_u64(n: u64) -> (res: String)
    ensures
        res@ == decimal(n as nat),
{
    let mut digits: Vec<char> = Vec::new();
    let mut m: u64 = n;
    while m >= 10
        invariant
            decimal(n as nat) == decimal(m as nat) + digits@,
        decreases m,
    {
        let c = digit_char((m % 10) as u8);
        let ghost before = digits@;
        digits.insert(0, c);
        assert(digits@ =~= seq![c] + before);
        assert(decimal((m / 10) as nat).push(c) + before =~= decimal((m / 10) as nat) + (seq![c]
            + before));
        m = m / 10;
    }
    let c = digit_char(m as u8);
    let ghost before = digits@;
    digits.insert(0, c);
    assert(digits@ =~= seq![c] + before);
    from_chars(&digits, 0, digits.len())
}

/// The decimal numeral of `i`, with a minus sign where it is negative.
pub fn format_i32(i: i32) -> (res: String)
    ensures
        res@ == signed_decimal(i as int),
{
    if i < 0 {
        let magnitude: u64 = (-(i as i64)) as u64;
        let digits = format_u64(magnitude);
        let mut out = String::new();
        out.push('-');
        out.append(digits.as_str());
        assert(out@ =~= seq!['-'] + decimal((-i) as nat));
        out
    } else {
        format_u64(i as u64)
    }
}

/// The value of `c` as a digit in `radix`.
pub(crate) fn char_digit(c: char, radix: u32) -> (res: Option<u32>)
    requires
        radix <= 36,
    ensures
        match digit_value(c, radix as nat) {
            Some(v) => res == Some(v as u32),
            None => res is None,
        },
{
    let n: u32 = c as u32;
    let v: u32 = if 48 <= n && n <= 57 {
        n - 48
    } else if 97 <= n && n <= 122 {
        n - 97 + 10
    } else if 65 <= n && n <= 90 {
        n - 65 + 10
    } else {
        radix
    };
    if v < radix {
        Some(v)
    } else {
        None
    }
}

/// The digits read so far never denote more than the whole numeral does.
proof fn lemma_digits_value_prefix(s: Seq<char>, k: int, radix: nat)
    requires
        0 <= k <= s.len(),
        radix >= 1,
    ensures
        digits_value(s.take(k), radix) <= digits_value(s, radix),
    decreases s.len(),
{
    if k == s.len() {
        assert(s.take(k) =~= s);
    } else {
        lemma_digits_value_prefix(s.drop_last(), k, radix);
        assert(s.drop_last().take(k) =~= s.take(k));
        let x = digits_value(s.drop_last(), radix);
        assert(x * radix >= x) by (nonlinear_arith)
            requires
                radix >= 1,
                x >= 0,
        ;
    }
}

/// Reads `chars[from..to]` as an unsigned numeral in `radix` that is no
/// greater than `max`.
pub(crate) fn parse_unsigned(chars: &Vec<char>, from: usize, to: usize, radix: u32, max: u64) -> (res:
    Option<u64>)
    requires
        from <= to <= chars.len(),
        2 <= radix <= 36,
    ensures
        match parse_unsigned_spec(chars@.subrange(from as int, to as int), radix as nat, max as nat) {
            Some(v) => res == Some(v as u64),
            None => res is None,
        },
{
    let ghost whole = chars@.subrange(from as int, to as int);
    let mut start: usize = from;
    if from < to && chars[from] == '+' {
        start = from + 1;
        assert(whole.drop_first() =~= chars@.subrange(start as int, to as int));
    }
    let ghost body = chars@.subrange(start as int, to as int);
    let ghost goal = numeral_value(body, radix as nat, max as nat);
    assert(goal == parse_unsigned_spec(whole, radix as nat, max as nat));
    if start == to {
        return None;
    }
    let mut acc: u64 = 0;
    let mut i: usize = start;
    assert(body.take(0) =~= Seq::<char>::empty());
    while i < to
        invariant
            start <= i <= to <= chars.len(),
            2 <= radix <= 36,
            body == chars@.subrange(start as int, to as int),
            goal == numeral_value(body, radix as nat, max as nat),
            goal == parse_unsigned_spec(
                chars@.subrange(from as int, to as int),
                radix as nat,
                max as nat,
            ),
            all_digits(body.take(i - start), radix as nat),
            acc == digits_value(body.take(i - start), radix as nat),
            acc <= max,
        decreases to - i,
    {
        let ghost k = i - start;
        assert(body.take(k + 1).drop_last() =~= body.take(k));
        assert(body.take(k + 1).last() == body[k]);
        match char_digit(chars[i], radix) {
            None => {
                assert(digit_value(body[k], radix as nat) is None);
                return None;
            },
            Some(d) => {
                assert(acc as u128 * radix as u128 <= 0xffff_ffff_ffff_ffffu128 * 36)
                    by (nonlinear_arith)
                    requires
                        acc <= 0xffff_ffff_ffff_ffffu64,
                        radix <= 36,
                ;
                let next: u128 = acc as u128 * radix as u128 + d as u128;
                assert(next == digits_value(body.take(k + 1), radix as nat));
                if next > max as u128 {
                    proof {
                        lemma_digits_value_prefix(body, k + 1, radix as nat);
                    }
                    return None;
                }
                acc = next as u64;
                i = i + 1;
                assert forall|j: int| 0 <= j < body.take(k + 1).len() implies (
                #[trigger] digit_value(body.take(k + 1)[j], radix as nat)) is Some by {
                    if j < k {
                        assert(body.take(k + 1)[j] == body.take(k)[j]);
                    }
                }
            },
        }
    }
    assert(body.take(to - start) =~= body);
    Some(acc)
}

/// Reads a string as `str::parse::<u32>` does: an optional `+`, then decimal
/// digits, the whole no greater than `u32::MAX`.
pub fn parse_u32(s: &str) -> (res: Option<u32>)
    ensures
        match parse_unsigned_spec(s@, 10, 0xffff_ffff) {
            Some(v) => res == Some(v as u32),
            None => res is None,
        },
{
    let chars = to_chars(s);
    assert(chars@.subrange(0, chars@.len() as int) =~= chars@);
    match parse_unsigned(&chars, 0, chars.len(), 10, 0xffff_ffff) {
        Some(v) => Some(v as u32),
        None => None,
    }
}

/// The number of whitespace characters that `s` begins with.
pub open spec fn leading_whitespace(s: Seq<char>) -> nat
    decreases s.len(),
{
    if s.len() > 0 && is_whitespace(s[0]) {
        1 + leading_whitespace(s.drop_first())
    } else {
        0
    }
}

/// The number of whitespace characters that `s` ends with.
pub open spec fn trailing_whitespace(s: Seq<char>) -> nat
    decreases s.len(),
{
    if s.len() > 0 && is_whitespace(s.last()) {
        1 + trailing_whitespace(s.drop_last())
    } else {
        0
    }
}

proof fn lemma_trim_start(s: Seq<char>)
    ensures
        leading_whitespace(s) <= s.len(),
        trim_start_of(s) == s.skip(leading_whitespace(s) as int),
        forall|i: int| 0 <= i < leading_whitespace(s) ==> is_whitespace(#[trigger] s[i]),
        leading_whitespace(s) < s.len() ==> !is_whitespace(s[leading_whitespace(s) as int]),
    decreases s.len(),
{
    if s.len() > 0 && is_whitespace(s[0]) {
        let rest = s.drop_first();
        lemma_trim_start(rest);
        let n = leading_whitespace(rest) as int;
        assert(rest.skip(n) =~= s.skip(n + 1));
        assert forall|i: int| 0 <= i < n + 1 implies is_whitespace(#[trigger] s[i]) by {
            if i > 0 {
                assert(s[i] == rest[i - 1]);
            }
        }
        if n < rest.len() {
            assert(s[n + 1] == rest[n]);
        }
    } else {
        assert(s.skip(0) =~= s);
    }
}

proof fn lemma_trim_end(s: Seq<char>)
    ensures
        trailing_whitespace(s) <= s.len(),
        trim_end_of(s) == s.take(s.len() - trailing_whitespace(s)),
        forall|i: int|
            s.len() - trailing_whitespace(s) <= i < s.len() ==> is_whitespace(#[trigger] s[i]),
        trailing_whitespace(s) < s.len() ==> !is_whitespace(
            s[s.len() - trailing_whitespace(s) - 1],
        ),
    decreases s.len(),
{
    if s.len() > 0 && is_whitespace(s.last()) {
        let rest = s.drop_last();
        lemma_trim_end(rest);
        let n = trailing_whitespace(rest) as int;
        assert(rest.take(rest.len() - n) =~= s.take(s.len() - (n + 1)));
        assert forall|i: int| s.len() - (n + 1) <= i < s.len() implies is_whitespace(
            #[trigger] s[i],
        ) by {
            if i < s.len() - 1 {
                assert(s[i] == rest[i]);
            }
        }
        if n < rest.len() {
            assert(s[s.len() - (n + 1) - 1] == rest[rest.len() - n - 1]);
        }
    } else {
        assert(s.take(s.len() as int) =~= s);
    }
}

/// What trimming leaves is the part of `s` between two indices: before the
/// first and from the second on there is only whitespace, and the part
/// neither begins nor ends with whitespace.
pub proof fn lemma_trimmed_is_the_inner_part(s: Seq<char>)
    ensures
        exists|a: int, b: int|
            {
                &&& 0 <= a <= b <= s.len()
                &&& #[trigger] s.subrange(a, b) == trimmed(s)
                &&& forall|i: int| 0 <= i < a ==> is_whitespace(#[trigger] s[i])
                &&& forall|i: int| b <= i < s.len() ==> is_whitespace(#[trigger] s[i])
                &&& a < b ==> !is_whitespace(s[a]) && !is_whitespace(s[b - 1])
            },
{
    lemma_trim_start(s);
    let a = leading_whitespace(s) as int;
    let inner = s.skip(a);
    lemma_trim_end(inner);
    let b = s.len() - trailing_whitespace(inner);
    assert(inner.take(inner.len() - trailing_whitespace(inner)) =~= s.subrange(a, b));
    assert forall|i: int| b <= i < s.len() implies is_whitespace(#[trigger] s[i]) by {
        assert(s[i] == inner[i - a]);
    }
    if a < b {
        assert(inner[0] == s[a]);
        assert(inner[inner.len() - trailing_whitespace(inner) - 1] == s[b - 1]);
    }
    assert(s.subrange(a, b) == trimmed(s));
}

/// The digit that `digit_of` writes is read back by `digit_value`.
proof fn lemma_digit_is_read_back(d: nat)
    requires
        d < 10,
    ensures
        digit_value(digit_of(d), 10) == Some(d),
        digit_of(d) != '+',
{
}

/// A decimal numeral that was written is read back as the same number:
/// `parse_unsigned_spec` of `decimal(n)` is `n`, where `n` is no greater than
/// the limit.
pub proof fn lemma_decimal_is_read_back(n: nat, max: nat)
    requires
        n <= max,
    ensures
        decimal(n).len() > 0,
        all_digits(decimal(n), 10),
        digits_value(decimal(n), 10) == n,
        parse_unsigned_spec(decimal(n), 10, max) == Some(n),
    decreases n,
{
    if n < 10 {
        lemma_digit_is_read_back(n);
        let s = decimal(n);
        assert(s.len() == 1 && s[0] == digit_of(n));
        assert(s.drop_last().len() == 0);
        assert(digits_value(s.drop_last(), 10) == 0);
    } else {
        lemma_decimal_is_read_back(n / 10, max);
        lemma_digit_is_read_back(n % 10);
        let shorter = decimal(n / 10);
        let s = decimal(n);
        assert(s == shorter.push(digit_of(n % 10)));
        assert(s.drop_last() =~= shorter);
        assert(s.last() == digit_of(n % 10));
        assert forall|i: int| 0 <= i < s.len() implies (#[trigger] digit_value(s[i], 10)) is Some by {
            if i < shorter.len() {
                assert(s[i] == shorter[i]);
            }
        }
        assert(s[0] == shorter[0]);
        assert(digit_value(s[0], 10) is Some);
    }
    assert(digit_value('+', 10) is None);
}

} // verus!
