//! Text helpers shared by the argument builders: decimal rendering of
//! integers and character-level string building.
use vstd::prelude::*;

verus! {

/// The ASCII digit for `d` (`d < 10`).
pub open spec fn digit_char(d: nat) -> char {
    (48 + d) as char
}

/// The decimal rendering of `n`, most significant digit first, no sign and no
/// leading zeros.
pub open spec fn decimal(n: nat) -> Seq<char>
    decreases n,
{
    if n < 10 {
        seq![digit_char(n)]
    } else {
        decimal(n / 10).push(digit_char(n % 10))
    }
}

/// The decimal rendering of a signed integer: a minus sign for negatives.
pub open spec fn signed_decimal(n: int) -> Seq<char> {
    if n < 0 {
        seq!['-'].add(decimal((-n) as nat))
    } else {
        decimal(n as nat)
    }
}

/// Appends the character `c` to `s` (std's `String::push`).
#[verifier::external_body]
pub(crate) fn push_char(s: &mut String, c: char)
    ensures
        final(s)@ == old(s)@.push(c),
{
    s.push(c);
}

/// Appends the decimal rendering of `n` to `s`.
pub fn append_decimal(s: &mut String, n: u64)
    ensures
        final(s)@ == old(s)@ + decimal(n as nat),
    decreases n,
{
    if n >= 10 {
        append_decimal(s, n / 10);
    }
    let d: u8 = (n % 10) as u8;
    let c: char = (48u8 + d) as char;
    push_char(s, c);
    proof {
        if n >= 10 {
            assert(old(s)@ + decimal(n as nat) =~= (old(s)@ + decimal((n / 10) as nat)).push(c));
        } else {
            assert(old(s)@ + decimal(n as nat) =~= old(s)@.push(c));
        }
    }
}

/// The decimal rendering of `n` as a new string.
pub fn decimal_string(n: u64) -> (res: String)
    ensures
        res@ == decimal(n as nat),
{
    let mut s = String::new();
    append_decimal(&mut s, n);
    assert(s@ =~= decimal(n as nat));
    s
}

/// Appends the signed decimal rendering of `n` to `s`.
pub fn append_signed_decimal(s: &mut String, n: i64)
    requires
        n > i64::MIN,
    ensures
        final(s)@ == old(s)@ + signed_decimal(n as int),
{
    if n < 0 {
        push_char(s, '-');
        append_decimal(s, (-n) as u64);
        assert(final(s)@ =~= old(s)@ + signed_decimal(n as int));
    } else {
        append_decimal(s, n as u64);
    }
}

/// `base.join(part)` for Unix paths held as text: an absolute `part`
/// replaces `base`; otherwise `part` is appended, after a `/` unless `base` is
/// empty or already ends in one.
pub open spec fn path_join(base: Seq<char>, part: Seq<char>) -> Seq<char> {
    if part.len() > 0 && part[0] == '/' {
        part
    } else if base.len() == 0 || base.last() == '/' {
        base + part
    } else {
        base + seq!['/'] + part
    }
}

/// Joins the Unix path `part` onto `base`, as `Path::join` does.
pub fn join_path(base: &str, part: &str) -> (res: String)
    ensures
        res@ == path_join(base@, part@),
{
    let part_len = part.unicode_len();
    if part_len > 0 && part.get_char(0) == '/' {
        return part.to_owned();
    }
    let base_len = base.unicode_len();
    let mut res = base.to_owned();
    if base_len > 0 && base.get_char(base_len - 1) != '/' {
        push_char(&mut res, '/');
    }
    res.append(part);
    res
}

/// Unicode `White_Space`, the set `char::is_whitespace` tests for.
pub open spec fn is_whitespace(c: char) -> bool {
    let u = c as int;
    ||| 9 <= u <= 13
    ||| u == 32
    ||| u == 0x85
    ||| u == 0xa0
    ||| u == 0x1680
    ||| 0x2000 <= u <= 0x200a
    ||| u == 0x2028
    ||| u == 0x2029
    ||| u == 0x202f
    ||| u == 0x205f
    ||| u == 0x3000
}

/// `s` without its leading whitespace.
pub open spec fn trim_start(s: Seq<char>) -> Seq<char>
    decreases s.len(),
{
    if s.len() > 0 && is_whitespace(s[0]) {
        trim_start(s.drop_first())
    } else {
        s
    }
}

/// `s` without its trailing whitespace.
pub open spec fn trim_end(s: Seq<char>) -> Seq<char>
    decreases s.len(),
{
    if s.len() > 0 && is_whitespace(s.last()) {
        trim_end(s.drop_last())
    } else {
        s
    }
}

/// `s` without leading and trailing whitespace, as `str::trim` gives it.
pub open spec fn trim(s: Seq<char>) -> Seq<char> {
    trim_end(trim_start(s))
}

/// Why a text is not the decimal rendering of a `u32`, as `u32::from_str`
/// classifies it.
#[derive(Debug, Clone, Copy, PartialEq, Eq, Structural)]
pub enum IntError {
    /// The text is empty.
    Empty,
    /// A character is not a decimal digit (or the text is a lone sign).
    InvalidDigit,
    /// The value does not fit in a `u32`.
    PosOverflow,
}

/// Whether `c` is an ASCII decimal digit.
pub open spec fn is_digit(c: char) -> bool {
    48 <= c as int <= 57
}

/// The value of the decimal digit `c`.
pub open spec fn digit_value(c: char) -> nat {
    (c as int - 48) as nat
}

/// Reads the decimal digits `ds` after the value `acc` already read, left to
/// right: the first non-digit is an invalid digit, and a value beyond
/// `u32::MAX` an overflow, whichever comes first.
pub open spec fn parse_digits(ds: Seq<char>, acc: nat) -> Result<nat, IntError>
    decreases ds.len(),
{
    if ds.len() == 0 {
        Ok(acc)
    } else if !is_digit(ds[0]) {
        Err(IntError::InvalidDigit)
    } else if acc * 10 + digit_value(ds[0]) > u32::MAX {
        Err(IntError::PosOverflow)
    } else {
        parse_digits(ds.drop_first(), acc * 10 + digit_value(ds[0]))
    }
}

/// `u32::from_str`: an optional `+` followed by decimal digits.
pub open spec fn parse_u32(s: Seq<char>) -> Result<nat, IntError> {
    if s.len() == 0 {
        Err(IntError::Empty)
    } else if s.len() == 1 && (s[0] == '+' || s[0] == '-') {
        Err(IntError::InvalidDigit)
    } else if s[0] == '+' {
        parse_digits(s.drop_first(), 0)
    } else {
        parse_digits(s, 0)
    }
}

/// The message `ParseIntError` displays for each kind.
pub open spec fn int_error_message(e: IntError) -> Seq<char> {
    match e {
        IntError::Empty => "cannot parse integer from empty string"@,
        IntError::InvalidDigit => "invalid digit found in string"@,
        IntError::PosOverflow => "number too large to fit in target type"@,
    }
}

impl IntError {
    /// The message `ParseIntError` displays for this kind.
    pub fn message(&self) -> (res: &'static str)
        ensures
            res@ == int_error_message(*self),
    {
        match self {
            IntError::Empty => "cannot parse integer from empty string",
            IntError::InvalidDigit => "invalid digit found in string",
            IntError::PosOverflow => "number too large to fit in target type",
        }
    }
}

/// Whether `c` is whitespace.
pub fn is_whitespace_char(c: char) -> (res: bool)
    ensures
        res == is_whitespace(c),
{
    let u = c as u32;
    (9 <= u && u <= 13) || u == 32 || u == 0x85 || u == 0xa0 || u == 0x1680 || (0x2000 <= u && u
        <= 0x200a) || u == 0x2028 || u == 0x2029 || u == 0x202f || u == 0x205f || u == 0x3000
}

proof fn lemma_trim_start_skip(s: Seq<char>, lo: int)
    requires
        0 <= lo < s.len(),
        is_whitespace(s[lo]),
    ensures
        trim_start(s.skip(lo)) == trim_start(s.skip(lo + 1)),
{
    assert(s.skip(lo).drop_first() =~= s.skip(lo + 1));
}

proof fn lemma_trim_end_take(s: Seq<char>, hi: int)
    requires
        0 < hi <= s.len(),
        is_whitespace(s[hi - 1]),
    ensures
        trim_end(s.take(hi)) == trim_end(s.take(hi - 1)),
{
    assert(s.take(hi).drop_last() =~= s.take(hi - 1));
}

/// Parses `text` as `text.trim().parse::<u32>()` does.
pub fn parse_trimmed_u32(text: &str) -> (res: Result<u32, IntError>)
    ensures
        match parse_u32(trim(text@)) {
            Ok(n) => res == Ok::<u32, IntError>(n as u32),
            Err(e) => res == Err::<u32, IntError>(e),
        },
{
    let n = text.unicode_len();
    let ghost s = text@;
    let mut lo: usize = 0;
    assert(s.skip(0) =~= s);
    while lo < n && is_whitespace_char(text.get_char(lo))
        invariant
            n == s.len(),
            s == text@,
            lo <= n,
            trim_start(s) == trim_start(s.skip(lo as int)),
        decreases n - lo,
    {
        proof {
            lemma_trim_start_skip(s, lo as int);
        }
        lo = lo + 1;
    }
    let ghost rest = s.skip(lo as int);
    assert(trim_start(s) == rest) by {
        if lo < n {
            assert(rest[0] == s[lo as int]);
        }
    }
    let mut hi: usize = n;
    assert(rest.take(rest.len() as int) =~= rest);
    while hi > lo && is_whitespace_char(text.get_char(hi - 1))
        invariant
            n == s.len(),
            s == text@,
            lo <= hi <= n,
            rest == s.skip(lo as int),
            trim_end(rest) == trim_end(rest.take(hi - lo)),
        decreases hi,
    {
        proof {
            assert(rest[hi - lo - 1] == s[hi - 1]);
            lemma_trim_end_take(rest, hi - lo);
        }
        hi = hi - 1;
    }
    let ghost t = s.subrange(lo as int, hi as int);
    assert(trim(s) == t) by {
        assert(rest.take(hi - lo) =~= t);
        if hi > lo {
            assert(t.last() == s[hi - 1]);
        }
    }
    if hi == lo {
        return Err(IntError::Empty);
    }
    let first = text.get_char(lo);
    assert(first == t[0]);
    if hi - lo == 1 && (first == '+' || first == '-') {
        return Err(IntError::InvalidDigit);
    }
    let mut i: usize = lo;
    if first == '+' {
        i = lo + 1;
    }
    let ghost digits = s.subrange(i as int, hi as int);
    assert(parse_u32(t) == parse_digits(digits, 0)) by {
        if first == '+' {
            assert(t.drop_first() =~= digits);
        } else {
            assert(t =~= digits);
        }
    }
    let mut acc: u64 = 0;
    while i < hi
        invariant
            n == s.len(),
            s == text@,
            lo <= i <= hi <= n,
            acc <= u32::MAX,
            trim(text@) == t,
            parse_u32(t) == parse_digits(s.subrange(i as int, hi as int), acc as nat),
        decreases hi - i,
    {
        let c = text.get_char(i);
        let ghost ds = s.subrange(i as int, hi as int);
        assert(ds[0] == c);
        assert(ds.drop_first() =~= s.subrange(i + 1, hi as int));
        let u = c as u32;
        assert(u as int == c as int);
        if u < 48 || u > 57 {
            assert(!is_digit(ds[0]));
            assert(parse_digits(ds, acc as nat) == Err::<nat, IntError>(IntError::InvalidDigit));
            return Err(IntError::InvalidDigit);
        }
        assert(digit_value(c) == u - 48);
        let next = acc * 10 + (u - 48) as u64;
        if next > 4294967295u64 {
            assert(parse_digits(ds, acc as nat) == Err::<nat, IntError>(IntError::PosOverflow));
            return Err(IntError::PosOverflow);
        }
        acc = next;
        i = i + 1;
    }
    assert(s.subrange(i as int, hi as int).len() == 0);
    Ok(acc as u32)
}

proof fn lemma_digit_char(d: nat)
    requires
        d < 10,
    ensures
        is_digit(digit_char(d)),
        digit_value(digit_char(d)) == d,
        !is_whitespace(digit_char(d)),
        digit_char(d) != '+',
        digit_char(d) != '-',
{
}

/// Every character of a decimal rendering is a digit.
proof fn lemma_decimal_digits(n: nat)
    ensures
        decimal(n).len() > 0,
        forall|i: int| 0 <= i < decimal(n).len() ==> is_digit(#[trigger] decimal(n)[i]),
    decreases n,
{
    lemma_digit_char(n % 10);
    if n >= 10 {
        lemma_decimal_digits(n / 10);
    }
}

/// Reading `a + b` is reading `a`, then `b` after what `a` gave.
proof fn lemma_parse_digits_append(a: Seq<char>, b: Seq<char>, acc: nat)
    ensures
        parse_digits(a + b, acc) == match parse_digits(a, acc) {
            Ok(m) => parse_digits(b, m),
            Err(e) => Err(e),
        },
    decreases a.len(),
{
    if a.len() > 0 {
        assert((a + b)[0] == a[0]);
        assert((a + b).drop_first() =~= a.drop_first() + b);
        if is_digit(a[0]) && acc * 10 + digit_value(a[0]) <= u32::MAX {
            lemma_parse_digits_append(a.drop_first(), b, acc * 10 + digit_value(a[0]));
        }
    } else {
        assert(a + b =~= b);
    }
}

/// The decimal digits of a `u32` read back as that `u32`.
proof fn lemma_parse_decimal(n: nat)
    requires
        n <= u32::MAX,
    ensures
        parse_digits(decimal(n), 0) == Ok::<nat, IntError>(n),
    decreases n,
{
    let d = digit_char(n % 10);
    lemma_digit_char(n % 10);
    reveal_with_fuel(parse_digits, 2);
    if n < 10 {
        assert(seq![d].drop_first() =~= Seq::<char>::empty());
    } else {
        lemma_parse_decimal(n / 10);
        assert(decimal(n) =~= decimal(n / 10) + seq![d]);
        lemma_parse_digits_append(decimal(n / 10), seq![d], 0);
        assert(seq![d].drop_first() =~= Seq::<char>::empty());
    }
}

/// What QEMU writes to its PID file, the decimal PID and a newline, reads
/// back as that PID.
pub proof fn lemma_pid_text_round_trip(n: u32)
    ensures
        parse_u32(trim(decimal(n as nat) + seq!['\n'])) == Ok::<nat, IntError>(n as nat),
{
    let ds = decimal(n as nat);
    let s = ds + seq!['\n'];
    lemma_decimal_digits(n as nat);
    assert(s[0] == ds[0]);
    assert(!is_whitespace(s[0]));
    assert(trim_start(s) == s);
    assert(s.drop_last() =~= ds);
    assert(!is_whitespace(ds.last()));
    assert(is_whitespace(s.last()));
    reveal_with_fuel(trim_end, 2);
    assert(trim_end(s) == ds);
    lemma_parse_decimal(n as nat);
}

} // verus!
