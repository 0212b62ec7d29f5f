//! Reading and writing decimal numbers as text.
//!
//! The accepted forms are those that `u64::from_str`, `i64::from_str` and
//! `f64::from_str` document.
use vstd::prelude::*;
use vstd::slice::slice_subrange;

verus! {

/// An ASCII decimal digit.
pub open spec fn is_digit(c: char) -> bool {
    '0' <= c && c <= '9'
}

/// Every character of `s` is a decimal digit.
pub open spec fn all_digits(s: Seq<char>) -> bool {
    forall|i: int| 0 <= i < s.len() ==> #[trigger] is_digit(s[i])
}

/// The value of a digit character.
pub open spec fn digit_value(c: char) -> nat {
    (c as int - '0' as int) as nat
}

/// The value of a string of decimal digits.
pub open spec fn digits_value(s: Seq<char>) -> nat
    decreases s.len(),
{
    if s.len() == 0 {
        0
    } else {
        digits_value(s.drop_last()) * 10 + digit_value(s.last())
    }
}

/// What `u64::from_str` accepts and returns: an optional `+`, then at least
/// one digit, with a value that fits.
pub open spec fn parse_u64_spec(s: Seq<char>) -> Option<u64> {
    let d = if s.len() > 0 && s[0] == '+' {
        s.drop_first()
    } else {
        s
    };
    if d.len() > 0 && all_digits(d) && digits_value(d) <= u64::MAX {
        Some(digits_value(d) as u64)
    } else {
        None
    }
}

/// What `i64::from_str` accepts and returns: an optional sign, then at least
/// one digit, with a value in range.
pub open spec fn parse_i64_spec(s: Seq<char>) -> Option<i64> {
    let neg = s.len() > 0 && s[0] == '-';
    let d = if s.len() > 0 && (s[0] == '+' || s[0] == '-') {
        s.drop_first()
    } else {
        s
    };
    let v: int = if neg {
        -(digits_value(d) as int)
    } else {
        digits_value(d) as int
    };
    if d.len() > 0 && all_digits(d) && i64::MIN <= v <= i64::MAX {
        Some(v as i64)
    } else {
        None
    }
}

pub proof fn lemma_digits_value_take_mono(s: Seq<char>, j: int, k: int)
    requires
        0 <= j <= k <= s.len(),
    ensures
        digits_value(s.take(j)) <= digits_value(s.take(k)),
    decreases k - j,
{
    if j < k {
        lemma_digits_value_take_mono(s, j, k - 1);
        assert(s.take(k).drop_last() =~= s.take(k - 1));
    }
}

/// The value of the digit string `d`, if it fits in a `u64`.
fn digits_to_u64(d: &[char]) -> (r: Option<u64>)
    requires
        all_digits(d@),
    ensures
        r matches Some(v) ==> v == digits_value(d@),
        r is None ==> digits_value(d@) > u64::MAX,
{
    let mut acc: u64 = 0;
    let mut i: usize = 0;
    while i < d.len()
        invariant
            i <= d@.len(),
            all_digits(d@),
            acc == digits_value(d@.take(i as int)),
        decreases d.len() - i,
    {
        let c = d[i];
        assert(is_digit(d@[i as int]));
        let dv: u64 = (c as u32 - '0' as u32) as u64;
        assert(d@.take(i + 1).drop_last() =~= d@.take(i as int));
        assert(d@.take(i + 1).last() == c);
        if acc > (u64::MAX - dv) / 10 {
            proof {
                lemma_digits_value_take_mono(d@, i + 1, d@.len() as int);
                assert(d@.take(d@.len() as int) =~= d@);
                assert(acc * 10 + dv > u64::MAX) by (nonlinear_arith)
                    requires
                        acc > (u64::MAX - dv) / 10,
                        dv <= 9,
                ;
            }
            return None;
        }
        assert(acc * 10 + dv <= u64::MAX) by (nonlinear_arith)
            requires
                acc <= (u64::MAX - dv) / 10,
                dv <= 9,
        ;
        acc = acc * 10 + dv;
        i = i + 1;
    }
    assert(d@.take(d@.len() as int) =~= d@);
    Some(acc)
}

/// Every character of `d` is a digit.
fn all_digits_exec(d: &[char]) -> (b: bool)
    ensures
        b == all_digits(d@),
{
    let mut i: usize = 0;
    while i < d.len()
        invariant
            i <= d@.len(),
            forall|j: int| 0 <= j < i ==> #[trigger] is_digit(d@[j]),
        decreases d.len() - i,
    {
        if !('0' <= d[i] && d[i] <= '9') {
            assert(!is_digit(d@[i as int]));
            return false;
        }
        i = i + 1;
    }
    true
}

/// Parses an unsigned decimal integer as `u64::from_str` does.
pub fn parse_u64(s: &[char]) -> (r: Option<u64>)
    ensures
        r == parse_u64_spec(s@),
{
    let d = if s.len() > 0 && s[0] == '+' {
        slice_subrange(s, 1, s.len())
    } else {
        s
    };
    assert(s.len() > 0 && s@[0] == '+' ==> d@ =~= s@.drop_first());
    if d.len() == 0 || !all_digits_exec(d) {
        return None;
    }
    digits_to_u64(d)
}

/// Parses a signed decimal integer as `i64::from_str` does.
pub fn parse_i64(s: &[char]) -> (r: Option<i64>)
    ensures
        r == parse_i64_spec(s@),
{
    let neg = s.len() > 0 && s[0] == '-';
    let d = if s.len() > 0 && (s[0] == '+' || s[0] == '-') {
        slice_subrange(s, 1, s.len())
    } else {
        s
    };
    assert(s.len() > 0 && (s@[0] == '+' || s@[0] == '-') ==> d@ =~= s@.drop_first());
    if d.len() == 0 || !all_digits_exec(d) {
        return None;
    }
    match digits_to_u64(d) {
        None => None,
        Some(v) => {
            if neg {
                if v <= 9223372036854775808u64 {
                    if v == 9223372036854775808u64 {
                        Some(i64::MIN)
                    } else {
                        Some(-(v as i64))
                    }
                } else {
                    None
                }
            } else {
                if v <= 9223372036854775807u64 {
                    Some(v as i64)
                } else {
                    None
                }
            }
        },
    }
}

// ---------------------------------------------------------------------------
// Real-number literals
// ---------------------------------------------------------------------------
/// `s` without one leading `+` or `-`.
pub open spec fn strip_sign(s: Seq<char>) -> Seq<char> {
    if s.len() > 0 && (s[0] == '+' || s[0] == '-') {
        s.drop_first()
    } else {
        s
    }
}

/// ASCII lower case of a character.
pub open spec fn ascii_lower(c: char) -> char {
    if 'A' <= c && c <= 'Z' {
        ((c as int) + 32) as char
    } else {
        c
    }
}

/// `s` equals the lower-case ASCII word `w` when compared without regard to ASCII case.
pub open spec fn eq_ignore_ascii_case(s: Seq<char>, w: Seq<char>) -> bool {
    s.len() == w.len() && forall|i: int| 0 <= i < s.len() ==> ascii_lower(#[trigger] s[i]) == w[i]
}

/// The first position of `c` in `s`.
pub open spec fn index_of(s: Seq<char>, c: char) -> Option<int>
    decreases s.len(),
{
    if s.len() == 0 {
        None
    } else if s[0] == c {
        Some(0)
    } else {
        match index_of(s.drop_first(), c) {
            Some(k) => Some(k + 1),
            None => None,
        }
    }
}

/// The first position of an exponent marker (`e` or `E`) in `s`.
pub open spec fn index_of_exp(s: Seq<char>) -> Option<int>
    decreases s.len(),
{
    if s.len() == 0 {
        None
    } else if s[0] == 'e' || s[0] == 'E' {
        Some(0)
    } else {
        match index_of_exp(s.drop_first()) {
            Some(k) => Some(k + 1),
            None => None,
        }
    }
}

/// `Digit+ | Digit+ '.' Digit* | Digit* '.' Digit+`
pub open spec fn is_mantissa(m: Seq<char>) -> bool {
    match index_of(m, '.') {
        None => m.len() > 0 && all_digits(m),
        Some(p) => 0 <= p < m.len() && all_digits(m.subrange(0, p)) && all_digits(
            m.subrange(p + 1, m.len() as int),
        ) && (p > 0 || m.len() > p + 1),
    }
}

/// `Number ::= Mantissa Exp?` with `Exp ::= ('e'|'E') Sign? Digit+`
pub open spec fn is_number(t: Seq<char>) -> bool {
    match index_of_exp(t) {
        None => is_mantissa(t),
        Some(k) => {
            &&& 0 <= k < t.len()
            &&& is_mantissa(t.subrange(0, k))
            &&& strip_sign(t.subrange(k + 1, t.len() as int)).len() > 0
            &&& all_digits(strip_sign(t.subrange(k + 1, t.len() as int)))
        },
    }
}

/// The strings that `f64::from_str` accepts:
/// `Sign? ('inf' | 'infinity' | 'nan' | Number)`, the words in any ASCII case.
pub open spec fn is_real_literal_spec(s: Seq<char>) -> bool {
    let t = strip_sign(s);
    ||| eq_ignore_ascii_case(t, seq!['i', 'n', 'f'])
    ||| eq_ignore_ascii_case(t, seq!['i', 'n', 'f', 'i', 'n', 'i', 't', 'y'])
    ||| eq_ignore_ascii_case(t, seq!['n', 'a', 'n'])
    ||| is_number(t)
}

fn ascii_lower_exec(c: char) -> (r: char)
    ensures
        r == ascii_lower(c),
{
    if 'A' <= c && c <= 'Z' {
        let u = c as u32 + 32;
        assert(u <= 0x7f);
        let r = char_from_ascii(u);
        r
    } else {
        c
    }
}

/// The character with the given ASCII code.
fn char_from_ascii(u: u32) -> (c: char)
    requires
        u < 128,
    ensures
        c == u as char,
{
    let b = u as u8;
    let c = b as char;
    assert(c as int == u as int);
    c
}

pub(crate) fn eq_ignore_ascii_case_exec(s: &[char], w: &[char]) -> (b: bool)
    ensures
        b == eq_ignore_ascii_case(s@, w@),
{
    if s.len() != w.len() {
        return false;
    }
    let mut i: usize = 0;
    while i < s.len()
        invariant
            i <= s@.len(),
            s@.len() == w@.len(),
            forall|j: int| 0 <= j < i ==> ascii_lower(#[trigger] s@[j]) == w@[j],
        decreases s.len() - i,
    {
        if ascii_lower_exec(s[i]) != w[i] {
            return false;
        }
        i = i + 1;
    }
    true
}

fn index_of_exec(s: &[char], c: char) -> (r: Option<usize>)
    ensures
        r matches Some(k) ==> index_of(s@, c) == Some(k as int) && k < s@.len(),
        r is None ==> index_of(s@, c) is None,
{
    let mut i: usize = 0;
    while i < s.len()
        invariant
            i <= s@.len(),
            forall|j: int| 0 <= j < i ==> s@[j] != c,
        decreases s.len() - i,
    {
        if s[i] == c {
            proof {
                lemma_index_of_first(s@, c, i as int);
            }
            return Some(i);
        }
        i = i + 1;
    }
    proof {
        lemma_index_of_none(s@, c);
    }
    None
}

proof fn lemma_index_of_first(s: Seq<char>, c: char, i: int)
    requires
        0 <= i < s.len(),
        s[i] == c,
        forall|j: int| 0 <= j < i ==> s[j] != c,
    ensures
        index_of(s, c) == Some(i),
    decreases i,
{
    if i > 0 {
        lemma_index_of_first(s.drop_first(), c, i - 1);
    }
}

proof fn lemma_index_of_none(s: Seq<char>, c: char)
    requires
        forall|j: int| 0 <= j < s.len() ==> s[j] != c,
    ensures
        index_of(s, c) is None,
    decreases s.len(),
{
    if s.len() > 0 {
        lemma_index_of_none(s.drop_first(), c);
    }
}

proof fn lemma_index_of_exp_first(s: Seq<char>, i: int)
    requires
        0 <= i < s.len(),
        s[i] == 'e' || s[i] == 'E',
        forall|j: int| 0 <= j < i ==> s[j] != 'e' && s[j] != 'E',
    ensures
        index_of_exp(s) == Some(i),
    decreases i,
{
    if i > 0 {
        lemma_index_of_exp_first(s.drop_first(), i - 1);
    }
}

proof fn lemma_index_of_exp_none(s: Seq<char>)
    requires
        forall|j: int| 0 <= j < s.len() ==> s[j] != 'e' && s[j] != 'E',
    ensures
        index_of_exp(s) is None,
    decreases s.len(),
{
    if s.len() > 0 {
        lemma_index_of_exp_none(s.drop_first());
    }
}

fn index_of_exp_exec(s: &[char]) -> (r: Option<usize>)
    ensures
        r matches Some(k) ==> index_of_exp(s@) == Some(k as int) && k < s@.len(),
        r is None ==> index_of_exp(s@) is None,
{
    let mut i: usize = 0;
    while i < s.len()
        invariant
            i <= s@.len(),
            forall|j: int| 0 <= j < i ==> s@[j] != 'e' && s@[j] != 'E',
        decreases s.len() - i,
    {
        if s[i] == 'e' || s[i] == 'E' {
            proof {
                lemma_index_of_exp_first(s@, i as int);
            }
            return Some(i);
        }
        i = i + 1;
    }
    proof {
        lemma_index_of_exp_none(s@);
    }
    None
}

fn is_mantissa_exec(m: &[char]) -> (b: bool)
    ensures
        b == is_mantissa(m@),
{
    match index_of_exec(m, '.') {
        None => m.len() > 0 && all_digits_exec(m),
        Some(p) => {
            let n = m.len();
            assert(p < n);
            let a = slice_subrange(m, 0, p);
            let c = slice_subrange(m, p + 1, n);
            all_digits_exec(a) && all_digits_exec(c) && (p > 0 || m.len() > p + 1)
        },
    }
}

fn is_number_exec(t: &[char]) -> (b: bool)
    ensures
        b == is_number(t@),
{
    match index_of_exp_exec(t) {
        None => is_mantissa_exec(t),
        Some(k) => {
            let n = t.len();
            assert(k < n);
            let mant = slice_subrange(t, 0, k);
            let rest = slice_subrange(t, k + 1, n);
            let digits = strip_sign_exec(rest);
            is_mantissa_exec(mant) && digits.len() > 0 && all_digits_exec(digits)
        },
    }
}

fn strip_sign_exec<'a>(s: &'a [char]) -> (r: &'a [char])
    ensures
        r@ == strip_sign(s@),
{
    if s.len() > 0 && (s[0] == '+' || s[0] == '-') {
        let r = slice_subrange(s, 1, s.len());
        assert(r@ =~= s@.drop_first());
        r
    } else {
        s
    }
}

/// Whether `f64::from_str` accepts `s`.
pub fn is_real_literal(s: &[char]) -> (b: bool)
    ensures
        b == is_real_literal_spec(s@),
{
    let t = strip_sign_exec(s);
    let inf: Vec<char> = vec!['i', 'n', 'f'];
    let infinity: Vec<char> = vec!['i', 'n', 'f', 'i', 'n', 'i', 't', 'y'];
    let nan: Vec<char> = vec!['n', 'a', 'n'];
    assert(inf@ == seq!['i', 'n', 'f']);
    assert(infinity@ == seq!['i', 'n', 'f', 'i', 'n', 'i', 't', 'y']);
    assert(nan@ == seq!['n', 'a', 'n']);
    eq_ignore_ascii_case_exec(t, inf.as_slice()) || eq_ignore_ascii_case_exec(
        t,
        infinity.as_slice(),
    ) || eq_ignore_ascii_case_exec(t, nan.as_slice()) || is_number_exec(t)
}

// ---------------------------------------------------------------------------
// Writing decimal numbers
// ---------------------------------------------------------------------------
/// The character for a digit value below ten.
pub open spec fn digit_char(d: nat) -> char {
    ((d as int) + 48) as char
}

/// The decimal representation of `n` (what `Display` writes for an unsigned integer).
pub open spec fn decimal(n: nat) -> Seq<char>
    decreases n,
{
    if n < 10 {
        seq![digit_char(n)]
    } else {
        decimal(n / 10).push(digit_char(n % 10))
    }
}

/// The decimal representation of a signed integer.
pub open spec fn decimal_signed(v: int) -> Seq<char> {
    if v < 0 {
        seq!['-'] + decimal((-v) as nat)
    } else {
        decimal(v as nat)
    }
}

/// Appends the decimal representation of `n` to `out`.
pub fn push_decimal(out: &mut Vec<char>, n: u64)
    ensures
        final(out)@ == old(out)@ + decimal(n as nat),
    decreases n,
{
    if n >= 10 {
        push_decimal(out, n / 10);
    }
    let d: u32 = (n % 10) as u32;
    let c = char_from_ascii(d + 48);
    out.push(c);
    proof {
        if n >= 10 {
            assert(decimal(n as nat) == decimal((n / 10) as nat).push(digit_char((n % 10) as nat)));
        }
    }
    assert(final(out)@ =~= old(out)@ + decimal(n as nat));
}

/// Appends the decimal representation of a signed integer to `out`.
pub fn push_decimal_signed(out: &mut Vec<char>, v: i64)
    ensures
        final(out)@ == old(out)@ + decimal_signed(v as int),
{
    if v < 0 {
        out.push('-');
        let m: u64 = if v == i64::MIN {
            9223372036854775808u64
        } else {
            (-v) as u64
        };
        let ghost mid = out@;
        push_decimal(out, m);
        assert(final(out)@ =~= old(out)@ + decimal_signed(v as int));
    } else {
        push_decimal(out, v as u64);
    }
}

/// Appends the characters of `w` to `out`.
pub fn push_all(out: &mut Vec<char>, w: &[char])
    ensures
        final(out)@ == old(out)@ + w@,
{
    let mut i: usize = 0;
    while i < w.len()
        invariant
            i <= w@.len(),
            out@ == old(out)@ + w@.take(i as int),
        decreases w.len() - i,
    {
        out.push(w[i]);
        assert(w@.take(i + 1) =~= w@.take(i as int).push(w@[i as int]));
        i = i + 1;
    }
    assert(w@.take(w@.len() as int) =~= w@);
}

/// Appends the characters of a string slice to `out`.
pub fn push_str(out: &mut Vec<char>, w: &str)
    ensures
        final(out)@ == old(out)@ + w@,
{
    let cs = crate::text::chars_of(w);
    push_all(out, cs.as_slice());
}

} // verus!
