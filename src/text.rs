//! Characters and numbers as text: digits, whitespace, tokens.

use vstd::prelude::*;

verus! {

/// The characters of `s`, in order.
pub fn chars_of(s: &str) -> (v: Vec<char>)
    ensures
        v@ == s@,
{
    let mut v: Vec<char> = Vec::new();
    for c in it: s.chars()
        invariant
            v@ == it.seq().subrange(0, it.index() as int),
            it.seq() == s@,
    {
        v.push(c);
    }
    v
}

// ----- digits -----

/// The digit characters, indexed by their value.
pub open spec fn digit_char(d: nat) -> char {
    "0123456789abcdef"@[d as int]
}

/// What a character is worth as a digit in any radix up to 36; 36 when it is no digit.
pub open spec fn digit_value(c: char) -> nat {
    if '0' <= c <= '9' {
        (c as u32 - '0' as u32) as nat
    } else if 'a' <= c <= 'z' {
        (c as u32 - 'a' as u32 + 10) as nat
    } else if 'A' <= c <= 'Z' {
        (c as u32 - 'A' as u32 + 10) as nat
    } else {
        36
    }
}

pub open spec fn all_digits(s: Seq<char>, radix: nat) -> bool {
    forall|i: int| 0 <= i < s.len() ==> #[trigger] digit_value(s[i]) < radix
}

/// The number that the digits `s` write in base `radix`, most significant first.
pub open spec fn digits_value(s: Seq<char>, radix: nat) -> nat
    decreases s.len(),
{
    if s.len() == 0 {
        0
    } else {
        digits_value(s.drop_last(), radix) * radix + digit_value(s.last())
    }
}

/// The digits of `n` in base `radix`, exactly `width` of them, the lowest last.
pub open spec fn radix_digits(n: nat, radix: nat, width: nat) -> Seq<char>
    decreases width,
{
    if width == 0 {
        Seq::empty()
    } else {
        radix_digits(n / radix, radix, (width - 1) as nat).push(digit_char(n % radix))
    }
}

/// `n` in decimal, without leading zeros.
pub open spec fn decimal(n: nat) -> Seq<char>
    decreases n,
{
    if n < 10 {
        seq![digit_char(n)]
    } else {
        decimal(n / 10).push(digit_char(n % 10))
    }
}

/// `v` in decimal, with a leading `-` when it is negative.
pub open spec fn signed_decimal(v: int) -> Seq<char> {
    if v < 0 {
        seq!['-'] + decimal((-v) as nat)
    } else {
        decimal(v as nat)
    }
}

pub proof fn lemma_digit_char(d: nat)
    requires
        d < 16,
    ensures
        digit_value(digit_char(d)) == d,
        '0' <= digit_char(d) <= '9' || 'a' <= digit_char(d) <= 'f',
{
    reveal_strlit("0123456789abcdef");
}

/// A slice of one character holding the digit `d`.
fn digit_str(d: u32) -> (r: &'static str)
    requires
        d < 16,
    ensures
        r@ == seq![digit_char(d as nat)],
{
    proof {
        reveal_strlit("0123456789abcdef");
    }
    let r = "0123456789abcdef".substring_char(d as usize, d as usize + 1);
    assert(r@ =~= seq![digit_char(d as nat)]);
    r
}

/// Appends the lowest `width` digits of `n` in base `radix`.
pub fn push_radix_digits(s: &mut String, n: u32, radix: u32, width: u32)
    requires
        2 <= radix <= 16,
    ensures
        final(s)@ == old(s)@ + radix_digits(n as nat, radix as nat, width as nat),
    decreases width,
{
    if width > 0 {
        push_radix_digits(s, n / radix, radix, width - 1);
        s.append(digit_str(n % radix));
        assert(final(s)@ =~= old(s)@ + radix_digits(n as nat, radix as nat, width as nat));
    }
}

/// Appends `n` in decimal.
pub fn push_decimal(s: &mut String, n: u64)
    ensures
        final(s)@ == old(s)@ + decimal(n as nat),
    decreases n,
{
    if n >= 10 {
        push_decimal(s, n / 10);
    }
    s.append(digit_str((n % 10) as u32));
    assert(final(s)@ =~= old(s)@ + decimal(n as nat));
}

/// `v` in decimal, with a leading `-` when it is negative.
pub fn signed_text(v: i64) -> (r: String)
    requires
        v > i64::MIN,
    ensures
        r@ == signed_decimal(v as int),
{
    let mut s = String::new();
    if v < 0 {
        s.append("-");
        proof {
            reveal_strlit("-");
        }
        push_decimal(&mut s, (-v) as u64);
        assert(s@ =~= signed_decimal(v as int));
    } else {
        push_decimal(&mut s, v as u64);
        assert(s@ =~= signed_decimal(v as int));
    }
    s
}


// ----- parsing numbers -----

/// `c` is white space in the sense of `char::is_whitespace`.
pub open spec fn is_space(c: char) -> bool {
    ||| c == ' '
    ||| '\t' <= c <= '\r'
    ||| c == '\u{85}'
    ||| c == '\u{a0}'
    ||| c == '\u{1680}'
    ||| '\u{2000}' <= c <= '\u{200a}'
    ||| c == '\u{2028}'
    ||| c == '\u{2029}'
    ||| c == '\u{202f}'
    ||| c == '\u{205f}'
    ||| c == '\u{3000}'
}

pub fn is_space_char(c: char) -> (r: bool)
    ensures
        r == is_space(c),
{
    c == ' ' || ('\t' <= c && c <= '\r') || c == '\u{85}' || c == '\u{a0}' || c == '\u{1680}' || (
    '\u{2000}' <= c && c <= '\u{200a}') || c == '\u{2028}' || c == '\u{2029}' || c == '\u{202f}'
        || c == '\u{205f}' || c == '\u{3000}'
}

pub open spec fn trim_start(s: Seq<char>) -> Seq<char>
    decreases s.len(),
{
    if s.len() > 0 && is_space(s[0]) {
        trim_start(s.drop_first())
    } else {
        s
    }
}

pub open spec fn trim_end(s: Seq<char>) -> Seq<char>
    decreases s.len(),
{
    if s.len() > 0 && is_space(s.last()) {
        trim_end(s.drop_last())
    } else {
        s
    }
}

/// `s` without white space at either end.
pub open spec fn trim(s: Seq<char>) -> Seq<char> {
    trim_end(trim_start(s))
}

/// The bounds of `trim(v@)` within `v`.
pub fn trim_bounds(v: &Vec<char>) -> (r: (usize, usize))
    ensures
        r.0 <= r.1 <= v.len(),
        v@.subrange(r.0 as int, r.1 as int) == trim(v@),
{
    let n = v.len();
    let mut i: usize = 0;
    assert(v@.subrange(0, n as int) =~= v@);
    while i < n && is_space_char(v[i])
        invariant
            i <= n == v.len(),
            trim_start(v@) == trim_start(v@.subrange(i as int, n as int)),
        decreases n - i,
    {
        assert(v@.subrange(i as int, n as int).drop_first() =~= v@.subrange(i + 1, n as int));
        i += 1;
    }
    let mut j: usize = n;
    while j > i && is_space_char(v[j - 1])
        invariant
            i <= j <= n == v.len(),
            trim_start(v@) == v@.subrange(i as int, n as int),
            trim(v@) == trim_end(v@.subrange(i as int, j as int)),
        decreases j,
    {
        assert(v@.subrange(i as int, j as int).drop_last() =~= v@.subrange(i as int, j - 1));
        j -= 1;
    }
    (i, j)
}

pub fn digit_of(c: char) -> (r: u32)
    ensures
        r == digit_value(c),
{
    if '0' <= c && c <= '9' {
        c as u32 - '0' as u32
    } else if 'a' <= c && c <= 'z' {
        c as u32 - 'a' as u32 + 10
    } else if 'A' <= c && c <= 'Z' {
        c as u32 - 'A' as u32 + 10
    } else {
        36
    }
}

pub proof fn lemma_digits_step(s: Seq<char>, radix: nat, i: int)
    requires
        0 <= i < s.len(),
    ensures
        digits_value(s.subrange(0, i + 1), radix) == digits_value(s.subrange(0, i), radix) * radix
            + digit_value(s[i]),
{
    assert(s.subrange(0, i + 1).drop_last() =~= s.subrange(0, i));
}

/// Digits only grow in value as more of them follow.
pub proof fn lemma_digits_prefix(s: Seq<char>, radix: nat, k: int)
    requires
        0 <= k <= s.len(),
        radix >= 1,
    ensures
        digits_value(s.subrange(0, k), radix) <= digits_value(s, radix),
    decreases s.len(),
{
    if k < s.len() {
        let p = s.drop_last();
        assert(p.subrange(0, k) =~= s.subrange(0, k));
        lemma_digits_prefix(p, radix, k);
        let a = digits_value(p, radix);
        assert(a * radix >= a) by (nonlinear_arith)
            requires
                radix >= 1,
        ;
    } else {
        assert(s.subrange(0, k) =~= s);
    }
}

/// The value of the digits `v[from..to]` in base `radix`, when they are all digits and
/// their value is at most `limit`.
pub fn digits_within(v: &Vec<char>, from: usize, to: usize, radix: u32, limit: u32) -> (r: Option<
    u32,
>)
    requires
        from <= to <= v.len(),
        2 <= radix <= 16,
    ensures
        ({
            let body = v@.subrange(from as int, to as int);
            r == if all_digits(body, radix as nat) && digits_value(body, radix as nat) <= limit {
                Some(digits_value(body, radix as nat) as u32)
            } else {
                None::<u32>
            }
        }),
{
    let ghost body = v@.subrange(from as int, to as int);
    let mut acc: u64 = 0;
    let mut i: usize = from;
    assert(body.subrange(0, 0) =~= Seq::<char>::empty());
    while i < to
        invariant
            from <= i <= to <= v.len(),
            2 <= radix <= 16,
            body == v@.subrange(from as int, to as int),
            acc <= limit,
            all_digits(body.subrange(0, i - from), radix as nat),
            acc == digits_value(body.subrange(0, i - from), radix as nat),
        decreases to - i,
    {
        let d = digit_of(v[i]);
        if d >= radix {
            assert(!(digit_value(body[i - from]) < radix));
            return None;
        }
        proof {
            lemma_digits_step(body, radix as nat, i - from);
        }
        assert(acc * radix <= 0x1_0000_0000 * 16) by (nonlinear_arith)
            requires
                acc <= 0xffff_ffff,
                radix <= 16,
        ;
        acc = acc * radix as u64 + d as u64;
        proof {
            assert(all_digits(body.subrange(0, i + 1 - from), radix as nat)) by {
                assert(forall|k: int|
                    0 <= k < i + 1 - from ==> #[trigger] body.subrange(0, i + 1 - from)[k]
                        == body[k]);
            }
        }
        if acc > limit as u64 {
            proof {
                lemma_digits_prefix(body, radix as nat, i + 1 - from);
            }
            return None;
        }
        i += 1;
    }
    assert(body.subrange(0, to - from) =~= body);
    Some(acc as u32)
}

/// What `i32::from_str_radix(s, radix)` gives: an optional sign, then at least one digit,
/// within the range of `i32`.
pub open spec fn int_value(s: Seq<char>, radix: nat) -> Option<i32> {
    let signed = s.len() > 0 && (s[0] == '-' || s[0] == '+');
    let body = if signed {
        s.drop_first()
    } else {
        s
    };
    let n = digits_value(body, radix);
    if body.len() == 0 || !all_digits(body, radix) {
        None
    } else if s[0] == '-' {
        if n <= 0x8000_0000 {
            Some((-n) as i32)
        } else {
            None
        }
    } else if n <= 0x7fff_ffff {
        Some(n as i32)
    } else {
        None
    }
}

/// What `u32::from_str_radix(s, radix)` gives when it is at most `limit`: an optional `+`,
/// then at least one digit.
pub open spec fn nat_value(s: Seq<char>, radix: nat, limit: nat) -> Option<u32> {
    let body = if s.len() > 0 && s[0] == '+' {
        s.drop_first()
    } else {
        s
    };
    if body.len() == 0 || !all_digits(body, radix) || digits_value(body, radix) > limit {
        None
    } else {
        Some(digits_value(body, radix) as u32)
    }
}

/// `int_value` of the characters `v[from..to]`.
pub fn parse_int(v: &Vec<char>, from: usize, to: usize, radix: u32) -> (r: Option<i32>)
    requires
        from <= to <= v.len(),
        2 <= radix <= 16,
    ensures
        r == int_value(v@.subrange(from as int, to as int), radix as nat),
{
    let ghost s = v@.subrange(from as int, to as int);
    let signed = from < to && (v[from] == '-' || v[from] == '+');
    let start = if signed {
        from + 1
    } else {
        from
    };
    assert(v@.subrange(start as int, to as int) =~= if signed {
        s.drop_first()
    } else {
        s
    });
    if start == to {
        return None;
    }
    let negative = v[from] == '-';
    let limit: u32 = if negative {
        0x8000_0000
    } else {
        0x7fff_ffff
    };
    match digits_within(v, start, to, radix, limit) {
        None => None,
        Some(n) => {
            if negative {
                Some((0 - n as i64) as i32)
            } else {
                Some(n as i32)
            }
        },
    }
}

/// `nat_value` of the characters `v[from..to]`.
pub fn parse_nat(v: &Vec<char>, from: usize, to: usize, radix: u32, limit: u32) -> (r: Option<u32>)
    requires
        from <= to <= v.len(),
        2 <= radix <= 16,
    ensures
        r == nat_value(v@.subrange(from as int, to as int), radix as nat, limit as nat),
{
    let ghost s = v@.subrange(from as int, to as int);
    let start = if from < to && v[from] == '+' {
        from + 1
    } else {
        from
    };
    assert(v@.subrange(start as int, to as int) =~= if s.len() > 0 && s[0] == '+' {
        s.drop_first()
    } else {
        s
    });
    if start == to {
        return None;
    }
    digits_within(v, start, to, radix, limit)
}


// ----- tokens -----

/// The characters that separate tokens of an instruction line.
pub open spec fn is_separator(c: char) -> bool {
    c == ' ' || c == ',' || c == '(' || c == ')'
}

/// The maximal runs of non-separator characters of `s`, in order.
pub open spec fn tokens(s: Seq<char>) -> Seq<Seq<char>>
    decreases s.len(),
{
    if s.len() == 0 {
        Seq::empty()
    } else {
        let p = s.drop_last();
        let c = s.last();
        if is_separator(c) {
            tokens(p)
        } else if p.len() > 0 && !is_separator(p.last()) {
            let t = tokens(p);
            t.drop_last().push(t.last().push(c))
        } else {
            tokens(p).push(seq![c])
        }
    }
}

pub open spec fn views(v: Seq<String>) -> Seq<Seq<char>> {
    v.map_values(|x: String| x@)
}

/// Splits `s` at spaces, commas and parentheses, and drops the empty pieces.
pub fn tokenize(s: &str) -> (r: Vec<String>)
    ensures
        views(r@) == tokens(s@),
{
    let v = chars_of(s);
    let n = v.len();
    let mut out: Vec<String> = Vec::new();
    let mut start: usize = 0;
    let mut inside = false;
    let mut i: usize = 0;
    assert(v@.subrange(0, 0) =~= Seq::<char>::empty());
    while i < n
        invariant
            i <= n == v.len(),
            v@ == s@,
            start <= i,
            inside <==> (i > 0 && !is_separator(v@[i - 1])),
            inside ==> start < i && (start == 0 || is_separator(v@[start - 1])),
            inside ==> forall|k: int| start <= k < i ==> !is_separator(#[trigger] v@[k]),
            !inside ==> views(out@) == tokens(v@.subrange(0, i as int)),
            inside ==> views(out@).push(v@.subrange(start as int, i as int)) == tokens(
                v@.subrange(0, i as int),
            ),
        decreases n - i,
    {
        let c = v[i];
        let ghost p = v@.subrange(0, i as int);
        let ghost q = v@.subrange(0, i + 1);
        assert(q.drop_last() =~= p);
        assert(q.last() == c);
        let sep = c == ' ' || c == ',' || c == '(' || c == ')';
        if sep {
            if inside {
                let t = String::from_str(s.substring_char(start, i));
                let ghost before = out@;
                out.push(t);
                assert(views(out@) =~= views(before).push(v@.subrange(start as int, i as int)));
            }
            inside = false;
        } else {
            if inside {
                assert(p.len() > 0 && !is_separator(p.last()));
                let ghost t = tokens(p);
                assert(t.drop_last() =~= views(out@));
                assert(v@.subrange(start as int, i + 1) =~= t.last().push(c));
                assert(tokens(q) =~= views(out@).push(v@.subrange(start as int, i + 1)));
            } else {
                assert(v@.subrange(i as int, i + 1) =~= seq![c]);
                start = i;
                inside = true;
            }
        }
        i += 1;
    }
    if inside {
        let t = String::from_str(s.substring_char(start, n));
        let ghost before = out@;
        out.push(t);
        assert(views(out@) =~= views(before).push(v@.subrange(start as int, n as int)));
    }
    assert(v@.subrange(0, n as int) =~= v@);
    out
}


// ----- facts for round trips -----

/// The decimal text of `n` is a non-empty run of decimal digits worth `n`.
pub proof fn lemma_decimal(n: nat)
    ensures
        decimal(n).len() > 0,
        forall|i: int|
            0 <= i < decimal(n).len() ==> '0' <= #[trigger] decimal(n)[i] <= '9',
        all_digits(decimal(n), 10),
        digits_value(decimal(n), 10) == n,
    decreases n,
{
    reveal_strlit("0123456789abcdef");
    lemma_digit_char(n % 10);
    if n >= 10 {
        lemma_decimal(n / 10);
        let s = decimal(n);
        assert(s.drop_last() =~= decimal(n / 10));
        assert(s.last() == digit_char(n % 10));
        assert(digits_value(s, 10) == digits_value(decimal(n / 10), 10) * 10 + n % 10);
        assert((n / 10) * 10 + n % 10 == n);
    } else {
        assert(decimal(n).drop_last() =~= Seq::<char>::empty());
        assert(digits_value(decimal(n), 10) == digits_value(Seq::<char>::empty(), 10) * 10 + n);
    }
}

/// Token boundaries do not move when two texts meet at a separator or at a text's edge.
pub proof fn lemma_tokens_concat(a: Seq<char>, b: Seq<char>)
    requires
        a.len() == 0 || is_separator(a.last()) || (b.len() > 0 && is_separator(b[0])),
    ensures
        tokens(a + b) == tokens(a) + tokens(b),
    decreases b.len(),
{
    if b.len() == 0 {
        assert(a + b =~= a);
        assert(tokens(a) + tokens(b) =~= tokens(a));
    } else {
        let b1 = b.drop_last();
        let c = b.last();
        assert((a + b).drop_last() =~= a + b1);
        assert((a + b).last() == c);
        if b1.len() == 0 {
            assert(a + b1 =~= a);
            assert(b.drop_last() =~= b1);
            assert(tokens(b1) =~= Seq::<Seq<char>>::empty());
            if is_separator(c) {
                assert(tokens(a) + tokens(b) =~= tokens(a));
            } else {
                assert(tokens(b) =~= seq![seq![c]]);
                assert(tokens(a) + tokens(b) =~= tokens(a).push(seq![c]));
            }
        } else {
            assert(b1[0] == b[0]);
            lemma_tokens_concat(a, b1);
            assert((a + b1).last() == b1.last());
            let t = tokens(b1);
            if is_separator(c) {
            } else if !is_separator(b1.last()) {
                assert(t.len() > 0);
                assert(tokens(a) + tokens(b) =~= (tokens(a) + t).drop_last().push(
                    (tokens(a) + t).last().push(c),
                ));
            } else {
                assert(tokens(a) + tokens(b) =~= (tokens(a) + t).push(seq![c]));
            }
        }
    }
}

/// A non-empty text without separators is a single token.
pub proof fn lemma_tokens_word(w: Seq<char>)
    requires
        w.len() > 0,
        forall|i: int| 0 <= i < w.len() ==> !is_separator(#[trigger] w[i]),
    ensures
        tokens(w) == seq![w],
    decreases w.len(),
{
    let p = w.drop_last();
    if p.len() == 0 {
        assert(tokens(p) =~= Seq::<Seq<char>>::empty());
        assert(w =~= seq![w.last()]);
    } else {
        lemma_tokens_word(p);
        assert(p.last() == w[w.len() - 2]);
        assert(p.push(w.last()) =~= w);
        assert(seq![p].drop_last().push(p.push(w.last())) =~= seq![w]);
    }
}

/// A text of separators alone has no tokens.
pub proof fn lemma_tokens_blank(s: Seq<char>)
    requires
        forall|i: int| 0 <= i < s.len() ==> is_separator(#[trigger] s[i]),
    ensures
        tokens(s) == Seq::<Seq<char>>::empty(),
    decreases s.len(),
{
    if s.len() > 0 {
        lemma_tokens_blank(s.drop_last());
    }
}

} // verus!
