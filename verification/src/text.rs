use vstd::prelude::*;

verus! {

/// The characters with the Unicode `White_Space` property, the set that
/// `char::is_whitespace` and `str::trim` go by.
pub open spec fn is_white_space(c: char) -> bool {
    let n = c as int;
    ||| 0x09 <= n <= 0x0D
    ||| n == 0x20
    ||| n == 0x85
    ||| n == 0xA0
    ||| n == 0x1680
    ||| 0x2000 <= n <= 0x200A
    ||| n == 0x2028
    ||| n == 0x2029
    ||| n == 0x202F
    ||| n == 0x205F
    ||| n == 0x3000
}

/// `s` without its leading white space.
pub open spec fn trim_start(s: Seq<char>) -> Seq<char>
    decreases s.len(),
{
    if s.len() > 0 && is_white_space(s[0]) {
        trim_start(s.drop_first())
    } else {
        s
    }
}

/// `s` without its trailing white space.
pub open spec fn trim_end(s: Seq<char>) -> Seq<char>
    decreases s.len(),
{
    if s.len() > 0 && is_white_space(s.last()) {
        trim_end(s.drop_last())
    } else {
        s
    }
}

/// `s` without its leading and trailing white space.
pub open spec fn trim(s: Seq<char>) -> Seq<char> {
    trim_end(trim_start(s))
}

/// Whether every character of `s` is white space.
pub open spec fn all_white_space(s: Seq<char>) -> bool {
    forall|i: int| 0 <= i < s.len() ==> is_white_space(#[trigger] s[i])
}

/// Tells whether `c` is white space.
pub fn is_white_space_char(c: char) -> (r: bool)
    ensures
        r == is_white_space(c),
{
    let n = c as u32;
    (0x09 <= n && n <= 0x0D) || n == 0x20 || n == 0x85 || n == 0xA0 || n == 0x1680 || (0x2000
        <= n && n <= 0x200A) || n == 0x2028 || n == 0x2029 || n == 0x202F || n == 0x205F || n
        == 0x3000
}

/// The characters of `s`, in order.
pub fn chars_of(s: &str) -> (v: Vec<char>)
    ensures
        v@ == s@,
{
    let mut v: Vec<char> = Vec::new();
    for c in it: s.chars()
        invariant
            it.seq() == s@,
            v@ == s@.subrange(0, it.index() as int),
    {
        v.push(c);
        assert(v@ =~= s@.subrange(0, it.index() + 1));
    }
    assert(v@ =~= s@);
    v
}

/// Dropping one leading white-space character does not change what
/// `trim_start` gives.
proof fn lemma_trim_start_step(s: Seq<char>, i: int)
    requires
        0 <= i < s.len(),
        is_white_space(s[i]),
    ensures
        trim_start(s.subrange(i, s.len() as int)) == trim_start(s.subrange(i + 1, s.len() as int)),
{
    let t = s.subrange(i, s.len() as int);
    assert(t.drop_first() =~= s.subrange(i + 1, s.len() as int));
}

/// Dropping one trailing white-space character does not change what
/// `trim_end` gives.
proof fn lemma_trim_end_step(s: Seq<char>, i: int, j: int)
    requires
        0 <= i < j <= s.len(),
        is_white_space(s[j - 1]),
    ensures
        trim_end(s.subrange(i, j)) == trim_end(s.subrange(i, j - 1)),
{
    let t = s.subrange(i, j);
    assert(t.drop_last() =~= s.subrange(i, j - 1));
}

/// The bounds `(lo, hi)` of the trimmed part of `v`: `trim(v@)` is the
/// subrange from `lo` to `hi`.
pub fn trimmed_bounds(v: &Vec<char>) -> (r: (usize, usize))
    ensures
        r.0 <= r.1 <= v@.len(),
        trim(v@) == v@.subrange(r.0 as int, r.1 as int),
{
    let n = v.len();
    let ghost s = v@;
    let mut lo: usize = 0;
    assert(s.subrange(0, n as int) =~= s);
    while lo < n && is_white_space_char(v[lo])
        invariant
            n == s.len(),
            s == v@,
            lo <= n,
            trim_start(s) == trim_start(s.subrange(lo as int, n as int)),
        decreases n - lo,
    {
        proof {
            lemma_trim_start_step(s, lo as int);
        }
        lo = lo + 1;
    }
    let ghost t = s.subrange(lo as int, n as int);
    assert(trim_start(s) == t) by {
        if t.len() > 0 {
            assert(t[0] == s[lo as int]);
        }
    }
    let mut hi: usize = n;
    while hi > lo && is_white_space_char(v[hi - 1])
        invariant
            n == s.len(),
            s == v@,
            lo <= hi <= n,
            t == s.subrange(lo as int, n as int),
            trim_end(t) == trim_end(s.subrange(lo as int, hi as int)),
        decreases hi - lo,
    {
        proof {
            lemma_trim_end_step(s, lo as int, hi as int);
        }
        hi = hi - 1;
    }
    let ghost u = s.subrange(lo as int, hi as int);
    assert(trim_end(u) == u) by {
        if u.len() > 0 {
            assert(u.last() == s[hi - 1]);
        }
    }
    (lo, hi)
}

/// Whether the characters of `v` from `lo` to `hi` spell out `word`.
pub fn span_equals(v: &Vec<char>, lo: usize, hi: usize, word: &str) -> (r: bool)
    requires
        lo <= hi <= v@.len(),
    ensures
        r == (v@.subrange(lo as int, hi as int) == word@),
{
    let n = word.unicode_len();
    if hi - lo != n {
        proof {
            assert(v@.subrange(lo as int, hi as int).len() != word@.len());
        }
        return false;
    }
    let mut k: usize = 0;
    while k < n
        invariant
            n == word@.len(),
            hi - lo == n,
            lo <= hi <= v@.len(),
            k <= n,
            forall|m: int| 0 <= m < k ==> v@[lo + m] == word@[m],
        decreases n - k,
    {
        if v[lo + k] != word.get_char(k) {
            proof {
                assert(v@.subrange(lo as int, hi as int)[k as int] != word@[k as int]);
            }
            return false;
        }
        k = k + 1;
    }
    assert(v@.subrange(lo as int, hi as int) =~= word@);
    true
}

/// All-white-space text trims to nothing at its start.
proof fn lemma_trim_start_all_white(s: Seq<char>)
    requires
        all_white_space(s),
    ensures
        trim_start(s) == Seq::<char>::empty(),
    decreases s.len(),
{
    if s.len() > 0 {
        lemma_trim_start_all_white(s.drop_first());
    } else {
        assert(s =~= Seq::<char>::empty());
    }
}

/// White space in front of `x` is dropped by `trim_start`.
proof fn lemma_trim_start_skips_prefix(a: Seq<char>, x: Seq<char>)
    requires
        all_white_space(a),
    ensures
        trim_start(a + x) == trim_start(x),
    decreases a.len(),
{
    if a.len() == 0 {
        assert(a + x =~= x);
    } else {
        assert((a + x)[0] == a[0]);
        assert((a + x).drop_first() =~= a.drop_first() + x);
        lemma_trim_start_skips_prefix(a.drop_first(), x);
    }
}

/// White space after `y` is dropped by `trim_end`.
proof fn lemma_trim_end_skips_suffix(y: Seq<char>, b: Seq<char>)
    requires
        all_white_space(b),
    ensures
        trim_end(y + b) == trim_end(y),
    decreases b.len(),
{
    if b.len() == 0 {
        assert(y + b =~= y);
    } else {
        assert((y + b).last() == b.last());
        assert((y + b).drop_last() =~= y + b.drop_last());
        lemma_trim_end_skips_suffix(y, b.drop_last());
    }
}

/// Where `t` holds a character that is not white space, `trim_start` stops
/// inside `t` and leaves what follows it alone.
proof fn lemma_trim_start_keeps_suffix(t: Seq<char>, b: Seq<char>)
    requires
        !all_white_space(t),
    ensures
        trim_start(t + b) == trim_start(t) + b,
    decreases t.len(),
{
    assert(t.len() > 0);
    assert((t + b)[0] == t[0]);
    if is_white_space(t[0]) {
        assert((t + b).drop_first() =~= t.drop_first() + b);
        assert(!all_white_space(t.drop_first())) by {
            let k = choose|k: int| 0 <= k < t.len() && !is_white_space(#[trigger] t[k]);
            assert(t.drop_first()[k - 1] == t[k]);
        }
        lemma_trim_start_keeps_suffix(t.drop_first(), b);
    }
}

/// White space around a text does not change what it trims to.
pub proof fn lemma_trim_ignores_padding(a: Seq<char>, t: Seq<char>, b: Seq<char>)
    requires
        all_white_space(a),
        all_white_space(b),
    ensures
        trim(a + t + b) == trim(t),
{
    assert(a + t + b =~= a + (t + b));
    lemma_trim_start_skips_prefix(a, t + b);
    if all_white_space(t) {
        assert(all_white_space(t + b)) by {
            assert forall|i: int| 0 <= i < (t + b).len() implies is_white_space(#[trigger] (t
                + b)[i]) by {
                if i < t.len() {
                    assert((t + b)[i] == t[i]);
                } else {
                    assert((t + b)[i] == b[i - t.len()]);
                }
            }
        }
        lemma_trim_start_all_white(t + b);
        lemma_trim_start_all_white(t);
    } else {
        lemma_trim_start_keeps_suffix(t, b);
        lemma_trim_end_skips_suffix(trim_start(t), b);
    }
}

/// The character for the decimal digit `d`.
pub open spec fn digit_char(d: nat) -> char {
    if d == 0 { '0' }
    else if d == 1 { '1' }
    else if d == 2 { '2' }
    else if d == 3 { '3' }
    else if d == 4 { '4' }
    else if d == 5 { '5' }
    else if d == 6 { '6' }
    else if d == 7 { '7' }
    else if d == 8 { '8' }
    else { '9' }
}

/// The decimal digits of `n`, most significant first, with no leading zero.
pub open spec fn decimal_digits(n: nat) -> Seq<char>
    decreases n,
{
    if n < 10 {
        seq![digit_char(n)]
    } else {
        decimal_digits(n / 10) + seq![digit_char(n % 10)]
    }
}

/// The decimal form of `n`, with a minus sign in front of a negative number.
pub open spec fn decimal(n: int) -> Seq<char> {
    if n < 0 {
        seq!['-'] + decimal_digits((-n) as nat)
    } else {
        decimal_digits(n as nat)
    }
}

/// The text of the single digit `d`.
fn digit_text(d: u32) -> (t: &'static str)
    requires
        d < 10,
    ensures
        t@ == seq![digit_char(d as nat)],
{
    proof {
        reveal_strlit("0");
        reveal_strlit("1");
        reveal_strlit("2");
        reveal_strlit("3");
        reveal_strlit("4");
        reveal_strlit("5");
        reveal_strlit("6");
        reveal_strlit("7");
        reveal_strlit("8");
        reveal_strlit("9");
    }
    let t = match d {
        0 => "0",
        1 => "1",
        2 => "2",
        3 => "3",
        4 => "4",
        5 => "5",
        6 => "6",
        7 => "7",
        8 => "8",
        _ => "9",
    };
    assert(t@ =~= seq![digit_char(d as nat)]);
    t
}

/// Appends the decimal digits of `n` to `out`.
fn append_digits(out: &mut String, n: u32)
    ensures
        final(out)@ == old(out)@ + decimal_digits(n as nat),
    decreases n,
{
    if n >= 10 {
        append_digits(out, n / 10);
    }
    out.append(digit_text(n % 10));
    proof {
        if n >= 10 {
            assert(old(out)@ + decimal_digits((n / 10) as nat) + seq![digit_char((n % 10) as nat)]
                =~= old(out)@ + decimal_digits(n as nat));
        } else {
            assert(n % 10 == n);
        }
    }
}

/// Appends the decimal form of `n` to `out`, as `{}` formats an `i32`.
pub fn append_decimal(out: &mut String, n: i32)
    ensures
        final(out)@ == old(out)@ + decimal(n as int),
{
    if n < 0 {
        out.append("-");
        proof {
            reveal_strlit("-");
        }
        let magnitude: u32 = (-(n as i64)) as u32;
        append_digits(out, magnitude);
        assert(out@ =~= old(out)@ + decimal(n as int));
    } else {
        append_digits(out, n as u32);
    }
}

/// The value of a decimal digit character.
pub open spec fn digit_value(c: char) -> int {
    (c as int) - ('0' as int)
}

/// Whether `c` is one of the characters '0' to '9'.
pub open spec fn is_digit(c: char) -> bool {
    '0' <= c <= '9'
}

/// The number that a string of decimal digits stands for, read from the
/// left.
pub open spec fn digits_value(s: Seq<char>) -> int
    decreases s.len(),
{
    if s.len() == 0 {
        0
    } else {
        digits_value(s.drop_last()) * 10 + digit_value(s.last())
    }
}

/// The character of a digit reads back as that digit.
proof fn lemma_digit_char_value(d: nat)
    requires
        d < 10,
    ensures
        digit_value(digit_char(d)) == d,
        is_digit(digit_char(d)),
        d != 0 ==> digit_char(d) != '0',
{
    assert('0' as int == 48);
    assert('9' as int == 57);
}

/// The digits of `n` are decimal digits, without a leading zero, and read
/// back as `n`.
proof fn lemma_digits_read_back(n: nat)
    ensures
        decimal_digits(n).len() > 0,
        forall|i: int| 0 <= i < decimal_digits(n).len() ==> is_digit(#[trigger] decimal_digits(n)[i]),
        digits_value(decimal_digits(n)) == n,
        n != 0 ==> decimal_digits(n)[0] != '0',
    decreases n,
{
    lemma_digit_char_value(n % 10);
    if n < 10 {
        assert(n % 10 == n);
        assert(seq![digit_char(n)].drop_last() =~= Seq::<char>::empty());
        assert(digits_value(Seq::<char>::empty()) == 0);
        assert(digits_value(decimal_digits(n)) == digit_value(digit_char(n)));
    }
    if n >= 10 {
        lemma_digits_read_back(n / 10);
        let d = decimal_digits(n / 10);
        let c = digit_char(n % 10);
        assert(decimal_digits(n) == d + seq![c]);
        assert((d + seq![c]).drop_last() =~= d);
        assert(forall|i: int| 0 <= i < d.len() ==> (d + seq![c])[i] == d[i]);
        assert((d + seq![c])[d.len() as int] == c);
        assert((n / 10) * 10 + n % 10 == n);
        assert(digits_value(decimal_digits(n)) == digits_value(d) * 10 + digit_value(c));
    }
}

/// The decimal form of any `n` is a minus sign for a negative number
/// followed by decimal digits without a leading zero, and it reads back as
/// `n`: two different numbers never get the same form.
pub proof fn law_decimal_reads_back(n: int, m: int)
    ensures
        n >= 0 ==> digits_value(decimal(n)) == n,
        n >= 0 ==> forall|i: int| 0 <= i < decimal(n).len() ==> is_digit(#[trigger] decimal(n)[i]),
        n < 0 ==> decimal(n)[0] == '-' && digits_value(decimal(n).drop_first()) == -n,
        n < 0 ==> forall|i: int|
            1 <= i < decimal(n).len() ==> is_digit(#[trigger] decimal(n)[i]),
        n != 0 ==> decimal(n)[if n < 0 { 1int } else { 0int }] != '0',
        decimal(n) == decimal(m) ==> n == m,
{
    if n >= 0 {
        lemma_digits_read_back(n as nat);
    } else {
        let d = decimal_digits((-n) as nat);
        lemma_digits_read_back((-n) as nat);
        assert(decimal(n).drop_first() =~= d);
        assert(forall|i: int| 1 <= i < decimal(n).len() ==> decimal(n)[i] == d[i - 1]);
    }
    if m >= 0 {
        lemma_digits_read_back(m as nat);
    } else {
        let d = decimal_digits((-m) as nat);
        lemma_digits_read_back((-m) as nat);
        assert(decimal(m).drop_first() =~= d);
    }
    if decimal(n) == decimal(m) {
        if n < 0 && m >= 0 {
            assert(is_digit(decimal(m)[0]));
        }
        if m < 0 && n >= 0 {
            assert(is_digit(decimal(n)[0]));
        }
    }
}

/// Where `trim_start` stops: it drops a run of white space and nothing
/// else, and what it keeps starts with a character that is not white space.
proof fn lemma_trim_start_shape(s: Seq<char>) -> (lo: int)
    ensures
        0 <= lo <= s.len(),
        trim_start(s) == s.subrange(lo, s.len() as int),
        all_white_space(s.subrange(0, lo)),
        trim_start(s).len() > 0 ==> !is_white_space(trim_start(s)[0]),
    decreases s.len(),
{
    if s.len() > 0 && is_white_space(s[0]) {
        let t = s.drop_first();
        let k = lemma_trim_start_shape(t);
        assert(t.subrange(k, t.len() as int) =~= s.subrange(k + 1, s.len() as int));
        assert forall|i: int| 0 <= i < k + 1 implies is_white_space(#[trigger] s.subrange(0, k + 1)[i]) by {
            if i > 0 {
                assert(s.subrange(0, k + 1)[i] == t.subrange(0, k)[i - 1]);
            }
        }
        k + 1
    } else {
        assert(s.subrange(0, s.len() as int) =~= s);
        0
    }
}

/// Where `trim_end` stops: it drops a run of white space and nothing else,
/// and what it keeps ends with a character that is not white space.
proof fn lemma_trim_end_shape(s: Seq<char>) -> (hi: int)
    ensures
        0 <= hi <= s.len(),
        trim_end(s) == s.subrange(0, hi),
        all_white_space(s.subrange(hi, s.len() as int)),
        trim_end(s).len() > 0 ==> !is_white_space(trim_end(s).last()),
    decreases s.len(),
{
    if s.len() > 0 && is_white_space(s.last()) {
        let t = s.drop_last();
        let k = lemma_trim_end_shape(t);
        assert(t.subrange(0, k) =~= s.subrange(0, k));
        assert forall|i: int| 0 <= i < s.len() - k implies is_white_space(#[trigger] s.subrange(k, s.len() as int)[i]) by {
            if i < t.len() - k {
                assert(s.subrange(k, s.len() as int)[i] == t.subrange(k, t.len() as int)[i]);
            } else {
                assert(s.subrange(k, s.len() as int)[i] == s.last());
            }
        }
        k
    } else {
        assert(s.subrange(0, s.len() as int) =~= s);
        s.len() as int
    }
}

/// Trimming drops white space at both ends and nothing else: what it keeps
/// is one piece of the text, everything before and after that piece is
/// white space, and the piece neither starts nor ends with white space.
pub proof fn law_trim_drops_only_outer_white_space(s: Seq<char>)
    ensures
        exists|lo: int, hi: int|
            0 <= lo <= hi <= s.len() && trim(s) == s.subrange(lo, hi) && all_white_space(
                #[trigger] s.subrange(0, lo),
            ) && all_white_space(#[trigger] s.subrange(hi, s.len() as int)),
        trim(s).len() > 0 ==> !is_white_space(trim(s)[0]) && !is_white_space(trim(s).last()),
{
    let lo = lemma_trim_start_shape(s);
    let t = trim_start(s);
    let h = lemma_trim_end_shape(t);
    let hi = lo + h;
    assert(trim(s) =~= s.subrange(lo, hi));
    assert(s.subrange(hi, s.len() as int) =~= t.subrange(h, t.len() as int));
    if trim(s).len() > 0 {
        assert(trim(s)[0] == t[0]);
    }
    assert(0 <= lo <= hi <= s.len() && trim(s) == s.subrange(lo, hi) && all_white_space(
        s.subrange(0, lo),
    ) && all_white_space(s.subrange(hi, s.len() as int)));
}

} // verus!
