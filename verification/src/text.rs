//! Character-level helpers shared by the validators: Unicode white space,
//! trimming, prefix and substring tests over `char` sequences.

use vstd::prelude::*;

verus! {

broadcast use vstd::string::group_string_axioms;

/// The Unicode `White_Space` property, which `char::is_whitespace` and
/// `str::trim` are documented to use.
pub open spec fn is_space(c: char) -> bool {
    let u = c as u32;
    ||| 0x09 <= u <= 0x0D
    ||| u == 0x20
    ||| u == 0x85
    ||| u == 0xA0
    ||| u == 0x1680
    ||| 0x2000 <= u <= 0x200A
    ||| u == 0x2028
    ||| u == 0x2029
    ||| u == 0x202F
    ||| u == 0x205F
    ||| u == 0x3000
}

/// Drops the leading white space of `s`.
pub open spec fn trim_start(s: Seq<char>) -> Seq<char>
    decreases s.len(),
{
    if s.len() > 0 && is_space(s[0]) {
        trim_start(s.drop_first())
    } else {
        s
    }
}

/// Drops the trailing white space of `s`.
pub open spec fn trim_end(s: Seq<char>) -> Seq<char>
    decreases s.len(),
{
    if s.len() > 0 && is_space(s.last()) {
        trim_end(s.drop_last())
    } else {
        s
    }
}

/// `s` without leading and trailing white space, as `str::trim` gives it.
pub open spec fn trim(s: Seq<char>) -> Seq<char> {
    trim_end(trim_start(s))
}

/// Whether `c` is one of the Unicode white space characters.
pub fn is_space_char(c: char) -> (r: bool)
    ensures
        r == is_space(c),
{
    let u = c as u32;
    (0x09 <= u && u <= 0x0D) || u == 0x20 || u == 0x85 || u == 0xA0 || u == 0x1680 || (0x2000
        <= u && u <= 0x200A) || u == 0x2028 || u == 0x2029 || u == 0x202F || u == 0x205F || u
        == 0x3000
}

/// The characters of `s`, in order.
pub fn char_vec(s: &str) -> (v: Vec<char>)
    ensures
        v@ == s@,
{
    let mut v: Vec<char> = Vec::new();
    for c in it: s.chars()
        invariant
            v@ == it.seq().take(it.index() as int),
            it.seq() == s@,
    {
        v.push(c);
    }
    v
}


/// `s` with its leading and trailing white space removed, as `str::trim` does.
pub fn trimmed(s: &str) -> (r: String)
    ensures
        r@ == trim(s@),
{
    let chars = char_vec(s);
    let n = chars.len();
    let mut start: usize = 0;
    assert(s@.skip(0) =~= s@);
    while start < n && is_space_char(chars[start])
        invariant
            start <= n,
            n == s@.len(),
            chars@ == s@,
            trim_start(s@) == trim_start(s@.skip(start as int)),
        decreases n - start,
    {
        assert(s@.skip(start as int).drop_first() =~= s@.skip(start + 1));
        start = start + 1;
    }
    assert(trim_start(s@) =~= s@.subrange(start as int, n as int));
    let mut end: usize = n;
    while end > start && is_space_char(chars[end - 1])
        invariant
            start <= end <= n,
            n == s@.len(),
            chars@ == s@,
            trim(s@) == trim_end(s@.subrange(start as int, end as int)),
        decreases end - start,
    {
        assert(s@.subrange(start as int, end as int).drop_last() =~= s@.subrange(
            start as int,
            end - 1,
        ));
        end = end - 1;
    }
    let piece = s.substring_char(start, end);
    String::from_str(piece)
}


/// `trim_start` drops a run of leading white space and nothing else.
proof fn lemma_trim_start_shape(s: Seq<char>)
    ensures
        trim_start(s).len() <= s.len(),
        trim_start(s) == s.skip(s.len() - trim_start(s).len()),
        forall|j: int| 0 <= j < s.len() - trim_start(s).len() ==> is_space(#[trigger] s[j]),
        trim_start(s).len() > 0 ==> !is_space(trim_start(s)[0]),
    decreases s.len(),
{
    if s.len() > 0 && is_space(s[0]) {
        let d = s.drop_first();
        lemma_trim_start_shape(d);
        let t = trim_start(s);
        assert(d.skip(d.len() - t.len()) =~= s.skip(s.len() - t.len()));
        assert forall|j: int| 0 <= j < s.len() - t.len() implies is_space(#[trigger] s[j]) by {
            if j > 0 {
                assert(s[j] == d[j - 1]);
            }
        }
    } else {
        assert(s.skip(0) =~= s);
    }
}

/// `trim_end` drops a run of trailing white space and nothing else.
proof fn lemma_trim_end_shape(s: Seq<char>)
    ensures
        trim_end(s).len() <= s.len(),
        trim_end(s) == s.take(trim_end(s).len() as int),
        forall|j: int| trim_end(s).len() <= j < s.len() ==> is_space(#[trigger] s[j]),
        trim_end(s).len() > 0 ==> !is_space(trim_end(s).last()),
    decreases s.len(),
{
    if s.len() > 0 && is_space(s.last()) {
        let d = s.drop_last();
        lemma_trim_end_shape(d);
        let t = trim_end(s);
        assert(d.take(t.len() as int) =~= s.take(t.len() as int));
        assert forall|j: int| t.len() <= j < s.len() implies is_space(#[trigger] s[j]) by {
            if j < s.len() - 1 {
                assert(s[j] == d[j]);
            }
        }
    } else {
        assert(s.take(s.len() as int) =~= s);
    }
}

/// Trimming removes white space at both ends and nothing else: the input
/// is a run of white space, the trimmed text, and a run of white space, in
/// that order, and the trimmed text neither begins nor ends with white
/// space.
pub proof fn law_trim_drops_only_outer_space(s: Seq<char>)
    ensures
        trim(s).len() <= s.len(),
        exists|a: int|
            #![trigger s.subrange(a, a + trim(s).len())]
            {
                &&& 0 <= a && a + trim(s).len() <= s.len()
                &&& s.subrange(a, a + trim(s).len()) == trim(s)
                &&& forall|j: int| 0 <= j < a ==> is_space(#[trigger] s[j])
                &&& forall|j: int| a + trim(s).len() <= j < s.len() ==> is_space(#[trigger] s[j])
            },
        trim(s).len() > 0 ==> !is_space(trim(s)[0]) && !is_space(trim(s).last()),
{
    let u = trim_start(s);
    let t = trim(s);
    lemma_trim_start_shape(s);
    lemma_trim_end_shape(u);
    let a = s.len() - u.len();
    assert(s.subrange(a, a + t.len()) =~= t) by {
        assert forall|k: int| 0 <= k < t.len() implies s.subrange(a, a + t.len())[k] == t[k] by {
            assert(t[k] == u[k]);
            assert(u[k] == s[a + k]);
        }
    }
    assert forall|j: int| a + t.len() <= j < s.len() implies is_space(#[trigger] s[j]) by {
        assert(s[j] == u[j - a]);
    }
    if t.len() > 0 {
        assert(t[0] == u[0]);
    }
}

/// Trimming a trimmed text changes nothing, and a text with no white space
/// at either end is its own trim.
pub proof fn law_trim_is_idempotent(s: Seq<char>)
    ensures
        trim(trim(s)) == trim(s),
        s.len() == 0 || (!is_space(s[0]) && !is_space(s.last())) ==> trim(s) == s,
{
    law_trim_drops_only_outer_space(s);
    lemma_no_outer_space_is_trimmed(trim(s));
    lemma_no_outer_space_is_trimmed(s);
}

/// A text with no white space at either end is its own trim.
proof fn lemma_no_outer_space_is_trimmed(s: Seq<char>)
    ensures
        s.len() == 0 || (!is_space(s[0]) && !is_space(s.last())) ==> trim(s) == s,
{
    if s.len() > 0 && !is_space(s[0]) && !is_space(s.last()) {
        assert(trim_start(s) == s);
        assert(trim_end(s) == s);
    }
}

/// Whether `s` begins with `prefix`.
pub open spec fn begins_with(s: Seq<char>, prefix: Seq<char>) -> bool {
    prefix.len() <= s.len() && s.take(prefix.len() as int) == prefix
}

/// Whether `s` ends with `suffix`.
pub open spec fn finishes_with(s: Seq<char>, suffix: Seq<char>) -> bool {
    suffix.len() <= s.len() && s.skip(s.len() - suffix.len()) == suffix
}

/// Whether the characters of `a` from `at` on begin with all of `b`.
fn matches_at(a: &Vec<char>, at: usize, b: &Vec<char>) -> (r: bool)
    requires
        at + b@.len() <= a@.len(),
    ensures
        r == (a@.subrange(at as int, at + b@.len()) == b@),
{
    let n = b.len();
    let alen = a.len();
    let mut k: usize = 0;
    while k < n
        invariant
            k <= n,
            n == b@.len(),
            at + n <= a@.len(),
            alen == a@.len(),
            forall|j: int| 0 <= j < k ==> a@[at + j] == b@[j],
        decreases n - k,
    {
        if a[at + k] != b[k] {
            assert(a@.subrange(at as int, at + b@.len())[k as int] != b@[k as int]);
            return false;
        }
        k = k + 1;
    }
    assert(a@.subrange(at as int, at + b@.len()) =~= b@);
    true
}

/// Whether `s` and `t` hold the same characters.
pub fn same_text(s: &str, t: &str) -> (r: bool)
    ensures
        r == (s@ == t@),
{
    let a = char_vec(s);
    let b = char_vec(t);
    if a.len() != b.len() {
        return false;
    }
    let r = matches_at(&a, 0, &b);
    assert(a@.subrange(0, b@.len() as int) =~= a@);
    r
}

/// Whether `s` begins with `prefix`.
pub fn starts_with_text(s: &str, prefix: &str) -> (r: bool)
    ensures
        r == begins_with(s@, prefix@),
{
    let a = char_vec(s);
    let b = char_vec(prefix);
    if b.len() > a.len() {
        return false;
    }
    let r = matches_at(&a, 0, &b);
    assert(a@.subrange(0, b@.len() as int) =~= a@.take(b@.len() as int));
    r
}

/// Whether `s` ends with `suffix`.
pub fn ends_with_text(s: &str, suffix: &str) -> (r: bool)
    ensures
        r == finishes_with(s@, suffix@),
{
    let a = char_vec(s);
    let b = char_vec(suffix);
    if b.len() > a.len() {
        return false;
    }
    let at = a.len() - b.len();
    let r = matches_at(&a, at, &b);
    assert(a@.subrange(at as int, at + b@.len()) =~= a@.skip(a@.len() - b@.len()));
    r
}

/// What follows the last `sep` in `s`; all of `s` when `sep` does not occur
/// (the first piece that `str::rsplit` yields).
pub open spec fn after_last(s: Seq<char>, sep: char) -> Seq<char>
    decreases s.len(),
{
    if s.len() == 0 {
        s
    } else if s.last() == sep {
        Seq::empty()
    } else {
        after_last(s.drop_last(), sep).push(s.last())
    }
}

/// What follows the last `sep` is the final piece of `s`: it holds no
/// `sep`, `s` ends with it, and what precedes it, if anything, ends with
/// `sep`.
pub proof fn law_after_last_is_final_piece(s: Seq<char>, sep: char)
    ensures
        !after_last(s, sep).contains(sep),
        finishes_with(s, after_last(s, sep)),
        after_last(s, sep).len() < s.len() ==> s[s.len() - after_last(s, sep).len() - 1] == sep,
    decreases s.len(),
{
    let a = after_last(s, sep);
    if s.len() == 0 {
        assert(s.skip(0) =~= s);
    } else if s.last() == sep {
        assert(s.skip(s.len() as int) =~= Seq::<char>::empty());
    } else {
        let d = s.drop_last();
        law_after_last_is_final_piece(d, sep);
        let b = after_last(d, sep);
        assert(a == b.push(s.last()));
        assert(s.skip(s.len() - a.len()) =~= d.skip(d.len() - b.len()).push(s.last()));
        assert forall|i: int| 0 <= i < a.len() implies a[i] != sep by {
            if i < b.len() {
                assert(a[i] == b[i]);
            }
        }
        if a.len() < s.len() {
            assert(s[s.len() - a.len() - 1] == d[d.len() - b.len() - 1]);
        }
    }
}

/// What follows the last `sep` in `s`, or all of `s` when it holds none.
pub fn text_after_last(s: &str, sep: char) -> (r: String)
    ensures
        r@ == after_last(s@, sep),
{
    let chars = char_vec(s);
    let n = chars.len();
    let mut j: usize = n;
    assert(s@.take(n as int) =~= s@);
    assert(s@.subrange(n as int, n as int) =~= Seq::<char>::empty());
    while j > 0 && chars[j - 1] != sep
        invariant
            j <= n,
            n == s@.len(),
            chars@ == s@,
            after_last(s@, sep) == after_last(s@.take(j as int), sep) + s@.subrange(
                j as int,
                n as int,
            ),
        decreases j,
    {
        assert(s@.take(j as int).drop_last() =~= s@.take(j - 1));
        assert(s@.subrange(j - 1, n as int) =~= seq![s@[j - 1]] + s@.subrange(j as int, n as int));
        assert(after_last(s@.take(j - 1), sep).push(s@[j - 1]) + s@.subrange(j as int, n as int)
            =~= after_last(s@.take(j - 1), sep) + s@.subrange(j - 1, n as int));
        j = j - 1;
    }
    assert(after_last(s@, sep) =~= s@.subrange(j as int, n as int));
    String::from_str(s.substring_char(j, n))
}

/// `s` without `prefix`, when `s` begins with it.
pub fn strip_prefix_text(s: &str, prefix: &str) -> (r: Option<String>)
    ensures
        r is Some <==> begins_with(s@, prefix@),
        r matches Some(rest) ==> rest@ == s@.skip(prefix@.len() as int),
{
    if starts_with_text(s, prefix) {
        let n = s.unicode_len();
        let k = prefix.unicode_len();
        Some(String::from_str(s.substring_char(k, n)))
    } else {
        None
    }
}

/// The decimal digit `d` as a character.
pub open spec fn digit(d: nat) -> char {
    ((48 + d) as u32) as char
}

/// The decimal notation of `n`, without leading zeros.
pub open spec fn decimal(n: nat) -> Seq<char>
    decreases n,
{
    if n < 10 {
        seq![digit(n)]
    } else {
        decimal(n / 10).push(digit(n % 10))
    }
}

/// The decimal notation of `n`, with a `-` in front when it is negative.
pub open spec fn signed_decimal(n: int) -> Seq<char> {
    if n < 0 {
        seq!['-'] + decimal((-n) as nat)
    } else {
        decimal(n as nat)
    }
}

/// The number that the decimal digits `s` denote, read left to right.
pub open spec fn digits_value(s: Seq<char>) -> int
    decreases s.len(),
{
    if s.len() == 0 {
        0
    } else {
        digits_value(s.drop_last()) * 10 + (s.last() as int - 48)
    }
}

/// The decimal notation of `n` is made of the digits `0`–`9`, reads back
/// as `n`, and has no leading zero (only 0 itself begins with `0`).
pub proof fn law_decimal_reads_back(n: nat)
    ensures
        decimal(n).len() > 0,
        forall|i: int| 0 <= i < decimal(n).len() ==> '0' <= #[trigger] decimal(n)[i] <= '9',
        digits_value(decimal(n)) == n,
        decimal(n)[0] == '0' ==> n == 0,
    decreases n,
{
    if n < 10 {
        assert(digit(n) as int == 48 + n);
        assert(decimal(n).drop_last() =~= Seq::<char>::empty());
        assert(decimal(n).last() == digit(n));
        assert(digits_value(decimal(n)) == digits_value(decimal(n).drop_last()) * 10 + (
        decimal(n).last() as int - 48));
    } else {
        law_decimal_reads_back(n / 10);
        let d = decimal(n / 10);
        let q = (n / 10) as int;
        let r = (n % 10) as int;
        assert(q * 10 + r == n) by (nonlinear_arith)
            requires
                q == (n / 10) as int,
                r == (n % 10) as int,
        ;
        assert(decimal(n).drop_last() =~= d);
        assert(digit(r as nat) as int == 48 + r);
        assert(decimal(n).last() == digit(r as nat));
        assert(digits_value(decimal(n)) == digits_value(d) * 10 + (decimal(n).last() as int - 48));
        assert(decimal(n)[0] == d[0]);
        assert(q > 0);
        assert forall|i: int| 0 <= i < decimal(n).len() implies '0' <= #[trigger] decimal(n)[i]
            <= '9' by {
            if i < d.len() {
                assert(decimal(n)[i] == d[i]);
            }
        }
    }
}

/// The decimal notation of a signed number is that of its magnitude, with
/// `-` in front exactly when it is negative.
pub proof fn law_signed_decimal_sign(n: int)
    ensures
        signed_decimal(n)[0] == '-' <==> n < 0,
        n < 0 ==> signed_decimal(n).drop_first() == decimal((-n) as nat),
{
    if n < 0 {
        law_decimal_reads_back((-n) as nat);
        assert((seq!['-'] + decimal((-n) as nat)).drop_first() =~= decimal((-n) as nat));
    } else {
        law_decimal_reads_back(n as nat);
    }
}

fn digit_text(d: u64) -> (r: &'static str)
    requires
        d < 10,
    ensures
        r@ == seq![digit(d as nat)],
{
    if d == 0 {
        proof { reveal_strlit("0"); }
        "0"
    } else if d == 1 {
        proof { reveal_strlit("1"); }
        "1"
    } else if d == 2 {
        proof { reveal_strlit("2"); }
        "2"
    } else if d == 3 {
        proof { reveal_strlit("3"); }
        "3"
    } else if d == 4 {
        proof { reveal_strlit("4"); }
        "4"
    } else if d == 5 {
        proof { reveal_strlit("5"); }
        "5"
    } else if d == 6 {
        proof { reveal_strlit("6"); }
        "6"
    } else if d == 7 {
        proof { reveal_strlit("7"); }
        "7"
    } else if d == 8 {
        proof { reveal_strlit("8"); }
        "8"
    } else {
        proof { reveal_strlit("9"); }
        "9"
    }
}

/// The decimal notation of `n`.
pub fn decimal_text(n: u64) -> (r: String)
    ensures
        r@ == decimal(n as nat),
    decreases n,
{
    if n < 10 {
        String::from_str(digit_text(n))
    } else {
        let mut r = decimal_text(n / 10);
        r.append(digit_text(n % 10));
        r
    }
}

/// The decimal notation of `n`, signed as `i64`'s `Display` writes it.
pub fn signed_decimal_text(n: i64) -> (r: String)
    ensures
        r@ == signed_decimal(n as int),
{
    if n < 0 {
        let magnitude: u64 = (0i128 - n as i128) as u64;
        let digits = decimal_text(magnitude);
        let mut r = String::from_str("-");
        proof { reveal_strlit("-"); }
        r.append(digits.as_str());
        r
    } else {
        decimal_text(n as u64)
    }
}


/// The number of bytes in the UTF-8 encoding of `c`.
fn utf8_width(c: char) -> (w: u128)
    ensures
        w == vstd::utf8::encode_scalar(c as u32).len(),
{
    proof {
        vstd::utf8::char_is_scalar(c);
    }
    let u = c as u32;
    if u <= 0x7F {
        1
    } else if u <= 0x7FF {
        2
    } else if u <= 0xFFFF {
        3
    } else {
        4
    }
}

/// The number of bytes in the UTF-8 encoding of `s` (what `str::len`
/// gives).
pub fn utf8_len(s: &str) -> (n: u128)
    ensures
        n == vstd::utf8::encode_utf8(s@).len(),
{
    let chars = char_vec(s);
    let len = chars.len();
    let mut i: usize = len;
    let mut n: u128 = 0;
    assert(s@.skip(len as int) =~= Seq::<char>::empty());
    while i > 0
        invariant
            i <= len,
            len == s@.len(),
            chars@ == s@,
            n == vstd::utf8::encode_utf8(s@.skip(i as int)).len(),
            n <= 4 * (len - i),
        decreases i,
    {
        let w = utf8_width(chars[i - 1]);
        assert(s@.skip(i - 1).drop_first() =~= s@.skip(i as int));
        n = n + w;
        i = i - 1;
    }
    assert(s@.skip(0) =~= s@);
    n
}

} // verus!
