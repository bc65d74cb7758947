//! Character-level text handling: lines, whitespace-separated tokens,
//! literal comparisons and decimal integers.
use vstd::prelude::*;

verus! {

/// Rust's `char::is_whitespace`: the Unicode `White_Space` property.
pub open spec fn is_ws(c: char) -> bool {
    c == ' ' || ('\t' <= c && c <= '\r') || c == '\u{85}' || c == '\u{A0}' || c == '\u{1680}'
        || ('\u{2000}' <= c && c <= '\u{200A}') || c == '\u{2028}' || c == '\u{2029}'
        || c == '\u{202F}' || c == '\u{205F}' || c == '\u{3000}'
}

pub fn char_is_ws(c: char) -> (r: bool)
    ensures
        r == is_ws(c),
{
    c == ' ' || ('\t' <= c && c <= '\r') || c == '\u{85}' || c == '\u{A0}' || c == '\u{1680}'
        || ('\u{2000}' <= c && c <= '\u{200A}') || c == '\u{2028}' || c == '\u{2029}'
        || c == '\u{202F}' || c == '\u{205F}' || c == '\u{3000}'
}

/// The characters of `s`, in order.
pub fn to_chars(s: &str) -> (r: Vec<char>)
    ensures
        r@ == s@,
{
    let mut r: Vec<char> = Vec::new();
    for c in it: s.chars()
        invariant
            it.seq() == s@,
            r@ == s@.take(it.index() as int),
    {
        r.push(c);
    }
    assert(s@.take(s@.len() as int) == s@);
    r
}

/// Whether `v` holds exactly the characters of `lit`.
pub fn eq_lit(v: &[char], lit: &str) -> (r: bool)
    ensures
        r == (v@ == lit@),
{
    let n = lit.unicode_len();
    if v.len() != n {
        return false;
    }
    let mut i: usize = 0;
    while i < n
        invariant
            n == lit@.len(),
            v@.len() == n,
            i <= n,
            v@.subrange(0, i as int) == lit@.subrange(0, i as int),
        decreases n - i,
    {
        if v[i] != lit.get_char(i) {
            assert(v@[i as int] != lit@[i as int]);
            return false;
        }
        assert(v@.subrange(0, i + 1) == v@.subrange(0, i as int).push(v@[i as int]));
        assert(lit@.subrange(0, i + 1) == lit@.subrange(0, i as int).push(lit@[i as int]));
        i = i + 1;
    }
    assert(v@ == v@.subrange(0, n as int));
    assert(lit@ == lit@.subrange(0, n as int));
    true
}


/// The pieces of `s` between newline characters, as `str::split('\n')` gives them.
pub open spec fn split_nl(s: Seq<char>) -> Seq<Seq<char>>
    decreases s.len(),
{
    if s.len() == 0 {
        seq![Seq::<char>::empty()]
    } else {
        let prev = split_nl(s.drop_last());
        if s.last() == '\n' {
            prev.push(Seq::<char>::empty())
        } else {
            prev.update(prev.len() - 1, prev.last().push(s.last()))
        }
    }
}

/// The lines of `s` as `str::lines` yields them, carriage returns kept:
/// the newline-separated pieces without a final empty one.
pub open spec fn lines(s: Seq<char>) -> Seq<Seq<char>> {
    let p = split_nl(s);
    if p.last().len() == 0 {
        p.drop_last()
    } else {
        p
    }
}

/// The maximal runs of non-whitespace characters of `s`, as `str::split_whitespace` gives them.
pub open spec fn words(s: Seq<char>) -> Seq<Seq<char>>
    decreases s.len(),
{
    if s.len() == 0 {
        Seq::empty()
    } else {
        let prev = words(s.drop_last());
        let c = s.last();
        if is_ws(c) {
            prev
        } else if s.len() >= 2 && !is_ws(s[s.len() - 2]) {
            prev.update(prev.len() - 1, prev.last().push(c))
        } else {
            prev.push(seq![c])
        }
    }
}

/// Whether each element of `v` holds the characters of the same element of `s`.
pub open spec fn holds_all(v: Seq<Vec<char>>, s: Seq<Seq<char>>) -> bool {
    v.len() == s.len() && forall|k: int| 0 <= k < v.len() ==> #[trigger] v[k]@ == s[k]
}

proof fn lemma_split_nl_nonempty(s: Seq<char>)
    ensures
        split_nl(s).len() >= 1,
    decreases s.len(),
{
    if s.len() > 0 {
        lemma_split_nl_nonempty(s.drop_last());
    }
}

/// The lines of `s`.
pub fn split_lines(s: &[char]) -> (r: Vec<Vec<char>>)
    ensures
        holds_all(r@, lines(s@)),
{
    let mut done: Vec<Vec<char>> = Vec::new();
    let mut cur: Vec<char> = Vec::new();
    let mut i: usize = 0;
    while i < s.len()
        invariant
            i <= s@.len(),
            holds_all(done@.push(cur), split_nl(s@.subrange(0, i as int))),
        decreases s.len() - i,
    {
        let c = s[i];
        let ghost old_done = done@;
        let ghost old_cur = cur@;
        let ghost prev = split_nl(s@.subrange(0, i as int));
        proof {
            let t = s@.subrange(0, i + 1);
            assert(t.drop_last() == s@.subrange(0, i as int));
            assert(t.last() == c);
            lemma_split_nl_nonempty(s@.subrange(0, i as int));
            assert(old_done.push(cur)[prev.len() - 1] == cur);
            assert(prev.last() == old_cur);
            assert forall|k: int| 0 <= k < prev.len() - 1 implies #[trigger] old_done[k]@
                == prev[k] by {
                assert(old_done.push(cur)[k] == old_done[k]);
            }
        }
        if c == '\n' {
            let full = cur;
            done.push(full);
            cur = Vec::new();
        } else {
            cur.push(c);
        }
        i = i + 1;
        proof {
            let p = split_nl(s@.subrange(0, i as int));
            assert forall|k: int| 0 <= k < p.len() implies #[trigger] done@.push(cur)[k]@ == p[k] by {
                if k < prev.len() - 1 {
                    assert(done@.push(cur)[k] == old_done[k]);
                }
            }
        }
    }
    assert(s@.subrange(0, s@.len() as int) == s@);
    let ghost all = split_nl(s@);
    proof {
        lemma_split_nl_nonempty(s@);
        assert(done@.push(cur)[all.len() - 1] == cur);
        assert forall|k: int| 0 <= k < all.len() - 1 implies #[trigger] done@[k]@ == all[k] by {
            assert(done@.push(cur)[k] == done@[k]);
        }
    }
    if cur.len() > 0 {
        done.push(cur);
    }
    done
}

/// The whitespace-separated words of `s`.
pub fn split_ws(s: &[char]) -> (r: Vec<Vec<char>>)
    ensures
        holds_all(r@, words(s@)),
{
    let mut done: Vec<Vec<char>> = Vec::new();
    let mut cur: Vec<char> = Vec::new();
    let mut i: usize = 0;
    while i < s.len()
        invariant
            i <= s@.len(),
            cur@.len() > 0 <==> (i > 0 && !is_ws(s@[i - 1])),
            cur@.len() == 0 ==> holds_all(done@, words(s@.subrange(0, i as int))),
            cur@.len() > 0 ==> holds_all(done@.push(cur), words(s@.subrange(0, i as int))),
        decreases s.len() - i,
    {
        let c = s[i];
        let ghost old_done = done@;
        let ghost old_cur = cur@;
        let ghost prev = words(s@.subrange(0, i as int));
        proof {
            let t = s@.subrange(0, i + 1);
            assert(t.drop_last() == s@.subrange(0, i as int));
            assert(t.last() == c);
            if i > 0 {
                assert(t[t.len() - 2] == s@[i - 1]);
            }
            if old_cur.len() > 0 {
                assert(old_done.push(cur)[prev.len() - 1] == cur);
                assert forall|k: int| 0 <= k < prev.len() - 1 implies #[trigger] old_done[k]@
                    == prev[k] by {
                    assert(old_done.push(cur)[k] == old_done[k]);
                }
            }
        }
        if char_is_ws(c) {
            if cur.len() > 0 {
                let full = cur;
                done.push(full);
                cur = Vec::new();
            }
        } else {
            cur.push(c);
        }
        i = i + 1;
        proof {
            let p = words(s@.subrange(0, i as int));
            if cur@.len() > 0 {
                assert forall|k: int| 0 <= k < p.len() implies #[trigger] done@.push(cur)[k]@
                    == p[k] by {
                    if k < p.len() - 1 {
                        assert(done@.push(cur)[k] == done@[k]);
                    }
                }
            } else {
                assert forall|k: int| 0 <= k < p.len() implies #[trigger] done@[k]@ == p[k] by {}
            }
        }
    }
    assert(s@.subrange(0, s@.len() as int) == s@);
    if cur.len() > 0 {
        let ghost before = done@;
        done.push(cur);
        proof {
            assert forall|k: int| 0 <= k < done@.len() implies #[trigger] done@[k]@ == words(
                s@,
            )[k] by {
                assert(before.push(done@[done@.len() - 1])[k] == done@[k]);
            }
        }
    }
    done
}


/// Whether `lit` occurs in `s` starting at index `i`.
pub open spec fn occurs_at(s: Seq<char>, lit: Seq<char>, i: int) -> bool {
    0 <= i && i + lit.len() <= s.len() && s.subrange(i, i + lit.len()) == lit
}

/// Whether `lit` occurs anywhere in `s`.
pub open spec fn occurs_in(s: Seq<char>, lit: Seq<char>) -> bool {
    exists|i: int| occurs_at(s, lit, i)
}

/// Whether `lit` occurs in `v` starting at index `at`.
pub fn lit_at(v: &[char], at: usize, lit: &str) -> (r: bool)
    ensures
        r == occurs_at(v@, lit@, at as int),
{
    let n = lit.unicode_len();
    if at > v.len() || n > v.len() - at {
        return false;
    }
    let mut i: usize = 0;
    while i < n
        invariant
            n == lit@.len(),
            at + n <= v.len(),
            i <= n,
            v@.subrange(at as int, at + i) == lit@.subrange(0, i as int),
        decreases n - i,
    {
        if v[at + i] != lit.get_char(i) {
            assert(v@.subrange(at as int, at + n)[i as int] != lit@[i as int]);
            return false;
        }
        assert(v@.subrange(at as int, at + i + 1) == v@.subrange(at as int, at + i).push(
            v@[at + i],
        ));
        assert(lit@.subrange(0, i + 1) == lit@.subrange(0, i as int).push(lit@[i as int]));
        i = i + 1;
    }
    assert(lit@ == lit@.subrange(0, n as int));
    true
}

/// Whether `v` begins with `lit`.
pub fn starts_with_lit(v: &[char], lit: &str) -> (r: bool)
    ensures
        r == occurs_at(v@, lit@, 0),
{
    lit_at(v, 0, lit)
}

/// Whether `lit` occurs anywhere in `v`.
pub fn contains_lit(v: &[char], lit: &str) -> (r: bool)
    ensures
        r == occurs_in(v@, lit@),
{
    let mut at: usize = 0;
    while at < v.len()
        invariant
            at <= v@.len(),
            forall|j: int| 0 <= j < at ==> !occurs_at(v@, lit@, j),
        decreases v.len() - at,
    {
        if lit_at(v, at, lit) {
            return true;
        }
        at = at + 1;
    }
    if lit_at(v, at, lit) {
        return true;
    }
    assert forall|j: int| !occurs_at(v@, lit@, j) by {
        if 0 <= j && j + lit@.len() <= v@.len() {
            assert(j <= at);
        }
    }
    false
}

pub open spec fn is_digit(c: char) -> bool {
    '0' <= c && c <= '9'
}

pub open spec fn all_digits(s: Seq<char>) -> bool {
    forall|i: int| 0 <= i < s.len() ==> #[trigger] is_digit(s[i])
}

/// The number that the decimal digits `s` spell.
pub open spec fn decimal_value(s: Seq<char>) -> nat
    decreases s.len(),
{
    if s.len() == 0 {
        0
    } else {
        decimal_value(s.drop_last()) * 10 + ((s.last() as int - '0' as int) as nat)
    }
}

/// The digits of an unsigned integer text, without the sign `+` that may lead it.
pub open spec fn unsigned_digits(s: Seq<char>) -> Seq<char> {
    if s.len() > 0 && s[0] == '+' {
        s.drop_first()
    } else {
        s
    }
}

/// What `str::parse::<u64>` gives: an optional `+` then one or more ASCII digits,
/// whose value fits in 64 bits.
pub open spec fn u64_of(s: Seq<char>) -> Option<u64> {
    let d = unsigned_digits(s);
    if d.len() > 0 && all_digits(d) && decimal_value(d) <= u64::MAX {
        Some(decimal_value(d) as u64)
    } else {
        None
    }
}

pub proof fn lemma_decimal_prefix_le(s: Seq<char>, j: int)
    requires
        0 <= j <= s.len(),
        all_digits(s),
    ensures
        decimal_value(s.subrange(0, j)) <= decimal_value(s),
    decreases s.len(),
{
    if j < s.len() {
        assert(s.drop_last().subrange(0, j) == s.subrange(0, j));
        lemma_decimal_prefix_le(s.drop_last(), j);
    } else {
        assert(s.subrange(0, j) == s);
    }
}

/// Parses a decimal unsigned 64-bit integer as `str::parse::<u64>` does.
pub fn parse_u64(s: &[char]) -> (r: Option<u64>)
    ensures
        r == u64_of(s@),
{
    let start: usize = if s.len() > 0 && s[0] == '+' {
        1
    } else {
        0
    };
    let ghost d = unsigned_digits(s@);
    assert(d == s@.subrange(start as int, s@.len() as int));
    if start == s.len() {
        return None;
    }
    let mut i: usize = start;
    while i < s.len()
        invariant
            start <= i <= s@.len(),
            d == unsigned_digits(s@),
            d == s@.subrange(start as int, s@.len() as int),
            forall|k: int| start <= k < i ==> is_digit(s@[k]),
        decreases s.len() - i,
    {
        assert(d[i - start] == s@[i as int]);
        if !('0' <= s[i] && s[i] <= '9') {
            assert(!is_digit(d[i - start]));
            assert(!all_digits(d));
            return None;
        }
        i = i + 1;
    }
    assert(all_digits(d)) by {
        assert forall|k: int| 0 <= k < d.len() implies #[trigger] is_digit(d[k]) by {
            assert(d[k] == s@[start + k]);
        }
    }
    let mut acc: u64 = 0;
    let mut i: usize = start;
    while i < s.len()
        invariant
            start <= i <= s@.len(),
            d == unsigned_digits(s@),
            d == s@.subrange(start as int, s@.len() as int),
            all_digits(d),
            acc == decimal_value(d.subrange(0, i - start)),
        decreases s.len() - i,
    {
        assert(d[i - start] == s@[i as int]);
        assert(is_digit(d[i - start]));
        let digit = (s[i] as u32 - '0' as u32) as u64;
        let ghost pre = d.subrange(0, i + 1 - start);
        assert(pre.drop_last() == d.subrange(0, i - start));
        assert(pre.last() == s@[i as int]);
        assert(digit == (s@[i as int] as int - '0' as int));
        assert(decimal_value(pre) == acc * 10 + digit);
        assert(is_digit(d[i - start]));
        if acc > (u64::MAX - digit) / 10 {
            proof {
                lemma_decimal_prefix_le(d, i + 1 - start);
                let m = u64::MAX as int;
                let a = acc as int;
                let g = digit as int;
                assert(a * 10 + g > m) by (nonlinear_arith)
                    requires
                        a > (m - g) / 10,
                        0 <= g <= 9,
                        m > 9,
                ;
                assert(decimal_value(d) > u64::MAX);
            }
            return None;
        }
        assert(acc * 10 + digit <= u64::MAX) by (nonlinear_arith)
            requires
                acc <= (u64::MAX - digit) / 10,
                digit <= 9,
        ;
        acc = acc * 10 + digit;
        i = i + 1;
    }
    assert(d.subrange(0, d.len() as int) == d);
    Some(acc)
}


/// `s` without its leading whitespace.
pub open spec fn trim_start(s: Seq<char>) -> Seq<char>
    decreases s.len(),
{
    if s.len() > 0 && is_ws(s[0]) {
        trim_start(s.drop_first())
    } else {
        s
    }
}

/// `s` without its trailing whitespace.
pub open spec fn trim_end(s: Seq<char>) -> Seq<char>
    decreases s.len(),
{
    if s.len() > 0 && is_ws(s.last()) {
        trim_end(s.drop_last())
    } else {
        s
    }
}

/// `s` without whitespace at either end, as `str::trim` gives it.
pub open spec fn trim(s: Seq<char>) -> Seq<char> {
    trim_end(trim_start(s))
}

/// The characters of `v` from index `from` up to `to`.
pub fn slice(v: &[char], from: usize, to: usize) -> (r: Vec<char>)
    requires
        from <= to <= v@.len(),
    ensures
        r@ == v@.subrange(from as int, to as int),
{
    let mut r: Vec<char> = Vec::new();
    let mut i: usize = from;
    while i < to
        invariant
            from <= i <= to,
            to <= v@.len(),
            r@ == v@.subrange(from as int, i as int),
        decreases to - i,
    {
        r.push(v[i]);
        i = i + 1;
    }
    r
}

/// `v` without whitespace at either end.
pub fn trim_chars(v: &[char]) -> (r: Vec<char>)
    ensures
        r@ == trim(v@),
{
    let n = v.len();
    let mut a: usize = 0;
    assert(v@.subrange(0, n as int) == v@);
    while a < n && char_is_ws(v[a])
        invariant
            n == v@.len(),
            a <= n,
            trim_start(v@) == trim_start(v@.subrange(a as int, n as int)),
        decreases n - a,
    {
        assert(v@.subrange(a as int, n as int).drop_first() == v@.subrange(a + 1, n as int));
        a = a + 1;
    }
    let ghost u = v@.subrange(a as int, n as int);
    assert(trim_start(v@) == u);
    let mut b: usize = n;
    while b > a && char_is_ws(v[b - 1])
        invariant
            n == v@.len(),
            a <= b <= n,
            u == v@.subrange(a as int, n as int),
            trim_end(u) == trim_end(v@.subrange(a as int, b as int)),
        decreases b - a,
    {
        assert(v@.subrange(a as int, b as int).drop_last() == v@.subrange(a as int, b - 1));
        b = b - 1;
    }
    slice(v, a, b)
}

/// Whether every character of `v` is an ASCII digit.
pub fn only_digits(v: &[char]) -> (r: bool)
    ensures
        r == all_digits(v@),
{
    let mut i: usize = 0;
    while i < v.len()
        invariant
            i <= v@.len(),
            forall|k: int| 0 <= k < i ==> is_digit(v@[k]),
        decreases v.len() - i,
    {
        if !('0' <= v[i] && v[i] <= '9') {
            assert(!is_digit(v@[i as int]));
            return false;
        }
        i = i + 1;
    }
    true
}


/// Whether `c` has the Unicode `Alphabetic` property.
pub uninterp spec fn alphabetic(c: char) -> bool;

/// Relies on `char::is_alphabetic`: whether `c` has the Unicode `Alphabetic` property.
#[verifier::external_body]
pub(crate) fn char_is_alphabetic(c: char) -> (r: bool)
    ensures
        r == alphabetic(c),
{
    c.is_alphabetic()
}

/// Relies on `String`'s `FromIterator<&char>`: the string of the characters of `v`, in order.
#[verifier::external_body]
pub(crate) fn string_of(v: &[char]) -> (r: String)
    ensures
        r@ == v@,
{
    v.iter().collect()
}


/// A text that ends with a character that is not whitespace has a word.
pub proof fn lemma_words_nonempty(s: Seq<char>)
    requires
        s.len() > 0,
        !is_ws(s.last()),
    ensures
        words(s).len() > 0,
    decreases s.len(),
{
    if s.len() >= 2 && !is_ws(s[s.len() - 2]) {
        lemma_words_nonempty(s.drop_last());
    }
}


/// Whether `lit` occurs in `v` starting at index `at`.
pub fn chars_at(v: &[char], at: usize, lit: &[char]) -> (r: bool)
    ensures
        r == occurs_at(v@, lit@, at as int),
{
    let n = lit.len();
    if at > v.len() || n > v.len() - at {
        return false;
    }
    let mut i: usize = 0;
    while i < n
        invariant
            n == lit@.len(),
            at + n <= v.len(),
            i <= n,
            v@.subrange(at as int, at + i) == lit@.subrange(0, i as int),
        decreases n - i,
    {
        if v[at + i] != lit[i] {
            assert(v@.subrange(at as int, at + n)[i as int] != lit@[i as int]);
            return false;
        }
        assert(v@.subrange(at as int, at + i + 1) == v@.subrange(at as int, at + i).push(
            v@[at + i],
        ));
        assert(lit@.subrange(0, i + 1) == lit@.subrange(0, i as int).push(lit@[i as int]));
        i = i + 1;
    }
    assert(lit@ == lit@.subrange(0, n as int));
    true
}

/// Whether `lit` occurs anywhere in `v`.
pub fn contains_lit_chars(v: &[char], lit: &[char]) -> (r: bool)
    ensures
        r == occurs_in(v@, lit@),
{
    let mut at: usize = 0;
    while at < v.len()
        invariant
            at <= v@.len(),
            forall|j: int| 0 <= j < at ==> !occurs_at(v@, lit@, j),
        decreases v.len() - at,
    {
        if chars_at(v, at, lit) {
            return true;
        }
        at = at + 1;
    }
    if chars_at(v, at, lit) {
        return true;
    }
    assert forall|j: int| !occurs_at(v@, lit@, j) by {
        if 0 <= j && j + lit@.len() <= v@.len() {
            assert(j <= at);
        }
    }
    false
}


/// The ASCII digit for `d`, which is below ten.
pub open spec fn digit_char(d: int) -> char {
    if d == 0 {
        '0'
    } else if d == 1 {
        '1'
    } else if d == 2 {
        '2'
    } else if d == 3 {
        '3'
    } else if d == 4 {
        '4'
    } else if d == 5 {
        '5'
    } else if d == 6 {
        '6'
    } else if d == 7 {
        '7'
    } else if d == 8 {
        '8'
    } else {
        '9'
    }
}

/// The decimal digits of `n`, most significant first, without leading zeros.
pub open spec fn decimal_text(n: nat) -> Seq<char>
    decreases n,
{
    if n < 10 {
        seq![digit_char(n as int)]
    } else {
        decimal_text(n / 10).push(digit_char((n % 10) as int))
    }
}

fn digit(d: u64) -> (r: char)
    requires
        d < 10,
    ensures
        r == digit_char(d as int),
{
    if d == 0 {
        '0'
    } else if d == 1 {
        '1'
    } else if d == 2 {
        '2'
    } else if d == 3 {
        '3'
    } else if d == 4 {
        '4'
    } else if d == 5 {
        '5'
    } else if d == 6 {
        '6'
    } else if d == 7 {
        '7'
    } else if d == 8 {
        '8'
    } else {
        '9'
    }
}

/// Appends the decimal digits of `n` to `out`.
pub fn push_decimal(out: &mut Vec<char>, n: u64)
    ensures
        final(out)@ == old(out)@ + decimal_text(n as nat),
    decreases n,
{
    if n >= 10 {
        push_decimal(out, n / 10);
    }
    out.push(digit(n % 10));
    assert(decimal_text(n as nat) == if n < 10 {
        seq![digit_char(n as int)]
    } else {
        decimal_text((n / 10) as nat).push(digit_char((n % 10) as int))
    });
}

/// Appends the characters of `lit` to `out`.
pub fn push_lit(out: &mut Vec<char>, lit: &str)
    ensures
        final(out)@ == old(out)@ + lit@,
{
    let n = lit.unicode_len();
    let mut i: usize = 0;
    let ghost start = out@;
    while i < n
        invariant
            n == lit@.len(),
            i <= n,
            out@ == start + lit@.subrange(0, i as int),
        decreases n - i,
    {
        out.push(lit.get_char(i));
        assert(lit@.subrange(0, i + 1) == lit@.subrange(0, i as int).push(lit@[i as int]));
        i = i + 1;
    }
    assert(lit@.subrange(0, n as int) == lit@);
}

/// The decimal text of `n`.
pub fn decimal_string(n: u64) -> (r: String)
    ensures
        r@ == decimal_text(n as nat),
{
    let mut v: Vec<char> = Vec::new();
    push_decimal(&mut v, n);
    assert(v@ == decimal_text(n as nat));
    string_of(&v)
}

} // verus!
