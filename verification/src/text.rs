//! Character-level helpers on strings, with the mathematical meaning of each
//! stated over `Seq<char>`.

use vstd::prelude::*;
use vstd::arithmetic::power::{pow, lemma_pow_positive};
use vstd::arithmetic::div_mod::{lemma_breakdown, lemma_mod_bound};

verus! {

/// Appends one character to a `String` (`String::push`).
#[verifier::external_body]
pub(crate) fn push_char(s: &mut String, c: char)
    ensures
        final(s)@ == old(s)@.push(c),
{
    s.push(c);
}

/// The characters of `s`, in order.
pub fn chars_of(s: &str) -> (v: Vec<char>)
    ensures
        v@ == s@,
{
    let mut v: Vec<char> = Vec::new();
    for c in it: s.chars()
        invariant
            v@ == it.seq().take(it.index() as int),
            it.seq() == s@,
    {
        v.push(c);
    }
    v
}

/// A `String` holding exactly the characters of `v`.
pub fn string_from_chars(v: &Vec<char>) -> (s: String)
    ensures
        s@ == v@,
{
    let mut s = String::new();
    let n = v.len();
    for i in 0..n
        invariant
            n == v@.len(),
            s@ == v@.take(i as int),
    {
        push_char(&mut s, v[i]);
        assert(v@.take(i as int).push(v@[i as int]) =~= v@.take(i + 1));
    }
    assert(v@.take(n as int) =~= v@);
    s
}

} // verus!

verus! {

// ───────────────────────────── hexadecimal ─────────────────────────────────

/// Upper-case hexadecimal digits, by value.
pub open spec fn hex_upper_digits() -> Seq<char> {
    seq!['0', '1', '2', '3', '4', '5', '6', '7', '8', '9', 'A', 'B', 'C', 'D', 'E', 'F']
}

/// The last `n` hexadecimal digits of `v`, most significant first, in upper
/// case and padded with zeros: what `format!("{:0n$X}", v)` prints when `v`
/// has at most `n` digits.
pub open spec fn hex_fixed(v: nat, n: nat) -> Seq<char>
    decreases n,
{
    if n == 0 {
        Seq::<char>::empty()
    } else {
        hex_fixed(v / 16, (n - 1) as nat).push(hex_upper_digits()[(v % 16) as int])
    }
}

/// A fixed-width hex text has exactly `n` characters, each an upper-case
/// hexadecimal digit (`0`-`9`, `A`-`F`).
pub proof fn lemma_hex_fixed_upper(v: nat, n: nat)
    ensures
        hex_fixed(v, n).len() == n,
        forall|i: int| 0 <= i < n ==> {
            let c = #[trigger] hex_fixed(v, n)[i];
            ('0' <= c && c <= '9') || ('A' <= c && c <= 'F')
        },
    decreases n,
{
    if n > 0 {
        lemma_hex_fixed_upper(v / 16, (n - 1) as nat);
        let p = hex_fixed(v / 16, (n - 1) as nat);
        let h = hex_fixed(v, n);
        assert(forall|j: int| 0 <= j < 16 ==> {
            let c = #[trigger] hex_upper_digits()[j];
            ('0' <= c && c <= '9') || ('A' <= c && c <= 'F')
        });
        assert forall|i: int| 0 <= i < n implies {
            let c = #[trigger] h[i];
            ('0' <= c && c <= '9') || ('A' <= c && c <= 'F')
        } by {
            if i < n - 1 {
                assert(h[i] == p[i]);
            } else {
                assert(h[i] == hex_upper_digits()[(v % 16) as int]);
            }
        }
    }
}

/// The value of one hexadecimal digit of either case; `None` for any other
/// character.
pub open spec fn hex_digit_value(c: char) -> Option<nat> {
    if '0' <= c && c <= '9' {
        Some((c as int - '0' as int) as nat)
    } else if 'a' <= c && c <= 'f' {
        Some((c as int - 'a' as int + 10) as nat)
    } else if 'A' <= c && c <= 'F' {
        Some((c as int - 'A' as int + 10) as nat)
    } else {
        None
    }
}

pub open spec fn is_hex_digit(c: char) -> bool {
    hex_digit_value(c) is Some
}

pub open spec fn all_hex_digits(s: Seq<char>) -> bool {
    forall|i: int| 0 <= i < s.len() ==> is_hex_digit(#[trigger] s[i])
}

/// The number that a sequence of hexadecimal digits denotes, most
/// significant digit first (a character that is no digit counts as 0).
pub open spec fn hex_value(s: Seq<char>) -> nat
    decreases s.len(),
{
    if s.len() == 0 {
        0
    } else {
        hex_value(s.drop_last()) * 16 + match hex_digit_value(s.last()) {
            Some(d) => d,
            None => 0nat,
        }
    }
}

/// What `u64::from_str_radix(s, 16)` accepts and gives back: an optional
/// `+`, then at least one hexadecimal digit of either case, denoting a value
/// that fits in 64 bits.
pub open spec fn parse_hex_u64_spec(s: Seq<char>) -> Option<u64> {
    let digits = if s.len() > 0 && s[0] == '+' {
        s.drop_first()
    } else {
        s
    };
    if digits.len() > 0 && all_hex_digits(digits) && hex_value(digits) <= u64::MAX {
        Some(hex_value(digits) as u64)
    } else {
        None
    }
}

pub proof fn lemma_hex_fixed_len(v: nat, n: nat)
    ensures
        hex_fixed(v, n).len() == n,
    decreases n,
{
    if n > 0 {
        lemma_hex_fixed_len(v / 16, (n - 1) as nat);
    }
}

/// A prefix never denotes more than the whole digit sequence.
pub proof fn lemma_hex_value_prefix(s: Seq<char>, j: int)
    requires
        0 <= j <= s.len(),
    ensures
        hex_value(s.take(j)) <= hex_value(s),
    decreases s.len(),
{
    if j < s.len() {
        lemma_hex_value_prefix(s.drop_last(), j);
        assert(s.drop_last().take(j) =~= s.take(j));
    } else {
        assert(s.take(j) =~= s);
    }
}

/// Reading the digits that `hex_fixed` writes gives back the value modulo
/// `16^n`; with 16 digits, a 64-bit value itself.
pub proof fn lemma_hex_fixed_value(v: nat, n: nat)
    ensures
        all_hex_digits(hex_fixed(v, n)),
        hex_value(hex_fixed(v, n)) == (v as int) % pow(16, n),
    decreases n,
{
    reveal(pow);
    if n == 0 {
        assert(hex_fixed(v, n) =~= Seq::<char>::empty());
        assert(pow(16, 0) == 1);
        assert(v % 1 == 0) by (nonlinear_arith);
    } else {
        let m = (n - 1) as nat;
        lemma_hex_fixed_value(v / 16, m);
        let s = hex_fixed(v, n);
        let d = v % 16;
        let t = hex_fixed(v / 16, m);
        assert(s.drop_last() =~= t);
        assert(s.last() == hex_upper_digits()[d as int]);
        assert(hex_digit_value(hex_upper_digits()[d as int]) == Some(d)) by {
            assert(0 <= d < 16);
            reveal_with_fuel(hex_fixed, 1);
        }
        assert forall|i: int| 0 <= i < s.len() implies is_hex_digit(#[trigger] s[i]) by {
            if i < t.len() {
                assert(s[i] == t[i]);
            }
        }
        lemma_pow_positive(16, m);
        let p = pow(16, m);
        assert(pow(16, n) == 16 * p);
        // v == 16 * (v / 16) + d and (v / 16) % p is what t denotes.
        assert(hex_value(s) == (((v / 16) as int) % p) * 16 + d);
        lemma_breakdown(v as int, 16, p as int);
        lemma_mod_bound(v as int, 16);
    }
}

/// The value of one hexadecimal digit.
fn hex_digit(c: char) -> (r: Option<u64>)
    ensures
        match hex_digit_value(c) {
            Some(d) => r == Some(d as u64),
            None => r is None,
        },
{
    if '0' <= c && c <= '9' {
        Some((c as u32 - '0' as u32) as u64)
    } else if 'a' <= c && c <= 'f' {
        Some((c as u32 - 'a' as u32 + 10) as u64)
    } else if 'A' <= c && c <= 'F' {
        Some((c as u32 - 'A' as u32 + 10) as u64)
    } else {
        None
    }
}

/// `v` as 16 upper-case hexadecimal digits, zero-padded
/// (`format!("{:016X}", v)`).
pub fn hex16(v: u64) -> (s: String)
    ensures
        s@ == hex_fixed(v as nat, 16),
{
    let table: [char; 16] = ['0', '1', '2', '3', '4', '5', '6', '7', '8', '9', 'A', 'B', 'C', 'D', 'E', 'F'];
    assert(table@ =~= hex_upper_digits());
    let mut digits: Vec<char> = Vec::new();
    let mut x: u64 = v;
    let mut k: usize = 0;
    assert(digits@ =~= Seq::<char>::empty());
    assert(hex_fixed(v as nat, 16) =~= hex_fixed(x as nat, 16) + digits@);
    while k < 16
        invariant
            k <= 16,
            table@ == hex_upper_digits(),
            hex_fixed(v as nat, 16) == hex_fixed(x as nat, (16 - k) as nat) + digits@,
        decreases 16 - k,
    {
        let d = x % 16;
        let c = table[d as usize];
        let ghost m = (16 - k) as nat;
        let ghost before = digits@;
        assert(hex_fixed(x as nat, m) == hex_fixed((x / 16) as nat, (m - 1) as nat).push(c));
        digits.insert(0, c);
        assert(digits@ =~= seq![c] + before);
        assert(hex_fixed((x / 16) as nat, (m - 1) as nat).push(c) + before =~= hex_fixed(
            (x / 16) as nat,
            (m - 1) as nat,
        ) + digits@);
        x = x / 16;
        k = k + 1;
    }
    assert(hex_fixed(x as nat, 0) =~= Seq::<char>::empty());
    assert(hex_fixed(v as nat, 16) =~= digits@);
    string_from_chars(&digits)
}

/// `u64::from_str_radix(s, 16)`, with the error collapsed to `None`.
pub fn parse_hex_u64(s: &str) -> (r: Option<u64>)
    ensures
        r == parse_hex_u64_spec(s@),
{
    let v = chars_of(s);
    let n = v.len();
    let mut i: usize = 0;
    if n > 0 && v[0] == '+' {
        i = 1;
    }
    let start = i;
    let ghost digits = v@.subrange(start as int, n as int);
    assert(digits =~= (if s@.len() > 0 && s@[0] == '+' { s@.drop_first() } else { s@ }));
    if i == n {
        return None;
    }
    let mut acc: u64 = 0;
    assert(v@.subrange(start as int, i as int) =~= Seq::<char>::empty());
    while i < n
        invariant
            start <= i <= n,
            n == v@.len(),
            digits == v@.subrange(start as int, n as int),
            v@ == s@,
            digits == (if s@.len() > 0 && s@[0] == '+' { s@.drop_first() } else { s@ }),
            all_hex_digits(v@.subrange(start as int, i as int)),
            acc == hex_value(v@.subrange(start as int, i as int)),
        decreases n - i,
    {
        let c = v[i];
        let ghost pre = v@.subrange(start as int, i as int);
        let ghost next = v@.subrange(start as int, i + 1);
        assert(next.drop_last() =~= pre);
        assert(next.last() == c);
        match hex_digit(c) {
            None => {
                assert(digits[i - start] == c);
                assert(!all_hex_digits(digits));
                return None;
            },
            Some(d) => {
                if acc > (u64::MAX - d) / 16 {
                    assert(hex_value(next) == acc * 16 + d);
                    assert(acc * 16 + d > u64::MAX) by (nonlinear_arith)
                        requires
                            acc > (u64::MAX - d) / 16,
                            d < 16,
                    ;
                    proof {
                        lemma_hex_value_prefix(digits, (i + 1 - start) as int);
                        assert(digits.take((i + 1 - start) as int) =~= next);
                    }
                    return None;
                }
                assert(acc * 16 + d <= u64::MAX) by (nonlinear_arith)
                    requires
                        acc <= (u64::MAX - d) / 16,
                        d < 16,
                ;
                acc = acc * 16 + d;
                assert forall|j: int| 0 <= j < next.len() implies is_hex_digit(#[trigger] next[j]) by {
                    if j < pre.len() {
                        assert(next[j] == pre[j]);
                    }
                }
            },
        }
        i = i + 1;
    }
    assert(v@.subrange(start as int, n as int) == digits);
    Some(acc)
}

} // verus!

verus! {

// ───────────────────────────── decimal ─────────────────────────────────────

pub open spec fn decimal_digits() -> Seq<char> {
    seq!['0', '1', '2', '3', '4', '5', '6', '7', '8', '9']
}

/// The decimal digits of `n`, most significant first, without leading zeros
/// (`0` is written as one digit).
pub open spec fn nat_text(n: nat) -> Seq<char>
    decreases n,
{
    if n < 10 {
        seq![decimal_digits()[n as int]]
    } else {
        nat_text(n / 10).push(decimal_digits()[(n % 10) as int])
    }
}

/// How `Display` writes an integer: a `-` before the digits of a negative
/// value.
pub open spec fn int_text(i: int) -> Seq<char> {
    if i < 0 {
        seq!['-'] + nat_text((-i) as nat)
    } else {
        nat_text(i as nat)
    }
}

/// `n.to_string()` for an unsigned integer.
pub fn u64_text(n: u64) -> (s: String)
    ensures
        s@ == nat_text(n as nat),
{
    let table: [char; 10] = ['0', '1', '2', '3', '4', '5', '6', '7', '8', '9'];
    assert(table@ =~= decimal_digits());
    let mut digits: Vec<char> = Vec::new();
    let mut x: u64 = n;
    assert(nat_text(n as nat) =~= nat_text(x as nat) + digits@);
    while x >= 10
        invariant
            table@ == decimal_digits(),
            nat_text(n as nat) == nat_text(x as nat) + digits@,
        decreases x,
    {
        let c = table[(x % 10) as usize];
        let ghost before = digits@;
        assert(nat_text(x as nat) == nat_text((x / 10) as nat).push(c));
        digits.insert(0, c);
        assert(digits@ =~= seq![c] + before);
        assert(nat_text((x / 10) as nat).push(c) + before =~= nat_text((x / 10) as nat)
            + digits@);
        x = x / 10;
    }
    let c = table[x as usize];
    let ghost before = digits@;
    digits.insert(0, c);
    assert(nat_text(x as nat) =~= seq![c]);
    assert(digits@ =~= nat_text(n as nat));
    string_from_chars(&digits)
}

/// `v.to_string()` for a signed integer.
pub fn i64_text(v: i64) -> (s: String)
    ensures
        s@ == int_text(v as int),
{
    if v < 0 {
        let magnitude: u64 = (-(v as i128)) as u64;
        let digits = u64_text(magnitude);
        let mut s = String::new();
        push_char(&mut s, '-');
        let s = s.concat(digits.as_str());
        s
    } else {
        u64_text(v as u64)
    }
}

// ───────────────────────────── comparing and searching ─────────────────────

/// Whether two strings hold the same characters.
pub fn str_eq(a: &str, b: &str) -> (r: bool)
    ensures
        r == (a@ == b@),
{
    let x = chars_of(a);
    let y = chars_of(b);
    if x.len() != y.len() {
        return false;
    }
    let n = x.len();
    for i in 0..n
        invariant
            n == x@.len(),
            n == y@.len(),
            x@ == a@,
            y@ == b@,
            forall|j: int| 0 <= j < i ==> x@[j] == y@[j],
    {
        if x[i] != y[i] {
            return false;
        }
    }
    assert(x@ =~= y@);
    true
}

/// `needle` occurs in `s` as a contiguous run of characters.
pub open spec fn contains_seq(s: Seq<char>, needle: Seq<char>) -> bool {
    exists|i: int|
        0 <= i && i + needle.len() <= s.len() && #[trigger] s.subrange(i, i + needle.len())
            == needle
}

/// `str::contains` with a string pattern.
pub fn str_contains(s: &str, needle: &str) -> (r: bool)
    ensures
        r == contains_seq(s@, needle@),
{
    let x = chars_of(s);
    let p = chars_of(needle);
    let n = x.len();
    let m = p.len();
    if m > n {
        assert forall|i: int| 0 <= i && i + m <= n implies #[trigger] x@.subrange(i, i + m)
            != p@ by {}
        return false;
    }
    let mut i: usize = 0;
    while i <= n - m
        invariant
            n == x@.len(),
            m == p@.len(),
            m <= n,
            i <= n - m + 1,
            x@ == s@,
            p@ == needle@,
            forall|k: int| 0 <= k < i ==> #[trigger] x@.subrange(k, k + m) != p@,
        decreases n - i,
    {
        let mut j: usize = 0;
        let mut same = true;
        while j < m
            invariant
                n == x@.len(),
                m == p@.len(),
                i + m <= n,
                j <= m,
                same == (forall|t: int| 0 <= t < j ==> x@[i + t] == p@[t]),
            decreases m - j,
        {
            if x[i + j] != p[j] {
                same = false;
            }
            j = j + 1;
        }
        if same {
            assert(x@.subrange(i as int, i + m) =~= p@);
            return true;
        }
        assert(x@.subrange(i as int, i + m) != p@) by {
            let t = choose|t: int| 0 <= t < m && x@[i + t] != p@[t];
            assert(x@.subrange(i as int, i + m)[t] == x@[i + t]);
        }
        i = i + 1;
    }
    false
}

/// The part of `s` left after removing every trailing `c`
/// (`str::trim_end_matches` with a character).
pub open spec fn trim_end_char(s: Seq<char>, c: char) -> Seq<char>
    decreases s.len(),
{
    if s.len() > 0 && s.last() == c {
        trim_end_char(s.drop_last(), c)
    } else {
        s
    }
}

/// Trimming keeps a prefix of the text and removes only copies of `c`: the
/// text is the trimmed part followed by nothing but `c`, and the trimmed part
/// does not end in `c`.
pub proof fn lemma_trim_end_char(s: Seq<char>, c: char)
    ensures
        trim_end_char(s, c).len() <= s.len(),
        trim_end_char(s, c) == s.take(trim_end_char(s, c).len() as int),
        forall|i: int| trim_end_char(s, c).len() <= i < s.len() ==> #[trigger] s[i] == c,
        trim_end_char(s, c).len() == 0 || trim_end_char(s, c).last() != c,
    decreases s.len(),
{
    if s.len() > 0 && s.last() == c {
        let d = s.drop_last();
        lemma_trim_end_char(d, c);
        let t = trim_end_char(d, c);
        assert(t == s.take(t.len() as int)) by {
            assert(d.take(t.len() as int) =~= s.take(t.len() as int));
        }
        assert forall|i: int| t.len() <= i < s.len() implies #[trigger] s[i] == c by {
            if i < d.len() {
                assert(s[i] == d[i]);
            }
        }
    } else {
        assert(s.take(s.len() as int) =~= s);
    }
}

/// `s.trim_end_matches(c)`, as an owned `String`.
pub fn trim_end_matching(s: &str, c: char) -> (r: String)
    ensures
        r@ == trim_end_char(s@, c),
{
    let mut v = chars_of(s);
    while v.len() > 0 && v[v.len() - 1] == c
        invariant
            trim_end_char(v@, c) == trim_end_char(s@, c),
        decreases v.len(),
    {
        let ghost before = v@;
        v.pop();
        assert(v@ =~= before.drop_last());
    }
    string_from_chars(&v)
}

/// The position of the first `c` in `s`, if any.
pub open spec fn first_index(s: Seq<char>, c: char) -> Option<int>
    decreases s.len(),
{
    if s.len() == 0 {
        None
    } else if s[0] == c {
        Some(0)
    } else {
        match first_index(s.drop_first(), c) {
            Some(i) => Some(i + 1),
            None => None,
        }
    }
}

/// `str::split_once` with a character: the text before and after the first
/// occurrence of `c`.
pub open spec fn split_once_spec(s: Seq<char>, c: char) -> Option<(Seq<char>, Seq<char>)> {
    match first_index(s, c) {
        Some(i) => Some((s.take(i), s.skip(i + 1))),
        None => None,
    }
}

pub proof fn lemma_first_index(s: Seq<char>, c: char)
    ensures
        match first_index(s, c) {
            Some(i) => 0 <= i < s.len() && s[i] == c && forall|j: int| 0 <= j < i ==> s[j] != c,
            None => forall|j: int| 0 <= j < s.len() ==> s[j] != c,
        },
    decreases s.len(),
{
    if s.len() > 0 && s[0] != c {
        lemma_first_index(s.drop_first(), c);
        match first_index(s.drop_first(), c) {
            Some(i) => {
                assert forall|j: int| 0 <= j < i + 1 implies s[j] != c by {
                    if j > 0 {
                        assert(s[j] == s.drop_first()[j - 1]);
                    }
                }
            },
            None => {
                assert forall|j: int| 0 <= j < s.len() implies s[j] != c by {
                    if j > 0 {
                        assert(s[j] == s.drop_first()[j - 1]);
                    }
                }
            },
        }
    }
}

/// A position holding the first `c` is what `first_index` names.
pub proof fn lemma_first_index_is(s: Seq<char>, c: char, i: int)
    requires
        0 <= i < s.len(),
        s[i] == c,
        forall|j: int| 0 <= j < i ==> s[j] != c,
    ensures
        first_index(s, c) == Some(i),
{
    lemma_first_index(s, c);
}

/// `s.split_once(c)`, with owned halves.
pub fn split_once_char(s: &str, c: char) -> (r: Option<(String, String)>)
    ensures
        match split_once_spec(s@, c) {
            Some((a, b)) => r matches Some((x, y)) && x@ == a && y@ == b,
            None => r is None,
        },
{
    let v = chars_of(s);
    let n = v.len();
    let mut i: usize = 0;
    while i < n
        invariant
            n == v@.len(),
            v@ == s@,
            i <= n,
            forall|j: int| 0 <= j < i ==> v@[j] != c,
        decreases n - i,
    {
        if v[i] == c {
            proof {
                lemma_first_index_is(s@, c, i as int);
            }
            let mut left: Vec<char> = Vec::new();
            let mut right: Vec<char> = Vec::new();
            for k in 0..i
                invariant
                    n == v@.len(),
                    i < n,
                    left@ == v@.take(k as int),
            {
                left.push(v[k]);
                assert(v@.take(k as int).push(v@[k as int]) =~= v@.take(k + 1));
            }
            let mut k = i + 1;
            assert(right@ =~= v@.subrange(i + 1, k as int));
            while k < n
                invariant
                    n == v@.len(),
                    i < k <= n,
                    right@ == v@.subrange(i + 1, k as int),
                decreases n - k,
            {
                right.push(v[k]);
                assert(v@.subrange(i + 1, k as int).push(v@[k as int]) =~= v@.subrange(
                    i + 1,
                    k + 1,
                ));
                k = k + 1;
            }
            assert(right@ =~= v@.skip(i + 1));
            return Some((string_from_chars(&left), string_from_chars(&right)));
        }
        i = i + 1;
    }
    proof {
        lemma_first_index(s@, c);
        if first_index(s@, c) is Some {
            let j = first_index(s@, c)->0;
            assert(v@[j] == c);
        }
    }
    None
}

} // verus!
