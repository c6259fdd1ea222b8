//! Verified text utilities: equality and affix tests over `Seq<char>` views,
//! and decimal rendering/parsing used by the endpoint builders and the
//! connection-metadata parser.
use vstd::prelude::*;
use vstd::string::*;

verus! {

/// `p` is an initial segment of `s`.
pub open spec fn is_prefix_of(p: Seq<char>, s: Seq<char>) -> bool {
    p.len() <= s.len() && s.subrange(0, p.len() as int) == p
}

/// `p` is a final segment of `s`.
pub open spec fn is_suffix_of(p: Seq<char>, s: Seq<char>) -> bool {
    p.len() <= s.len() && s.subrange(s.len() - p.len(), s.len() as int) == p
}

pub fn str_eq(a: &str, b: &str) -> (r: bool)
    ensures
        r == (a@ == b@),
{
    let sa = String::from_str(a);
    let sb = String::from_str(b);
    let r = sa == sb;
    proof {
        if a@ == b@ {
            assert(sa@ =~= sb@);
        }
    }
    r
}

pub fn starts_with(s: &str, p: &str) -> (r: bool)
    ensures
        r == is_prefix_of(p@, s@),
{
    let sl = s.unicode_len();
    let pl = p.unicode_len();
    if pl > sl {
        return false;
    }
    let head = s.substring_char(0, pl);
    str_eq(head, p)
}

pub fn ends_with(s: &str, p: &str) -> (r: bool)
    ensures
        r == is_suffix_of(p@, s@),
{
    let sl = s.unicode_len();
    let pl = p.unicode_len();
    if pl > sl {
        return false;
    }
    let tail = s.substring_char(sl - pl, sl);
    str_eq(tail, p)
}

/// The character for one decimal digit.
pub open spec fn digit_char(d: int) -> char {
    if d == 0 {
        '0'
    } else if d == 1 {
        '1'
    } else if d == 2 {
        '2'
    } else if d == 3 {
        '3'
    } else if d == 4 {
        '4'
    } else if d == 5 {
        '5'
    } else if d == 6 {
        '6'
    } else if d == 7 {
        '7'
    } else if d == 8 {
        '8'
    } else {
        '9'
    }
}

/// Decimal rendering of a natural number, most significant digit first,
/// no leading zeroes (a single `'0'` for zero).
pub open spec fn dec_digits(n: nat) -> Seq<char>
    decreases n,
{
    if n < 10 {
        seq![digit_char(n as int)]
    } else {
        dec_digits(n / 10) + seq![digit_char((n % 10) as int)]
    }
}

fn push_digit(s: &mut String, d: u64)
    requires
        d < 10,
    ensures
        final(s)@ == old(s)@ + seq![digit_char(d as int)],
{
    proof {
        reveal_strlit("0");
        reveal_strlit("1");
        reveal_strlit("2");
        reveal_strlit("3");
        reveal_strlit("4");
        reveal_strlit("5");
        reveal_strlit("6");
        reveal_strlit("7");
        reveal_strlit("8");
        reveal_strlit("9");
    }
    if d == 0 {
        s.append("0");
    } else if d == 1 {
        s.append("1");
    } else if d == 2 {
        s.append("2");
    } else if d == 3 {
        s.append("3");
    } else if d == 4 {
        s.append("4");
    } else if d == 5 {
        s.append("5");
    } else if d == 6 {
        s.append("6");
    } else if d == 7 {
        s.append("7");
    } else if d == 8 {
        s.append("8");
    } else {
        s.append("9");
    }
    proof {
        assert(s@ =~= old(s)@ + seq![digit_char(d as int)]);
    }
}

fn append_dec(s: &mut String, n: u64)
    ensures
        final(s)@ == old(s)@ + dec_digits(n as nat),
    decreases n,
{
    if n < 10 {
        push_digit(s, n);
    } else {
        append_dec(s, n / 10);
        push_digit(s, n % 10);
        proof {
            assert(s@ =~= old(s)@ + dec_digits(n as nat));
        }
    }
}

/// Render a number in decimal, as the standard formatter does.
pub fn u64_to_string(n: u64) -> (r: String)
    ensures
        r@ == dec_digits(n as nat),
{
    let mut s = String::new();
    append_dec(&mut s, n);
    proof {
        assert(s@ =~= dec_digits(n as nat));
    }
    s
}

/// A count of hundredths rendered with two decimal places.
pub open spec fn centi_digits(c: nat) -> Seq<char> {
    dec_digits(c / 100) + seq!['.'] + seq![
        digit_char(((c % 100) / 10) as int),
        digit_char((c % 10) as int),
    ]
}

/// Render a count of hundredths as a two-decimal number.
pub fn centi_to_string(c: u64) -> (r: String)
    ensures
        r@ == centi_digits(c as nat),
{
    let mut s = u64_to_string(c / 100);
    proof {
        reveal_strlit(".");
    }
    s.append(".");
    push_digit(&mut s, (c % 100) / 10);
    push_digit(&mut s, c % 10);
    proof {
        assert(s@ =~= centi_digits(c as nat));
    }
    s
}

/// Whitespace as the command-line and process-listing parsers understand it.
pub open spec fn is_space(c: char) -> bool {
    c == ' ' || c == '\t' || c == '\n' || c == '\r'
}

pub fn char_is_space(c: char) -> (r: bool)
    ensures
        r == is_space(c),
{
    c == ' ' || c == '\t' || c == '\n' || c == '\r'
}

pub open spec fn is_digit(c: char) -> bool {
    '0' <= c && c <= '9'
}

/// Numeric value of a decimal digit character.
pub open spec fn digit_val(c: char) -> int {
    c as int - '0' as int
}

pub open spec fn all_digits(s: Seq<char>) -> bool {
    forall|i: int| 0 <= i < s.len() ==> is_digit(#[trigger] s[i])
}

/// Value of a digit string read in base ten.
pub open spec fn dec_val(s: Seq<char>) -> int
    decreases s.len(),
{
    if s.len() == 0 {
        0
    } else {
        dec_val(s.drop_last()) * 10 + digit_val(s.last())
    }
}

pub proof fn lemma_dec_val_nonneg(s: Seq<char>)
    requires
        all_digits(s),
    ensures
        dec_val(s) >= 0,
    decreases s.len(),
{
    if s.len() > 0 {
        assert(all_digits(s.drop_last()));
        lemma_dec_val_nonneg(s.drop_last());
    }
}

/// A digit string is worth at least any of its initial segments.
pub proof fn lemma_dec_val_prefix(s: Seq<char>, i: int)
    requires
        all_digits(s),
        0 <= i <= s.len(),
    ensures
        dec_val(s.subrange(0, i)) <= dec_val(s),
    decreases s.len() - i,
{
    if i < s.len() {
        lemma_dec_val_prefix(s, i + 1);
        let t = s.subrange(0, i + 1);
        assert(t.drop_last() =~= s.subrange(0, i));
        assert(all_digits(t));
        lemma_dec_val_nonneg(s.subrange(0, i));
        assert(dec_val(t) == dec_val(s.subrange(0, i)) * 10 + digit_val(t.last()));
    } else {
        assert(s.subrange(0, i) =~= s);
    }
}

/// Parse a digit-only decimal string no larger than `max`, as the standard
/// integer parsers do on such input; anything else is rejected.
pub fn parse_dec(s: &str, max: u64) -> (r: Option<u64>)
    ensures
        match r {
            Some(v) => s@.len() > 0 && all_digits(s@) && dec_val(s@) == v && v <= max,
            None => s@.len() == 0 || !all_digits(s@) || dec_val(s@) > max,
        },
{
    let n = s.unicode_len();
    if n == 0 {
        return None;
    }
    let mut acc: u64 = 0;
    let mut i: usize = 0;
    while i < n
        invariant
            0 < n == s@.len(),
            0 <= i <= n,
            max <= u64::MAX,
            all_digits(s@.subrange(0, i as int)),
            acc == dec_val(s@.subrange(0, i as int)),
            acc <= max,
        decreases n - i,
    {
        let c = s.get_char(i);
        if c < '0' || c > '9' {
            assert(!is_digit(s@[i as int]));
            return None;
        }
        let d: u64 = (c as u32 as u64) - 48;
        proof {
            assert(d == digit_val(s@[i as int]));
            assert(s@.subrange(0, i + 1).drop_last() =~= s@.subrange(0, i as int));
            assert(all_digits(s@.subrange(0, i + 1)));
        }
        if acc > (u64::MAX - d) / 10 {
            // the running value would exceed even u64, so it exceeds max
            proof {
                assert(acc * 10 + d > u64::MAX) by (nonlinear_arith)
                    requires
                        acc > (u64::MAX - d) / 10,
                        d <= 9,
                ;
                if all_digits(s@) {
                    lemma_dec_val_prefix(s@, i + 1);
                }
            }
            return None;
        }
        proof {
            assert(acc * 10 + d <= u64::MAX) by (nonlinear_arith)
                requires
                    acc <= (u64::MAX - d) / 10,
                    d <= 9,
            ;
        }
        let next = acc * 10 + d;
        if next > max {
            proof {
                if all_digits(s@) {
                    lemma_dec_val_prefix(s@, i + 1);
                }
            }
            return None;
        }
        acc = next;
        i = i + 1;
    }
    proof {
        assert(s@.subrange(0, n as int) =~= s@);
    }
    Some(acc)
}

/// Drop the longest run of characters satisfying `p` from the front.
pub open spec fn trim_left_p(s: Seq<char>, p: spec_fn(char) -> bool) -> Seq<char>
    decreases s.len(),
{
    if s.len() > 0 && p(s.first()) {
        trim_left_p(s.drop_first(), p)
    } else {
        s
    }
}

/// Drop the longest run of characters satisfying `p` from the back.
pub open spec fn trim_right_p(s: Seq<char>, p: spec_fn(char) -> bool) -> Seq<char>
    decreases s.len(),
{
    if s.len() > 0 && p(s.last()) {
        trim_right_p(s.drop_last(), p)
    } else {
        s
    }
}

/// Both ends trimmed of characters satisfying `p`.
pub open spec fn trim_p(s: Seq<char>, p: spec_fn(char) -> bool) -> Seq<char> {
    trim_right_p(trim_left_p(s, p), p)
}

/// Whitespace-trimmed, as `str::trim` behaves on ASCII whitespace.
pub open spec fn trimmed(s: Seq<char>) -> Seq<char> {
    trim_p(s, |c: char| is_space(c))
}

pub proof fn lemma_trim_left_at(s: Seq<char>, p: spec_fn(char) -> bool, a: int)
    requires
        0 <= a <= s.len(),
        forall|k: int| 0 <= k < a ==> p(#[trigger] s[k]),
        a == s.len() || !p(s[a]),
    ensures
        trim_left_p(s, p) == s.subrange(a, s.len() as int),
    decreases a,
{
    if a == 0 {
        assert(s.subrange(0, s.len() as int) =~= s);
    } else {
        let t = s.drop_first();
        assert(forall|k: int| 0 <= k < a - 1 ==> p(#[trigger] t[k]));
        lemma_trim_left_at(t, p, a - 1);
        assert(t.subrange(a - 1, t.len() as int) =~= s.subrange(a, s.len() as int));
    }
}

pub proof fn lemma_trim_right_at(s: Seq<char>, p: spec_fn(char) -> bool, b: int)
    requires
        0 <= b <= s.len(),
        forall|k: int| b <= k < s.len() ==> p(#[trigger] s[k]),
        b == 0 || !p(s[b - 1]),
    ensures
        trim_right_p(s, p) == s.subrange(0, b),
    decreases s.len() - b,
{
    if b == s.len() {
        assert(s.subrange(0, b) =~= s);
    } else {
        let t = s.drop_last();
        assert(forall|k: int| b <= k < t.len() ==> p(#[trigger] t[k]));
        lemma_trim_right_at(t, p, b);
        assert(t.subrange(0, b) =~= s.subrange(0, b));
    }
}

fn first_not_space(s: &str) -> (a: usize)
    ensures
        a <= s@.len(),
        forall|k: int| 0 <= k < a ==> is_space(#[trigger] s@[k]),
        a == s@.len() || !is_space(s@[a as int]),
{
    let n = s.unicode_len();
    let mut a: usize = 0;
    while a < n
        invariant
            0 <= a <= n == s@.len(),
            forall|k: int| 0 <= k < a ==> is_space(#[trigger] s@[k]),
        decreases n - a,
    {
        if !char_is_space(s.get_char(a)) {
            return a;
        }
        a = a + 1;
    }
    a
}

fn last_not_space_end(s: &str, a: usize) -> (b: usize)
    requires
        a <= s@.len(),
    ensures
        a <= b <= s@.len(),
        forall|k: int| b <= k < s@.len() ==> is_space(#[trigger] s@[k]),
        b == a || !is_space(s@[b - 1]),
{
    let n = s.unicode_len();
    let mut b: usize = n;
    while b > a
        invariant
            a <= b <= n == s@.len(),
            forall|k: int| b <= k < s@.len() ==> is_space(#[trigger] s@[k]),
        decreases b,
    {
        if !char_is_space(s.get_char(b - 1)) {
            return b;
        }
        b = b - 1;
    }
    b
}

/// Whitespace-trim, as `str::trim` does over this module's whitespace set.
pub fn trim(s: &str) -> (r: &str)
    ensures
        r@ == trimmed(s@),
{
    let a = first_not_space(s);
    let b = last_not_space_end(s, a);
    let r = s.substring_char(a, b);
    proof {
        let p = |c: char| is_space(c);
        lemma_trim_left_at(s@, p, a as int);
        let t = s@.subrange(a as int, s@.len() as int);
        if b == a {
            lemma_trim_right_at(t, p, 0);
        } else {
            lemma_trim_right_at(t, p, b - a);
        }
        assert(t.subrange(0, b - a) =~= s@.subrange(a as int, b as int));
        assert(r@ =~= trimmed(s@));
    }
    r
}

/// Trim surrounding double quotes, as `str::trim_matches('"')` does.
pub open spec fn trim_quotes_spec(s: Seq<char>) -> Seq<char> {
    trim_p(s, |c: char| c == '"')
}

fn first_not_quote(s: &str) -> (a: usize)
    ensures
        a <= s@.len(),
        forall|k: int| 0 <= k < a ==> #[trigger] s@[k] == '"',
        a == s@.len() || s@[a as int] != '"',
{
    let n = s.unicode_len();
    let mut a: usize = 0;
    while a < n
        invariant
            0 <= a <= n == s@.len(),
            forall|k: int| 0 <= k < a ==> #[trigger] s@[k] == '"',
        decreases n - a,
    {
        if s.get_char(a) != '"' {
            return a;
        }
        a = a + 1;
    }
    a
}

fn last_not_quote_end(s: &str, a: usize) -> (b: usize)
    requires
        a <= s@.len(),
    ensures
        a <= b <= s@.len(),
        forall|k: int| b <= k < s@.len() ==> #[trigger] s@[k] == '"',
        b == a || s@[b - 1] != '"',
{
    let n = s.unicode_len();
    let mut b: usize = n;
    while b > a
        invariant
            a <= b <= n == s@.len(),
            forall|k: int| b <= k < s@.len() ==> #[trigger] s@[k] == '"',
        decreases b,
    {
        if s.get_char(b - 1) != '"' {
            return b;
        }
        b = b - 1;
    }
    b
}

pub fn trim_quotes(s: &str) -> (r: &str)
    ensures
        r@ == trim_quotes_spec(s@),
{
    let a = first_not_quote(s);
    let b = last_not_quote_end(s, a);
    let r = s.substring_char(a, b);
    proof {
        let p = |c: char| c == '"';
        lemma_trim_left_at(s@, p, a as int);
        let t = s@.subrange(a as int, s@.len() as int);
        if b == a {
            lemma_trim_right_at(t, p, 0);
        } else {
            lemma_trim_right_at(t, p, b - a);
        }
        assert(t.subrange(0, b - a) =~= s@.subrange(a as int, b as int));
        assert(r@ =~= trim_quotes_spec(s@));
    }
    r
}

/// Index of the first occurrence of `sep` at or after `i`, or the length.
pub open spec fn seg_end(s: Seq<char>, sep: char, i: int) -> int
    decreases s.len() - i,
{
    if i >= s.len() {
        s.len() as int
    } else if s[i] == sep {
        i
    } else {
        seg_end(s, sep, i + 1)
    }
}

pub proof fn lemma_seg_end_bounds(s: Seq<char>, sep: char, i: int)
    requires
        0 <= i <= s.len(),
    ensures
        i <= seg_end(s, sep, i) <= s.len(),
        forall|k: int| i <= k < seg_end(s, sep, i) ==> #[trigger] s[k] != sep,
        seg_end(s, sep, i) == s.len() || s[seg_end(s, sep, i)] == sep,
    decreases s.len() - i,
{
    if i < s.len() && s[i] != sep {
        lemma_seg_end_bounds(s, sep, i + 1);
    }
}

/// Locate the next `sep` from position `i` on.
pub fn find_sep(s: &str, sep: char, i: usize) -> (j: usize)
    requires
        i <= s@.len(),
    ensures
        j == seg_end(s@, sep, i as int),
        i <= j <= s@.len(),
{
    let n = s.unicode_len();
    let mut k: usize = i;
    proof {
        lemma_seg_end_bounds(s@, sep, i as int);
    }
    while k < n
        invariant
            i <= k <= n == s@.len(),
            seg_end(s@, sep, i as int) == seg_end(s@, sep, k as int),
        decreases n - k,
    {
        if s.get_char(k) == sep {
            return k;
        }
        k = k + 1;
    }
    k
}

/// Index just past the run of non-whitespace characters starting at `i`.
pub open spec fn run_end(s: Seq<char>, i: int) -> int
    decreases s.len() - i,
{
    if i >= s.len() {
        s.len() as int
    } else if is_space(s[i]) {
        i
    } else {
        run_end(s, i + 1)
    }
}

pub proof fn lemma_run_end_bounds(s: Seq<char>, i: int)
    requires
        0 <= i <= s.len(),
    ensures
        i <= run_end(s, i) <= s.len(),
        forall|k: int| i <= k < run_end(s, i) ==> !is_space(#[trigger] s[k]),
        run_end(s, i) == s.len() || is_space(s[run_end(s, i)]),
    decreases s.len() - i,
{
    if i < s.len() && !is_space(s[i]) {
        lemma_run_end_bounds(s, i + 1);
    }
}

/// Locate the end of the non-whitespace run starting at `i`.
pub fn find_run_end(s: &str, i: usize) -> (j: usize)
    requires
        i <= s@.len(),
    ensures
        j == run_end(s@, i as int),
        i <= j <= s@.len(),
{
    let n = s.unicode_len();
    let mut k: usize = i;
    proof {
        lemma_run_end_bounds(s@, i as int);
    }
    while k < n
        invariant
            i <= k <= n == s@.len(),
            run_end(s@, i as int) == run_end(s@, k as int),
        decreases n - k,
    {
        if char_is_space(s.get_char(k)) {
            return k;
        }
        k = k + 1;
    }
    k
}

} // verus!
