//! Text helpers: building strings, splitting, trimming, decimal integers.
//!
//! The helpers are stated over `Seq<char>`, the view of `String` and `&str`.

use vstd::prelude::*;
use vstd::string::*;

verus! {

// ---------------------------------------------------------------------------
// Characters
// ---------------------------------------------------------------------------

/// `c` is an ASCII decimal digit.
pub open spec fn is_digit(c: char) -> bool {
    '0' <= c && c <= '9'
}

/// Numeric value of an ASCII decimal digit.
pub open spec fn digit_value(c: char) -> int {
    (c as int) - ('0' as int)
}

/// The ASCII digit for `d` (meant for `d < 10`).
pub open spec fn digit_char(d: nat) -> char {
    (('0' as int) + d) as char
}

/// Every character of `s` is an ASCII digit.
pub open spec fn all_digits(s: Seq<char>) -> bool {
    forall|i: int| 0 <= i < s.len() ==> #[trigger] is_digit(s[i])
}

/// Every character of `s` is ASCII.
pub open spec fn is_ascii_text(s: Seq<char>) -> bool {
    forall|i: int| 0 <= i < s.len() ==> (#[trigger] s[i] as int) < 128
}

/// ASCII lowercase mapping of one character.
pub open spec fn ascii_lower(c: char) -> char {
    if 'A' <= c && c <= 'Z' {
        ((c as int) + 32) as char
    } else {
        c
    }
}

/// ASCII lowercase mapping of a text.
pub open spec fn ascii_lowercase(s: Seq<char>) -> Seq<char> {
    s.map_values(|c: char| ascii_lower(c))
}

/// Views of a sequence of strings.
pub open spec fn strs(v: Seq<String>) -> Seq<Seq<char>> {
    v.map_values(|s: String| s@)
}

/// View of an optional string.
pub open spec fn opt_str(o: Option<String>) -> Option<Seq<char>> {
    match o {
        Some(s) => Some(s@),
        None => None,
    }
}

// ---------------------------------------------------------------------------
// Trusted std functions
// ---------------------------------------------------------------------------

/// What `char::is_whitespace` answers for a character: whether it has the
/// Unicode `White_Space` property (U+0009 to U+000D, U+0020, U+0085,
/// U+00A0, U+1680, U+2000 to U+200A, U+2028, U+2029, U+202F, U+205F and
/// U+3000).
pub open spec fn spec_is_whitespace(c: char) -> bool {
    let v = c as u32;
    ||| 0x9 <= v <= 0xd
    ||| v == 0x20
    ||| v == 0x85
    ||| v == 0xa0
    ||| v == 0x1680
    ||| 0x2000 <= v <= 0x200a
    ||| v == 0x2028
    ||| v == 0x2029
    ||| v == 0x202f
    ||| v == 0x205f
    ||| v == 0x3000
}

/// What `str::to_lowercase` returns for a text (Unicode lowercase mapping).
pub uninterp spec fn spec_to_lowercase(s: Seq<char>) -> Seq<char>;

/// Calls `String::push`, which appends one character.
#[verifier::external_body]
pub(crate) fn push_char(s: &mut String, c: char)
    ensures
        final(s)@ == old(s)@.push(c),
{
    s.push(c);
}

/// Whether `c` is whitespace, as `char::is_whitespace` answers: the
/// `White_Space` list of `spec_is_whitespace`.
pub(crate) fn is_whitespace(c: char) -> (b: bool)
    ensures
        b == spec_is_whitespace(c),
{
    let v = c as u32;
    (0x9 <= v && v <= 0xd) || v == 0x20 || v == 0x85 || v == 0xa0 || v == 0x1680 || (0x2000 <= v
        && v <= 0x200a) || v == 0x2028 || v == 0x2029 || v == 0x202f || v == 0x205f || v == 0x3000
}

/// Calls `str::to_lowercase`; the result is named `spec_to_lowercase`.  On
/// ASCII text the Unicode mapping is the ASCII one (`A`..`Z` to `a`..`z`,
/// everything else unchanged), which the second clause states.
#[verifier::external_body]
pub(crate) fn to_lowercase(s: &str) -> (r: String)
    ensures
        r@ == spec_to_lowercase(s@),
        is_ascii_text(s@) ==> r@ == ascii_lowercase(s@),
{
    s.to_lowercase()
}

// ---------------------------------------------------------------------------
// Building strings
// ---------------------------------------------------------------------------

/// `a` followed by `b`.
pub fn concat2(a: &str, b: &str) -> (r: String)
    ensures
        r@ == a@ + b@,
{
    let mut r = String::from_str(a);
    r.append(b);
    r
}

/// `a`, `b` and `c` one after the other.
pub fn concat3(a: &str, b: &str, c: &str) -> (r: String)
    ensures
        r@ == a@ + b@ + c@,
{
    let mut r = String::from_str(a);
    r.append(b);
    r.append(c);
    r
}

/// A copy of an optional string.
pub fn clone_opt(o: &Option<String>) -> (r: Option<String>)
    ensures
        r == *o,
{
    match o {
        Some(s) => Some(s.clone()),
        None => None,
    }
}

/// Views of a sequence of string pairs.
pub open spec fn pairs(v: Seq<(String, String)>) -> Seq<(Seq<char>, Seq<char>)> {
    v.map_values(|p: (String, String)| (p.0@, p.1@))
}

/// A pair of strings made from two texts.
pub fn text_pair(a: &str, b: &str) -> (r: (String, String))
    ensures
        r.0@ == a@,
        r.1@ == b@,
{
    (String::from_str(a), String::from_str(b))
}

/// Whether the text of `s` is `lit`.
pub fn text_eq(s: &str, lit: &str) -> (b: bool)
    ensures
        b == (s@ == lit@),
{
    let a = String::from_str(s);
    let l = String::from_str(lit);
    a == l
}

// ---------------------------------------------------------------------------
// Splitting on a separator character (`str::split` with a `char` pattern)
// ---------------------------------------------------------------------------

/// The pieces of `s` between occurrences of `sep`; there is always at least
/// one piece, and `k` separators give `k + 1` pieces.
pub open spec fn split_on(s: Seq<char>, sep: char) -> Seq<Seq<char>>
    decreases s.len(),
{
    if s.len() == 0 {
        seq![Seq::<char>::empty()]
    } else {
        let p = split_on(s.drop_last(), sep);
        if s.last() == sep {
            p.push(Seq::<char>::empty())
        } else {
            p.update(p.len() - 1, p.last().push(s.last()))
        }
    }
}

pub proof fn lemma_split_on_nonempty(s: Seq<char>, sep: char)
    ensures
        split_on(s, sep).len() >= 1,
    decreases s.len(),
{
    if s.len() > 0 {
        lemma_split_on_nonempty(s.drop_last(), sep);
    }
}

/// Appending text without separators extends the last piece.
pub proof fn lemma_split_on_append_plain(p: Seq<char>, b: Seq<char>, sep: char)
    requires
        !b.contains(sep),
    ensures
        split_on(p + b, sep) == split_on(p, sep).update(
            split_on(p, sep).len() - 1,
            split_on(p, sep).last() + b,
        ),
    decreases b.len(),
{
    lemma_split_on_nonempty(p, sep);
    if b.len() == 0 {
        assert(p + b =~= p);
        assert(split_on(p, sep).last() + b =~= split_on(p, sep).last());
        assert(split_on(p, sep).update(split_on(p, sep).len() - 1, split_on(p, sep).last())
            =~= split_on(p, sep));
    } else {
        let b0 = b.drop_last();
        assert(!b0.contains(sep)) by {
            if b0.contains(sep) {
                let i = choose|i: int| 0 <= i < b0.len() && b0[i] == sep;
                assert(b[i] == sep);
            }
        }
        lemma_split_on_append_plain(p, b0, sep);
        assert((p + b).drop_last() =~= p + b0);
        assert((p + b).last() == b.last());
        assert(b.last() != sep) by {
            assert(b[b.len() - 1] == b.last());
        }
        let q = split_on(p, sep);
        assert(split_on(p + b, sep) =~= q.update(q.len() - 1, q.last() + b)) by {
            assert((q.last() + b0).push(b.last()) =~= q.last() + b);
        }
    }
}

/// `a:b` splits at `:` into `a` and `b` when neither holds the separator.
pub proof fn lemma_split_on_two(a: Seq<char>, b: Seq<char>, sep: char)
    requires
        !a.contains(sep),
        !b.contains(sep),
    ensures
        split_on(a + seq![sep] + b, sep) == seq![a, b],
{
    lemma_split_on_append_plain(Seq::<char>::empty(), a, sep);
    assert(Seq::<char>::empty() + a =~= a);
    assert(Seq::<char>::empty() + a =~= a);
    assert(split_on(a, sep) =~= seq![a]) by {
        assert(split_on(Seq::<char>::empty(), sep) == seq![Seq::<char>::empty()]);
    }
    let s = a + seq![sep];
    assert(s.drop_last() =~= a);
    assert(s.last() == sep);
    assert(split_on(s, sep) =~= seq![a, Seq::<char>::empty()]);
    lemma_split_on_append_plain(s, b, sep);
    assert(Seq::<char>::empty() + b =~= b);
    assert(split_on(s + b, sep) =~= seq![a, b]);
}

/// The decimal text of an integer holds digits and at most a leading `-`,
/// so no other character.
pub proof fn lemma_int_text_chars(v: int, c: char)
    requires
        !is_digit(c),
        c != '-',
    ensures
        !int_text(v).contains(c),
{
    let m: nat = if v < 0 {
        (-v) as nat
    } else {
        v as nat
    };
    lemma_decimal_text(m);
    let d = decimal_text(m);
    if int_text(v).contains(c) {
        let i = choose|i: int| 0 <= i < int_text(v).len() && int_text(v)[i] == c;
        if v < 0 {
            assert(int_text(v)[i] == (seq!['-'] + d)[i]);
            if i > 0 {
                assert(is_digit(d[i - 1]));
            }
        } else {
            assert(is_digit(d[i]));
        }
    }
}

proof fn lemma_strs_push(v: Seq<String>, x: String)
    ensures
        strs(v.push(x)) == strs(v).push(x@),
{
    assert(strs(v.push(x)) =~= strs(v).push(x@));
}

/// Splits `s` at every `sep`, as `s.split(sep)` does.
pub fn split_char(s: &str, sep: char) -> (pieces: Vec<String>)
    ensures
        strs(pieces@) == split_on(s@, sep),
{
    let n = s.unicode_len();
    let mut done: Vec<String> = Vec::new();
    let mut cur = String::new();
    let mut i: usize = 0;
    proof {
        assert(s@.take(0) =~= Seq::<char>::empty());
        assert(strs(done@).push(cur@) =~= seq![Seq::<char>::empty()]);
    }
    while i < n
        invariant
            n == s@.len(),
            i <= n,
            strs(done@).push(cur@) == split_on(s@.take(i as int), sep),
        decreases n - i,
    {
        let c = s.get_char(i);
        proof {
            assert(s@.take(i + 1).drop_last() =~= s@.take(i as int));
            assert(s@.take(i + 1).last() == c);
            lemma_split_on_nonempty(s@.take(i as int), sep);
        }
        if c == sep {
            let ghost old_done = done@;
            let ghost old_cur = cur@;
            done.push(cur);
            cur = String::new();
            proof {
                lemma_strs_push(old_done, done@.last());
                assert(strs(done@) =~= strs(old_done).push(old_cur));
            }
        } else {
            let ghost old_cur = cur@;
            push_char(&mut cur, c);
            proof {
                assert(strs(done@).push(cur@) =~= strs(done@).push(old_cur).update(
                    strs(done@).len() as int,
                    old_cur.push(c),
                ));
            }
        }
        i = i + 1;
    }
    let ghost before = done@;
    let ghost last = cur@;
    done.push(cur);
    proof {
        assert(s@.take(n as int) =~= s@);
        assert(strs(done@) =~= strs(before).push(last));
    }
    done
}

// ---------------------------------------------------------------------------
// Splitting on whitespace (`str::split_whitespace`)
// ---------------------------------------------------------------------------

/// The maximal runs of non-whitespace characters of `s`, in order.
pub open spec fn words(s: Seq<char>) -> Seq<Seq<char>>
    decreases s.len(),
{
    if s.len() == 0 {
        Seq::<Seq<char>>::empty()
    } else {
        let w = words(s.drop_last());
        let c = s.last();
        if spec_is_whitespace(c) {
            w
        } else if s.len() >= 2 && !spec_is_whitespace(s[s.len() - 2]) {
            w.update(w.len() - 1, w.last().push(c))
        } else {
            w.push(seq![c])
        }
    }
}

pub proof fn lemma_words_nonempty(s: Seq<char>)
    requires
        s.len() > 0,
        !spec_is_whitespace(s.last()),
    ensures
        words(s).len() > 0,
    decreases s.len(),
{
    if s.len() >= 2 && !spec_is_whitespace(s[s.len() - 2]) {
        assert(s.drop_last().last() == s[s.len() - 2]);
        lemma_words_nonempty(s.drop_last());
    }
}

/// Splits `s` into its whitespace-separated words, as
/// `s.split_whitespace()` does.
pub fn split_whitespace(s: &str) -> (parts: Vec<String>)
    ensures
        strs(parts@) == words(s@),
{
    let n = s.unicode_len();
    let mut done: Vec<String> = Vec::new();
    let mut cur = String::new();
    let mut in_word = false;
    let mut i: usize = 0;
    proof {
        assert(s@.take(0) =~= Seq::<char>::empty());
        assert(strs(done@) =~= Seq::<Seq<char>>::empty());
    }
    while i < n
        invariant
            n == s@.len(),
            i <= n,
            in_word == (i > 0 && !spec_is_whitespace(s@[i - 1])),
            (if in_word {
                strs(done@).push(cur@)
            } else {
                strs(done@)
            }) == words(s@.take(i as int)),
        decreases n - i,
    {
        let c = s.get_char(i);
        let ws = is_whitespace(c);
        proof {
            assert(s@.take(i + 1).drop_last() =~= s@.take(i as int));
            assert(s@.take(i + 1).last() == c);
            if i > 0 {
                assert(s@.take(i + 1)[i - 1] == s@[i - 1]);
            }
        }
        if ws {
            if in_word {
                let ghost old_done = done@;
                let ghost old_cur = cur@;
                done.push(cur);
                cur = String::new();
                proof {
                    assert(strs(done@) =~= strs(old_done).push(old_cur));
                }
            }
            in_word = false;
        } else {
            if in_word {
                let ghost old_cur = cur@;
                push_char(&mut cur, c);
                proof {
                    assert(strs(done@).push(cur@) =~= strs(done@).push(old_cur).update(
                        strs(done@).len() as int,
                        old_cur.push(c),
                    ));
                }
            } else {
                cur = String::new();
                push_char(&mut cur, c);
                in_word = true;
                proof {
                    assert(cur@ =~= seq![c]);
                }
            }
        }
        i = i + 1;
    }
    proof {
        assert(s@.take(n as int) =~= s@);
    }
    if in_word {
        let ghost before = done@;
        let ghost last = cur@;
        done.push(cur);
        proof {
            assert(strs(done@) =~= strs(before).push(last));
        }
    }
    done
}

// ---------------------------------------------------------------------------
// Trimming
// ---------------------------------------------------------------------------

/// `s` without its leading whitespace.
pub open spec fn trim_start_ws(s: Seq<char>) -> Seq<char>
    decreases s.len(),
{
    if s.len() > 0 && spec_is_whitespace(s[0]) {
        trim_start_ws(s.drop_first())
    } else {
        s
    }
}

/// `s` without its trailing whitespace.
pub open spec fn trim_end_ws(s: Seq<char>) -> Seq<char>
    decreases s.len(),
{
    if s.len() > 0 && spec_is_whitespace(s.last()) {
        trim_end_ws(s.drop_last())
    } else {
        s
    }
}

/// `s` without leading and trailing whitespace (`str::trim`).
pub open spec fn trim_ws(s: Seq<char>) -> Seq<char> {
    trim_end_ws(trim_start_ws(s))
}

/// `s` without trailing occurrences of `c` (`str::trim_end_matches`).
pub open spec fn trim_end_char_spec(s: Seq<char>, c: char) -> Seq<char>
    decreases s.len(),
{
    if s.len() > 0 && s.last() == c {
        trim_end_char_spec(s.drop_last(), c)
    } else {
        s
    }
}

/// Removes leading and trailing whitespace, as `s.trim()` does.
pub fn trim(s: &str) -> (r: String)
    ensures
        r@ == trim_ws(s@),
{
    let n = s.unicode_len();
    let mut lo: usize = 0;
    proof {
        assert(s@.subrange(0, n as int) =~= s@);
    }
    while lo < n && is_whitespace(s.get_char(lo))
        invariant
            n == s@.len(),
            lo <= n,
            trim_start_ws(s@) == trim_start_ws(s@.subrange(lo as int, n as int)),
        decreases n - lo,
    {
        proof {
            assert(s@.subrange(lo as int, n as int).drop_first() =~= s@.subrange(
                lo + 1,
                n as int,
            ));
        }
        lo = lo + 1;
    }
    let mut hi: usize = n;
    proof {
        let t = s@.subrange(lo as int, n as int);
        if lo < n {
            assert(t[0] == s@[lo as int]);
        }
        assert(trim_start_ws(t) == t);
    }
    while hi > lo && is_whitespace(s.get_char(hi - 1))
        invariant
            n == s@.len(),
            lo <= hi <= n,
            trim_ws(s@) == trim_end_ws(s@.subrange(lo as int, hi as int)),
        decreases hi - lo,
    {
        proof {
            assert(s@.subrange(lo as int, hi as int).drop_last() =~= s@.subrange(
                lo as int,
                hi - 1,
            ));
        }
        hi = hi - 1;
    }
    proof {
        let t = s@.subrange(lo as int, hi as int);
        if hi > lo {
            assert(t.last() == s@[hi - 1]);
        }
        assert(trim_end_ws(t) == t);
    }
    let sub = s.substring_char(lo, hi);
    String::from_str(sub)
}

/// Removes trailing occurrences of `c`, as `s.trim_end_matches(c)` does.
pub fn trim_end_char(s: &str, c: char) -> (r: String)
    ensures
        r@ == trim_end_char_spec(s@, c),
{
    let n = s.unicode_len();
    let mut hi: usize = n;
    proof {
        assert(s@.subrange(0, n as int) =~= s@);
    }
    while hi > 0 && s.get_char(hi - 1) == c
        invariant
            n == s@.len(),
            hi <= n,
            trim_end_char_spec(s@, c) == trim_end_char_spec(s@.subrange(0, hi as int), c),
        decreases hi,
    {
        proof {
            assert(s@.subrange(0, hi as int).drop_last() =~= s@.subrange(0, hi - 1));
        }
        hi = hi - 1;
    }
    proof {
        let t = s@.subrange(0, hi as int);
        if hi > 0 {
            assert(t.last() == s@[hi - 1]);
        }
        assert(trim_end_char_spec(t, c) == t);
    }
    let sub = s.substring_char(0, hi);
    String::from_str(sub)
}

// ---------------------------------------------------------------------------
// Decimal integers (`str::parse::<i64>` / `<i32>`, and their display)
// ---------------------------------------------------------------------------

/// Value of a run of decimal digits (most significant first).
pub open spec fn digits_value(s: Seq<char>) -> nat
    decreases s.len(),
{
    if s.len() == 0 {
        0
    } else {
        (digits_value(s.drop_last()) * 10 + digit_value(s.last())) as nat
    }
}

/// The integer written by `s`: an optional `+` or `-`, then at least one
/// ASCII digit, nothing else.
pub open spec fn int_text_value(s: Seq<char>) -> Option<int> {
    if s.len() > 0 && (s[0] == '+' || s[0] == '-') {
        let d = s.drop_first();
        if d.len() > 0 && all_digits(d) {
            Some(
                if s[0] == '-' {
                    -(digits_value(d) as int)
                } else {
                    digits_value(d) as int
                },
            )
        } else {
            None
        }
    } else if s.len() > 0 && all_digits(s) {
        Some(digits_value(s) as int)
    } else {
        None
    }
}

/// What `s.parse::<i64>()` yields: the written integer when it fits.
pub open spec fn spec_parse_i64(s: Seq<char>) -> Option<i64> {
    match int_text_value(s) {
        Some(v) => if i64::MIN <= v && v <= i64::MAX {
            Some(v as i64)
        } else {
            None
        },
        None => None,
    }
}

/// What `s.parse::<i32>()` yields: the written integer when it fits.
pub open spec fn spec_parse_i32(s: Seq<char>) -> Option<i32> {
    match int_text_value(s) {
        Some(v) => if i32::MIN <= v && v <= i32::MAX {
            Some(v as i32)
        } else {
            None
        },
        None => None,
    }
}

/// Decimal digits of `n`, without leading zeros.
pub open spec fn decimal_text(n: nat) -> Seq<char>
    decreases n,
{
    if n < 10 {
        seq![digit_char(n)]
    } else {
        decimal_text(n / 10).push(digit_char(n % 10))
    }
}

/// Decimal text of an integer, with a `-` in front of negative ones
/// (what `Display` writes for an integer).
pub open spec fn int_text(v: int) -> Seq<char> {
    if v < 0 {
        seq!['-'] + decimal_text((-v) as nat)
    } else {
        decimal_text(v as nat)
    }
}

proof fn lemma_digits_value_take_mono(s: Seq<char>, k: int)
    requires
        0 <= k <= s.len(),
        all_digits(s),
    ensures
        digits_value(s.take(k)) <= digits_value(s),
    decreases s.len(),
{
    if k < s.len() {
        assert(s.drop_last().take(k) =~= s.take(k));
        assert(all_digits(s.drop_last()));
        assert(is_digit(s[s.len() - 1]));
        lemma_digits_value_take_mono(s.drop_last(), k);
    } else {
        assert(s.take(k) =~= s);
    }
}

pub proof fn lemma_decimal_text(n: nat)
    ensures
        decimal_text(n).len() > 0,
        all_digits(decimal_text(n)),
        digits_value(decimal_text(n)) == n,
    decreases n,
{
    assert(digit_value(digit_char((n % 10) as nat)) == n % 10);
    if n >= 10 {
        lemma_decimal_text(n / 10);
        let t = decimal_text(n);
        assert(t.drop_last() =~= decimal_text(n / 10));
        assert(t.last() == digit_char((n % 10) as nat));
        assert((n / 10) * 10 + n % 10 == n);
        assert(digits_value(t) == digits_value(t.drop_last()) * 10 + digit_value(t.last()));
    } else {
        let t = decimal_text(n);
        assert(t.drop_last() =~= Seq::<char>::empty());
        assert(n % 10 == n);
        assert(digits_value(t) == digits_value(t.drop_last()) * 10 + digit_value(t.last()));
        assert forall|i: int| 0 <= i < t.len() implies #[trigger] is_digit(t[i]) by {
            if i < t.len() - 1 {
                assert(t[i] == decimal_text(n / 10)[i]);
            }
        }
    }
}

/// Parses a decimal `i64` exactly as `s.parse::<i64>()` does.
pub fn parse_i64(s: &str) -> (r: Option<i64>)
    ensures
        r == spec_parse_i64(s@),
{
    let n = s.unicode_len();
    if n == 0 {
        return None;
    }
    let c0 = s.get_char(0);
    let neg = c0 == '-';
    let start: usize = if c0 == '+' || c0 == '-' {
        1
    } else {
        0
    };
    if start == n {
        return None;
    }
    let limit: u128 = if neg {
        0x8000_0000_0000_0000u128
    } else {
        0x7fff_ffff_ffff_ffffu128
    };
    let ghost d = s@.subrange(start as int, n as int);
    proof {
        if start == 1 {
            assert(d =~= s@.drop_first());
        } else {
            assert(d =~= s@);
        }
    }
    let mut acc: u128 = 0;
    let mut i: usize = start;
    while i < n
        invariant
            n == s@.len(),
            start <= i <= n,
            start < n,
            d == s@.subrange(start as int, n as int),
            start == 1 ==> (s@[0] == '+' || s@[0] == '-') && d == s@.drop_first(),
            start == 0 ==> !(s@[0] == '+' || s@[0] == '-') && d == s@,
            start <= 1,
            neg == (s@[0] == '-'),
            limit == (if neg {
                0x8000_0000_0000_0000u128
            } else {
                0x7fff_ffff_ffff_ffffu128
            }),
            all_digits(d.take(i - start)),
            acc == digits_value(d.take(i - start)),
            acc <= limit,
            limit <= 0x8000_0000_0000_0000u128,
        decreases n - i,
    {
        let c = s.get_char(i);
        proof {
            assert(d[i - start] == c);
            assert(d.take(i - start + 1).drop_last() =~= d.take(i - start));
        }
        if !('0' <= c && c <= '9') {
            proof {
                assert(!is_digit(d[i - start]));
                assert(!all_digits(d));
                if start == 0 {
                    assert(!is_digit(s@[i as int]));
                }
            }
            return None;
        }
        let dv: u128 = ((c as u32) - ('0' as u32)) as u128;
        acc = acc * 10 + dv;
        proof {
            assert(all_digits(d.take(i - start + 1))) by {
                assert forall|j: int| 0 <= j < d.take(i - start + 1).len() implies #[trigger] is_digit(
                    d.take(i - start + 1)[j],
                ) by {
                    if j < i - start {
                        assert(d.take(i - start + 1)[j] == d.take(i - start)[j]);
                    }
                }
            }
        }
        if acc > limit {
            proof {
                if all_digits(d) {
                    lemma_digits_value_take_mono(d, i - start + 1);
                }
            }
            return None;
        }
        i = i + 1;
    }
    proof {
        assert(d.take(n - start) =~= d);
    }
    let v: i128 = if neg {
        -(acc as i128)
    } else {
        acc as i128
    };
    Some(v as i64)
}

/// Parses a decimal `i32` exactly as `s.parse::<i32>()` does.
pub fn parse_i32(s: &str) -> (r: Option<i32>)
    ensures
        r == spec_parse_i32(s@),
{
    match parse_i64(s) {
        Some(v) => if -2147483648 <= v && v <= 2147483647 {
            Some(v as i32)
        } else {
            None
        },
        None => None,
    }
}

fn push_decimal(out: &mut String, m: u64)
    ensures
        final(out)@ == old(out)@ + decimal_text(m as nat),
    decreases m,
{
    if m >= 10 {
        push_decimal(out, m / 10);
    }
    let c: char = match m % 10 {
        0 => '0',
        1 => '1',
        2 => '2',
        3 => '3',
        4 => '4',
        5 => '5',
        6 => '6',
        7 => '7',
        8 => '8',
        _ => '9',
    };
    push_char(out, c);
    proof {
        assert(c == digit_char((m % 10) as nat));
        if m >= 10 {
            assert(final(out)@ =~= old(out)@ + decimal_text(m as nat));
        } else {
            assert(final(out)@ =~= old(out)@ + decimal_text(m as nat));
        }
    }
}

/// Decimal text of `n`, as `n.to_string()` writes it.
pub fn i64_to_text(n: i64) -> (r: String)
    ensures
        r@ == int_text(n as int),
{
    let mut out = String::new();
    if n < 0 {
        push_char(&mut out, '-');
        let m: u64 = (-(n as i128)) as u64;
        push_decimal(&mut out, m);
        proof {
            assert(out@ =~= seq!['-'] + decimal_text((-(n as int)) as nat));
        }
    } else {
        push_decimal(&mut out, n as u64);
        proof {
            assert(out@ =~= decimal_text(n as nat));
        }
    }
    out
}

/// Law: reading back the decimal text of an `i64` gives the number.
pub proof fn law_parse_i64_of_text(v: i64)
    ensures
        spec_parse_i64(int_text(v as int)) == Some(v),
{
    if v < 0 {
        let m = (-(v as int)) as nat;
        lemma_decimal_text(m);
        let t = int_text(v as int);
        assert(t.drop_first() =~= decimal_text(m));
    } else {
        lemma_decimal_text(v as nat);
        let t = decimal_text(v as nat);
        assert(is_digit(t[0]));
    }
}

} // verus!
