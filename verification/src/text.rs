//! Text helpers on sequences of characters.

use vstd::prelude::*;

verus! {

/// Characters with the Unicode property `White_Space`.
pub open spec fn is_white_space(c: char) -> bool {
    ||| '\u{9}' <= c <= '\u{d}'
    ||| c == ' '
    ||| c == '\u{85}'
    ||| c == '\u{a0}'
    ||| c == '\u{1680}'
    ||| '\u{2000}' <= c <= '\u{200a}'
    ||| c == '\u{2028}'
    ||| c == '\u{2029}'
    ||| c == '\u{202f}'
    ||| c == '\u{205f}'
    ||| c == '\u{3000}'
}

/// Whether `c` has the Unicode property `White_Space`.
pub fn white_space(c: char) -> (b: bool)
    ensures
        b == is_white_space(c),
{
    ('\u{9}' <= c && c <= '\u{d}') || c == ' ' || c == '\u{85}' || c == '\u{a0}' || c == '\u{1680}'
        || ('\u{2000}' <= c && c <= '\u{200a}') || c == '\u{2028}' || c == '\u{2029}' || c
        == '\u{202f}' || c == '\u{205f}' || c == '\u{3000}'
}

/// `s` without its leading white space.
pub open spec fn trimmed_start(s: Seq<char>) -> Seq<char>
    decreases s.len(),
{
    if s.len() > 0 && is_white_space(s[0]) {
        trimmed_start(s.drop_first())
    } else {
        s
    }
}

/// `s` without its trailing white space.
pub open spec fn trimmed_end(s: Seq<char>) -> Seq<char>
    decreases s.len(),
{
    if s.len() > 0 && is_white_space(s.last()) {
        trimmed_end(s.drop_last())
    } else {
        s
    }
}

/// `s` without white space at either end.
pub open spec fn trimmed(s: Seq<char>) -> Seq<char> {
    trimmed_end(trimmed_start(s))
}

/// Whether every character of `s` is white space.
pub open spec fn all_white(s: Seq<char>) -> bool {
    forall|i: int| 0 <= i < s.len() ==> is_white_space(#[trigger] s[i])
}

/// Whether `s` begins and ends with something other than white space, or is empty.
pub open spec fn is_tight(s: Seq<char>) -> bool {
    s.len() > 0 ==> !is_white_space(s[0]) && !is_white_space(s.last())
}

/// Leading white space does not change what is left after trimming the start.
pub proof fn lemma_trimmed_start_skip(s: Seq<char>, n: int)
    requires
        0 <= n <= s.len(),
        forall|i: int| 0 <= i < n ==> is_white_space(#[trigger] s[i]),
        n < s.len() ==> !is_white_space(s[n]),
    ensures
        trimmed_start(s) == s.subrange(n, s.len() as int),
    decreases s.len(),
{
    if n == 0 {
        assert(s.subrange(0, s.len() as int) =~= s);
    } else {
        assert(is_white_space(s[0]));
        let t = s.drop_first();
        assert forall|i: int| 0 <= i < n - 1 implies is_white_space(#[trigger] t[i]) by {
            assert(t[i] == s[i + 1]);
        }
        lemma_trimmed_start_skip(t, n - 1);
        assert(t.subrange(n - 1, t.len() as int) =~= s.subrange(n, s.len() as int));
    }
}

/// Trailing white space does not change what is left after trimming the end.
pub proof fn lemma_trimmed_end_skip(s: Seq<char>, n: int)
    requires
        0 <= n <= s.len(),
        forall|i: int| n <= i < s.len() ==> is_white_space(#[trigger] s[i]),
        n > 0 ==> !is_white_space(s[n - 1]),
    ensures
        trimmed_end(s) == s.subrange(0, n),
    decreases s.len(),
{
    if n == s.len() {
        assert(s.subrange(0, s.len() as int) =~= s);
    } else {
        assert(is_white_space(s[s.len() - 1]));
        let t = s.drop_last();
        lemma_trimmed_end_skip(t, n);
        assert(t.subrange(0, n) =~= s.subrange(0, n));
    }
}

/// Trimming removes exactly the white space around the tight core of a text.
pub proof fn lemma_trimmed_core(before: Seq<char>, core: Seq<char>, after: Seq<char>)
    requires
        all_white(before),
        all_white(after),
        is_tight(core),
    ensures
        trimmed(before + core + after) == core,
{
    let s = before + core + after;
    if core.len() == 0 {
        assert forall|i: int| 0 <= i < s.len() implies is_white_space(#[trigger] s[i]) by {
            if i < before.len() {
                assert(s[i] == before[i]);
            } else {
                assert(s[i] == after[i - before.len()]);
            }
        }
        lemma_trimmed_start_skip(s, s.len() as int);
        assert(trimmed(s) =~= core);
    } else {
        assert forall|i: int| 0 <= i < before.len() implies is_white_space(#[trigger] s[i]) by {
            assert(s[i] == before[i]);
        }
        assert(s[before.len() as int] == core[0]);
        lemma_trimmed_start_skip(s, before.len() as int);
        let t = s.subrange(before.len() as int, s.len() as int);
        assert(t =~= core + after);
        assert forall|i: int| core.len() <= i < t.len() implies is_white_space(#[trigger] t[i]) by {
            assert(t[i] == after[i - core.len()]);
        }
        assert(t[core.len() - 1] == core.last());
        lemma_trimmed_end_skip(t, core.len() as int);
        assert(t.subrange(0, core.len() as int) =~= core);
    }
}

/// What trimming leaves is tight, and is the middle of the text with white
/// space on both sides.
pub proof fn lemma_trimmed_is_core(s: Seq<char>)
    ensures
        is_tight(trimmed(s)),
        exists|before: Seq<char>, after: Seq<char>|
            all_white(before) && all_white(after) && #[trigger] (before + trimmed(s) + after) == s,
{
    let lo = lemma_leading_white(s);
    lemma_trimmed_start_skip(s, lo);
    let t = s.subrange(lo, s.len() as int);
    let hi = lemma_trailing_white(t);
    lemma_trimmed_end_skip(t, hi);
    let before = s.subrange(0, lo);
    let after = t.subrange(hi, t.len() as int);
    assert(before + trimmed(s) + after =~= s);
    assert forall|i: int| 0 <= i < before.len() implies is_white_space(#[trigger] before[i]) by {
        assert(before[i] == s[i]);
    }
    assert forall|i: int| 0 <= i < after.len() implies is_white_space(#[trigger] after[i]) by {
        assert(after[i] == t[i + hi]);
    }
    if trimmed(s).len() > 0 {
        assert(t[0] == s[lo]);
        assert(trimmed(s)[0] == t[0]);
        assert(trimmed(s).last() == t[hi - 1]);
    }
}

proof fn lemma_leading_white(s: Seq<char>) -> (n: int)
    ensures
        0 <= n <= s.len(),
        forall|i: int| 0 <= i < n ==> is_white_space(#[trigger] s[i]),
        n < s.len() ==> !is_white_space(s[n]),
    decreases s.len(),
{
    if s.len() > 0 && is_white_space(s[0]) {
        let m = lemma_leading_white(s.drop_first());
        assert forall|i: int| 0 <= i < m + 1 implies is_white_space(#[trigger] s[i]) by {
            if i > 0 {
                assert(s.drop_first()[i - 1] == s[i]);
            }
        }
        if m < s.drop_first().len() {
            assert(s.drop_first()[m] == s[m + 1]);
        }
        m + 1
    } else {
        0
    }
}

proof fn lemma_trailing_white(s: Seq<char>) -> (n: int)
    ensures
        0 <= n <= s.len(),
        forall|i: int| n <= i < s.len() ==> is_white_space(#[trigger] s[i]),
        n > 0 ==> !is_white_space(s[n - 1]),
    decreases s.len(),
{
    if s.len() > 0 && is_white_space(s.last()) {
        let m = lemma_trailing_white(s.drop_last());
        assert forall|i: int| m <= i < s.len() implies is_white_space(#[trigger] s[i]) by {
            if i < s.len() - 1 {
                assert(s.drop_last()[i] == s[i]);
            }
        }
        m
    } else {
        s.len() as int
    }
}

/// A tight text is its own trimmed form.
pub proof fn lemma_trimmed_tight(s: Seq<char>)
    requires
        is_tight(s),
    ensures
        trimmed(s) == s,
{
    let none = Seq::<char>::empty();
    assert(none + s + none =~= s);
    lemma_trimmed_core(none, s, none);
}

/// The characters of `s`, by index.
pub fn chars_of(s: &str) -> (v: Vec<char>)
    ensures
        v@ == s@,
{
    let mut v: Vec<char> = Vec::new();
    for c in it: s.chars()
        invariant
            it.seq() == s@,
            v@ == s@.take(it.index()),
    {
        v.push(c);
        assert(s@.take(it.index() + 1) =~= s@.take(it.index()).push(c));
    }
    assert(s@.take(s@.len() as int) =~= s@);
    v
}

/// `s` without white space at either end.
pub fn trim(s: &str) -> (r: &str)
    ensures
        r@ == trimmed(s@),
{
    let v = chars_of(s);
    let n = v.len();
    let mut lo: usize = 0;
    while lo < n && white_space(v[lo])
        invariant
            n == v.len(),
            lo <= n,
            forall|i: int| 0 <= i < lo ==> is_white_space(#[trigger] v@[i]),
        decreases n - lo,
    {
        lo = lo + 1;
    }
    let mut hi: usize = n;
    while hi > lo && white_space(v[hi - 1])
        invariant
            n == v.len(),
            lo <= hi <= n,
            forall|i: int| hi <= i < n ==> is_white_space(#[trigger] v@[i]),
        decreases hi,
    {
        hi = hi - 1;
    }
    proof {
        lemma_trimmed_start_skip(s@, lo as int);
        let t = s@.subrange(lo as int, n as int);
        assert forall|i: int| hi - lo <= i < t.len() implies is_white_space(#[trigger] t[i]) by {
            assert(t[i] == v@[i + lo]);
        }
        if hi > lo {
            assert(t[hi - lo - 1] == v@[hi - 1]);
        }
        lemma_trimmed_end_skip(t, hi - lo);
        assert(t.subrange(0, hi - lo) =~= s@.subrange(lo as int, hi as int));
    }
    s.substring_char(lo, hi)
}

/// Whether nothing is left of `s` after trimming.
pub fn is_blank(s: &str) -> (b: bool)
    ensures
        b == (trimmed(s@).len() == 0),
{
    trim(s).is_empty()
}

/// The decimal digit of value `d`.
pub open spec fn digit_char(d: nat) -> char {
    if d == 0 {
        '0'
    } else if d == 1 {
        '1'
    } else if d == 2 {
        '2'
    } else if d == 3 {
        '3'
    } else if d == 4 {
        '4'
    } else if d == 5 {
        '5'
    } else if d == 6 {
        '6'
    } else if d == 7 {
        '7'
    } else if d == 8 {
        '8'
    } else {
        '9'
    }
}

/// `n` in decimal, without leading zeros.
pub open spec fn decimal_text(n: nat) -> Seq<char>
    decreases n,
{
    if n < 10 {
        seq![digit_char(n)]
    } else {
        decimal_text(n / 10).push(digit_char(n % 10))
    }
}

/// Different numbers are written differently.
pub proof fn lemma_decimal_injective(a: nat, b: nat)
    requires
        decimal_text(a) == decimal_text(b),
    ensures
        a == b,
    decreases a,
{
    let x = decimal_text(a);
    let y = decimal_text(b);
    lemma_decimal_not_empty(a);
    lemma_decimal_not_empty(b);
    assert(x.last() == digit_char(a % 10));
    assert(y.last() == digit_char(b % 10));
    if a >= 10 {
        lemma_decimal_not_empty(a / 10);
        assert(x.drop_last() =~= decimal_text(a / 10));
    }
    if b >= 10 {
        lemma_decimal_not_empty(b / 10);
        assert(y.drop_last() =~= decimal_text(b / 10));
    }
    if a >= 10 && b >= 10 {
        lemma_decimal_injective(a / 10, b / 10);
    }
}

proof fn lemma_decimal_not_empty(n: nat)
    ensures
        decimal_text(n).len() > 0,
        n < 10 <==> decimal_text(n).len() == 1,
    decreases n,
{
    if n >= 10 {
        lemma_decimal_not_empty(n / 10);
    }
}

fn digit(d: u128) -> (r: &'static str)
    requires
        d < 10,
    ensures
        r@ == seq![digit_char(d as nat)],
{
    proof {
        reveal_strlit("0");
        reveal_strlit("1");
        reveal_strlit("2");
        reveal_strlit("3");
        reveal_strlit("4");
        reveal_strlit("5");
        reveal_strlit("6");
        reveal_strlit("7");
        reveal_strlit("8");
        reveal_strlit("9");
    }
    let r = match d {
        0 => "0",
        1 => "1",
        2 => "2",
        3 => "3",
        4 => "4",
        5 => "5",
        6 => "6",
        7 => "7",
        8 => "8",
        _ => "9",
    };
    assert(r@ =~= seq![digit_char(d as nat)]);
    r
}

/// `n` in decimal, without leading zeros.
pub fn decimal(n: u128) -> (r: String)
    ensures
        r@ == decimal_text(n as nat),
    decreases n,
{
    if n < 10 {
        let mut r = String::new();
        r.append(digit(n));
        assert(r@ =~= decimal_text(n as nat));
        r
    } else {
        let mut r = decimal(n / 10);
        r.append(digit(n % 10));
        assert(r@ =~= decimal_text(n as nat));
        r
    }
}

/// Whether `needle` occurs in `text` as a run of consecutive characters.
pub open spec fn occurs_in(needle: Seq<char>, text: Seq<char>) -> bool {
    exists|at: int| #[trigger] occurs_at(needle, text, at)
}

/// Whether `needle` occurs in `text` from index `at` on.
pub open spec fn occurs_at(needle: Seq<char>, text: Seq<char>, at: int) -> bool {
    &&& 0 <= at
    &&& at + needle.len() <= text.len()
    &&& text.subrange(at, at + needle.len()) == needle
}

/// Whether `needle` occurs in `text`.
pub fn contains(text: &str, needle: &str) -> (b: bool)
    ensures
        b == occurs_in(needle@, text@),
{
    let t = chars_of(text);
    let p = chars_of(needle);
    if p.len() > t.len() {
        assert forall|at: int| !#[trigger] occurs_at(needle@, text@, at) by {}
        return false;
    }
    let last = t.len() - p.len();
    let mut at: usize = 0;
    while at <= last
        invariant
            t@ == text@,
            p@ == needle@,
            last == t.len() - p.len(),
            at <= last + 1,
            last < usize::MAX || at <= last,
            forall|k: int| 0 <= k < at ==> !#[trigger] occurs_at(needle@, text@, k),
        decreases last + 1 - at,
    {
        let mut n: usize = 0;
        while n < p.len() && t[at + n] == p[n]
            invariant
                n <= p.len(),
                at + p.len() <= t.len(),
                forall|k: int| 0 <= k < n ==> t@[at + k] == #[trigger] p@[k],
            decreases p.len() - n,
        {
            n = n + 1;
        }
        if n == p.len() {
            assert(text@.subrange(at as int, at + needle@.len()) =~= needle@);
            assert(occurs_at(needle@, text@, at as int));
            return true;
        }
        assert(!occurs_at(needle@, text@, at as int)) by {
            assert(text@.subrange(at as int, at + needle@.len())[n as int] == t@[at + n]);
        }
        if at == last {
            assert forall|k: int| !#[trigger] occurs_at(needle@, text@, k) by {}
            return false;
        }
        at = at + 1;
    }
    assert forall|k: int| !#[trigger] occurs_at(needle@, text@, k) by {}
    false
}

/// `c` with an ASCII capital letter replaced by its small letter.
pub open spec fn ascii_lower(c: char) -> char {
    if 'A' <= c <= 'Z' {
        (c as u32 + 32) as char
    } else {
        c
    }
}

/// Whether two texts are equal but for the case of ASCII letters.
pub open spec fn equal_ignoring_case(a: Seq<char>, b: Seq<char>) -> bool {
    &&& a.len() == b.len()
    &&& forall|i: int| 0 <= i < a.len() ==> ascii_lower(#[trigger] a[i]) == ascii_lower(b[i])
}

fn lower_code(c: char) -> (n: u32)
    ensures
        n == ascii_lower(c) as u32,
{
    if 'A' <= c && c <= 'Z' {
        c as u32 + 32
    } else {
        c as u32
    }
}

/// Whether two texts are equal but for the case of ASCII letters.
pub fn eq_ignore_ascii_case(a: &str, b: &str) -> (r: bool)
    ensures
        r == equal_ignoring_case(a@, b@),
{
    let x = chars_of(a);
    let y = chars_of(b);
    if x.len() != y.len() {
        return false;
    }
    let mut i: usize = 0;
    while i < x.len()
        invariant
            x@ == a@,
            y@ == b@,
            x.len() == y.len(),
            i <= x.len(),
            forall|k: int| 0 <= k < i ==> ascii_lower(#[trigger] a@[k]) == ascii_lower(b@[k]),
        decreases x.len() - i,
    {
        if lower_code(x[i]) != lower_code(y[i]) {
            return false;
        }
        i = i + 1;
    }
    true
}

/// The lower-case form of a text, by the Unicode property `Lowercase`.
pub uninterp spec fn lowercase_text(s: Seq<char>) -> Seq<char>;

/// `str::to_lowercase`: the lower-case form of `s`. It depends on `s` alone,
/// and on a text of ASCII characters it lowers each letter by itself.
#[verifier::external_body]
pub(crate) fn to_lowercase(s: &str) -> (r: String)
    ensures
        r@ == lowercase_text(s@),
        (forall|i: int| 0 <= i < s@.len() ==> (#[trigger] s@[i] as u32) < 128) ==> r@ == s@.map_values(
            |c: char| ascii_lower(c),
        ),
{
    s.to_lowercase()
}

/// The concatenation of two texts.
pub fn join(a: &str, b: &str) -> (r: String)
    ensures
        r@ == a@ + b@,
{
    let mut r = String::new();
    r.append(a);
    r.append(b);
    assert(r@ =~= a@ + b@);
    r
}

/// The concatenation of three texts.
pub fn join3(a: &str, b: &str, c: &str) -> (r: String)
    ensures
        r@ == a@ + b@ + c@,
{
    let mut r = join(a, b);
    r.append(c);
    r
}

/// A copy of an optional text.
pub fn copy_optional(o: &Option<String>) -> (r: Option<String>)
    ensures
        r.deep_view() == o.deep_view(),
{
    match o {
        Some(s) => Some(s.clone()),
        None => None,
    }
}

/// Whether an optional text is present and equal to `s`.
pub fn is_text(o: &Option<String>, s: &str) -> (b: bool)
    ensures
        b == (o.deep_view() == Some(s@)),
{
    match o {
        Some(t) => same(t.as_str(), s),
        None => false,
    }
}

/// Whether two texts are equal.
pub fn same(a: &str, b: &str) -> (r: bool)
    ensures
        r == (a@ == b@),
{
    a.to_owned() == b.to_owned()
}

} // verus!
