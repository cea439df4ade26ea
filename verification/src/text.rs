//! Character-level text handling: trimming, whitespace-separated tokens,
//! the normalisation of version strings and the parsing of the local URL
//! that the DSH server announces on its output.
use vstd::prelude::*;

verus! {

// ---------------------------------------------------------------------------
// Character classes
// ---------------------------------------------------------------------------

/// The Unicode `White_Space` property, which is what `char::is_whitespace`
/// (and so `str::trim` and `str::split_whitespace`) tests.
pub open spec fn is_space(c: char) -> bool {
    let u = c as u32;
    ||| 0x9 <= u <= 0xD
    ||| u == 0x20
    ||| u == 0x85
    ||| u == 0xA0
    ||| u == 0x1680
    ||| 0x2000 <= u <= 0x200A
    ||| u == 0x2028
    ||| u == 0x2029
    ||| u == 0x202F
    ||| u == 0x205F
    ||| u == 0x3000
}

/// An ASCII decimal digit.
pub open spec fn is_digit(c: char) -> bool {
    0x30 <= (c as u32) <= 0x39
}

/// The first character of a whitespace-separated word that looks like a
/// version: an ASCII digit or a lower-case `v`.
pub open spec fn starts_version(c: char) -> bool {
    is_digit(c) || c == 'v'
}

/// The classes of characters that the text functions strip from the ends of
/// a piece of text.
#[derive(PartialEq, Eq, Structural, Clone, Copy, Debug)]
pub enum CharClass {
    /// Unicode whitespace.
    Space,
    /// `v` or `V`, the prefix of a version such as `v1.2.3`.
    VersionPrefix,
    /// `.` or `-`, trailing punctuation after a version.
    VersionSuffix,
    /// `/`, a trailing slash of a URL.
    Slash,
}

pub open spec fn in_class(k: CharClass, c: char) -> bool {
    match k {
        CharClass::Space => is_space(c),
        CharClass::VersionPrefix => c == 'v' || c == 'V',
        CharClass::VersionSuffix => c == '.' || c == '-',
        CharClass::Slash => c == '/',
    }
}

pub fn is_space_char(c: char) -> (b: bool)
    ensures
        b == is_space(c),
{
    let u = c as u32;
    (0x9 <= u && u <= 0xD) || u == 0x20 || u == 0x85 || u == 0xA0 || u == 0x1680 || (0x2000 <= u
        && u <= 0x200A) || u == 0x2028 || u == 0x2029 || u == 0x202F || u == 0x205F || u == 0x3000
}

pub fn is_digit_char(c: char) -> (b: bool)
    ensures
        b == is_digit(c),
{
    let u = c as u32;
    0x30 <= u && u <= 0x39
}

pub fn char_in_class(k: CharClass, c: char) -> (b: bool)
    ensures
        b == in_class(k, c),
{
    match k {
        CharClass::Space => is_space_char(c),
        CharClass::VersionPrefix => c == 'v' || c == 'V',
        CharClass::VersionSuffix => c == '.' || c == '-',
        CharClass::Slash => c == '/',
    }
}

// ---------------------------------------------------------------------------
// Stripping and words
// ---------------------------------------------------------------------------

/// `s` without its leading characters of class `k`
/// (`str::trim_start_matches` for a set of characters).
pub open spec fn strip_front(s: Seq<char>, k: CharClass) -> Seq<char>
    decreases s.len(),
{
    if s.len() > 0 && in_class(k, s[0]) {
        strip_front(s.drop_first(), k)
    } else {
        s
    }
}

/// `s` without its trailing characters of class `k`
/// (`str::trim_end_matches` for a set of characters).
pub open spec fn strip_back(s: Seq<char>, k: CharClass) -> Seq<char>
    decreases s.len(),
{
    if s.len() > 0 && in_class(k, s.last()) {
        strip_back(s.drop_last(), k)
    } else {
        s
    }
}

/// `str::trim`: whitespace removed from both ends.
pub open spec fn trim(s: Seq<char>) -> Seq<char> {
    strip_back(strip_front(s, CharClass::Space), CharClass::Space)
}

/// The number of characters before the first whitespace character.
pub open spec fn word_len(s: Seq<char>) -> nat
    decreases s.len(),
{
    if s.len() > 0 && !is_space(s[0]) {
        1 + word_len(s.drop_first())
    } else {
        0
    }
}

/// The first whitespace-separated word of `s`
/// (`str::split_whitespace().next()`).
pub open spec fn first_word(s: Seq<char>) -> Option<Seq<char>> {
    let t = strip_front(s, CharClass::Space);
    if t.len() == 0 {
        None
    } else {
        Some(t.take(word_len(t) as int))
    }
}

pub proof fn lemma_strip_front(s: Seq<char>, k: CharClass)
    ensures
        strip_front(s, k).len() <= s.len(),
        strip_front(s, k).len() > 0 ==> !in_class(k, strip_front(s, k)[0]),
    decreases s.len(),
{
    if s.len() > 0 && in_class(k, s[0]) {
        lemma_strip_front(s.drop_first(), k);
    }
}

pub proof fn lemma_word_len(s: Seq<char>)
    ensures
        word_len(s) <= s.len(),
        s.len() > 0 && !is_space(s[0]) ==> word_len(s) >= 1,
    decreases s.len(),
{
    if s.len() > 0 && !is_space(s[0]) {
        lemma_word_len(s.drop_first());
    }
}

/// The first whitespace-separated word of `s` that starts like a version
/// (an ASCII digit or `v`), if any
/// (`split_whitespace().find(..)` in the version normalisation).
pub open spec fn version_word(s: Seq<char>) -> Option<Seq<char>>
    decreases s.len(),
{
    let t = strip_front(s, CharClass::Space);
    if t.len() == 0 {
        None
    } else if starts_version(t[0]) {
        Some(t.take(word_len(t) as int))
    } else {
        proof {
            lemma_strip_front(s, CharClass::Space);
            lemma_word_len(t);
        }
        version_word(t.skip(word_len(t) as int))
    }
}

/// The normalised form of a version text: its first word that starts like a
/// version (or, if there is none, the whole trimmed text), with leading `v`
/// and `V` and trailing `.` and `-` removed.
pub open spec fn normalized_version(s: Seq<char>) -> Seq<char> {
    let chosen = match version_word(s) {
        Some(w) => w,
        None => trim(s),
    };
    strip_back(strip_front(chosen, CharClass::VersionPrefix), CharClass::VersionSuffix)
}

// ---------------------------------------------------------------------------
// Executable helpers over a vector of characters
// ---------------------------------------------------------------------------

/// The characters of `s`, in order.
pub fn chars_of(s: &str) -> (v: Vec<char>)
    ensures
        v@ == s@,
{
    let n = s.unicode_len();
    let mut v: Vec<char> = Vec::new();
    let mut i: usize = 0;
    while i < n
        invariant
            i <= n,
            n == s@.len(),
            v@ == s@.subrange(0, i as int),
        decreases n - i,
    {
        let c = s.get_char(i);
        v.push(c);
        i = i + 1;
        assert(v@ =~= s@.subrange(0, i as int));
    }
    assert(v@ =~= s@);
    v
}

/// The first index at or after `lo` that is not of class `k`
/// (or `hi` if there is none).
fn skip_class_front(v: &Vec<char>, lo: usize, hi: usize, k: CharClass) -> (r: usize)
    requires
        lo <= hi <= v.len(),
    ensures
        lo <= r <= hi,
        strip_front(v@.subrange(lo as int, hi as int), k) == v@.subrange(r as int, hi as int),
        r < hi ==> !in_class(k, v@[r as int]),
{
    let mut r = lo;
    while r < hi && char_in_class(k, v[r])
        invariant
            lo <= r <= hi,
            hi <= v.len(),
            strip_front(v@.subrange(lo as int, hi as int), k) == strip_front(
                v@.subrange(r as int, hi as int),
                k,
            ),
        decreases hi - r,
    {
        assert(v@.subrange(r as int, hi as int).drop_first() =~= v@.subrange(r + 1, hi as int));
        r = r + 1;
    }
    r
}

/// The index after the last character before `hi` that is not of class `k`
/// (or `lo` if there is none).
fn skip_class_back(v: &Vec<char>, lo: usize, hi: usize, k: CharClass) -> (r: usize)
    requires
        lo <= hi <= v.len(),
    ensures
        lo <= r <= hi,
        strip_back(v@.subrange(lo as int, hi as int), k) == v@.subrange(lo as int, r as int),
{
    let mut r = hi;
    while r > lo && char_in_class(k, v[r - 1])
        invariant
            lo <= r <= hi,
            hi <= v.len(),
            strip_back(v@.subrange(lo as int, hi as int), k) == strip_back(
                v@.subrange(lo as int, r as int),
                k,
            ),
        decreases r - lo,
    {
        assert(v@.subrange(lo as int, r as int).drop_last() =~= v@.subrange(lo as int, r - 1));
        r = r - 1;
    }
    r
}

/// The end of the word that starts at `lo`.
fn skip_word(v: &Vec<char>, lo: usize, hi: usize) -> (r: usize)
    requires
        lo <= hi <= v.len(),
    ensures
        lo <= r <= hi,
        word_len(v@.subrange(lo as int, hi as int)) == r - lo,
        lo < hi && !is_space(v@[lo as int]) ==> r > lo,
{
    let mut r = lo;
    while r < hi && !is_space_char(v[r])
        invariant
            lo <= r <= hi,
            hi <= v.len(),
            word_len(v@.subrange(lo as int, hi as int)) == (r - lo) + word_len(
                v@.subrange(r as int, hi as int),
            ),
            lo < hi && !is_space(v@[lo as int]) && r == lo ==> r < hi,
        decreases hi - r,
    {
        assert(v@.subrange(r as int, hi as int).drop_first() =~= v@.subrange(r + 1, hi as int));
        r = r + 1;
    }
    r
}

/// The normalised form of a version text, for comparing the installed
/// version with the latest published one.
pub fn normalize_version(value: &str) -> (r: String)
    ensures
        r@ == normalized_version(value@),
{
    let v = chars_of(value);
    let n = v.len();
    let mut i: usize = 0;
    let mut found: Option<(usize, usize)> = None;
    assert(v@.subrange(0, n as int) =~= v@);
    loop
        invariant_except_break
            i <= n,
            n == v@.len(),
            found is None,
            version_word(v@) == version_word(v@.subrange(i as int, n as int)),
        ensures
            n == v@.len(),
            match found {
                Some((a, b)) => a <= b <= n && version_word(v@) == Some(
                    v@.subrange(a as int, b as int),
                ),
                None => version_word(v@) is None,
            },
        decreases n - i,
    {
        let j = skip_class_front(&v, i, n, CharClass::Space);
        if j == n {
            break ;
        }
        let k = skip_word(&v, j, n);
        if starts_version_char(v[j]) {
            assert(v@.subrange(j as int, n as int).take((k - j) as int) =~= v@.subrange(
                j as int,
                k as int,
            ));
            found = Some((j, k));
            break ;
        }
        assert(v@.subrange(j as int, n as int).skip((k - j) as int) =~= v@.subrange(
            k as int,
            n as int,
        ));
        i = k;
    }
    let (a, b) = match found {
        Some(p) => p,
        None => {
            let a = skip_class_front(&v, 0, n, CharClass::Space);
            let b = skip_class_back(&v, a, n, CharClass::Space);
            (a, b)
        },
    };
    let c = skip_class_front(&v, a, b, CharClass::VersionPrefix);
    let d = skip_class_back(&v, c, b, CharClass::VersionSuffix);
    String::from_str(value.substring_char(c, d))
}

fn starts_version_char(c: char) -> (b: bool)
    ensures
        b == starts_version(c),
{
    is_digit_char(c) || c == 'v'
}


/// `s` with whitespace removed from both ends.
pub fn trim_text(s: &str) -> (r: String)
    ensures
        r@ == trim(s@),
{
    let v = chars_of(s);
    let n = v.len();
    assert(v@.subrange(0, n as int) =~= v@);
    let a = skip_class_front(&v, 0, n, CharClass::Space);
    let b = skip_class_back(&v, a, n, CharClass::Space);
    String::from_str(s.substring_char(a, b))
}

// ---------------------------------------------------------------------------
// Lines
// ---------------------------------------------------------------------------

/// The number of characters before the first line feed.
pub open spec fn line_len(s: Seq<char>) -> nat
    decreases s.len(),
{
    if s.len() > 0 && s[0] != '\n' {
        1 + line_len(s.drop_first())
    } else {
        0
    }
}

/// The first line of `s` (`str::lines().next()` on a text that is not
/// empty): the characters before the first line feed, without the carriage
/// return of a `\r\n` that ends them (a carriage return at the very end of
/// the text, with no line feed after it, is kept).
pub open spec fn first_line(s: Seq<char>) -> Seq<char> {
    let l = s.take(line_len(s) as int);
    if l.len() > 0 && l.last() == '\r' && line_len(s) < s.len() {
        l.drop_last()
    } else {
        l
    }
}

/// The end of the line that starts at `lo`.
fn skip_line(v: &Vec<char>, lo: usize, hi: usize) -> (r: usize)
    requires
        lo <= hi <= v.len(),
    ensures
        lo <= r <= hi,
        line_len(v@.subrange(lo as int, hi as int)) == r - lo,
{
    let mut r = lo;
    while r < hi && v[r] != '\n'
        invariant
            lo <= r <= hi,
            hi <= v.len(),
            line_len(v@.subrange(lo as int, hi as int)) == (r - lo) + line_len(
                v@.subrange(r as int, hi as int),
            ),
        decreases hi - r,
    {
        assert(v@.subrange(r as int, hi as int).drop_first() =~= v@.subrange(r + 1, hi as int));
        r = r + 1;
    }
    r
}

/// The first line of `s`, trimmed (`s.lines().next().unwrap_or_default().trim()`).
pub fn first_line_trimmed(s: &str) -> (r: String)
    ensures
        r@ == trim(first_line(s@)),
{
    let v = chars_of(s);
    let n = v.len();
    assert(v@.subrange(0, n as int) =~= v@);
    let e = skip_line(&v, 0, n);
    let e2 = if e > 0 && e < n && v[e - 1] == '\r' {
        e - 1
    } else {
        e
    };
    assert(v@.take(e as int) =~= v@.subrange(0, e as int));
    if e > 0 {
        assert(v@.subrange(0, e as int).drop_last() =~= v@.subrange(0, e - 1));
    }
    assert(first_line(v@) =~= v@.subrange(0, e2 as int));
    let a = skip_class_front(&v, 0, e2, CharClass::Space);
    let b = skip_class_back(&v, a, e2, CharClass::Space);
    String::from_str(s.substring_char(a, b))
}

// ---------------------------------------------------------------------------
// Numbers
// ---------------------------------------------------------------------------

/// The value of a sequence of decimal digits.
pub open spec fn digits_value(s: Seq<char>) -> nat
    decreases s.len(),
{
    if s.len() == 0 {
        0
    } else {
        digits_value(s.drop_last()) * 10 + ((s.last() as u32) - 0x30) as nat
    }
}

/// The digits of an unsigned number, after an optional leading `+`.
pub open spec fn unsigned_digits(s: Seq<char>) -> Seq<char> {
    if s.len() > 0 && s[0] == '+' {
        s.drop_first()
    } else {
        s
    }
}

/// What `str::parse::<u16>` gives: an optional `+`, then at least one ASCII
/// digit and nothing else, of value at most 65535.
pub open spec fn parse_u16(s: Seq<char>) -> Option<u16> {
    let d = unsigned_digits(s);
    if d.len() > 0 && (forall|i: int| 0 <= i < d.len() ==> is_digit(#[trigger] d[i]))
        && digits_value(d) <= 65535 {
        Some(digits_value(d) as u16)
    } else {
        None
    }
}

/// `v[lo..hi]` read as a `u16`, as `str::parse::<u16>` reads it.
fn parse_u16_range(v: &Vec<char>, lo: usize, hi: usize) -> (r: Option<u16>)
    requires
        lo <= hi <= v.len(),
    ensures
        r == parse_u16(v@.subrange(lo as int, hi as int)),
{
    let ghost s = v@.subrange(lo as int, hi as int);
    let mut start = lo;
    if lo < hi && v[lo] == '+' {
        start = lo + 1;
        assert(s.drop_first() =~= v@.subrange(start as int, hi as int));
    }
    let ghost d = v@.subrange(start as int, hi as int);
    assert(unsigned_digits(s) == d);
    if start == hi {
        return None;
    }
    let mut acc: u32 = 0;
    let mut i = start;
    assert(v@.subrange(start as int, start as int) =~= Seq::<char>::empty());
    while i < hi
        invariant
            lo <= start <= i <= hi,
            hi <= v.len(),
            d == v@.subrange(start as int, hi as int),
            unsigned_digits(v@.subrange(lo as int, hi as int)) == d,
            forall|j: int| start <= j < i ==> is_digit(#[trigger] v@[j]),
            acc == if digits_value(v@.subrange(start as int, i as int)) > 65536 {
                65536
            } else {
                digits_value(v@.subrange(start as int, i as int))
            },
        decreases hi - i,
    {
        let c = v[i];
        if !is_digit_char(c) {
            assert(d[i - start] == c);
            assert(!is_digit(d[i - start]));
            return None;
        }
        let dv = (c as u32) - 0x30;
        let next = acc * 10 + dv;
        acc = if next > 65536 {
            65536
        } else {
            next
        };
        assert(v@.subrange(start as int, i + 1).drop_last() =~= v@.subrange(
            start as int,
            i as int,
        ));
        i = i + 1;
    }
    assert(v@.subrange(start as int, i as int) =~= d);
    assert forall|j: int| 0 <= j < d.len() implies is_digit(#[trigger] d[j]) by {
        assert(d[j] == v@[start + j]);
    }
    if acc > 65535 {
        None
    } else {
        Some(acc as u16)
    }
}

/// The decimal digit character of `d` (for `d` below ten).
pub open spec fn digit_char(d: int) -> char {
    if d == 0 {
        '0'
    } else if d == 1 {
        '1'
    } else if d == 2 {
        '2'
    } else if d == 3 {
        '3'
    } else if d == 4 {
        '4'
    } else if d == 5 {
        '5'
    } else if d == 6 {
        '6'
    } else if d == 7 {
        '7'
    } else if d == 8 {
        '8'
    } else {
        '9'
    }
}

/// The decimal representation of `n`, without leading zeros.
pub open spec fn decimal(n: nat) -> Seq<char>
    decreases n,
{
    if n < 10 {
        seq![digit_char(n as int)]
    } else {
        decimal(n / 10).push(digit_char((n % 10) as int))
    }
}

fn digit_text(d: u16) -> (r: &'static str)
    requires
        d < 10,
    ensures
        r@ == seq![digit_char(d as int)],
{
    proof {
        reveal_strlit("0");
        reveal_strlit("1");
        reveal_strlit("2");
        reveal_strlit("3");
        reveal_strlit("4");
        reveal_strlit("5");
        reveal_strlit("6");
        reveal_strlit("7");
        reveal_strlit("8");
        reveal_strlit("9");
    }
    let r = if d == 0 {
        "0"
    } else if d == 1 {
        "1"
    } else if d == 2 {
        "2"
    } else if d == 3 {
        "3"
    } else if d == 4 {
        "4"
    } else if d == 5 {
        "5"
    } else if d == 6 {
        "6"
    } else if d == 7 {
        "7"
    } else if d == 8 {
        "8"
    } else {
        "9"
    };
    assert(r@ =~= seq![digit_char(d as int)]);
    r
}

/// `n` written in decimal (`u16`'s `Display`).
pub fn decimal_text(n: u16) -> (r: String)
    ensures
        r@ == decimal(n as nat),
    decreases n,
{
    if n < 10 {
        String::from_str(digit_text(n))
    } else {
        let mut r = decimal_text(n / 10);
        r.append(digit_text(n % 10));
        assert(r@ =~= decimal(n as nat));
        r
    }
}

// ---------------------------------------------------------------------------
// The local URL announced by the DSH server
// ---------------------------------------------------------------------------

/// The first index at or after `i` where `p` occurs in `s` (`str::find`).
pub open spec fn find_from(s: Seq<char>, p: Seq<char>, i: int) -> Option<int>
    decreases s.len() - i,
{
    if i < 0 || i + p.len() > s.len() {
        None
    } else if s.subrange(i, i + p.len()) =~= p {
        Some(i)
    } else {
        find_from(s, p, i + 1)
    }
}

/// The part of `s` after its last `:`, or all of `s` if it has none
/// (`str::rsplit(':').next()`).
pub open spec fn after_last_colon(s: Seq<char>) -> Seq<char>
    decreases s.len(),
{
    if s.len() == 0 {
        s
    } else if s.last() == ':' {
        Seq::empty()
    } else {
        after_last_colon(s.drop_last()).push(s.last())
    }
}

/// The text that the DSH server writes before its local URL.
pub open spec fn url_marker() -> Seq<char> {
    "dsh web: http://127.0.0.1:"@
}

/// The part of the marker that precedes the URL.
pub open spec fn url_lead() -> Seq<char> {
    "dsh web: "@
}

/// The local URL that a line of DSH output announces: the first word after
/// `dsh web: ` (where `dsh web: http://127.0.0.1:` first occurs), without
/// trailing slashes, provided that what follows its last `:` is a port
/// number.
pub open spec fn local_url(line: Seq<char>) -> Option<Seq<char>> {
    match find_from(line, url_marker(), 0) {
        None => None,
        Some(i) => match first_word(line.skip(i + url_lead().len())) {
            None => None,
            Some(w) => {
                let candidate = strip_back(w, CharClass::Slash);
                if parse_u16(after_last_colon(candidate)) is Some {
                    Some(candidate)
                } else {
                    None
                }
            },
        },
    }
}

/// Whether `p` occurs in `v` at `i`.
fn occurs_at(v: &Vec<char>, p: &Vec<char>, i: usize) -> (b: bool)
    requires
        i + p.len() <= v.len(),
    ensures
        b == (v@.subrange(i as int, i + p.len()) =~= p@),
{
    let m = p.len();
    let mut j: usize = 0;
    while j < m
        invariant
            j <= m,
            m == p.len(),
            i + m <= v.len(),
            forall|k: int| 0 <= k < j ==> v@[i + k] == p@[k],
        decreases m - j,
    {
        if v[i + j] != p[j] {
            assert(v@.subrange(i as int, i + m)[j as int] != p@[j as int]);
            return false;
        }
        j = j + 1;
    }
    assert(v@.subrange(i as int, i + m) =~= p@);
    true
}

/// The first index where `p` occurs in `v`.
fn find_chars(v: &Vec<char>, p: &Vec<char>) -> (r: Option<usize>)
    ensures
        match r {
            Some(i) => find_from(v@, p@, 0) == Some(i as int) && i + p.len() <= v.len(),
            None => find_from(v@, p@, 0) is None,
        },
{
    let n = v.len();
    let m = p.len();
    if m > n {
        return None;
    }
    let mut i: usize = 0;
    while i <= n - m
        invariant
            m <= n,
            n == v.len(),
            m == p.len(),
            i <= n - m + 1,
            find_from(v@, p@, 0) == find_from(v@, p@, i as int),
        decreases n - m + 1 - i,
    {
        if occurs_at(v, p, i) {
            return Some(i);
        }
        i = i + 1;
    }
    None
}

/// The index after the last `:` in `v[lo..hi]` (or `lo` if there is none).
fn after_last_colon_start(v: &Vec<char>, lo: usize, hi: usize) -> (r: usize)
    requires
        lo <= hi <= v.len(),
    ensures
        lo <= r <= hi,
        after_last_colon(v@.subrange(lo as int, hi as int)) == v@.subrange(r as int, hi as int),
{
    let mut r = hi;
    assert(v@.subrange(hi as int, hi as int) =~= Seq::<char>::empty());
    assert(after_last_colon(v@.subrange(lo as int, hi as int)) =~= after_last_colon(
        v@.subrange(lo as int, hi as int),
    ) + v@.subrange(hi as int, hi as int));
    while r > lo && v[r - 1] != ':'
        invariant
            lo <= r <= hi,
            hi <= v.len(),
            after_last_colon(v@.subrange(lo as int, hi as int)) == after_last_colon(
                v@.subrange(lo as int, r as int),
            ) + v@.subrange(r as int, hi as int),
        decreases r - lo,
    {
        let ghost prefix = v@.subrange(lo as int, r as int);
        assert(prefix.drop_last() =~= v@.subrange(lo as int, r - 1));
        assert(after_last_colon(prefix) == after_last_colon(prefix.drop_last()).push(v@[r - 1]));
        assert(after_last_colon(prefix.drop_last()).push(v@[r - 1]) + v@.subrange(
            r as int,
            hi as int,
        ) =~= after_last_colon(prefix.drop_last()) + v@.subrange(r - 1, hi as int));
        r = r - 1;
    }
    assert(after_last_colon(v@.subrange(lo as int, r as int)) =~= Seq::<char>::empty());
    assert(Seq::<char>::empty() + v@.subrange(r as int, hi as int) =~= v@.subrange(
        r as int,
        hi as int,
    ));
    r
}

/// The local URL that a line of DSH output announces, if any.
pub fn extract_local_url(line: &str) -> (r: Option<String>)
    ensures
        match r {
            Some(u) => local_url(line@) == Some(u@),
            None => local_url(line@) is None,
        },
{
    proof {
        reveal_strlit("dsh web: ");
        reveal_strlit("dsh web: http://127.0.0.1:");
    }
    let v = chars_of(line);
    let marker = chars_of("dsh web: http://127.0.0.1:");
    let n = v.len();
    match find_chars(&v, &marker) {
        None => None,
        Some(i) => {
            let start = i + 9;
            assert(line@.skip(i + url_lead().len()) =~= v@.subrange(start as int, n as int));
            let a = skip_class_front(&v, start, n, CharClass::Space);
            if a == n {
                return None;
            }
            let k = skip_word(&v, a, n);
            assert(v@.subrange(a as int, n as int).take((k - a) as int) =~= v@.subrange(
                a as int,
                k as int,
            ));
            let e = skip_class_back(&v, a, k, CharClass::Slash);
            let p = after_last_colon_start(&v, a, e);
            match parse_u16_range(&v, p, e) {
                Some(_) => Some(String::from_str(line.substring_char(a, e))),
                None => None,
            }
        },
    }
}

/// The port of a local URL (`url.rsplit(':').next()` read as a `u16`).
pub open spec fn url_port(url: Seq<char>) -> Option<u16> {
    parse_u16(after_last_colon(url))
}

/// The port of a local URL, if what follows its last `:` is a port number.
pub fn port_of_url(url: &str) -> (r: Option<u16>)
    ensures
        r == url_port(url@),
{
    let v = chars_of(url);
    let n = v.len();
    assert(v@.subrange(0, n as int) =~= v@);
    let p = after_last_colon_start(&v, 0, n);
    parse_u16_range(&v, p, n)
}


// ---------------------------------------------------------------------------
// Facts about the local URL
// ---------------------------------------------------------------------------

proof fn lemma_find_from(s: Seq<char>, p: Seq<char>, j: int)
    ensures
        find_from(s, p, j) matches Some(i) ==> j <= i && i + p.len() <= s.len()
            && s.subrange(i, i + p.len()) == p,
    decreases s.len() - j,
{
    if j < 0 || j + p.len() > s.len() {
    } else if s.subrange(j, j + p.len()) =~= p {
    } else {
        lemma_find_from(s, p, j + 1);
    }
}

pub proof fn lemma_word_len_at_least(s: Seq<char>, m: nat)
    requires
        m <= s.len(),
        forall|k: int| 0 <= k < m ==> !is_space(#[trigger] s[k]),
    ensures
        word_len(s) >= m,
    decreases m,
{
    if m > 0 {
        assert(!is_space(s[0]));
        assert forall|k: int| 0 <= k < m - 1 implies !is_space(#[trigger] s.drop_first()[k]) by {
            assert(s.drop_first()[k] == s[k + 1]);
        }
        lemma_word_len_at_least(s.drop_first(), (m - 1) as nat);
    }
}

proof fn lemma_strip_back_prefix(s: Seq<char>, k: CharClass, j: int)
    requires
        0 <= j < s.len(),
        !in_class(k, s[j]),
    ensures
        j < strip_back(s, k).len() <= s.len(),
        strip_back(s, k) == s.take(strip_back(s, k).len() as int),
    decreases s.len(),
{
    if in_class(k, s.last()) {
        assert(j < s.len() - 1);
        assert(s.drop_last()[j] == s[j]);
        lemma_strip_back_prefix(s.drop_last(), k, j);
        assert(s.drop_last().take(strip_back(s, k).len() as int) =~= s.take(
            strip_back(s, k).len() as int,
        ));
    } else {
        assert(s.take(s.len() as int) =~= s);
    }
}

/// The address that DSH is reached at: a URL announced on its output is
/// taken only if it is on the loopback address 127.0.0.1, and only with a
/// port number after its last `:`.
pub proof fn local_url_is_loopback(line: Seq<char>)
    ensures
        local_url(line) matches Some(u) ==> u.len() >= 17 && u.take(17) == "http://127.0.0.1:"@
            && url_port(u) is Some,
{
    reveal_strlit("dsh web: http://127.0.0.1:");
    reveal_strlit("dsh web: ");
    reveal_strlit("http://127.0.0.1:");
    if let Some(u) = local_url(line) {
        let i = find_from(line, url_marker(), 0)->Some_0;
        lemma_find_from(line, url_marker(), 0);
        assert(url_lead().len() == 9);
        let rest = line.skip(i + 9);
        let host = "http://127.0.0.1:"@;
        assert forall|k: int| 0 <= k < 17 implies rest[k] == host[k] by {
            assert(rest[k] == line[i + 9 + k]);
            assert(line.subrange(i, i + 26)[9 + k] == line[i + 9 + k]);
        }
        assert forall|k: int| 0 <= k < 17 implies !is_space(#[trigger] rest[k]) by {
            assert(rest[k] == host[k]);
        }
        assert(strip_front(rest, CharClass::Space) == rest);
        lemma_word_len_at_least(rest, 17);
        let w = rest.take(word_len(rest) as int);
        lemma_word_len(rest);
        assert(w[16] == ':');
        lemma_strip_back_prefix(w, CharClass::Slash, 16);
        let c = strip_back(w, CharClass::Slash);
        assert(first_word(rest) == Some(w));
        assert(c == u);
        assert(u.take(17) =~= host);
    }
}

} // verus!
