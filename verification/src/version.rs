//! The order of version numbers, as semantic versioning orders them: the
//! core (`1.2.3`) first, its dot-separated parts compared one after the
//! other by the value of their leading decimal digits, a missing part
//! counting as zero; of two versions with equal cores, a pre-release
//! (`1.2.3-beta.1`) comes before the release, and two pre-releases are
//! ordered by their dot-separated identifiers. Build metadata (after `+`)
//! does not count.
use vstd::prelude::*;
use crate::text::{chars_of, digits_value, is_digit, is_digit_char};

verus! {

/// The number of leading ASCII digits of `s`.
pub open spec fn digit_len(s: Seq<char>) -> nat
    decreases s.len(),
{
    if s.len() > 0 && is_digit(s[0]) {
        1 + digit_len(s.drop_first())
    } else {
        0
    }
}

/// The number of characters before the first `.` of `s`.
pub open spec fn part_len(s: Seq<char>) -> nat
    decreases s.len(),
{
    if s.len() > 0 && s[0] != '.' {
        1 + part_len(s.drop_first())
    } else {
        0
    }
}

/// The value of the first part of a version: the number that its leading
/// digits write (zero if there are none).
pub open spec fn part_value(s: Seq<char>) -> nat {
    digits_value(s.take(digit_len(s) as int))
}

/// The parts of a version after its first: what follows its first `.`
/// (nothing if there is none).
pub open spec fn later_parts(s: Seq<char>) -> Seq<char> {
    if part_len(s) < s.len() {
        s.skip(part_len(s) + 1int)
    } else {
        Seq::empty()
    }
}

/// Whether the version core `a` comes before the core `b`: at the first
/// part where their values differ, that of `a` is smaller.
pub open spec fn core_less(a: Seq<char>, b: Seq<char>) -> bool
    decreases a.len() + b.len(),
{
    if a.len() == 0 && b.len() == 0 {
        false
    } else if part_value(a) != part_value(b) {
        part_value(a) < part_value(b)
    } else {
        proof {
            lemma_part_len(a);
            lemma_part_len(b);
        }
        core_less(later_parts(a), later_parts(b))
    }
}

pub proof fn lemma_part_len(s: Seq<char>)
    ensures
        part_len(s) <= s.len(),
        part_len(s) < s.len() ==> s[part_len(s) as int] == '.',
    decreases s.len(),
{
    if s.len() > 0 && s[0] != '.' {
        lemma_part_len(s.drop_first());
    }
}

// ---------------------------------------------------------------------------
// The value of a run of digits
// ---------------------------------------------------------------------------

/// Ten to the power `n`.
pub open spec fn pow10(n: nat) -> nat
    decreases n,
{
    if n == 0 {
        1
    } else {
        10 * pow10((n - 1) as nat)
    }
}

proof fn lemma_pow10_positive(n: nat)
    ensures
        pow10(n) >= 1,
    decreases n,
{
    if n > 0 {
        lemma_pow10_positive((n - 1) as nat);
    }
}

proof fn lemma_pow10_grows(i: nat, j: nat)
    requires
        i <= j,
    ensures
        pow10(i) <= pow10(j),
    decreases j,
{
    if i < j {
        lemma_pow10_grows(i, (j - 1) as nat);
        lemma_pow10_positive((j - 1) as nat);
    }
}

/// The value of digits followed by more digits.
proof fn lemma_digits_append(s: Seq<char>, t: Seq<char>)
    ensures
        digits_value(s + t) == digits_value(s) * pow10(t.len()) + digits_value(t),
    decreases t.len(),
{
    if t.len() == 0 {
        assert(s + t =~= s);
        assert(digits_value(t) == 0);
        let v = digits_value(s);
        let p = pow10(t.len());
        assert(p == 1);
        assert(p == 1 ==> v * p == v) by (nonlinear_arith);
    } else {
        let d = ((t.last() as u32) - 0x30) as nat;
        assert((s + t).drop_last() =~= s + t.drop_last());
        assert((s + t).last() == t.last());
        assert(digits_value(s + t) == digits_value(s + t.drop_last()) * 10 + d);
        assert(digits_value(t) == digits_value(t.drop_last()) * 10 + d);
        assert(pow10(t.len()) == 10 * pow10((t.len() - 1) as nat));
        lemma_digits_append(s, t.drop_last());
        let a = digits_value(s);
        let p = pow10((t.len() - 1) as nat);
        let b = digits_value(t.drop_last());
        assert((a * p + b) * 10 + d == a * (10 * p) + (b * 10 + d)) by (nonlinear_arith);
        assert(digits_value(s + t) == a * (10 * p) + (b * 10 + d));
    }
}

/// Every character of `s` is an ASCII digit.
pub open spec fn all_digits(s: Seq<char>) -> bool {
    forall|i: int| 0 <= i < s.len() ==> is_digit(#[trigger] s[i])
}

proof fn lemma_digits_below(s: Seq<char>)
    requires
        all_digits(s),
    ensures
        digits_value(s) < pow10(s.len()),
    decreases s.len(),
{
    if s.len() > 0 {
        let t = s.drop_last();
        assert(all_digits(t)) by {
            assert forall|i: int| 0 <= i < t.len() implies is_digit(#[trigger] t[i]) by {
                assert(t[i] == s[i]);
            }
        }
        lemma_digits_below(t);
        assert(is_digit(s[s.len() - 1]));
        let d = ((s.last() as u32) - 0x30) as nat;
        let v = digits_value(t);
        let p = pow10(t.len());
        assert(v + 1 <= p && d <= 9 ==> v * 10 + d < 10 * p) by (nonlinear_arith);
    }
}

proof fn lemma_digits_above(s: Seq<char>)
    requires
        all_digits(s),
        s.len() > 0,
        s[0] != '0',
    ensures
        digits_value(s) >= pow10((s.len() - 1) as nat),
{
    let head = s.take(1);
    let rest = s.skip(1);
    assert(head + rest =~= s);
    lemma_digits_append(head, rest);
    assert(head.drop_last() =~= Seq::<char>::empty());
    assert(digits_value(Seq::<char>::empty()) == 0);
    assert(head.last() == s[0]);
    assert(is_digit(s[0]));
    if (s[0] as u32) == ('0' as u32) {
        lemma_same_code(s[0], '0');
    }
    assert(digits_value(head) >= 1);
    let h = digits_value(head);
    let p = pow10(rest.len());
    assert(h >= 1 ==> h * p >= p) by (nonlinear_arith);
}

/// Characters with the same code are the same character.
proof fn lemma_same_code(a: char, b: char)
    requires
        (a as u32) == (b as u32),
    ensures
        a == b,
{
    vstd::utf8::char_u32_cast(a, a as u32);
    vstd::utf8::char_u32_cast(b, b as u32);
}

proof fn lemma_leading_zero(t: Seq<char>)
    ensures
        digits_value(seq!['0'] + t) == digits_value(t),
{
    lemma_digits_append(seq!['0'], t);
    assert(seq!['0'].drop_last() =~= Seq::<char>::empty());
    assert(digits_value(Seq::<char>::empty()) == 0);
    let z = digits_value(seq!['0']);
    let p = pow10(t.len());
    assert(z == 0);
    assert(z == 0 ==> z * p == 0) by (nonlinear_arith);
}

/// Of two runs of digits of one length, the one with the smaller digit at
/// the first place where they differ has the smaller value.
proof fn lemma_digits_first_difference(s: Seq<char>, t: Seq<char>, k: int)
    requires
        s.len() == t.len(),
        all_digits(s),
        all_digits(t),
        0 <= k < s.len(),
        s.take(k) == t.take(k),
        (s[k] as u32) < (t[k] as u32),
    ensures
        digits_value(s) < digits_value(t),
{
    let m = (s.len() - k - 1) as nat;
    let sh = s.take(k + 1);
    let th = t.take(k + 1);
    let sr = s.skip(k + 1);
    let tr = t.skip(k + 1);
    assert(sh + sr =~= s);
    assert(th + tr =~= t);
    lemma_digits_append(sh, sr);
    lemma_digits_append(th, tr);
    assert(sh.drop_last() =~= s.take(k));
    assert(th.drop_last() =~= t.take(k));
    assert(all_digits(sr)) by {
        assert forall|i: int| 0 <= i < sr.len() implies is_digit(#[trigger] sr[i]) by {
            assert(sr[i] == s[k + 1 + i]);
        }
    }
    lemma_digits_below(sr);
    assert(is_digit(s[k]) && is_digit(t[k]));
    let a = digits_value(s.take(k));
    let ds = ((s[k] as u32) - 0x30) as nat;
    let dt = ((t[k] as u32) - 0x30) as nat;
    assert(sh.last() == s[k]);
    assert(th.last() == t[k]);
    let p = pow10(m);
    let vs = digits_value(sr);
    let vt = digits_value(tr);
    assert(ds + 1 <= dt && vs < p ==> (a * 10 + ds) * p + vs < (a * 10 + dt) * p + vt)
        by (nonlinear_arith);
}

// ---------------------------------------------------------------------------
// Executable comparison
// ---------------------------------------------------------------------------

/// The end of the run of digits that starts at `lo`.
fn skip_digits(v: &Vec<char>, lo: usize, hi: usize) -> (r: usize)
    requires
        lo <= hi <= v.len(),
    ensures
        lo <= r <= hi,
        digit_len(v@.subrange(lo as int, hi as int)) == r - lo,
        forall|j: int| lo <= j < r ==> is_digit(#[trigger] v@[j]),
        r < hi ==> !is_digit(v@[r as int]),
{
    let mut r = lo;
    while r < hi && is_digit_char(v[r])
        invariant
            lo <= r <= hi,
            hi <= v.len(),
            digit_len(v@.subrange(lo as int, hi as int)) == (r - lo) + digit_len(
                v@.subrange(r as int, hi as int),
            ),
            forall|j: int| lo <= j < r ==> is_digit(#[trigger] v@[j]),
        decreases hi - r,
    {
        assert(v@.subrange(r as int, hi as int).drop_first() =~= v@.subrange(r + 1, hi as int));
        r = r + 1;
    }
    r
}

/// The end of the part of a version that starts at `lo`.
fn skip_part(v: &Vec<char>, lo: usize, hi: usize) -> (r: usize)
    requires
        lo <= hi <= v.len(),
    ensures
        lo <= r <= hi,
        part_len(v@.subrange(lo as int, hi as int)) == r - lo,
{
    let mut r = lo;
    while r < hi && v[r] != '.'
        invariant
            lo <= r <= hi,
            hi <= v.len(),
            part_len(v@.subrange(lo as int, hi as int)) == (r - lo) + part_len(
                v@.subrange(r as int, hi as int),
            ),
        decreases hi - r,
    {
        assert(v@.subrange(r as int, hi as int).drop_first() =~= v@.subrange(r + 1, hi as int));
        r = r + 1;
    }
    r
}

/// The first index at or after `lo` that is not a `0` (or `hi`), the
/// digits in between not counting for the value.
fn skip_zeros(v: &Vec<char>, lo: usize, hi: usize) -> (r: usize)
    requires
        lo <= hi <= v.len(),
    ensures
        lo <= r <= hi,
        r < hi ==> v@[r as int] != '0',
        digits_value(v@.subrange(lo as int, hi as int)) == digits_value(
            v@.subrange(r as int, hi as int),
        ),
{
    let mut r = lo;
    while r < hi && v[r] == '0'
        invariant
            lo <= r <= hi,
            hi <= v.len(),
            digits_value(v@.subrange(lo as int, hi as int)) == digits_value(
                v@.subrange(r as int, hi as int),
            ),
        decreases hi - r,
    {
        assert(v@.subrange(r as int, hi as int) =~= seq!['0'] + v@.subrange(r + 1, hi as int));
        proof {
            lemma_leading_zero(v@.subrange(r + 1, hi as int));
        }
        r = r + 1;
    }
    r
}

/// The sign of the difference of the values of the digits `a[alo..ahi]`
/// and `b[blo..bhi]`: negative, zero or positive.
fn compare_digits(a: &Vec<char>, alo: usize, ahi: usize, b: &Vec<char>, blo: usize, bhi: usize) -> (r:
    i8)
    requires
        alo <= ahi <= a.len(),
        blo <= bhi <= b.len(),
        all_digits(a@.subrange(alo as int, ahi as int)),
        all_digits(b@.subrange(blo as int, bhi as int)),
    ensures
        (r < 0) == (digits_value(a@.subrange(alo as int, ahi as int)) < digits_value(
            b@.subrange(blo as int, bhi as int),
        )),
        (r == 0) == (digits_value(a@.subrange(alo as int, ahi as int)) == digits_value(
            b@.subrange(blo as int, bhi as int),
        )),
{
    let ia = skip_zeros(a, alo, ahi);
    let ib = skip_zeros(b, blo, bhi);
    let ghost sa = a@.subrange(ia as int, ahi as int);
    let ghost sb = b@.subrange(ib as int, bhi as int);
    proof {
        assert(all_digits(sa)) by {
            assert forall|i: int| 0 <= i < sa.len() implies is_digit(#[trigger] sa[i]) by {
                assert(sa[i] == a@.subrange(alo as int, ahi as int)[ia - alo + i]);
            }
        }
        assert(all_digits(sb)) by {
            assert forall|i: int| 0 <= i < sb.len() implies is_digit(#[trigger] sb[i]) by {
                assert(sb[i] == b@.subrange(blo as int, bhi as int)[ib - blo + i]);
            }
        }
        lemma_digits_below(sa);
        lemma_digits_below(sb);
        if sa.len() > 0 {
            lemma_digits_above(sa);
        }
        if sb.len() > 0 {
            lemma_digits_above(sb);
        }
    }
    let la = ahi - ia;
    let lb = bhi - ib;
    if la < lb {
        proof {
            lemma_pow10_grows(la as nat, (lb - 1) as nat);
            assert(digits_value(sa) < pow10(la as nat));
            assert(sb[0] != '0');
            assert(digits_value(sb) >= pow10((lb - 1) as nat));
        }
        return -1;
    }
    if la > lb {
        proof {
            lemma_pow10_grows(lb as nat, (la - 1) as nat);
        }
        return 1;
    }
    let mut k: usize = 0;
    while k < la
        invariant
            k <= la,
            la == lb,
            la == ahi - ia,
            lb == bhi - ib,
            ia <= ahi <= a.len(),
            ib <= bhi <= b.len(),
            sa == a@.subrange(ia as int, ahi as int),
            sb == b@.subrange(ib as int, bhi as int),
            all_digits(sa),
            all_digits(sb),
            sa.take(k as int) == sb.take(k as int),
            digits_value(a@.subrange(alo as int, ahi as int)) == digits_value(sa),
            digits_value(b@.subrange(blo as int, bhi as int)) == digits_value(sb),
        decreases la - k,
    {
        let ca = a[ia + k];
        let cb = b[ib + k];
        assert(sa[k as int] == ca);
        assert(sb[k as int] == cb);
        if (ca as u32) < (cb as u32) {
            proof {
                lemma_digits_first_difference(sa, sb, k as int);
            }
            return -1;
        }
        if (ca as u32) > (cb as u32) {
            proof {
                lemma_digits_first_difference(sb, sa, k as int);
            }
            return 1;
        }
        proof {
            lemma_same_code(ca, cb);
        }
        assert(sa.take(k + 1) =~= sa.take(k as int).push(ca));
        assert(sb.take(k + 1) =~= sb.take(k as int).push(cb));
        k = k + 1;
    }
    assert(sa =~= sa.take(la as int));
    assert(sb =~= sb.take(lb as int));
    0
}

/// Whether the version core `va[..ahi]` comes before the core `vb[..bhi]`.
fn core_before(va: &Vec<char>, ahi: usize, vb: &Vec<char>, bhi: usize) -> (r: bool)
    requires
        ahi <= va.len(),
        bhi <= vb.len(),
    ensures
        r == core_less(va@.subrange(0, ahi as int), vb@.subrange(0, bhi as int)),
{
    let na = ahi;
    let nb = bhi;
    let mut i: usize = 0;
    let mut j: usize = 0;
    loop
        invariant
            i <= na,
            j <= nb,
            na <= va@.len(),
            nb <= vb@.len(),
            core_less(va@.subrange(0, ahi as int), vb@.subrange(0, bhi as int)) == core_less(
                va@.subrange(i as int, na as int),
                vb@.subrange(j as int, nb as int),
            ),
        decreases (na - i) + (nb - j),
    {
        let ghost sa = va@.subrange(i as int, na as int);
        let ghost sb = vb@.subrange(j as int, nb as int);
        if i == na && j == nb {
            return false;
        }
        let da = skip_digits(va, i, na);
        let db = skip_digits(vb, j, nb);
        assert(sa.take(da - i) =~= va@.subrange(i as int, da as int));
        assert(sb.take(db - j) =~= vb@.subrange(j as int, db as int));
        proof {
            lemma_digit_range(va@, i as int, da as int);
            lemma_digit_range(vb@, j as int, db as int);
        }
        let c = compare_digits(va, i, da, vb, j, db);
        if c < 0 {
            return true;
        }
        if c > 0 {
            return false;
        }
        let ea = skip_part(va, i, na);
        let eb = skip_part(vb, j, nb);
        let ni = if ea < na {
            ea + 1
        } else {
            na
        };
        let nj = if eb < nb {
            eb + 1
        } else {
            nb
        };
        assert(later_parts(sa) =~= va@.subrange(ni as int, na as int));
        assert(later_parts(sb) =~= vb@.subrange(nj as int, nb as int));
        i = ni;
        j = nj;
    }
}

proof fn lemma_digit_range(v: Seq<char>, lo: int, hi: int)
    requires
        0 <= lo <= hi <= v.len(),
        forall|j: int| lo <= j < hi ==> is_digit(#[trigger] v[j]),
    ensures
        all_digits(v.subrange(lo, hi)),
{
    assert forall|x: int| 0 <= x < hi - lo implies is_digit(#[trigger] v.subrange(lo, hi)[x]) by {
        assert(v.subrange(lo, hi)[x] == v[lo + x]);
    }
}

// ---------------------------------------------------------------------------
// Cores, pre-releases and the whole order
// ---------------------------------------------------------------------------

/// The number of characters before the first `-` or `+` of `s`: the length
/// of the version core.
pub open spec fn core_len(s: Seq<char>) -> nat
    decreases s.len(),
{
    if s.len() > 0 && s[0] != '-' && s[0] != '+' {
        1 + core_len(s.drop_first())
    } else {
        0
    }
}

/// The number of characters before the first `+` of `s`.
pub open spec fn plus_len(s: Seq<char>) -> nat
    decreases s.len(),
{
    if s.len() > 0 && s[0] != '+' {
        1 + plus_len(s.drop_first())
    } else {
        0
    }
}

/// The core of a version: `1.2.3` of `1.2.3-beta.1+build`.
pub open spec fn version_core(s: Seq<char>) -> Seq<char> {
    s.take(core_len(s) as int)
}

/// Whether a version is a pre-release: its core is followed by `-`.
pub open spec fn has_pre(s: Seq<char>) -> bool {
    core_len(s) < s.len() && s[core_len(s) as int] == '-'
}

/// The pre-release of a version: what follows the `-` after its core, up to
/// the build metadata (`beta.1` of `1.2.3-beta.1+build`).
pub open spec fn pre_release(s: Seq<char>) -> Seq<char> {
    let r = s.skip(core_len(s) + 1int);
    r.take(plus_len(r) as int)
}

/// A numeric identifier of a pre-release: one or more ASCII digits.
pub open spec fn numeric_ident(p: Seq<char>) -> bool {
    p.len() > 0 && all_digits(p)
}

/// The order of text by character codes, a proper prefix coming first.
pub open spec fn text_less(p: Seq<char>, q: Seq<char>) -> bool
    decreases p.len(),
{
    if p.len() == 0 {
        q.len() > 0
    } else if q.len() == 0 {
        false
    } else if p[0] != q[0] {
        (p[0] as u32) < (q[0] as u32)
    } else {
        text_less(p.drop_first(), q.drop_first())
    }
}

/// The order of pre-release identifiers: numeric ones by value and before
/// all others, the others by character codes.
pub open spec fn ident_less(p: Seq<char>, q: Seq<char>) -> bool {
    if numeric_ident(p) && numeric_ident(q) {
        digits_value(p) < digits_value(q)
    } else if numeric_ident(p) {
        true
    } else if numeric_ident(q) {
        false
    } else {
        text_less(p, q)
    }
}

/// The order of pre-releases: at the first identifier where they differ,
/// that of `x` comes first; if all identifiers of one are those the other
/// starts with, the one with fewer identifiers comes first.
pub open spec fn idents_less(x: Seq<char>, y: Seq<char>) -> bool
    decreases x.len() + y.len(),
{
    let px = x.take(part_len(x) as int);
    let py = y.take(part_len(y) as int);
    if ident_less(px, py) {
        true
    } else if ident_less(py, px) {
        false
    } else if part_len(x) >= x.len() {
        part_len(y) < y.len()
    } else if part_len(y) >= y.len() {
        false
    } else {
        idents_less(x.skip(part_len(x) + 1int), y.skip(part_len(y) + 1int))
    }
}

/// Whether version `a` comes before version `b` when their cores are equal:
/// `a` is a pre-release and `b` is the release, or both are pre-releases and
/// that of `a` comes first.
pub open spec fn pre_less(a: Seq<char>, b: Seq<char>) -> bool {
    has_pre(a) && (!has_pre(b) || idents_less(pre_release(a), pre_release(b)))
}

/// Whether version `a` comes before version `b`: its core comes first, or
/// the cores are equal and `a` comes first as a pre-release.
pub open spec fn version_less(a: Seq<char>, b: Seq<char>) -> bool {
    core_less(version_core(a), version_core(b)) || (!core_less(version_core(b), version_core(a)) && pre_less(a, b))
}

// ---------------------------------------------------------------------------
// The order is strict
// ---------------------------------------------------------------------------

pub proof fn lemma_core_less_asymmetric(a: Seq<char>, b: Seq<char>)
    ensures
        core_less(a, b) ==> !core_less(b, a),
    decreases a.len() + b.len(),
{
    if a.len() == 0 && b.len() == 0 {
    } else if part_value(a) != part_value(b) {
    } else {
        lemma_part_len(a);
        lemma_part_len(b);
        lemma_core_less_asymmetric(later_parts(a), later_parts(b));
    }
}

proof fn lemma_text_less_asymmetric(p: Seq<char>, q: Seq<char>)
    ensures
        text_less(p, q) ==> !text_less(q, p),
    decreases p.len(),
{
    if p.len() > 0 && q.len() > 0 && p[0] == q[0] {
        lemma_text_less_asymmetric(p.drop_first(), q.drop_first());
    }
}

proof fn lemma_idents_less_asymmetric(x: Seq<char>, y: Seq<char>)
    ensures
        idents_less(x, y) ==> !idents_less(y, x),
    decreases x.len() + y.len(),
{
    let px = x.take(part_len(x) as int);
    let py = y.take(part_len(y) as int);
    lemma_text_less_asymmetric(px, py);
    lemma_text_less_asymmetric(py, px);
    lemma_part_len(x);
    lemma_part_len(y);
    if part_len(x) < x.len() && part_len(y) < y.len() {
        lemma_idents_less_asymmetric(x.skip(part_len(x) + 1int), y.skip(part_len(y) + 1int));
    }
}

/// The order of versions is strict: no version comes before itself, and of
/// two versions at most one comes before the other.
pub proof fn lemma_version_less_asymmetric(a: Seq<char>, b: Seq<char>)
    ensures
        version_less(a, b) ==> !version_less(b, a),
{
    lemma_core_less_asymmetric(version_core(a), version_core(b));
    lemma_idents_less_asymmetric(pre_release(a), pre_release(b));
}

/// The core of a version is its own core.
pub proof fn lemma_core_of_core(a: Seq<char>)
    ensures
        core_len(version_core(a)) == version_core(a).len(),
        core_len(a) <= a.len(),
    decreases a.len(),
{
    if a.len() > 0 && a[0] != '-' && a[0] != '+' {
        lemma_core_of_core(a.drop_first());
        assert(version_core(a).drop_first() =~= version_core(a.drop_first()));
    }
}

// ---------------------------------------------------------------------------
// Facts about cores that share a prefix
// ---------------------------------------------------------------------------

proof fn lemma_digit_len_agree(s1: Seq<char>, s2: Seq<char>, n: int)
    requires
        0 <= n < s1.len(),
        n < s2.len(),
        s1.take(n + 1) == s2.take(n + 1),
        !is_digit(s1[n]),
    ensures
        digit_len(s1) == digit_len(s2),
        digit_len(s1) <= n,
    decreases n,
{
    assert(s1[0] == s1.take(n + 1)[0]);
    assert(s2[0] == s2.take(n + 1)[0]);
    if n > 0 && is_digit(s1[0]) {
        assert(s1.drop_first().take(n) =~= s1.take(n + 1).drop_first());
        assert(s2.drop_first().take(n) =~= s2.take(n + 1).drop_first());
        assert(s1.drop_first()[n - 1] == s1[n]);
        lemma_digit_len_agree(s1.drop_first(), s2.drop_first(), n - 1);
    }
}

proof fn lemma_part_len_agree(s1: Seq<char>, s2: Seq<char>, n: int)
    requires
        0 <= n < s1.len(),
        n < s2.len(),
        s1.take(n + 1) == s2.take(n + 1),
        s1[n] == '.',
    ensures
        part_len(s1) == part_len(s2),
        part_len(s1) <= n,
    decreases n,
{
    assert(s1[0] == s1.take(n + 1)[0]);
    assert(s2[0] == s2.take(n + 1)[0]);
    if n > 0 && s1[0] != '.' {
        assert(s1.drop_first().take(n) =~= s1.take(n + 1).drop_first());
        assert(s2.drop_first().take(n) =~= s2.take(n + 1).drop_first());
        assert(s1.drop_first()[n - 1] == s1[n]);
        lemma_part_len_agree(s1.drop_first(), s2.drop_first(), n - 1);
    }
}

/// Two cores that share the parts `c` compare as what follows them.
pub proof fn lemma_core_less_common_prefix(c: Seq<char>, x: Seq<char>, y: Seq<char>)
    ensures
        core_less(c + seq!['.'] + x, c + seq!['.'] + y) == core_less(x, y),
    decreases c.len(),
{
    let a = c + seq!['.'] + x;
    let b = c + seq!['.'] + y;
    let n = c.len() as int;
    assert(a.take(n + 1) =~= c.push('.'));
    assert(b.take(n + 1) =~= c.push('.'));
    assert(a[n] == '.');
    assert(!is_digit('.'));
    lemma_digit_len_agree(a, b, n);
    lemma_part_len_agree(a, b, n);
    let dl = digit_len(a);
    assert(a.take(dl as int) =~= a.take(n + 1).take(dl as int));
    assert(b.take(dl as int) =~= b.take(n + 1).take(dl as int));
    assert(part_value(a) == part_value(b));
    lemma_part_len(a);
    lemma_part_len(b);
    let pl = part_len(a) as int;
    if pl < n {
        let c2 = c.skip(pl + 1);
        assert(later_parts(a) =~= c2 + seq!['.'] + x);
        assert(later_parts(b) =~= c2 + seq!['.'] + y);
        lemma_core_less_common_prefix(c2, x, y);
    } else {
        assert(later_parts(a) =~= x);
        assert(later_parts(b) =~= y);
    }
}

proof fn lemma_all_digits_lens(s: Seq<char>)
    requires
        all_digits(s),
    ensures
        digit_len(s) == s.len(),
        part_len(s) == s.len(),
    decreases s.len(),
{
    if s.len() > 0 {
        assert(is_digit(s[0]));
        assert(s[0] != '.');
        assert(all_digits(s.drop_first())) by {
            assert forall|i: int| 0 <= i < s.len() - 1 implies is_digit(
                #[trigger] s.drop_first()[i],
            ) by {
                assert(s.drop_first()[i] == s[i + 1]);
            }
        }
        lemma_all_digits_lens(s.drop_first());
    }
}

/// A core that is a single number compares with another by value.
pub proof fn lemma_core_less_single_part(x: Seq<char>, y: Seq<char>)
    requires
        all_digits(x),
        all_digits(y),
        x.len() > 0,
    ensures
        core_less(x, y) == (digits_value(x) < digits_value(y)),
{
    lemma_all_digits_lens(x);
    lemma_all_digits_lens(y);
    assert(x.take(x.len() as int) =~= x);
    assert(y.take(y.len() as int) =~= y);
    assert(later_parts(x) =~= Seq::<char>::empty());
    assert(later_parts(y) =~= Seq::<char>::empty());
    assert(!core_less(Seq::<char>::empty(), Seq::<char>::empty()));
}

/// A version without `-` or `+` is its own core and no pre-release.
pub proof fn lemma_plain_version(s: Seq<char>)
    requires
        forall|i: int| 0 <= i < s.len() ==> #[trigger] s[i] != '-' && s[i] != '+',
    ensures
        core_len(s) == s.len(),
        version_core(s) == s,
        !has_pre(s),
    decreases s.len(),
{
    if s.len() > 0 {
        assert(s[0] != '-' && s[0] != '+');
        assert forall|i: int| 0 <= i < s.len() - 1 implies #[trigger] s.drop_first()[i] != '-'
            && s.drop_first()[i] != '+' by {
            assert(s.drop_first()[i] == s[i + 1]);
        }
        lemma_plain_version(s.drop_first());
    }
    assert(s.take(s.len() as int) =~= s);
}

// ---------------------------------------------------------------------------
// Executable comparison of whole versions
// ---------------------------------------------------------------------------

/// The end of the core of the version that starts at `lo`.
fn skip_core(v: &Vec<char>, lo: usize, hi: usize) -> (r: usize)
    requires
        lo <= hi <= v.len(),
    ensures
        lo <= r <= hi,
        core_len(v@.subrange(lo as int, hi as int)) == r - lo,
{
    let mut r = lo;
    while r < hi && v[r] != '-' && v[r] != '+'
        invariant
            lo <= r <= hi,
            hi <= v.len(),
            core_len(v@.subrange(lo as int, hi as int)) == (r - lo) + core_len(
                v@.subrange(r as int, hi as int),
            ),
        decreases hi - r,
    {
        assert(v@.subrange(r as int, hi as int).drop_first() =~= v@.subrange(r + 1, hi as int));
        r = r + 1;
    }
    r
}

/// The index of the first `+` at or after `lo` (or `hi`).
fn skip_to_plus(v: &Vec<char>, lo: usize, hi: usize) -> (r: usize)
    requires
        lo <= hi <= v.len(),
    ensures
        lo <= r <= hi,
        plus_len(v@.subrange(lo as int, hi as int)) == r - lo,
{
    let mut r = lo;
    while r < hi && v[r] != '+'
        invariant
            lo <= r <= hi,
            hi <= v.len(),
            plus_len(v@.subrange(lo as int, hi as int)) == (r - lo) + plus_len(
                v@.subrange(r as int, hi as int),
            ),
        decreases hi - r,
    {
        assert(v@.subrange(r as int, hi as int).drop_first() =~= v@.subrange(r + 1, hi as int));
        r = r + 1;
    }
    r
}

/// Whether `v[lo..hi]` is a numeric identifier.
fn is_numeric(v: &Vec<char>, lo: usize, hi: usize) -> (b: bool)
    requires
        lo <= hi <= v.len(),
    ensures
        b == numeric_ident(v@.subrange(lo as int, hi as int)),
{
    let e = skip_digits(v, lo, hi);
    proof {
        lemma_digit_range(v@, lo as int, e as int);
        if e < hi {
            assert(v@.subrange(lo as int, hi as int)[e - lo] == v@[e as int]);
        } else {
            assert(v@.subrange(lo as int, e as int) == v@.subrange(lo as int, hi as int));
        }
    }
    lo < hi && e == hi
}

/// The order of `a[alo..ahi]` and `b[blo..bhi]` by character codes:
/// negative if the first comes first, positive if the second does, zero if
/// they are equal.
fn text_order(a: &Vec<char>, alo: usize, ahi: usize, b: &Vec<char>, blo: usize, bhi: usize) -> (r:
    i8)
    requires
        alo <= ahi <= a.len(),
        blo <= bhi <= b.len(),
    ensures
        (r < 0) == text_less(a@.subrange(alo as int, ahi as int), b@.subrange(blo as int, bhi as int)),
        (r > 0) == text_less(b@.subrange(blo as int, bhi as int), a@.subrange(alo as int, ahi as int)),
{
    let mut i = alo;
    let mut j = blo;
    while i < ahi && j < bhi && a[i] == b[j]
        invariant
            alo <= i <= ahi <= a.len(),
            blo <= j <= bhi <= b.len(),
            i - alo == j - blo,
            text_less(a@.subrange(alo as int, ahi as int), b@.subrange(blo as int, bhi as int))
                == text_less(a@.subrange(i as int, ahi as int), b@.subrange(j as int, bhi as int)),
            text_less(b@.subrange(blo as int, bhi as int), a@.subrange(alo as int, ahi as int))
                == text_less(b@.subrange(j as int, bhi as int), a@.subrange(i as int, ahi as int)),
        decreases ahi - i,
    {
        assert(a@.subrange(i as int, ahi as int).drop_first() =~= a@.subrange(i + 1, ahi as int));
        assert(b@.subrange(j as int, bhi as int).drop_first() =~= b@.subrange(j + 1, bhi as int));
        i = i + 1;
        j = j + 1;
    }
    let ghost p = a@.subrange(i as int, ahi as int);
    let ghost q = b@.subrange(j as int, bhi as int);
    if i == ahi && j == bhi {
        return 0;
    }
    if i == ahi {
        return -1;
    }
    if j == bhi {
        return 1;
    }
    let ca = a[i];
    let cb = b[j];
    assert(p[0] == ca && q[0] == cb);
    if (ca as u32) < (cb as u32) {
        -1
    } else {
        if (ca as u32) == (cb as u32) {
            proof {
                lemma_same_code(ca, cb);
            }
        }
        1
    }
}

/// The order of the pre-release identifiers `a[alo..ahi]` and
/// `b[blo..bhi]`: negative if the first comes first, positive if the second
/// does, zero if neither.
fn ident_order(a: &Vec<char>, alo: usize, ahi: usize, b: &Vec<char>, blo: usize, bhi: usize) -> (r:
    i8)
    requires
        alo <= ahi <= a.len(),
        blo <= bhi <= b.len(),
    ensures
        (r < 0) == ident_less(a@.subrange(alo as int, ahi as int), b@.subrange(blo as int, bhi as int)),
        (r > 0) == ident_less(b@.subrange(blo as int, bhi as int), a@.subrange(alo as int, ahi as int)),
{
    let na = is_numeric(a, alo, ahi);
    let nb = is_numeric(b, blo, bhi);
    if na && nb {
        compare_digits(a, alo, ahi, b, blo, bhi)
    } else if na {
        -1
    } else if nb {
        1
    } else {
        text_order(a, alo, ahi, b, blo, bhi)
    }
}

/// Whether the pre-release `a[alo..ahi]` comes before `b[blo..bhi]`.
fn idents_before(a: &Vec<char>, alo: usize, ahi: usize, b: &Vec<char>, blo: usize, bhi: usize) -> (r:
    bool)
    requires
        alo <= ahi <= a.len(),
        blo <= bhi <= b.len(),
    ensures
        r == idents_less(a@.subrange(alo as int, ahi as int), b@.subrange(blo as int, bhi as int)),
{
    let mut i = alo;
    let mut j = blo;
    loop
        invariant
            alo <= i <= ahi <= a.len(),
            blo <= j <= bhi <= b.len(),
            idents_less(a@.subrange(alo as int, ahi as int), b@.subrange(blo as int, bhi as int))
                == idents_less(a@.subrange(i as int, ahi as int), b@.subrange(j as int, bhi as int)),
        decreases (ahi - i) + (bhi - j),
    {
        let ghost x = a@.subrange(i as int, ahi as int);
        let ghost y = b@.subrange(j as int, bhi as int);
        let ea = skip_part(a, i, ahi);
        let eb = skip_part(b, j, bhi);
        assert(x.take(ea - i) =~= a@.subrange(i as int, ea as int));
        assert(y.take(eb - j) =~= b@.subrange(j as int, eb as int));
        let c = ident_order(a, i, ea, b, j, eb);
        if c < 0 {
            return true;
        }
        if c > 0 {
            return false;
        }
        if ea == ahi {
            return eb < bhi;
        }
        if eb == bhi {
            return false;
        }
        assert(x.skip(ea - i + 1) =~= a@.subrange(ea + 1, ahi as int));
        assert(y.skip(eb - j + 1) =~= b@.subrange(eb + 1, bhi as int));
        i = ea + 1;
        j = eb + 1;
    }
}

/// Whether the version `a` comes before the version `b` (both as the
/// launcher normalises them) in the order of versions.
pub fn version_before(a: &str, b: &str) -> (r: bool)
    ensures
        r == version_less(a@, b@),
{
    let va = chars_of(a);
    let vb = chars_of(b);
    let na = va.len();
    let nb = vb.len();
    assert(va@.subrange(0, na as int) =~= va@);
    assert(vb@.subrange(0, nb as int) =~= vb@);
    let ca = skip_core(&va, 0, na);
    let cb = skip_core(&vb, 0, nb);
    assert(version_core(a@) =~= va@.subrange(0, ca as int));
    assert(version_core(b@) =~= vb@.subrange(0, cb as int));
    if core_before(&va, ca, &vb, cb) {
        return true;
    }
    if core_before(&vb, cb, &va, ca) {
        return false;
    }
    let a_pre = ca < na && va[ca] == '-';
    let b_pre = cb < nb && vb[cb] == '-';
    assert(a_pre == has_pre(a@));
    assert(b_pre == has_pre(b@));
    if !a_pre {
        return false;
    }
    if !b_pre {
        return true;
    }
    let pa = skip_to_plus(&va, ca + 1, na);
    let pb = skip_to_plus(&vb, cb + 1, nb);
    assert(a@.skip(ca + 1) =~= va@.subrange(ca + 1, na as int));
    assert(b@.skip(cb + 1) =~= vb@.subrange(cb + 1, nb as int));
    assert(pre_release(a@) =~= va@.subrange(ca + 1, pa as int));
    assert(pre_release(b@) =~= vb@.subrange(cb + 1, pb as int));
    idents_before(&va, ca + 1, pa, &vb, cb + 1, pb)
}

} // verus!
