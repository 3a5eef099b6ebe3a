//! Small verified text utilities shared across the library: decimal
//! rendering, substring search and whitespace trimming over `Seq<char>`.

use vstd::prelude::*;

verus! {

/// The character for a single decimal digit.
pub open spec fn digit_char(d: nat) -> char {
    ((48 + d % 10) as u8) as char
}

/// Decimal digits of `n`, most significant first, no leading zeros
/// (except for `n == 0`, which is rendered as "0").
pub open spec fn dec_digits(n: nat) -> Seq<char>
    decreases n,
{
    if n < 10 {
        seq![digit_char(n)]
    } else {
        dec_digits(n / 10) + seq![digit_char(n % 10)]
    }
}

/// Relies on `String::push`: appends the given character to the end of the string.
#[verifier::external_body]
pub(crate) fn push_char(s: &mut String, c: char)
    ensures
        final(s)@ == old(s)@.push(c),
{
    s.push(c);
}

/// Render `n` in decimal.
pub fn u64_to_string(n: u64) -> (r: String)
    ensures
        r@ == dec_digits(n as nat),
    decreases n,
{
    if n < 10 {
        let mut s = String::new();
        push_char(&mut s, (48 + n as u8) as char);
        assert(s@ =~= dec_digits(n as nat));
        s
    } else {
        let mut s = u64_to_string(n / 10);
        push_char(&mut s, (48 + (n % 10) as u8) as char);
        assert(s@ =~= dec_digits(n as nat));
        s
    }
}

/// `pat` occurs in `t` starting at position `i`.
pub open spec fn matches_at(t: Seq<char>, pat: Seq<char>, i: int) -> bool {
    &&& 0 <= i
    &&& i + pat.len() <= t.len()
    &&& t.subrange(i, i + pat.len() as int) == pat
}

/// Position of the first occurrence of `pat` in `t` at or after `from`,
/// or -1 if there is none.
pub open spec fn first_match_from(t: Seq<char>, pat: Seq<char>, from: int) -> int
    recommends
        0 <= from <= t.len(),
    decreases t.len() - from
        when from <= t.len()
{
    if from + pat.len() > t.len() {
        -1
    } else if pat.len() == 0 || matches_at(t, pat, from) {
        from
    } else {
        first_match_from(t, pat, from + 1)
    }
}

/// What a non-negative result of `first_match_from` means: a match at the
/// result position and no match anywhere earlier (from `from` on); and what
/// -1 means: no match anywhere at or after `from`.
pub proof fn lemma_first_match_from(t: Seq<char>, pat: Seq<char>, from: int)
    requires
        0 <= from <= t.len(),
    ensures
        first_match_from(t, pat, from) >= 0 ==> {
            &&& from <= first_match_from(t, pat, from)
            &&& matches_at(t, pat, first_match_from(t, pat, from))
            &&& forall|j: int|
                from <= j < first_match_from(t, pat, from) ==> !matches_at(t, pat, j)
        },
        first_match_from(t, pat, from) == -1 ==> forall|j: int|
            from <= j ==> !matches_at(t, pat, j),
    decreases t.len() - from,
{
    if from + pat.len() > t.len() {
        assert(forall|j: int| from <= j ==> !matches_at(t, pat, j));
    } else if pat.len() == 0 || matches_at(t, pat, from) {
        if pat.len() == 0 {
            assert(t.subrange(from, from) =~= pat);
        }
    } else {
        lemma_first_match_from(t, pat, from + 1);
    }
}

/// Whether one position of `t` matches `pat`, checked character by character.
fn check_match_at(t: &Vec<char>, pat: &Vec<char>, i: usize) -> (r: bool)
    requires
        i + pat@.len() <= t@.len(),
    ensures
        r == matches_at(t@, pat@, i as int),
{
    let n = t.len();
    let mut k: usize = 0;
    while k < pat.len()
        invariant
            k <= pat@.len(),
            i + pat@.len() <= t@.len(),
            n == t@.len(),
            forall|m: int| 0 <= m < k ==> t@[i + m] == pat@[m],
        decreases pat@.len() - k,
    {
        if t[i + k] != pat[k] {
            assert(t@.subrange(i as int, i + pat@.len() as int)[k as int] != pat@[k as int]);
            return false;
        }
        k += 1;
    }
    assert(t@.subrange(i as int, i + pat@.len() as int) =~= pat@);
    true
}

/// First occurrence of `pat` in `t` at or after `from`.
pub fn find_from(t: &Vec<char>, pat: &Vec<char>, from: usize) -> (r: Option<usize>)
    requires
        from <= t@.len(),
    ensures
        match r {
            Some(i) => i as int == first_match_from(t@, pat@, from as int),
            None => first_match_from(t@, pat@, from as int) == -1,
        },
{
    let mut i: usize = from;
    loop
        invariant
            from <= i <= t@.len(),
            first_match_from(t@, pat@, from as int) == first_match_from(t@, pat@, i as int),
        decreases t@.len() - i,
    {
        if pat.len() > t.len() - i {
            return None;
        }
        if check_match_at(t, pat, i) {
            return Some(i);
        }
        proof {
            if pat@.len() == 0 {
                assert(t@.subrange(i as int, i as int) =~= pat@);
            }
            assert(first_match_from(t@, pat@, i as int) == first_match_from(
                t@,
                pat@,
                i + 1 as int,
            ));
        }
        i += 1;
    }
}

/// The number of positions of `t` at or after `from` where `pat` occurs
/// (occurrences may overlap; an empty pattern counts as never occurring).
pub open spec fn count_matches_from(t: Seq<char>, pat: Seq<char>, from: int) -> int
    recommends
        0 <= from <= t.len(),
    decreases t.len() - from
        when from <= t.len()
{
    if pat.len() == 0 || from + pat.len() > t.len() {
        0
    } else {
        (if matches_at(t, pat, from) {
            1int
        } else {
            0int
        }) + count_matches_from(t, pat, from + 1)
    }
}

/// The number of positions of `t` where `pat` occurs.
pub open spec fn count_matches(t: Seq<char>, pat: Seq<char>) -> int {
    count_matches_from(t, pat, 0)
}

/// A text with no occurrence of `pat` from `from` on counts zero from there.
pub proof fn lemma_count_from_zero(t: Seq<char>, pat: Seq<char>, from: int)
    requires
        0 <= from <= t.len(),
        forall|i: int| from <= i ==> !matches_at(t, pat, i),
    ensures
        count_matches_from(t, pat, from) == 0,
    decreases t.len() - from,
{
    if pat.len() == 0 || from + pat.len() > t.len() {
    } else {
        lemma_count_from_zero(t, pat, from + 1);
    }
}

/// How matching positions of a concatenation relate to its parts: a window
/// wholly inside the left part matches there, and a window at or past the
/// boundary matches in the right part, at the shifted position.
pub proof fn lemma_matches_at_concat(a: Seq<char>, b: Seq<char>, pat: Seq<char>)
    ensures
        forall|i: int|
            0 <= i && i + pat.len() <= a.len() ==> (#[trigger] matches_at(a + b, pat, i)
                == matches_at(a, pat, i)),
        forall|i: int|
            a.len() <= i ==> (#[trigger] matches_at(a + b, pat, i) == matches_at(
                b,
                pat,
                i - a.len(),
            )),
{
    assert forall|i: int| 0 <= i && i + pat.len() <= a.len() implies (#[trigger] matches_at(
        a + b,
        pat,
        i,
    ) == matches_at(a, pat, i)) by {
        assert((a + b).subrange(i, i + pat.len() as int) =~= a.subrange(i, i + pat.len() as int));
    }
    assert forall|i: int| a.len() <= i implies (#[trigger] matches_at(a + b, pat, i) == matches_at(
        b,
        pat,
        i - a.len(),
    )) by {
        if i + pat.len() <= (a + b).len() {
            assert((a + b).subrange(i, i + pat.len() as int) =~= b.subrange(
                i - a.len(),
                i - a.len() + pat.len(),
            ));
        }
    }
}

/// Counting a concatenation from a position at or past the boundary counts
/// the right part from the shifted position.
proof fn lemma_count_shift(a: Seq<char>, b: Seq<char>, pat: Seq<char>, k: int)
    requires
        0 <= k <= b.len(),
    ensures
        count_matches_from(a + b, pat, a.len() + k) == count_matches_from(b, pat, k),
    decreases b.len() - k,
{
    lemma_matches_at_concat(a, b, pat);
    if pat.len() == 0 || k + pat.len() > b.len() {
    } else {
        lemma_count_shift(a, b, pat, k + 1);
    }
}

/// When no occurrence straddles the boundary of a concatenation, the count
/// splits over the parts.
pub proof fn lemma_count_split(a: Seq<char>, b: Seq<char>, pat: Seq<char>, from: int)
    requires
        pat.len() >= 1,
        0 <= from <= a.len(),
        forall|i: int| a.len() - pat.len() < i < a.len() ==> !matches_at(a + b, pat, i),
    ensures
        count_matches_from(a + b, pat, from) == count_matches_from(a, pat, from) + count_matches(
            b,
            pat,
        ),
    decreases a.len() - from,
{
    lemma_matches_at_concat(a, b, pat);
    if from == a.len() {
        lemma_count_shift(a, b, pat, 0);
    } else {
        lemma_count_split(a, b, pat, from + 1);
    }
}

/// No occurrence of `pat` can straddle into a right part that opens with a
/// character `pat` does not contain.
pub proof fn lemma_no_straddle_right(a: Seq<char>, b: Seq<char>, pat: Seq<char>)
    requires
        b.len() >= 1,
        forall|j: int| 0 <= j < pat.len() ==> pat[j] != b[0],
    ensures
        forall|i: int| a.len() - pat.len() < i < a.len() ==> !matches_at(a + b, pat, i),
{
    assert forall|i: int| a.len() - pat.len() < i < a.len() implies !matches_at(a + b, pat, i) by {
        if matches_at(a + b, pat, i) {
            let t = a + b;
            let j = a.len() - i;
            assert(t.subrange(i, i + pat.len() as int)[j] == t[a.len() as int]);
            assert(pat[j] == b[0]);
        }
    }
}

/// No occurrence of `pat` can straddle out of a left part that closes with a
/// character `pat` does not contain.
pub proof fn lemma_no_straddle_left(a: Seq<char>, b: Seq<char>, pat: Seq<char>)
    requires
        a.len() >= 1,
        forall|j: int| 0 <= j < pat.len() ==> pat[j] != a.last(),
    ensures
        forall|i: int| a.len() - pat.len() < i < a.len() ==> !matches_at(a + b, pat, i),
{
    assert forall|i: int| a.len() - pat.len() < i < a.len() implies !matches_at(a + b, pat, i) by {
        if matches_at(a + b, pat, i) {
            let t = a + b;
            let j = a.len() - 1 - i;
            assert(t.subrange(i, i + pat.len() as int)[j] == t[a.len() - 1]);
            assert(t[a.len() - 1] == a.last());
            assert(pat[j] == a.last());
        }
    }
}

/// `pat` has no border: no proper nonempty prefix of it is also a suffix.
/// Adjacent copies of such a pattern cannot overlap into spurious matches.
pub open spec fn border_free(pat: Seq<char>) -> bool {
    forall|k: int|
        0 < k < pat.len() ==> pat.subrange(k, pat.len() as int) != pat.subrange(0, pat.len() - k)
}

/// Unicode white space, as listed for `char::is_whitespace`.
pub open spec fn is_space_char(c: char) -> bool {
    ||| c == ' '
    ||| c == '\t'
    ||| c == '\n'
    ||| c == '\r'
    ||| c as u32 == 0x0b
    ||| c as u32 == 0x0c
    ||| c as u32 == 0x85
    ||| c as u32 == 0xa0
    ||| c as u32 == 0x1680
    ||| (0x2000 <= c as u32 && c as u32 <= 0x200a)
    ||| c as u32 == 0x2028
    ||| c as u32 == 0x2029
    ||| c as u32 == 0x202f
    ||| c as u32 == 0x205f
    ||| c as u32 == 0x3000
}

/// Index of the first non-space character at or after `i`.
pub open spec fn trim_start_idx(s: Seq<char>, i: int) -> int
    recommends
        0 <= i <= s.len(),
    decreases s.len() - i
        when i <= s.len()
{
    if i < s.len() && is_space_char(s[i]) {
        trim_start_idx(s, i + 1)
    } else {
        i
    }
}

/// Index one past the last non-space character at or before `j - 1`.
pub open spec fn trim_end_idx(s: Seq<char>, j: int) -> int
    recommends
        0 <= j <= s.len(),
    decreases j
        when 0 <= j
{
    if j > 0 && is_space_char(s[j - 1]) {
        trim_end_idx(s, j - 1)
    } else {
        j
    }
}

/// `s` with leading and trailing white space removed, as `str::trim` does.
pub open spec fn trim_spec(s: Seq<char>) -> Seq<char> {
    let a = trim_start_idx(s, 0);
    let b = trim_end_idx(s, s.len() as int);
    if a <= b {
        s.subrange(a, b)
    } else {
        Seq::empty()
    }
}

/// Whether `c` is white space, decided in executable code.
pub fn is_space(c: char) -> (r: bool)
    ensures
        r == is_space_char(c),
{
    let u = c as u32;
    u == 0x20 || u == 0x09 || u == 0x0a || u == 0x0d || u == 0x0b || u == 0x0c || u == 0x85
        || u == 0xa0 || u == 0x1680 || (0x2000 <= u && u <= 0x200a) || u == 0x2028 || u == 0x2029
        || u == 0x202f || u == 0x205f || u == 0x3000
}

proof fn lemma_trim_start_prefix(s: Seq<char>, i: int)
    requires
        0 <= i <= s.len(),
        forall|k: int| 0 <= k < i ==> is_space_char(s[k]),
    ensures
        trim_start_idx(s, 0) == trim_start_idx(s, i),
    decreases i,
{
    if i > 0 {
        lemma_trim_start_suffix_step(s, 0, i);
    }
}

proof fn lemma_trim_start_suffix_step(s: Seq<char>, a: int, i: int)
    requires
        0 <= a <= i <= s.len(),
        forall|k: int| a <= k < i ==> is_space_char(s[k]),
    ensures
        trim_start_idx(s, a) == trim_start_idx(s, i),
    decreases i - a,
{
    if a < i {
        lemma_trim_start_suffix_step(s, a + 1, i);
    }
}

proof fn lemma_trim_end_suffix(s: Seq<char>, j: int, b: int)
    requires
        0 <= j <= b <= s.len(),
        forall|k: int| j <= k < b ==> is_space_char(s[k]),
    ensures
        trim_end_idx(s, b) == trim_end_idx(s, j),
    decreases b - j,
{
    if j < b {
        lemma_trim_end_suffix(s, j, b - 1);
    }
}

/// The bounds that trimming `t` leaves: the first and one-past-last index of
/// the non-space interior.
pub fn trim_bounds(t: &Vec<char>) -> (r: (usize, usize))
    ensures
        r.0 as int == trim_start_idx(t@, 0),
        r.1 as int == trim_end_idx(t@, t@.len() as int),
        r.0 <= t@.len(),
        r.1 <= t@.len(),
{
    let n = t.len();
    let mut a: usize = 0;
    while a < n && is_space(t[a])
        invariant
            a <= n,
            n == t@.len(),
            forall|k: int| 0 <= k < a ==> is_space_char(t@[k]),
        decreases n - a,
    {
        a += 1;
    }
    proof {
        lemma_trim_start_prefix(t@, a as int);
    }
    let mut b: usize = n;
    while b > 0 && is_space(t[b - 1])
        invariant
            b <= n,
            n == t@.len(),
            forall|k: int| b <= k < n ==> is_space_char(t@[k]),
        decreases b,
    {
        b -= 1;
    }
    proof {
        lemma_trim_end_suffix(t@, b as int, n as int);
    }
    (a, b)
}

/// A copy of the characters of `v` in positions `from..to`.
pub fn copy_range(v: &Vec<char>, from: usize, to: usize) -> (r: Vec<char>)
    requires
        from <= to <= v@.len(),
    ensures
        r@ == v@.subrange(from as int, to as int),
{
    let mut r: Vec<char> = Vec::new();
    let mut i: usize = from;
    while i < to
        invariant
            from <= i <= to <= v@.len(),
            r@ == v@.subrange(from as int, i as int),
        decreases to - i,
    {
        r.push(v[i]);
        assert(r@ =~= v@.subrange(from as int, i + 1));
        i += 1;
    }
    r
}

/// The characters of `s`, in order.
pub fn chars_of(s: &str) -> (r: Vec<char>)
    ensures
        r@ == s@,
{
    let n = s.unicode_len();
    let mut v: Vec<char> = Vec::new();
    let mut i: usize = 0;
    while i < n
        invariant
            i <= n,
            n == s@.len(),
            v@ == s@.subrange(0, i as int),
        decreases n - i,
    {
        let c = s.get_char(i);
        v.push(c);
        assert(v@ =~= s@.subrange(0, i + 1));
        i += 1;
    }
    assert(v@ =~= s@);
    v
}

} // verus!
