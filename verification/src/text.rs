//! Character-level string helpers with exact specifications.
use vstd::prelude::*;
use vstd::string::*;

verus! {

// ---------------------------------------------------------------------------
// Specifications
// ---------------------------------------------------------------------------

/// Unicode `White_Space`: the characters that `char::is_whitespace` accepts.
pub open spec fn is_white_space(c: char) -> bool {
    let u = c as u32;
    ||| (0x9 <= u && u <= 0xd)
    ||| u == 0x20
    ||| u == 0x85
    ||| u == 0xa0
    ||| u == 0x1680
    ||| (0x2000 <= u && u <= 0x200a)
    ||| u == 0x2028
    ||| u == 0x2029
    ||| u == 0x202f
    ||| u == 0x205f
    ||| u == 0x3000
}

/// `s` without its leading white space.
pub open spec fn trim_start_spec(s: Seq<char>) -> Seq<char>
    decreases s.len(),
{
    if s.len() > 0 && is_white_space(s[0]) {
        trim_start_spec(s.drop_first())
    } else {
        s
    }
}

/// `s` without its trailing white space.
pub open spec fn trim_end_spec(s: Seq<char>) -> Seq<char>
    decreases s.len(),
{
    if s.len() > 0 && is_white_space(s.last()) {
        trim_end_spec(s.drop_last())
    } else {
        s
    }
}

/// `s` without leading and trailing white space (`str::trim`).
pub open spec fn trim_spec(s: Seq<char>) -> Seq<char> {
    trim_end_spec(trim_start_spec(s))
}

/// Every occurrence of the character `c` in `s` replaced by `w`
/// (`str::replace` with a `char` pattern).
pub open spec fn replace_char_spec(s: Seq<char>, c: char, w: Seq<char>) -> Seq<char>
    decreases s.len(),
{
    if s.len() == 0 {
        Seq::empty()
    } else {
        replace_char_spec(s.drop_last(), c, w) + (if s.last() == c {
            w
        } else {
            seq![s.last()]
        })
    }
}

/// The non-overlapping occurrences of the non-empty pattern `p` in `s`, found
/// from left to right, replaced by `w` (`str::replace` with a string pattern).
pub open spec fn replace_spec(s: Seq<char>, p: Seq<char>, w: Seq<char>) -> Seq<char>
    decreases s.len(),
{
    if s.len() == 0 || p.len() == 0 {
        s
    } else if p.is_prefix_of(s) {
        w + replace_spec(s.skip(p.len() as int), p, w)
    } else {
        seq![s[0]] + replace_spec(s.drop_first(), p, w)
    }
}


// ---------------------------------------------------------------------------
// Facts about trimming
// ---------------------------------------------------------------------------

/// Text whose ends are not white space is its own trim.
pub proof fn lemma_trim_fixed(s: Seq<char>)
    requires
        s.len() > 0 ==> !is_white_space(s[0]) && !is_white_space(s.last()),
    ensures
        trim_spec(s) == s,
{
}

proof fn lemma_trim_start_shape(s: Seq<char>)
    ensures
        trim_start_spec(s).len() > 0 ==> !is_white_space(trim_start_spec(s)[0]),
        trim_start_spec(s).len() <= s.len(),
        trim_start_spec(s) == s.skip(s.len() - trim_start_spec(s).len()),
    decreases s.len(),
{
    if s.len() > 0 && is_white_space(s[0]) {
        lemma_trim_start_shape(s.drop_first());
        assert(s.drop_first().skip(s.drop_first().len() - trim_start_spec(s).len()) =~= s.skip(
            s.len() - trim_start_spec(s).len(),
        ));
    } else {
        assert(s.skip(0) =~= s);
    }
}

proof fn lemma_trim_end_shape(s: Seq<char>)
    ensures
        trim_end_spec(s).len() > 0 ==> !is_white_space(trim_end_spec(s).last()),
        trim_end_spec(s).len() <= s.len(),
        trim_end_spec(s) == s.take(trim_end_spec(s).len() as int),
    decreases s.len(),
{
    if s.len() > 0 && is_white_space(s.last()) {
        lemma_trim_end_shape(s.drop_last());
        assert(s.drop_last().take(trim_end_spec(s).len() as int) =~= s.take(
            trim_end_spec(s).len() as int,
        ));
    } else {
        assert(s.take(s.len() as int) =~= s);
    }
}

/// The ends of trimmed text are not white space.
pub proof fn lemma_trim_ends(s: Seq<char>)
    ensures
        trim_spec(s).len() > 0 ==> !is_white_space(trim_spec(s)[0]) && !is_white_space(
            trim_spec(s).last(),
        ),
{
    let a = trim_start_spec(s);
    lemma_trim_start_shape(s);
    lemma_trim_end_shape(a);
    let b = trim_end_spec(a);
    if b.len() > 0 {
        assert(b[0] == a[0]);
    }
}

/// Trimming twice is trimming once.
pub proof fn lemma_trim_idempotent(s: Seq<char>)
    ensures
        trim_spec(trim_spec(s)) == trim_spec(s),
{
    lemma_trim_ends(s);
    lemma_trim_fixed(trim_spec(s));
}

/// Replacing a character other than the last keeps the last character.
pub proof fn lemma_replace_char_last(s: Seq<char>, c: char, w: Seq<char>)
    requires
        s.len() > 0,
        s.last() != c,
    ensures
        replace_char_spec(s, c, w).len() > 0,
        replace_char_spec(s, c, w).last() == s.last(),
{
}

// ---------------------------------------------------------------------------
// Calls into std that vstd does not specify
// ---------------------------------------------------------------------------

/// `String::push`: appends one character.
#[verifier::external_body]
pub(crate) fn string_push(s: &mut String, c: char)
    ensures
        final(s)@ == old(s)@.push(c),
{
    s.push(c);
}

// ---------------------------------------------------------------------------
// Executable helpers
// ---------------------------------------------------------------------------

/// Whether `c` is Unicode `White_Space`, the set that `char::is_whitespace`
/// documents.
pub fn is_whitespace(c: char) -> (r: bool)
    ensures
        r == is_white_space(c),
{
    let u = c as u32;
    (0x9 <= u && u <= 0xd) || u == 0x20 || u == 0x85 || u == 0xa0 || u == 0x1680 || (0x2000 <= u
        && u <= 0x200a) || u == 0x2028 || u == 0x2029 || u == 0x202f || u == 0x205f || u == 0x3000
}

/// The characters of `s`, in order.
pub fn chars_of(s: &str) -> (v: Vec<char>)
    ensures
        v@ == s@,
{
    let mut v: Vec<char> = Vec::new();
    for c in it: s.chars()
        invariant
            it.seq() == s@,
            v@ == it.seq().take(it.index()),
    {
        v.push(c);
    }
    v
}

/// A string of the characters `v[from..to]`.
pub fn string_of_range(v: &Vec<char>, from: usize, to: usize) -> (r: String)
    requires
        from <= to <= v.len(),
    ensures
        r@ == v@.subrange(from as int, to as int),
{
    let mut r = String::new();
    let mut k = from;
    while k < to
        invariant
            from <= k <= to <= v.len(),
            r@ == v@.subrange(from as int, k as int),
        decreases to - k,
    {
        string_push(&mut r, v[k]);
        assert(v@.subrange(from as int, k + 1) == v@.subrange(from as int, k as int).push(v@[k as int]));
        k = k + 1;
    }
    r
}

/// A string of the characters of `v`.
pub fn string_of(v: &Vec<char>) -> (r: String)
    ensures
        r@ == v@,
{
    let r = string_of_range(v, 0, v.len());
    assert(v@.subrange(0, v@.len() as int) == v@);
    r
}

/// Appends `t` to `s`.
pub fn push_str(s: &mut String, t: &str)
    ensures
        final(s)@ == old(s)@ + t@,
{
    s.append(t);
}

/// The concatenation of `a` and `b`.
pub fn concat2(a: &str, b: &str) -> (r: String)
    ensures
        r@ == a@ + b@,
{
    let mut r = String::from_str(a);
    r.append(b);
    r
}

/// Whether `a` and `b` hold the same characters.
pub fn str_eq(a: &str, b: &str) -> (r: bool)
    ensures
        r == (a@ == b@),
{
    let va = chars_of(a);
    let vb = chars_of(b);
    if va.len() != vb.len() {
        return false;
    }
    let mut i: usize = 0;
    while i < va.len()
        invariant
            va@ == a@,
            vb@ == b@,
            va.len() == vb.len(),
            i <= va.len(),
            forall|j: int| 0 <= j < i ==> va@[j] == vb@[j],
        decreases va.len() - i,
    {
        if va[i] != vb[i] {
            assert(a@[i as int] != b@[i as int]);
            assert(a@ != b@);
            return false;
        }
        i = i + 1;
    }
    assert(va@ =~= vb@);
    true
}

/// Whether `p` occurs in `v` at position `i`.
pub fn matches_at(v: &Vec<char>, i: usize, p: &Vec<char>) -> (r: bool)
    requires
        i <= v.len(),
    ensures
        r == p@.is_prefix_of(v@.skip(i as int)),
{
    if p.len() > v.len() - i {
        return false;
    }
    let mut j: usize = 0;
    while j < p.len()
        invariant
            i + p.len() <= v.len(),
            j <= p.len(),
            forall|k: int| 0 <= k < j ==> v@[i + k] == p@[k],
        decreases p.len() - j,
    {
        if v[i + j] != p[j] {
            assert(v@.skip(i as int)[j as int] == v@[i + j]);
            return false;
        }
        j = j + 1;
    }
    assert(forall|k: int| 0 <= k < p.len() ==> v@.skip(i as int)[k] == p@[k]);
    true
}

/// Whether `s` begins with `prefix` (`str::starts_with`).
pub fn starts_with(s: &str, prefix: &str) -> (r: bool)
    ensures
        r == prefix@.is_prefix_of(s@),
{
    let v = chars_of(s);
    let p = chars_of(prefix);
    assert(v@.skip(0) == v@);
    matches_at(&v, 0, &p)
}

/// Whether `c` occurs in `s` (`str::contains` with a `char`).
pub fn contains_char(s: &str, c: char) -> (r: bool)
    ensures
        r == s@.contains(c),
{
    let mut found = false;
    assert(s@.take(s@.len() as int) == s@);
    for d in it: s.chars()
        invariant
            it.seq() == s@,
            found == it.seq().take(it.index()).contains(c),
    {
        let ghost before = it.seq().take(it.index());
        proof {
            assert(it.seq().take(it.index() + 1) == before.push(d));
        }
        if d == c {
            found = true;
        }
        proof {
            assert(before.push(d).contains(c) == (before.contains(c) || d == c)) by {
                if d == c {
                    assert(before.push(d)[before.len() as int] == c);
                }
                if before.contains(c) {
                    let k = choose|k: int| 0 <= k < before.len() && before[k] == c;
                    assert(before.push(d)[k] == c);
                }
                if before.push(d).contains(c) {
                    let k = choose|k: int| 0 <= k < before.len() + 1 && before.push(d)[k] == c;
                    if k < before.len() {
                        assert(before[k] == c);
                    }
                }
            }
        }
    }
    found
}

proof fn lemma_trim_start_skip(s: Seq<char>, i: int)
    requires
        0 <= i < s.len(),
        is_white_space(s[i]),
    ensures
        trim_start_spec(s.skip(i)) == trim_start_spec(s.skip(i + 1)),
{
    assert(s.skip(i).drop_first() == s.skip(i + 1));
}

proof fn lemma_trim_end_take(s: Seq<char>, j: int)
    requires
        0 < j <= s.len(),
        is_white_space(s[j - 1]),
    ensures
        trim_end_spec(s.take(j)) == trim_end_spec(s.take(j - 1)),
{
    assert(s.take(j).drop_last() == s.take(j - 1));
}

/// `s` without leading and trailing white space (`str::trim`).
pub fn trim(s: &str) -> (r: String)
    ensures
        r@ == trim_spec(s@),
{
    let v = chars_of(s);
    let mut i: usize = 0;
    assert(v@.skip(0) == v@);
    while i < v.len() && is_whitespace(v[i])
        invariant
            i <= v.len(),
            trim_start_spec(v@) == trim_start_spec(v@.skip(i as int)),
        decreases v.len() - i,
    {
        proof {
            lemma_trim_start_skip(v@, i as int);
        }
        i = i + 1;
    }
    let ghost t = v@.skip(i as int);
    assert(trim_start_spec(v@) == t);
    let mut j: usize = v.len();
    assert(t.take(t.len() as int) == t);
    while j > i && is_whitespace(v[j - 1])
        invariant
            i <= j <= v.len(),
            t == v@.skip(i as int),
            trim_end_spec(t) == trim_end_spec(t.take(j - i)),
        decreases j,
    {
        proof {
            lemma_trim_end_take(t, j - i);
        }
        j = j - 1;
    }
    assert(trim_end_spec(t.take(j - i)) == t.take(j - i));
    assert(t.take(j - i) == v@.subrange(i as int, j as int));
    string_of_range(&v, i, j)
}

/// Every occurrence of `c` in `s` replaced by `w` (`str::replace` with a `char`).
pub fn replace_char(s: &str, c: char, w: &str) -> (r: String)
    ensures
        r@ == replace_char_spec(s@, c, w@),
{
    let mut r = String::new();
    assert(s@.take(s@.len() as int) == s@);
    for d in it: s.chars()
        invariant
            it.seq() == s@,
            r@ == replace_char_spec(it.seq().take(it.index()), c, w@),
    {
        proof {
            let t = it.seq().take(it.index() + 1);
            assert(t.drop_last() == it.seq().take(it.index()));
        }
        if d == c {
            r.append(w);
        } else {
            string_push(&mut r, d);
        }
    }
    r
}

/// The non-overlapping occurrences of the non-empty pattern `p` in `s`
/// replaced by `w`, from left to right (`str::replace`).
pub fn replace_str(s: &str, p: &str, w: &str) -> (r: String)
    requires
        p@.len() > 0,
    ensures
        r@ == replace_spec(s@, p@, w@),
{
    let v = chars_of(s);
    let pv = chars_of(p);
    let mut r = String::new();
    let mut i: usize = 0;
    assert(v@.skip(0) == v@);
    while i < v.len()
        invariant
            i <= v.len(),
            pv@ == p@,
            pv@.len() > 0,
            r@ + replace_spec(v@.skip(i as int), p@, w@) == replace_spec(v@, p@, w@),
        decreases v.len() - i,
    {
        let ghost rest = v@.skip(i as int);
        if matches_at(&v, i, &pv) {
            proof {
                assert(rest.skip(pv@.len() as int) == v@.skip(i + pv@.len()));
                assert(r@ + (w@ + replace_spec(rest.skip(pv@.len() as int), p@, w@))
                    == (r@ + w@) + replace_spec(rest.skip(pv@.len() as int), p@, w@));
            }
            r.append(w);
            i = i + pv.len();
        } else {
            proof {
                assert(rest.drop_first() == v@.skip(i + 1));
                assert(rest[0] == v@[i as int]);
                assert(r@ + (seq![rest[0]] + replace_spec(rest.drop_first(), p@, w@))
                    == r@.push(rest[0]) + replace_spec(rest.drop_first(), p@, w@));
            }
            string_push(&mut r, v[i]);
            i = i + 1;
        }
    }
    proof {
        assert(v@.skip(i as int).len() == 0);
        assert(r@ + v@.skip(i as int) == r@);
    }
    r
}

} // verus!
