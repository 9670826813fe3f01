//! Text helpers: Unicode whitespace trimming.

use vstd::prelude::*;
use vstd::string::*;

verus! {

/// Whether `c` has the Unicode `White_Space` property, which is what
/// `char::is_whitespace` tests.
pub open spec fn is_white_space(c: char) -> bool {
    let v = c as u32;
    ||| 0x09 <= v <= 0x0d
    ||| v == 0x20
    ||| v == 0x85
    ||| v == 0xa0
    ||| v == 0x1680
    ||| 0x2000 <= v <= 0x200a
    ||| v == 0x2028
    ||| v == 0x2029
    ||| v == 0x202f
    ||| v == 0x205f
    ||| v == 0x3000
}

/// `s` without its leading whitespace.
pub open spec fn trim_start(s: Seq<char>) -> Seq<char>
    decreases s.len(),
{
    if s.len() > 0 && is_white_space(s[0]) {
        trim_start(s.drop_first())
    } else {
        s
    }
}

/// `s` without its trailing whitespace.
pub open spec fn trim_end(s: Seq<char>) -> Seq<char>
    decreases s.len(),
{
    if s.len() > 0 && is_white_space(s.last()) {
        trim_end(s.drop_last())
    } else {
        s
    }
}

/// `s` without leading and trailing whitespace, as `str::trim` gives it.
pub open spec fn trimmed(s: Seq<char>) -> Seq<char> {
    trim_end(trim_start(s))
}

proof fn lemma_trim_start_result(s: Seq<char>)
    ensures
        trim_start(s).len() > 0 ==> !is_white_space(trim_start(s)[0]),
        trim_start(trim_start(s)) == trim_start(s),
    decreases s.len(),
{
    if s.len() > 0 && is_white_space(s[0]) {
        lemma_trim_start_result(s.drop_first());
    }
}

proof fn lemma_trim_end_result(s: Seq<char>)
    ensures
        trim_end(s).len() > 0 ==> !is_white_space(trim_end(s).last()),
        trim_end(trim_end(s)) == trim_end(s),
    decreases s.len(),
{
    if s.len() > 0 && is_white_space(s.last()) {
        lemma_trim_end_result(s.drop_last());
    }
}

proof fn lemma_trim_end_keeps_first(s: Seq<char>)
    requires
        s.len() > 0,
        !is_white_space(s[0]),
    ensures
        trim_end(s).len() > 0,
        trim_end(s)[0] == s[0],
        trim_start(trim_end(s)) == trim_end(s),
    decreases s.len(),
{
    if is_white_space(s.last()) {
        lemma_trim_end_keeps_first(s.drop_last());
    }
}

/// A trimmed text neither starts nor ends with whitespace, and trimming it
/// again changes nothing.
pub proof fn lemma_trimmed(s: Seq<char>)
    ensures
        trimmed(s).len() > 0 ==> !is_white_space(trimmed(s)[0]) && !is_white_space(
            trimmed(s).last(),
        ),
        trimmed(trimmed(s)) == trimmed(s),
{
    let a = trim_start(s);
    lemma_trim_start_result(s);
    lemma_trim_end_result(a);
    if a.len() > 0 {
        lemma_trim_end_keeps_first(a);
        let t = trim_end(a);
        assert(trim_start(t) == t);
        assert(trim_end(t) == t);
    } else {
        assert(trim_end(a) =~= a);
        assert(trim_start(a) =~= a);
    }
}

/// The code points with the Unicode `White_Space` property.
pub open spec fn white_space_code_points() -> Set<u32> {
    set![
        0x09u32, 0x0a, 0x0b, 0x0c, 0x0d, 0x20, 0x85, 0xa0, 0x1680,
        0x2000, 0x2001, 0x2002, 0x2003, 0x2004, 0x2005, 0x2006, 0x2007, 0x2008, 0x2009, 0x200a,
        0x2028, 0x2029, 0x202f, 0x205f, 0x3000,
    ]
}

/// A character counts as whitespace exactly when its code point is one of
/// the 25 with the Unicode `White_Space` property; among ASCII characters
/// these are only tab, line feed, vertical tab, form feed, carriage return
/// and space.
pub proof fn lemma_white_space_is_unicode_white_space(c: char)
    ensures
        is_white_space(c) <==> white_space_code_points().contains(c as u32),
        (c as u32) < 0x80 ==> (is_white_space(c) <==> (c == '\t' || c == '\n' || c == '\x0b'
            || c == '\x0c' || c == '\r' || c == ' ')),
{
    let v = c as u32;
    if is_white_space(c) {
        if 0x2000 <= v <= 0x200a {
            assert(white_space_code_points().contains(v));
        }
    }
}

proof fn lemma_trim_start_shape(s: Seq<char>) -> (i: int)
    ensures
        0 <= i <= s.len(),
        trim_start(s) == s.skip(i),
        forall|k: int| 0 <= k < i ==> is_white_space(#[trigger] s[k]),
    decreases s.len(),
{
    if s.len() > 0 && is_white_space(s[0]) {
        let i0 = lemma_trim_start_shape(s.drop_first());
        assert(s.drop_first().skip(i0) =~= s.skip(i0 + 1));
        assert forall|k: int| 0 <= k < i0 + 1 implies is_white_space(#[trigger] s[k]) by {
            if k > 0 {
                assert(s[k] == s.drop_first()[k - 1]);
            }
        }
        i0 + 1
    } else {
        assert(s.skip(0) =~= s);
        0
    }
}

proof fn lemma_trim_end_shape(s: Seq<char>) -> (j: int)
    ensures
        0 <= j <= s.len(),
        trim_end(s) == s.take(j),
        forall|k: int| j <= k < s.len() ==> is_white_space(#[trigger] s[k]),
    decreases s.len(),
{
    if s.len() > 0 && is_white_space(s.last()) {
        let j0 = lemma_trim_end_shape(s.drop_last());
        assert(s.drop_last().take(j0) =~= s.take(j0));
        assert forall|k: int| j0 <= k < s.len() implies is_white_space(#[trigger] s[k]) by {
            if k < s.len() - 1 {
                assert(s[k] == s.drop_last()[k]);
            }
        }
        j0
    } else {
        assert(s.take(s.len() as int) =~= s);
        s.len() as int
    }
}

/// Trimming removes exactly the whitespace at both ends: the result is the
/// part of `s` between a run of leading and a run of trailing whitespace,
/// and starts and ends with a character that is not whitespace. So a text
/// whose last character is not whitespace keeps it.
pub proof fn lemma_trimmed_is_core(s: Seq<char>)
    ensures
        exists|i: int, j: int|
            0 <= i <= j <= s.len() && trimmed(s) == s.subrange(i, j) && (forall|k: int|
                0 <= k < i ==> is_white_space(#[trigger] s[k])) && (forall|k: int|
                j <= k < s.len() ==> is_white_space(#[trigger] s[k])) && (i < j ==> !is_white_space(
                s[i]) && !is_white_space(s[j - 1])),
        s.len() > 0 && !is_white_space(s.last()) ==> trimmed(s).len() > 0 && trimmed(s).last()
            == s.last(),
        s.len() > 0 && !is_white_space(s[0]) ==> trimmed(s).len() > 0 && trimmed(s)[0] == s[0],
{
    let i = lemma_trim_start_shape(s);
    let a = s.skip(i);
    let j0 = lemma_trim_end_shape(a);
    let j = i + j0;
    assert(a.take(j0) =~= s.subrange(i, j));
    assert forall|k: int| j <= k < s.len() implies is_white_space(#[trigger] s[k]) by {
        assert(s[k] == a[k - i]);
    }
    lemma_trimmed(s);
    let t = trimmed(s);
    assert(t == s.subrange(i, j));
    if i < j {
        assert(t[0] == s[i]);
        assert(t.last() == s[j - 1]);
    }
    if s.len() > 0 && !is_white_space(s.last()) {
        assert(!(j <= s.len() - 1)) by {
            if j <= s.len() - 1 {
                assert(is_white_space(s[s.len() - 1]));
            }
        }
        if i == j {
            assert(is_white_space(s[s.len() - 1]));
        }
    }
    if s.len() > 0 && !is_white_space(s[0]) {
        if i > 0 {
            assert(is_white_space(s[0]));
        }
        if j == 0 {
            assert(is_white_space(s[0]));
        }
    }
}

/// A text that neither starts nor ends with whitespace is its own trimmed
/// form.
pub proof fn lemma_trimmed_of_clean(s: Seq<char>)
    requires
        s.len() > 0,
        !is_white_space(s[0]),
        !is_white_space(s.last()),
    ensures
        trimmed(s) == s,
{
    assert(trim_start(s) == s);
    assert(trim_end(s) == s);
}

/// Executable test of the `White_Space` property.
pub fn is_white_space_char(c: char) -> (b: bool)
    ensures
        b == is_white_space(c),
{
    let v = c as u32;
    (0x09 <= v && v <= 0x0d) || v == 0x20 || v == 0x85 || v == 0xa0 || v == 0x1680 || (0x2000
        <= v && v <= 0x200a) || v == 0x2028 || v == 0x2029 || v == 0x202f || v == 0x205f || v
        == 0x3000
}

proof fn lemma_trim_start_skip(s: Seq<char>, k: int)
    requires
        0 <= k <= s.len(),
        forall|j: int| 0 <= j < k ==> is_white_space(#[trigger] s[j]),
    ensures
        trim_start(s) == trim_start(s.skip(k)),
    decreases k,
{
    if k > 0 {
        assert(s.drop_first() == s.skip(1));
        lemma_trim_start_skip(s.drop_first(), k - 1);
        assert(s.drop_first().skip(k - 1) =~= s.skip(k));
    } else {
        assert(s.skip(0) =~= s);
    }
}

proof fn lemma_trim_end_take(s: Seq<char>, k: int)
    requires
        0 <= k <= s.len(),
        forall|j: int| k <= j < s.len() ==> is_white_space(#[trigger] s[j]),
    ensures
        trim_end(s) == trim_end(s.take(k)),
    decreases s.len() - k,
{
    if k < s.len() {
        lemma_trim_end_take(s.drop_last(), k);
        assert(s.drop_last().take(k) =~= s.take(k));
    } else {
        assert(s.take(k) =~= s);
    }
}

/// Removes leading and trailing whitespace.
pub fn trim(s: &str) -> (r: String)
    ensures
        r@ == trimmed(s@),
{
    let n = s.unicode_len();
    let mut i: usize = 0;
    while i < n && is_white_space_char(s.get_char(i))
        invariant
            n == s@.len(),
            i <= n,
            forall|j: int| 0 <= j < i ==> is_white_space(#[trigger] s@[j]),
        decreases n - i,
    {
        i = i + 1;
    }
    let mut j: usize = n;
    while j > i && is_white_space_char(s.get_char(j - 1))
        invariant
            n == s@.len(),
            i <= j <= n,
            forall|k: int| j <= k < n ==> is_white_space(#[trigger] s@[k]),
        decreases j - i,
    {
        j = j - 1;
    }
    proof {
        lemma_trim_start_skip(s@, i as int);
        let rest = s@.skip(i as int);
        if i < n {
            assert(!is_white_space(rest[0]));
        }
        assert(trim_start(rest) == rest);
        assert forall|k: int| (j - i) <= k < rest.len() implies is_white_space(#[trigger] rest[k]) by {
            assert(rest[k] == s@[k + i]);
        }
        lemma_trim_end_take(rest, (j - i) as int);
        let mid = rest.take((j - i) as int);
        assert(mid =~= s@.subrange(i as int, j as int));
        if j > i {
            assert(mid.last() == s@[j - 1]);
        }
        assert(trim_end(mid) == mid);
    }
    String::from_str(s.substring_char(i, j))
}

} // verus!
