use vstd::prelude::*;
use vstd::string::*;

verus! {

/// The characters that Unicode gives the `White_Space` property, which is
/// what `char::is_whitespace` and `str::trim` go by.
pub open spec fn is_unicode_whitespace(c: char) -> bool {
    let n = c as u32;
    ||| 0x09 <= n <= 0x0D
    ||| n == 0x20
    ||| n == 0x85
    ||| n == 0xA0
    ||| n == 0x1680
    ||| 0x2000 <= n <= 0x200A
    ||| n == 0x2028
    ||| n == 0x2029
    ||| n == 0x202F
    ||| n == 0x205F
    ||| n == 0x3000
}

/// `s` without its leading and trailing whitespace.
pub open spec fn trimmed(s: Seq<char>) -> Seq<char>
    decreases s.len(),
{
    if s.len() > 0 && is_unicode_whitespace(s[0]) {
        trimmed(s.drop_first())
    } else if s.len() > 0 && is_unicode_whitespace(s.last()) {
        trimmed(s.drop_last())
    } else {
        s
    }
}

/// ASCII upper-casing of one character; every other character is unchanged.
pub open spec fn ascii_upper(c: char) -> char {
    if 'a' <= c && c <= 'z' {
        ((c as u32) - 32) as char
    } else {
        c
    }
}

/// ASCII lower-casing of one character; every other character is unchanged.
pub open spec fn ascii_lower(c: char) -> char {
    if 'A' <= c && c <= 'Z' {
        ((c as u32) + 32) as char
    } else {
        c
    }
}

pub open spec fn to_ascii_uppercase(s: Seq<char>) -> Seq<char> {
    s.map_values(|c: char| ascii_upper(c))
}

pub open spec fn to_ascii_lowercase(s: Seq<char>) -> Seq<char> {
    s.map_values(|c: char| ascii_lower(c))
}

pub fn is_whitespace(c: char) -> (r: bool)
    ensures
        r == is_unicode_whitespace(c),
{
    let n = c as u32;
    (0x09 <= n && n <= 0x0D) || n == 0x20 || n == 0x85 || n == 0xA0 || n == 0x1680 || (0x2000
        <= n && n <= 0x200A) || n == 0x2028 || n == 0x2029 || n == 0x202F || n == 0x205F || n
        == 0x3000
}

fn ascii_lower_char(c: char) -> (r: char)
    ensures
        r == ascii_lower(c),
{
    if 'A' <= c && c <= 'Z' {
        ((c as u8) + 32) as char
    } else {
        c
    }
}

fn ascii_upper_char(c: char) -> (r: char)
    ensures
        r == ascii_upper(c),
{
    if 'a' <= c && c <= 'z' {
        ((c as u8) - 32) as char
    } else {
        c
    }
}

/// Whether upper-casing the ASCII letters of `s` gives exactly `target`.
pub fn upper_equals(s: &str, target: &str) -> (r: bool)
    ensures
        r == (to_ascii_uppercase(s@) == target@),
{
    let n = s.unicode_len();
    let m = target.unicode_len();
    if n != m {
        assert(to_ascii_uppercase(s@).len() != target@.len());
        return false;
    }
    let mut i: usize = 0;
    while i < n
        invariant
            i <= n,
            n == s@.len(),
            n == target@.len(),
            forall|k: int| 0 <= k < i ==> ascii_upper(#[trigger] s@[k]) == target@[k],
        decreases n - i,
    {
        if ascii_upper_char(s.get_char(i)) != target.get_char(i) {
            assert(to_ascii_uppercase(s@)[i as int] != target@[i as int]);
            return false;
        }
        i += 1;
    }
    assert(to_ascii_uppercase(s@) =~= target@);
    true
}

/// Whether lower-casing the ASCII letters of `s` gives exactly `target`.
pub fn lower_equals(s: &str, target: &str) -> (r: bool)
    ensures
        r == (to_ascii_lowercase(s@) == target@),
{
    let n = s.unicode_len();
    let m = target.unicode_len();
    if n != m {
        assert(to_ascii_lowercase(s@).len() != target@.len());
        return false;
    }
    let mut i: usize = 0;
    while i < n
        invariant
            i <= n,
            n == s@.len(),
            n == target@.len(),
            forall|k: int| 0 <= k < i ==> ascii_lower(#[trigger] s@[k]) == target@[k],
        decreases n - i,
    {
        if ascii_lower_char(s.get_char(i)) != target.get_char(i) {
            assert(to_ascii_lowercase(s@)[i as int] != target@[i as int]);
            return false;
        }
        i += 1;
    }
    assert(to_ascii_lowercase(s@) =~= target@);
    true
}

/// Whether `a` and `b` hold the same characters.
pub fn str_equals(a: &str, b: &str) -> (r: bool)
    ensures
        r == (a@ == b@),
{
    let n = a.unicode_len();
    let m = b.unicode_len();
    if n != m {
        return false;
    }
    let mut i: usize = 0;
    while i < n
        invariant
            i <= n,
            n == a@.len(),
            n == b@.len(),
            forall|k: int| 0 <= k < i ==> a@[k] == b@[k],
        decreases n - i,
    {
        if a.get_char(i) != b.get_char(i) {
            return false;
        }
        i += 1;
    }
    assert(a@ =~= b@);
    true
}

/// Whether `s` is empty once its surrounding whitespace is removed.
pub fn is_blank(s: &str) -> (r: bool)
    ensures
        r == (trimmed(s@).len() == 0),
{
    trim(s).is_empty()
}

/// Dropping a leading whitespace character does not change what trimming gives.
proof fn lemma_trimmed_drop_first(s: Seq<char>)
    requires
        s.len() > 0,
        is_unicode_whitespace(s[0]),
    ensures
        trimmed(s) == trimmed(s.drop_first()),
{
}

/// Once no whitespace leads, dropping a trailing whitespace character does not
/// change what trimming gives.
proof fn lemma_trimmed_drop_last(s: Seq<char>)
    requires
        s.len() > 0,
        !is_unicode_whitespace(s[0]),
        is_unicode_whitespace(s.last()),
    ensures
        trimmed(s) == trimmed(s.drop_last()),
{
}

/// `trimmed(s)` is the stretch `s[i..j]`, which neither begins nor ends with
/// whitespace, and everything before `i` and from `j` on is whitespace.
pub open spec fn trim_bounds(s: Seq<char>, i: int, j: int) -> bool {
    &&& 0 <= i <= j <= s.len()
    &&& trimmed(s) == s.subrange(i, j)
    &&& forall|k: int| 0 <= k < i ==> is_unicode_whitespace(#[trigger] s[k])
    &&& forall|k: int| j <= k < s.len() ==> is_unicode_whitespace(#[trigger] s[k])
    &&& i < j ==> !is_unicode_whitespace(s[i]) && !is_unicode_whitespace(s[j - 1])
}

proof fn lemma_bounds_after_first(s: Seq<char>, i: int, j: int)
    requires
        s.len() > 0,
        is_unicode_whitespace(s[0]),
        trim_bounds(s.drop_first(), i, j),
    ensures
        trim_bounds(s, i + 1, j + 1),
{
    let t = s.drop_first();
    assert(s.subrange(i + 1, j + 1) =~= t.subrange(i, j));
    assert forall|k: int| 0 <= k < i + 1 implies is_unicode_whitespace(#[trigger] s[k]) by {
        if k > 0 {
            assert(s[k] == t[k - 1]);
        }
    }
    assert forall|k: int| j + 1 <= k < s.len() implies is_unicode_whitespace(#[trigger] s[k]) by {
        assert(s[k] == t[k - 1]);
    }
    if i < j {
        assert(s[i + 1] == t[i]);
        assert(s[j] == t[j - 1]);
    }
}

proof fn lemma_bounds_after_last(s: Seq<char>, i: int, j: int)
    requires
        s.len() > 0,
        !is_unicode_whitespace(s[0]),
        is_unicode_whitespace(s.last()),
        trim_bounds(s.drop_last(), i, j),
    ensures
        trim_bounds(s, i, j),
{
    let t = s.drop_last();
    assert(s.subrange(i, j) =~= t.subrange(i, j));
    assert forall|k: int| 0 <= k < i implies is_unicode_whitespace(#[trigger] s[k]) by {
        assert(s[k] == t[k]);
    }
    assert forall|k: int| j <= k < s.len() implies is_unicode_whitespace(#[trigger] s[k]) by {
        if k < s.len() - 1 {
            assert(s[k] == t[k]);
        }
    }
    if i < j {
        assert(s[i] == t[i]);
        assert(s[j - 1] == t[j - 1]);
    }
}

/// Trimming removes exactly the leading and the trailing whitespace: what is
/// left is a stretch of `s` that neither begins nor ends with whitespace, and
/// all that was removed is whitespace.
pub proof fn lemma_trimmed_shape(s: Seq<char>)
    ensures
        exists|i: int, j: int| trim_bounds(s, i, j),
    decreases s.len(),
{
    if s.len() > 0 && is_unicode_whitespace(s[0]) {
        lemma_trimmed_shape(s.drop_first());
        let (i, j) = choose|i: int, j: int| trim_bounds(s.drop_first(), i, j);
        lemma_bounds_after_first(s, i, j);
    } else if s.len() > 0 && is_unicode_whitespace(s.last()) {
        lemma_trimmed_shape(s.drop_last());
        let (i, j) = choose|i: int, j: int| trim_bounds(s.drop_last(), i, j);
        lemma_bounds_after_last(s, i, j);
    } else {
        assert(s.subrange(0, s.len() as int) =~= s);
        assert(trim_bounds(s, 0, s.len() as int));
    }
}

/// A text is empty once trimmed exactly when it is made of whitespace only.
pub proof fn lemma_trimmed_empty_iff_blank(s: Seq<char>)
    ensures
        trimmed(s).len() == 0 <==> forall|k: int|
            0 <= k < s.len() ==> is_unicode_whitespace(#[trigger] s[k]),
{
    lemma_trimmed_shape(s);
    let (i, j) = choose|i: int, j: int| trim_bounds(s, i, j);
    if trimmed(s).len() == 0 {
        assert forall|k: int| 0 <= k < s.len() implies is_unicode_whitespace(#[trigger] s[k]) by {
            if k >= i {
                assert(k >= j);
            }
        }
    } else {
        assert(!is_unicode_whitespace(s[i]));
    }
}

/// `s` with its leading and trailing Unicode whitespace removed, as `str::trim` does.
pub fn trim(s: &str) -> (r: &str)
    ensures
        r@ == trimmed(s@),
{
    let len = s.unicode_len();
    let mut i: usize = 0;
    assert(s@.subrange(0, len as int) =~= s@);
    while i < len
        invariant
            i <= len,
            len == s@.len(),
            trimmed(s@) == trimmed(s@.subrange(i as int, len as int)),
        ensures
            i <= len,
            trimmed(s@) == trimmed(s@.subrange(i as int, len as int)),
            i < len ==> !is_unicode_whitespace(s@[i as int]),
        decreases len - i,
    {
        if !is_whitespace(s.get_char(i)) {
            break;
        }
        proof {
            let sub = s@.subrange(i as int, len as int);
            lemma_trimmed_drop_first(sub);
            assert(sub.drop_first() =~= s@.subrange(i + 1, len as int));
        }
        i += 1;
    }
    let mut j: usize = len;
    while i < j
        invariant
            i <= j <= len,
            len == s@.len(),
            trimmed(s@) == trimmed(s@.subrange(i as int, j as int)),
            i < len ==> !is_unicode_whitespace(s@[i as int]),
        ensures
            i <= j <= len,
            trimmed(s@) == trimmed(s@.subrange(i as int, j as int)),
            i < j ==> !is_unicode_whitespace(s@[j - 1]),
        decreases j - i,
    {
        if !is_whitespace(s.get_char(j - 1)) {
            break;
        }
        proof {
            let sub = s@.subrange(i as int, j as int);
            assert(sub[0] == s@[i as int]);
            assert(sub.last() == s@[j - 1]);
            if j - 1 == i {
                assert(is_unicode_whitespace(sub[0]));
                lemma_trimmed_drop_first(sub);
                assert(sub.drop_first() =~= s@.subrange(i as int, j - 1));
            } else {
                lemma_trimmed_drop_last(sub);
                assert(sub.drop_last() =~= s@.subrange(i as int, j - 1));
            }
        }
        j -= 1;
    }
    proof {
        let sub = s@.subrange(i as int, j as int);
        if i < j {
            assert(sub[0] == s@[i as int]);
            assert(sub.last() == s@[j - 1]);
        }
    }
    s.substring_char(i, j)
}

} // verus!
