//! Character-level helpers and distinguished-name (DN) parsing.

use vstd::prelude::*;

verus! {

/// Relies on `String::push`: the character is appended at the end.
pub assume_specification[ String::push ](s: &mut String, ch: char)
    ensures
        final(s)@ == old(s)@.push(ch),
;

/// What `str::to_uppercase` returns for a string; it depends on the characters alone.
pub uninterp spec fn upper_of(s: Seq<char>) -> Seq<char>;

/// Every character is ASCII.
pub open spec fn is_ascii_text(s: Seq<char>) -> bool {
    forall|i: int| 0 <= i < s.len() ==> (#[trigger] s[i] as u32) < 128
}

/// `u` is `s` with `a`-`z` turned into `A`-`Z` and every other character kept.
pub open spec fn ascii_uppercased(s: Seq<char>, u: Seq<char>) -> bool {
    &&& u.len() == s.len()
    &&& forall|i: int|
        0 <= i < s.len() ==> if 97 <= (#[trigger] s[i] as u32) <= 122 {
            u[i] as u32 + 32 == s[i] as u32
        } else {
            u[i] == s[i]
        }
}

/// Relies on `str::to_uppercase`: the result is the Unicode uppercase mapping of the
/// characters, which on ASCII text turns `a`-`z` into `A`-`Z` and keeps every other character.
#[verifier::external_body]
pub(crate) fn to_upper(s: &str) -> (r: String)
    ensures
        r@ == upper_of(s@),
        is_ascii_text(s@) ==> ascii_uppercased(s@, r@),
{
    s.to_uppercase()
}

/// Whether two strings hold the same characters.
pub fn same_text(a: &str, b: &str) -> (r: bool)
    ensures
        r == (a@ == b@),
{
    let x = chars_of(a);
    let y = chars_of(b);
    if x.len() != y.len() {
        return false;
    }
    let mut i: usize = 0;
    while i < x.len()
        invariant
            x@.len() == y@.len(),
            x@ == a@,
            y@ == b@,
            i <= x@.len(),
            forall|j: int| 0 <= j < i ==> x@[j] == y@[j],
        decreases x@.len() - i,
    {
        if x[i] != y[i] {
            assert(x@[i as int] != y@[i as int]);
            assert(a@ != b@);
            return false;
        }
        i += 1;
    }
    assert(x@ =~= y@);
    true
}

/// Whether `needle` occurs in `h` at position `i`.
fn matches_at(h: &Vec<char>, needle: &Vec<char>, i: usize) -> (r: bool)
    requires
        i + needle@.len() <= h@.len(),
    ensures
        r == (h@.subrange(i as int, i + needle@.len()) == needle@),
{
    let hl = h.len();
    let mut k: usize = 0;
    while k < needle.len()
        invariant
            hl == h@.len(),
            i + needle@.len() <= h@.len(),
            k <= needle@.len(),
            forall|t: int| 0 <= t < k ==> h@[i + t] == needle@[t],
        decreases needle@.len() - k,
    {
        if h[i + k] != needle[k] {
            assert(h@.subrange(i as int, i + needle@.len())[k as int] != needle@[k as int]);
            return false;
        }
        k += 1;
    }
    assert(h@.subrange(i as int, i + needle@.len()) =~= needle@);
    true
}

/// `needle` occurs as a contiguous run of characters in `hay`.
pub open spec fn is_infix(needle: Seq<char>, hay: Seq<char>) -> bool {
    exists|i: int|
        0 <= i && i + needle.len() <= hay.len() && #[trigger] hay.subrange(i, i + needle.len())
            == needle
}

/// Whether `needle` is a substring of `hay`.
pub fn str_contains(hay: &str, needle: &str) -> (r: bool)
    ensures
        r == is_infix(needle@, hay@),
{
    let h = chars_of(hay);
    let n = chars_of(needle);
    if n.len() == 0 {
        assert(hay@.subrange(0, 0int + needle@.len()) =~= needle@);
        return true;
    }
    if n.len() > h.len() {
        return false;
    }
    let hl = h.len();
    let last = hl - n.len();
    let mut i: usize = 0;
    while i <= last
        invariant
            last == h@.len() - n@.len(),
            n@.len() > 0,
            last < h@.len(),
            hl == h@.len(),
            h@ == hay@,
            n@ == needle@,
            i <= last + 1,
            forall|j: int| 0 <= j < i ==> #[trigger] h@.subrange(j, j + n@.len()) != n@,
        decreases last + 1 - i,
    {
        if matches_at(&h, &n, i) {
            assert(hay@.subrange(i as int, i + needle@.len()) == needle@);
            return true;
        }
        i += 1;
    }
    false
}

/// Index of the first element that satisfies `p`, or the length when none does.
pub open spec fn first_index<A>(s: Seq<A>, p: spec_fn(A) -> bool) -> int
    decreases s.len(),
{
    if s.len() == 0 {
        0
    } else if p(s[0]) {
        0
    } else {
        1 + first_index(s.drop_first(), p)
    }
}

pub proof fn lemma_first_index<A>(s: Seq<A>, p: spec_fn(A) -> bool, i: int)
    requires
        0 <= i <= s.len(),
        forall|j: int| 0 <= j < i ==> !p(#[trigger] s[j]),
        i < s.len() ==> p(s[i]),
    ensures
        first_index(s, p) == i,
    decreases s.len(),
{
    if s.len() > 0 && i > 0 {
        assert(!p(s[0]));
        let t = s.drop_first();
        assert forall|j: int| 0 <= j < i - 1 implies !p(#[trigger] t[j]) by {
            assert(t[j] == s[j + 1]);
        }
        if i - 1 < t.len() {
            assert(t[i - 1] == s[i]);
        }
        lemma_first_index(t, p, i - 1);
    }
}

pub proof fn lemma_first_index_bounds<A>(s: Seq<A>, p: spec_fn(A) -> bool)
    ensures
        0 <= first_index(s, p) <= s.len(),
        first_index(s, p) < s.len() ==> p(s[first_index(s, p)]),
        forall|j: int| 0 <= j < first_index(s, p) ==> !p(#[trigger] s[j]),
    decreases s.len(),
{
    if s.len() > 0 && !p(s[0]) {
        let t = s.drop_first();
        lemma_first_index_bounds(t, p);
        assert forall|j: int| 0 <= j < first_index(s, p) implies !p(#[trigger] s[j]) by {
            if j > 0 {
                assert(s[j] == t[j - 1]);
            }
        }
    }
}

/// The results of `f` that are `Some`, in order.
pub open spec fn collect<A, B>(s: Seq<A>, f: spec_fn(A) -> Option<B>) -> Seq<B>
    decreases s.len(),
{
    if s.len() == 0 {
        Seq::empty()
    } else {
        collect(s.drop_last(), f) + match f(s.last()) {
            Some(b) => seq![b],
            None => Seq::empty(),
        }
    }
}

/// One more step of `collect` over a prefix of `s`.
pub proof fn lemma_collect_step<A, B>(s: Seq<A>, f: spec_fn(A) -> Option<B>, i: int)
    requires
        0 <= i < s.len(),
    ensures
        collect(s.take(i + 1), f) == collect(s.take(i), f) + match f(s[i]) {
            Some(b) => seq![b],
            None => Seq::empty(),
        },
{
    assert(s.take(i + 1).drop_last() =~= s.take(i));
    assert(s.take(i + 1).last() == s[i]);
}

/// Each element of `collect(s, f)` comes from an element of `s`.
pub proof fn lemma_collect_source<A, B>(s: Seq<A>, f: spec_fn(A) -> Option<B>, j: int)
    requires
        0 <= j < collect(s, f).len(),
    ensures
        exists|i: int| 0 <= i < s.len() && f(#[trigger] s[i]) == Some(collect(s, f)[j]),
    decreases s.len(),
{
    let p = s.drop_last();
    let c = collect(p, f);
    if j < c.len() {
        lemma_collect_source(p, f, j);
        let i = choose|i: int| 0 <= i < p.len() && f(#[trigger] p[i]) == Some(c[j]);
        assert(s[i] == p[i]);
    } else {
        assert(s[s.len() - 1] == s.last());
    }
}

/// An element of `s` that `f` keeps is in `collect(s, f)`.
pub proof fn lemma_collect_keeps<A, B>(s: Seq<A>, f: spec_fn(A) -> Option<B>, i: int)
    requires
        0 <= i < s.len(),
        f(s[i]) is Some,
    ensures
        exists|k: int| 0 <= k < collect(s, f).len() && collect(s, f)[k] == f(s[i])->0,
    decreases s.len(),
{
    let p = s.drop_last();
    let c = collect(p, f);
    if i < p.len() {
        assert(p[i] == s[i]);
        lemma_collect_keeps(p, f, i);
        let k = choose|k: int| 0 <= k < c.len() && c[k] == f(p[i])->0;
        assert(collect(s, f)[k] == c[k]);
    } else {
        assert(s.last() == s[i]);
        assert(collect(s, f)[c.len() as int] == f(s[i])->0);
    }
}

pub open spec fn is_char(c: char) -> spec_fn(char) -> bool {
    |x: char| x == c
}

/// Index of the first `c` in `s`, or the length of `s` when `c` does not occur.
pub open spec fn index_of(s: Seq<char>, c: char) -> int {
    first_index(s, is_char(c))
}

/// The characters of `s` before the first `c` (all of `s` when there is none).
pub open spec fn before(s: Seq<char>, c: char) -> Seq<char> {
    s.take(index_of(s, c))
}

/// The characters of `s` after the first `c` (empty when there is none).
pub open spec fn after(s: Seq<char>, c: char) -> Seq<char> {
    if index_of(s, c) < s.len() {
        s.skip(index_of(s, c) + 1)
    } else {
        Seq::empty()
    }
}

pub open spec fn has_char(s: Seq<char>, c: char) -> bool {
    index_of(s, c) < s.len()
}

/// The first comma-separated component of a DN (`CN=NAME`).
pub open spec fn first_rdn(dn: Seq<char>) -> Seq<char> {
    before(dn, ',')
}

/// A DN whose first component has a value after `=`.
pub open spec fn has_rdn_value(dn: Seq<char>) -> bool {
    has_char(first_rdn(dn), '=')
}

/// The value of the first component of a DN: text after its first `=`, up to the next `=`.
pub open spec fn rdn_value(dn: Seq<char>) -> Seq<char> {
    before(after(first_rdn(dn), '='), '=')
}

/// The DN of the parent: the DN without its first component and the comma after it.
pub open spec fn parent_dn(dn: Seq<char>) -> Seq<char> {
    after(dn, ',')
}

/// The value of the second component of a DN, when the DN has one that holds `=`.
pub open spec fn second_rdn_value(dn: Seq<char>) -> Option<Seq<char>> {
    if has_char(dn, ',') && has_rdn_value(parent_dn(dn)) {
        Some(rdn_value(parent_dn(dn)))
    } else {
        None
    }
}

pub fn chars_of(s: &str) -> (r: Vec<char>)
    ensures
        r@ == s@,
{
    let mut out: Vec<char> = Vec::new();
    for c in it: s.chars()
        invariant
            out@ == it.seq().take(it.index() as int),
    {
        out.push(c);
    }
    assert(out@ =~= s@);
    out
}

/// The characters `v[lo..hi]` as a string.
pub fn string_of(v: &Vec<char>, lo: usize, hi: usize) -> (r: String)
    requires
        lo <= hi <= v@.len(),
    ensures
        r@ == v@.subrange(lo as int, hi as int),
{
    let mut out = String::new();
    let mut i: usize = lo;
    while i < hi
        invariant
            lo <= i <= hi <= v@.len(),
            out@ == v@.subrange(lo as int, i as int),
        decreases hi - i,
    {
        out.push(v[i]);
        proof {
            assert(v@.subrange(lo as int, i + 1) =~= v@.subrange(lo as int, i as int).push(v@[i as int]));
        }
        i += 1;
    }
    out
}

/// Position of the first `c` in `v[from..]`, counted from the start of `v`; `v.len()` when absent.
pub fn find_char(v: &Vec<char>, c: char, from: usize) -> (r: usize)
    requires
        from <= v@.len(),
    ensures
        r == from + index_of(v@.skip(from as int), c),
        from <= r <= v@.len(),
{
    let ghost s = v@.skip(from as int);
    let mut i: usize = from;
    while i < v.len() && v[i] != c
        invariant
            from <= i <= v@.len(),
            s == v@.skip(from as int),
            forall|j: int| from <= j < i ==> v@[j] != c,
        decreases v@.len() - i,
    {
        i += 1;
    }
    proof {
        assert forall|j: int| 0 <= j < i - from implies !is_char(c)(#[trigger] s[j]) by {
            assert(s[j] == v@[j + from]);
        }
        if i < v@.len() {
            assert(s[i - from] == v@[i as int]);
        }
        lemma_first_index(s, is_char(c), i - from);
    }
    i
}

/// Function to get name from DN: `CN=G0H4N,CN=USERS,DC=ESSOS,DC=LOCAL` gives `G0H4N`.
pub fn get_name_from_full_distinguishedname(dn_object: &String) -> (r: String)
    requires
        has_rdn_value(dn_object@),
    ensures
        r@ == rdn_value(dn_object@),
{
    let v = chars_of(dn_object.as_str());
    let comma = find_char(&v, ',', 0);
    let cn = string_of(&v, 0, comma);
    assert(v@.skip(0) =~= v@);
    let w = chars_of(cn.as_str());
    let eq = find_char(&w, '=', 0);
    assert(w@.skip(0) =~= w@);
    let value_start = eq + 1;
    let value_end = find_char(&w, '=', value_start);
    string_of(&w, value_start, value_end)
}

/// Function to get `CN=name` from DN: the first comma-separated component.
pub fn get_cn_object_name_from_full_distinguishedname(dn_object: &String) -> (r: String)
    ensures
        r@ == first_rdn(dn_object@),
{
    let v = chars_of(dn_object.as_str());
    let comma = find_char(&v, ',', 0);
    assert(v@.skip(0) =~= v@);
    string_of(&v, 0, comma)
}

/// Function to get the first-degree container DN: `dn_object` without its `cn_name,` prefix.
pub fn get_contained_by_name_from_distinguishedname(cn_name: &String, dn_object: &String) -> (r:
    String)
    requires
        cn_name@.len() < dn_object@.len(),
        dn_object@.take(cn_name@.len() as int) == cn_name@,
        dn_object@[cn_name@.len() as int] == ',',
    ensures
        r@ == dn_object@.skip(cn_name@.len() as int + 1),
{
    let v = chars_of(dn_object.as_str());
    let cn_len = cn_name.as_str().unicode_len();
    let n = v.len();
    assert(cn_len < n);
    string_of(&v, cn_len + 1, n)
}

/// Splitting a DN that holds a comma: its first component, the comma, then the parent DN.
/// So the parent is what `get_contained_by_name_from_distinguishedname` returns when handed
/// the component that `get_cn_object_name_from_full_distinguishedname` returns.
pub proof fn lemma_dn_split(dn: Seq<char>)
    requires
        has_char(dn, ','),
    ensures
        first_rdn(dn).len() < dn.len(),
        dn.take(first_rdn(dn).len() as int) == first_rdn(dn),
        dn[first_rdn(dn).len() as int] == ',',
        dn.skip(first_rdn(dn).len() as int + 1) == parent_dn(dn),
        dn == first_rdn(dn) + seq![','] + parent_dn(dn),
{
    lemma_first_index_bounds(dn, is_char(','));
    let i = index_of(dn, ',');
    assert(dn =~= dn.take(i) + seq![','] + dn.skip(i + 1));
}

/// The characters of `s` before the first `c`.
pub fn before_char(s: &str, c: char) -> (r: String)
    ensures
        r@ == before(s@, c),
{
    let v = chars_of(s);
    let i = find_char(&v, c, 0);
    assert(v@.skip(0) =~= v@);
    string_of(&v, 0, i)
}

/// Whether `s` holds the character `c`.
pub fn holds_char(s: &str, c: char) -> (r: bool)
    ensures
        r == has_char(s@, c),
{
    let v = chars_of(s);
    let i = find_char(&v, c, 0);
    assert(v@.skip(0) =~= v@);
    i < v.len()
}

/// Whether the first component of `dn` has a value after `=`.
pub fn has_name(dn: &String) -> (r: bool)
    ensures
        r == has_rdn_value(dn@),
{
    let cn = get_cn_object_name_from_full_distinguishedname(dn);
    holds_char(cn.as_str(), '=')
}

/// The parent DN: `dn` without its first component, when `dn` has a comma.
pub fn parent_of(dn: &String) -> (r: Option<String>)
    ensures
        match r {
            Some(p) => has_char(dn@, ',') && p@ == parent_dn(dn@),
            None => !has_char(dn@, ','),
        },
{
    if !holds_char(dn.as_str(), ',') {
        return None;
    }
    proof {
        lemma_dn_split(dn@);
    }
    let cn = get_cn_object_name_from_full_distinguishedname(dn);
    Some(get_contained_by_name_from_distinguishedname(&cn, dn))
}

/// The value of the second component of `dn`.
pub fn second_name_of(dn: &String) -> (r: Option<String>)
    ensures
        match r {
            Some(v) => second_rdn_value(dn@) == Some(v@),
            None => second_rdn_value(dn@) is None,
        },
{
    match parent_of(dn) {
        None => None,
        Some(parent) => {
            if has_name(&parent) {
                Some(get_name_from_full_distinguishedname(&parent))
            } else {
                None
            }
        },
    }
}

} // verus!
