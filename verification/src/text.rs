use vstd::prelude::*;
use vstd::string::StringExecFns;

verus! {

/// Appends one character to a `String` (`String::push`).
#[verifier::external_body]
pub(crate) fn push_char(s: &mut String, c: char)
    ensures
        final(s)@ == old(s)@.push(c),
{
    s.push(c);
}

/// The characters of a string, in order.
pub(crate) fn chars_of(s: &str) -> (res: Vec<char>)
    ensures
        res@ == s@,
{
    let mut res: Vec<char> = Vec::new();
    for c in it: s.chars()
        invariant
            res@ == s@.take(it.index() as int),
            it.seq() == s@,
    {
        res.push(c);
    }
    res
}

/// The string made of `v[lo..hi]`.
pub(crate) fn string_from_chars(v: &Vec<char>, lo: usize, hi: usize) -> (res: String)
    requires
        lo <= hi <= v@.len(),
    ensures
        res@ == v@.subrange(lo as int, hi as int),
{
    let mut res = String::new();
    let mut i = lo;
    while i < hi
        invariant
            lo <= i <= hi <= v@.len(),
            res@ == v@.subrange(lo as int, i as int),
        decreases hi - i,
    {
        push_char(&mut res, v[i]);
        assert(v@.subrange(lo as int, i + 1) =~= v@.subrange(lo as int, i as int).push(v@[i as int]));
        i += 1;
    }
    res
}

/// A new string holding `a` followed by `b`.
pub(crate) fn concat2(a: &str, b: &str) -> (res: String)
    ensures
        res@ == a@ + b@,
{
    let mut res = String::from_str(a);
    res.append(b);
    res
}

/// A new string holding `a`, `b` and `c` in order.
pub(crate) fn concat3(a: &str, b: &str, c: &str) -> (res: String)
    ensures
        res@ == a@ + b@ + c@,
{
    let mut res = String::from_str(a);
    res.append(b);
    res.append(c);
    res
}

/// Unicode `White_Space`, the set that `char::is_whitespace` and `str::trim` use.
pub open spec fn is_unicode_whitespace(c: char) -> bool {
    let u = c as u32;
    (0x9 <= u && u <= 0xd) || u == 0x20 || u == 0x85 || u == 0xa0 || u == 0x1680 || (0x2000 <= u
        && u <= 0x200a) || u == 0x2028 || u == 0x2029 || u == 0x202f || u == 0x205f || u == 0x3000
}

/// Executable form of [`is_unicode_whitespace`].
pub fn is_whitespace_char(c: char) -> (res: bool)
    ensures
        res == is_unicode_whitespace(c),
{
    let u = c as u32;
    (0x9 <= u && u <= 0xd) || u == 0x20 || u == 0x85 || u == 0xa0 || u == 0x1680 || (0x2000 <= u
        && u <= 0x200a) || u == 0x2028 || u == 0x2029 || u == 0x202f || u == 0x205f || u == 0x3000
}

/// `s` without the characters at its front that satisfy `p`.
pub open spec fn strip_leading(s: Seq<char>, p: spec_fn(char) -> bool) -> Seq<char>
    decreases s.len(),
{
    if s.len() > 0 && p(s[0]) {
        strip_leading(s.drop_first(), p)
    } else {
        s
    }
}

/// `s` without the characters at its end that satisfy `p`.
pub open spec fn strip_trailing(s: Seq<char>, p: spec_fn(char) -> bool) -> Seq<char>
    decreases s.len(),
{
    if s.len() > 0 && p(s.last()) {
        strip_trailing(s.drop_last(), p)
    } else {
        s
    }
}

/// `s` with the characters satisfying `p` removed from both ends.
pub open spec fn strip_both(s: Seq<char>, p: spec_fn(char) -> bool) -> Seq<char> {
    strip_trailing(strip_leading(s, p), p)
}

/// What `str::trim` gives back.
pub open spec fn trim_whitespace(s: Seq<char>) -> Seq<char> {
    strip_both(s, |c: char| is_unicode_whitespace(c))
}

/// What `str::trim_matches('"')` gives back.
pub open spec fn trim_quotes(s: Seq<char>) -> Seq<char> {
    strip_both(s, |c: char| c == '"')
}

/// The predicate that [`trim_bounds`] strips: double quotes or white space.
pub open spec fn strip_pred(quotes: bool) -> spec_fn(char) -> bool {
    if quotes {
        |c: char| c == '"'
    } else {
        |c: char| is_unicode_whitespace(c)
    }
}

fn strips(c: char, quotes: bool) -> (res: bool)
    ensures
        res == strip_pred(quotes)(c),
{
    if quotes {
        c == '"'
    } else {
        is_whitespace_char(c)
    }
}

/// Bounds of `v[lo..hi]` once the characters of `strip_pred(quotes)` are removed from both ends.
pub(crate) fn trim_bounds(v: &Vec<char>, lo: usize, hi: usize, quotes: bool) -> (res: (usize, usize))
    requires
        lo <= hi <= v@.len(),
    ensures
        lo <= res.0 <= res.1 <= hi,
        v@.subrange(res.0 as int, res.1 as int) == strip_both(
            v@.subrange(lo as int, hi as int),
            strip_pred(quotes),
        ),
{
    let ghost p = strip_pred(quotes);
    let mut i = lo;
    while i < hi && strips(v[i], quotes)
        invariant
            lo <= i <= hi <= v@.len(),
            p == strip_pred(quotes),
            strip_leading(v@.subrange(lo as int, hi as int), p) == strip_leading(
                v@.subrange(i as int, hi as int),
                p,
            ),
        decreases hi - i,
    {
        assert(v@.subrange(i as int, hi as int).drop_first() =~= v@.subrange(i + 1, hi as int));
        i += 1;
    }
    assert(strip_leading(v@.subrange(i as int, hi as int), p) == v@.subrange(i as int, hi as int));
    let mut j = hi;
    while j > i && strips(v[j - 1], quotes)
        invariant
            lo <= i <= j <= hi <= v@.len(),
            p == strip_pred(quotes),
            strip_trailing(v@.subrange(i as int, hi as int), p) == strip_trailing(
                v@.subrange(i as int, j as int),
                p,
            ),
        decreases j - i,
    {
        assert(v@.subrange(i as int, j as int).drop_last() =~= v@.subrange(i as int, j - 1));
        j -= 1;
    }
    (i, j)
}

/// What `clean` keeps of a metadata value: quotes, then white space, trimmed from both ends.
pub open spec fn clean_text(s: Seq<char>) -> Seq<char> {
    trim_whitespace(trim_quotes(s))
}

/// The value with surrounding double quotes and white space removed, or `None`
/// when nothing is left (or no value was given).
pub fn clean(v: Option<&String>) -> (res: Option<String>)
    ensures
        v is None ==> res is None,
        v matches Some(s) ==> (if clean_text(s@).len() == 0 {
            res is None
        } else {
            res matches Some(r) && r@ == clean_text(s@)
        }),
{
    match v {
        None => None,
        Some(s) => {
            let chars = chars_of(s.as_str());
            let (a, b) = trim_bounds(&chars, 0, chars.len(), true);
            let (c, d) = trim_bounds(&chars, a, b, false);
            assert(chars@.subrange(0, chars@.len() as int) =~= s@);
            assert(strip_pred(true) =~= |c: char| c == '"');
            assert(strip_pred(false) =~= |c: char| is_unicode_whitespace(c));
            if c == d {
                None
            } else {
                Some(string_from_chars(&chars, c, d))
            }
        },
    }
}

/// `str::trim`.
pub fn trim(s: &str) -> (res: String)
    ensures
        res@ == trim_whitespace(s@),
{
    let chars = chars_of(s);
    let (a, b) = trim_bounds(&chars, 0, chars.len(), false);
    assert(chars@.subrange(0, chars@.len() as int) =~= s@);
    assert(strip_pred(false) =~= |c: char| is_unicode_whitespace(c));
    string_from_chars(&chars, a, b)
}

/// A value made safe for a single header line: each line feed becomes a space
/// and each carriage return is dropped.
pub open spec fn sanitize_value(s: Seq<char>) -> Seq<char>
    decreases s.len(),
{
    if s.len() == 0 {
        Seq::empty()
    } else {
        let c = s.last();
        let rest = sanitize_value(s.drop_last());
        if c == '\n' {
            rest.push(' ')
        } else if c == '\r' {
            rest
        } else {
            rest.push(c)
        }
    }
}

/// `val.replace('\n', " ").replace('\r', "")`.
pub fn sanitize(val: &str) -> (res: String)
    ensures
        res@ == sanitize_value(val@),
{
    let chars = chars_of(val);
    let mut res = String::new();
    let mut i: usize = 0;
    while i < chars.len()
        invariant
            i <= chars@.len(),
            chars@ == val@,
            res@ == sanitize_value(val@.take(i as int)),
        decreases chars.len() - i,
    {
        let c = chars[i];
        assert(val@.take(i + 1).drop_last() =~= val@.take(i as int));
        if c == '\n' {
            push_char(&mut res, ' ');
        } else if c != '\r' {
            push_char(&mut res, c);
        }
        i += 1;
    }
    assert(val@.take(chars@.len() as int) =~= val@);
    res
}

/// `s` begins with `prefix`.
pub open spec fn has_prefix(s: Seq<char>, prefix: Seq<char>) -> bool {
    s.len() >= prefix.len() && s.take(prefix.len() as int) == prefix
}

/// `str::starts_with` for a string prefix.
pub fn starts_with(s: &str, prefix: &str) -> (res: bool)
    ensures
        res == has_prefix(s@, prefix@),
{
    let v = chars_of(s);
    let p = chars_of(prefix);
    if v.len() < p.len() {
        return false;
    }
    let mut i: usize = 0;
    while i < p.len()
        invariant
            i <= p@.len() <= v@.len(),
            v@ == s@,
            p@ == prefix@,
            forall|j: int| 0 <= j < i ==> v@[j] == p@[j],
        decreases p.len() - i,
    {
        if v[i] != p[i] {
            assert(s@.take(prefix@.len() as int)[i as int] != prefix@[i as int]);
            return false;
        }
        i += 1;
    }
    assert(s@.take(prefix@.len() as int) =~= prefix@);
    true
}

/// A sanitized value fits on one header line: it holds no line feed and no
/// carriage return.
pub proof fn lemma_sanitized_is_single_line(s: Seq<char>)
    ensures
        !sanitize_value(s).contains('\n'),
        !sanitize_value(s).contains('\r'),
    decreases s.len(),
{
    if s.len() > 0 {
        lemma_sanitized_is_single_line(s.drop_last());
        let rest = sanitize_value(s.drop_last());
        let r = sanitize_value(s);
        assert forall|i: int| 0 <= i < r.len() implies r[i] != '\n' && r[i] != '\r' by {
            if i < rest.len() {
                assert(r[i] == rest[i]);
                if rest[i] == '\n' {
                    assert(rest.contains('\n'));
                }
                if rest[i] == '\r' {
                    assert(rest.contains('\r'));
                }
            }
        }
    }
}

proof fn lemma_strip_leading_front(s: Seq<char>, p: spec_fn(char) -> bool)
    ensures
        strip_leading(s, p).len() > 0 ==> !p(strip_leading(s, p)[0]),
        strip_leading(s, p).len() <= s.len(),
        strip_leading(s, p) == s.subrange(s.len() - strip_leading(s, p).len(), s.len() as int),
    decreases s.len(),
{
    if s.len() > 0 && p(s[0]) {
        lemma_strip_leading_front(s.drop_first(), p);
        let t = strip_leading(s.drop_first(), p);
        assert(s.drop_first().subrange(s.drop_first().len() - t.len(), s.drop_first().len() as int)
            =~= s.subrange(s.len() - t.len(), s.len() as int));
    } else {
        assert(s.subrange(0, s.len() as int) =~= s);
    }
}

proof fn lemma_strip_trailing_ends(s: Seq<char>, p: spec_fn(char) -> bool)
    ensures
        strip_trailing(s, p).len() > 0 ==> !p(strip_trailing(s, p).last()),
        strip_trailing(s, p).len() <= s.len(),
        strip_trailing(s, p) == s.take(strip_trailing(s, p).len() as int),
    decreases s.len(),
{
    if s.len() > 0 && p(s.last()) {
        lemma_strip_trailing_ends(s.drop_last(), p);
        let t = strip_trailing(s.drop_last(), p);
        assert(s.drop_last().take(t.len() as int) =~= s.take(t.len() as int));
    } else {
        assert(s.take(s.len() as int) =~= s);
    }
}

/// A cleaned metadata value neither starts nor ends with white space.
pub proof fn lemma_clean_text_is_trimmed(s: Seq<char>)
    ensures
        clean_text(s).len() > 0 ==> !is_unicode_whitespace(clean_text(s)[0])
            && !is_unicode_whitespace(clean_text(s).last()),
{
    let p = |c: char| is_unicode_whitespace(c);
    let q = trim_quotes(s);
    let l = strip_leading(q, p);
    lemma_strip_leading_front(q, p);
    lemma_strip_trailing_ends(l, p);
    let t = strip_trailing(l, p);
    if t.len() > 0 {
        assert(l.take(t.len() as int)[0] == l[0]);
    }
}

/// A value that neither starts nor ends with a quote or white space is kept
/// as it is by `clean`.
pub proof fn lemma_clean_keeps_plain_values(s: Seq<char>)
    requires
        s.len() > 0,
        s[0] != '"' && !is_unicode_whitespace(s[0]),
        s.last() != '"' && !is_unicode_whitespace(s.last()),
    ensures
        clean_text(s) == s,
{
}

} // verus!
