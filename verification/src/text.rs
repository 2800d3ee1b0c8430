//! Verified utilities on characters and character sequences: conversion
//! between `&str`/`String` and `Vec<char>`, equality, searching, splitting,
//! replacement, trimming, and decimal / hexadecimal rendering.

use vstd::prelude::*;
use vstd::string::*;
use vstd::assert_by_contradiction;

verus! {

/// Relies on String::push: appends the character to the end of the string.
#[verifier::external_body]
pub(crate) fn push_char(s: &mut String, c: char)
    ensures
        final(s)@ == old(s)@.push(c),
{
    s.push(c);
}

/// Collects the characters of a string slice into a vector.
pub fn str_chars(s: &str) -> (r: Vec<char>)
    ensures
        r@ == s@,
{
    let n = s.unicode_len();
    let mut r: Vec<char> = Vec::new();
    let mut i: usize = 0;
    while i < n
        invariant
            n == s@.len(),
            i <= n,
            r@ == s@.take(i as int),
        decreases n - i,
    {
        r.push(s.get_char(i));
        assert(r@ =~= s@.take(i + 1 as int));
        i = i + 1;
    }
    proof {
        assert(s@.take(n as int) =~= s@);
    }
    r
}

/// Builds an owned string out of a vector of characters.
pub fn chars_string(v: &Vec<char>) -> (r: String)
    ensures
        r@ == v@,
{
    let mut r = String::new();
    let mut i: usize = 0;
    while i < v.len()
        invariant
            i <= v.len(),
            r@ == v@.take(i as int),
        decreases v.len() - i,
    {
        push_char(&mut r, v[i]);
        assert(r@ =~= v@.take(i + 1 as int));
        i = i + 1;
    }
    proof {
        assert(v@.take(v@.len() as int) =~= v@);
    }
    r
}

/// Lowercase ASCII letter.
pub open spec fn is_lower(c: char) -> bool {
    'a' as u32 <= c as u32 && c as u32 <= 'z' as u32
}

/// Uppercase ASCII letter.
pub open spec fn is_upper(c: char) -> bool {
    'A' as u32 <= c as u32 && c as u32 <= 'Z' as u32
}

/// ASCII decimal digit.
pub open spec fn is_digit(c: char) -> bool {
    '0' as u32 <= c as u32 && c as u32 <= '9' as u32
}

/// Character that may appear anywhere in a PostgreSQL identifier the
/// library produces: lowercase letter, digit, underscore or dollar sign.
pub open spec fn is_db_char(c: char) -> bool {
    is_lower(c) || is_digit(c) || c == '_' || c == '$'
}

/// The lowercase form of an uppercase ASCII letter; other characters are kept.
pub open spec fn lower_char(c: char) -> char {
    if is_upper(c) {
        ((c as u8) + 32) as char
    } else {
        c
    }
}

/// One step of branch-name sanitization: uppercase ASCII letters are
/// lowercased, identifier characters are kept, everything else becomes '_'.
pub open spec fn map_char(c: char) -> char {
    if is_upper(c) {
        lower_char(c)
    } else if is_db_char(c) {
        c
    } else {
        '_'
    }
}

/// Sanitization, step 1: apply `map_char` to every character.
pub open spec fn mapped_chars(s: Seq<char>) -> Seq<char> {
    s.map(|_i: int, c: char| map_char(c))
}

/// Sanitization, step 2: prepend '_' when the name would start with a digit.
pub open spec fn digit_guard(s: Seq<char>) -> Seq<char> {
    if s.len() > 0 && is_digit(s[0]) {
        seq!['_'] + s
    } else {
        s
    }
}

/// Sanitization, step 3: collapse every run of consecutive underscores
/// into a single underscore.
pub open spec fn collapse_underscores(s: Seq<char>) -> Seq<char>
    decreases s.len(),
{
    if s.len() == 0 {
        s
    } else {
        let p = collapse_underscores(s.drop_last());
        if s.last() == '_' && p.len() > 0 && p.last() == '_' {
            p
        } else {
            p.push(s.last())
        }
    }
}

/// Sanitization, step 4: remove trailing underscores.
pub open spec fn strip_trailing_underscores(s: Seq<char>) -> Seq<char>
    decreases s.len(),
{
    if s.len() > 0 && s.last() == '_' {
        strip_trailing_underscores(s.drop_last())
    } else {
        s
    }
}

/// The name used when sanitization leaves nothing.
pub open spec fn fallback_name() -> Seq<char> {
    seq!['b', 'r', 'a', 'n', 'c', 'h']
}

/// Branch-name sanitization: lowercase, keep identifier characters,
/// replace the rest with '_', guard a leading digit, collapse runs of
/// underscores, strip trailing underscores, and fall back to "branch"
/// when nothing remains.
pub open spec fn sanitize(s: Seq<char>) -> Seq<char> {
    let t = strip_trailing_underscores(collapse_underscores(digit_guard(mapped_chars(s))));
    if t.len() == 0 {
        fallback_name()
    } else {
        t
    }
}

/// Executable form of `map_char`.
pub fn map_char_x(c: char) -> (r: char)
    ensures
        r == map_char(c),
{
    let u = c as u32;
    if 65 <= u && u <= 90 {
        ((c as u8) + 32) as char
    } else if (97 <= u && u <= 122) || (48 <= u && u <= 57) || u == 95 || u == 36 {
        c
    } else {
        '_'
    }
}

/// Executable form of `sanitize`.
pub fn sanitize_chars(s: &Vec<char>) -> (r: Vec<char>)
    ensures
        r@ == sanitize(s@),
{
    // Step 1: map every character.
    let mut m: Vec<char> = Vec::new();
    let mut i: usize = 0;
    while i < s.len()
        invariant
            i <= s.len(),
            m@ == mapped_chars(s@.take(i as int)),
        decreases s.len() - i,
    {
        m.push(map_char_x(s[i]));
        assert(m@ =~= mapped_chars(s@.take(i + 1 as int)));
        i = i + 1;
    }
    proof {
        assert(s@.take(s@.len() as int) =~= s@);
    }

    // Step 2: guard a leading digit.
    if m.len() > 0 {
        let c0 = m[0];
        let u = c0 as u32;
        if 48 <= u && u <= 57 {
            m.insert(0, '_');
        }
    }
    assert(m@ == digit_guard(mapped_chars(s@)));

    // Step 3: collapse runs of underscores.
    let ghost g: Seq<char> = m@;
    let mut c: Vec<char> = Vec::new();
    let mut j: usize = 0;
    while j < m.len()
        invariant
            j <= m.len(),
            g == m@,
            c@ == collapse_underscores(g.take(j as int)),
        decreases m.len() - j,
    {
        let ch = m[j];
        proof {
            assert(g.take(j + 1 as int).drop_last() =~= g.take(j as int));
            assert(g.take(j + 1 as int).last() == g[j as int]);
        }
        if ch == '_' && c.len() > 0 {
            let last = c[c.len() - 1];
            if last != '_' {
                c.push(ch);
            }
        } else {
            c.push(ch);
        }
        j = j + 1;
    }
    proof {
        assert(g.take(g.len() as int) =~= g);
    }

    // Step 4: strip trailing underscores.
    while c.len() > 0 && c[c.len() - 1] == '_'
        invariant
            strip_trailing_underscores(c@) == strip_trailing_underscores(
                collapse_underscores(digit_guard(mapped_chars(s@))),
            ),
        decreases c.len(),
    {
        proof {
            assert(c@.last() == '_');
        }
        c.pop();
    }
    assert(c@ == strip_trailing_underscores(collapse_underscores(digit_guard(mapped_chars(s@)))));

    // Step 5: fall back to "branch" when nothing remains.
    if c.len() == 0 {
        let mut f: Vec<char> = Vec::new();
        f.push('b');
        f.push('r');
        f.push('a');
        f.push('n');
        f.push('c');
        f.push('h');
        assert(f@ =~= fallback_name());
        f
    } else {
        c
    }
}

/// No two consecutive underscores anywhere in `s`.
pub open spec fn no_adjacent_underscores(s: Seq<char>) -> bool {
    forall|i: int| 0 <= i < s.len() - 1 ==> !(#[trigger] s[i] == '_' && s[i + 1] == '_')
}

/// `map_char` always yields an identifier character.
pub proof fn lemma_map_char_db(c: char)
    ensures
        is_db_char(map_char(c)),
{
    if is_upper(c) {
        assert(c as u32 <= 90);
        assert((c as u8) as u32 == c as u32);
        assert((((c as u8) + 32) as char) as u32 == c as u32 + 32);
    }
}

/// Identifier characters are left unchanged by `map_char`.
pub proof fn lemma_map_char_fixed(c: char)
    requires
        is_db_char(c),
    ensures
        map_char(c) == c,
{
}

/// Shape of `collapse_underscores`: it keeps the first and last characters,
/// never grows the sequence, draws every character from its input, and
/// leaves no two underscores adjacent.
pub proof fn lemma_collapse_props(s: Seq<char>)
    ensures
        collapse_underscores(s).len() <= s.len(),
        s.len() > 0 ==> collapse_underscores(s).len() > 0,
        s.len() > 0 ==> collapse_underscores(s)[0] == s[0],
        s.len() > 0 ==> collapse_underscores(s).last() == s.last(),
        no_adjacent_underscores(collapse_underscores(s)),
        forall|i: int|
            0 <= i < collapse_underscores(s).len() ==> s.contains(
                #[trigger] collapse_underscores(s)[i],
            ),
    decreases s.len(),
{
    if s.len() > 0 {
        let d = s.drop_last();
        lemma_collapse_props(d);
        let p = collapse_underscores(d);
        let r = collapse_underscores(s);
        assert(forall|i: int| 0 <= i < d.len() ==> d[i] == s[i]);
        assert(forall|i: int|
            0 <= i < p.len() && d.contains(#[trigger] p[i]) ==> s.contains(p[i]));
        if s.last() == '_' && p.len() > 0 && p.last() == '_' {
            assert(r == p);
            assert(d.len() > 0);
            assert(r.last() == s.last());
        } else {
            assert(r == p.push(s.last()));
            assert(s.contains(s.last()));
            if d.len() > 0 {
                assert(r[0] == s[0]);
            }
            assert(forall|i: int|
                0 <= i < r.len() - 1 ==> !(#[trigger] r[i] == '_' && r[i + 1] == '_'));
        }
    }
}

/// `collapse_underscores` changes nothing when no two underscores are
/// already adjacent.
pub proof fn lemma_collapse_noop(s: Seq<char>)
    requires
        no_adjacent_underscores(s),
    ensures
        collapse_underscores(s) == s,
    decreases s.len(),
{
    if s.len() > 0 {
        let d = s.drop_last();
        assert(forall|i: int| 0 <= i < d.len() ==> d[i] == s[i]);
        assert(no_adjacent_underscores(d));
        lemma_collapse_noop(d);
        let p = collapse_underscores(d);
        if s.last() == '_' && p.len() > 0 && p.last() == '_' {
            assert(s[s.len() - 2] == '_' && s[s.len() - 1] == '_');
            assert(false);
        }
        assert(p.push(s.last()) =~= s);
    }
}

/// `strip_trailing_underscores` yields a prefix of its input whose last
/// character, if any, is not an underscore.
pub proof fn lemma_strip_props(s: Seq<char>)
    ensures
        strip_trailing_underscores(s).len() <= s.len(),
        strip_trailing_underscores(s) == s.take(strip_trailing_underscores(s).len() as int),
        strip_trailing_underscores(s).len() > 0 ==> strip_trailing_underscores(s).last() != '_',
    decreases s.len(),
{
    if s.len() > 0 && s.last() == '_' {
        lemma_strip_props(s.drop_last());
        let r = strip_trailing_underscores(s);
        assert(s.drop_last() == s.take(s.len() - 1));
        assert(s.drop_last().take(r.len() as int) =~= s.take(r.len() as int));
    } else {
        assert(s.take(s.len() as int) =~= s);
    }
}

/// Shape of a sanitized name: non-empty, made of identifier characters,
/// not starting with a digit, with no doubled underscore and no trailing
/// underscore.
pub proof fn lemma_sanitize_props(s: Seq<char>)
    ensures
        sanitize(s).len() >= 1,
        forall|i: int| 0 <= i < sanitize(s).len() ==> is_db_char(#[trigger] sanitize(s)[i]),
        !is_digit(sanitize(s)[0]),
        no_adjacent_underscores(sanitize(s)),
        sanitize(s).last() != '_',
{
    let m = mapped_chars(s);
    let g = digit_guard(m);
    let c = collapse_underscores(g);
    let t = strip_trailing_underscores(c);
    assert(forall|i: int| 0 <= i < m.len() ==> is_db_char(#[trigger] m[i])) by {
        assert forall|i: int| 0 <= i < m.len() implies is_db_char(#[trigger] m[i]) by {
            lemma_map_char_db(s[i]);
        }
    }
    assert(forall|i: int| 0 <= i < g.len() ==> is_db_char(#[trigger] g[i]));
    if g.len() > 0 && is_digit(g[0]) {
        assert(g[0] == '_' || g[0] == m[0]);
        assert(!is_digit(g[0]));
    }
    lemma_collapse_props(g);
    assert(forall|i: int| 0 <= i < c.len() ==> is_db_char(#[trigger] c[i])) by {
        assert forall|i: int| 0 <= i < c.len() implies is_db_char(#[trigger] c[i]) by {
            assert(g.contains(c[i]));
            let j = choose|j: int| 0 <= j < g.len() && g[j] == c[i];
        }
    }
    lemma_strip_props(c);
    assert(forall|i: int| 0 <= i < t.len() ==> t[i] == c[i]);
    if t.len() == 0 {
        let f = fallback_name();
        assert(sanitize(s) == f);
        assert(is_lower(f[0]) && is_lower(f[1]) && is_lower(f[2]) && is_lower(f[3]) && is_lower(
            f[4],
        ) && is_lower(f[5]));
        assert(forall|i: int| 0 <= i < f.len() ==> is_db_char(#[trigger] f[i]));
        assert(f.last() == 'h');
    } else {
        assert(sanitize(s) == t);
        assert(t[0] == c[0] && c[0] == g[0]);
        assert(forall|i: int|
            0 <= i < t.len() - 1 ==> !(#[trigger] t[i] == '_' && t[i + 1] == '_'));
    }
}

/// Sanitization is idempotent: a sanitized name passes through
/// sanitization unchanged.
pub proof fn lemma_sanitize_idempotent(s: Seq<char>)
    ensures
        sanitize(sanitize(s)) == sanitize(s),
{
    let t = sanitize(s);
    lemma_sanitize_props(s);
    assert(mapped_chars(t) =~= t) by {
        assert forall|i: int| 0 <= i < t.len() implies mapped_chars(t)[i] == t[i] by {
            assert(is_db_char(t[i]));
            assert(!is_upper(t[i]));
            lemma_map_char_fixed(t[i]);
        }
    }
    assert(digit_guard(t) == t);
    lemma_collapse_noop(t);
    assert(strip_trailing_underscores(t) == t);
}

/// One of the strings of `v` reads exactly as `s`.
pub fn contains_string(v: &Vec<String>, s: &str) -> (r: bool)
    ensures
        r == v.deep_view().contains(s@),
{
    let mut i: usize = 0;
    while i < v.len()
        invariant
            i <= v@.len(),
            forall|j: int| 0 <= j < i ==> v.deep_view()[j] != s@,
        decreases v.len() - i,
    {
        if str_eq(v[i].as_str(), s) {
            proof {
                assert(v.deep_view()[i as int] == s@);
            }
            return true;
        }
        i = i + 1;
    }
    proof {
        assert_by_contradiction!(!v.deep_view().contains(s@), {
            let j = choose|j: int| 0 <= j < v.deep_view().len() && v.deep_view()[j] == s@;
        });
    }
    false
}

/// The pattern `p` occurs in `s` at position `i`.
pub open spec fn match_at(s: Seq<char>, p: Seq<char>, i: int) -> bool {
    0 <= i && i + p.len() <= s.len() && s.subrange(i, i + p.len()) == p
}

/// The pattern `p` occurs somewhere in `s`.
pub open spec fn contains_seq(s: Seq<char>, p: Seq<char>) -> bool {
    exists|i: int| match_at(s, p, i)
}

/// Every occurrence of `p` in `s` replaced by `t`, scanning left to right
/// over non-overlapping matches. For an empty pattern `s` is returned
/// unchanged; callers only use non-empty patterns.
pub open spec fn replace_all(s: Seq<char>, p: Seq<char>, t: Seq<char>) -> Seq<char>
    decreases s.len(),
{
    if p.len() == 0 || s.len() == 0 {
        s
    } else if match_at(s, p, 0) {
        t + replace_all(s.skip(p.len() as int), p, t)
    } else {
        seq![s[0]] + replace_all(s.skip(1), p, t)
    }
}

/// Executable form of `match_at`.
pub fn matches_at(s: &Vec<char>, p: &Vec<char>, i: usize) -> (r: bool)
    requires
        i <= s@.len(),
    ensures
        r == match_at(s@, p@, i as int),
{
    if p.len() > s.len() - i {
        return false;
    }
    let mut k: usize = 0;
    while k < p.len()
        invariant
            i + p@.len() <= s@.len(),
            s@.len() <= usize::MAX,
            k <= p@.len(),
            forall|j: int| 0 <= j < k ==> s@[i + j] == p@[j],
        decreases p.len() - k,
    {
        if s[i + k] != p[k] {
            proof {
                assert_by_contradiction!(!match_at(s@, p@, i as int), {
                    assert(s@.subrange(i as int, i + p@.len())[k as int] == p@[k as int]);
                });
            }
            return false;
        }
        k = k + 1;
    }
    proof {
        assert(s@.subrange(i as int, i + p@.len()) =~= p@);
    }
    true
}

/// Executable form of `contains_seq`.
pub fn contains_seq_x(s: &Vec<char>, p: &Vec<char>) -> (r: bool)
    ensures
        r == contains_seq(s@, p@),
{
    if p.len() > s.len() {
        return false;
    }
    if p.len() == 0 {
        proof {
            assert(s@.subrange(0, 0) =~= p@);
            assert(match_at(s@, p@, 0));
        }
        return true;
    }
    let mut i: usize = 0;
    while i <= s.len() - p.len()
        invariant
            0 < p@.len() <= s@.len(),
            s@.len() <= usize::MAX,
            i <= s@.len() - p@.len() + 1,
            forall|j: int| 0 <= j < i ==> !match_at(s@, p@, j),
        decreases s@.len() - p@.len() - i + 1,
    {
        if matches_at(s, p, i) {
            return true;
        }
        i = i + 1;
    }
    false
}

/// `c` occurs in `s`.
pub fn contains_char(s: &Vec<char>, c: char) -> (r: bool)
    ensures
        r == s@.contains(c),
{
    let mut i: usize = 0;
    while i < s.len()
        invariant
            i <= s@.len(),
            forall|j: int| 0 <= j < i ==> s@[j] != c,
        decreases s.len() - i,
    {
        if s[i] == c {
            return true;
        }
        i = i + 1;
    }
    proof {
        assert_by_contradiction!(!s@.contains(c), {
            let j = choose|j: int| 0 <= j < s@.len() && s@[j] == c;
        });
    }
    false
}

/// Appends every character of `t` to `out`.
pub fn push_all(out: &mut Vec<char>, t: &Vec<char>)
    ensures
        final(out)@ == old(out)@ + t@,
{
    let mut k: usize = 0;
    while k < t.len()
        invariant
            k <= t@.len(),
            out@ == old(out)@ + t@.take(k as int),
        decreases t.len() - k,
    {
        out.push(t[k]);
        assert(out@ =~= old(out)@ + t@.take(k + 1 as int));
        k = k + 1;
    }
    proof {
        assert(old(out)@ + t@.take(t@.len() as int) =~= old(out)@ + t@);
    }
}

/// Unfolding of `replace_all` at a position where the pattern matches.
proof fn lemma_replace_step_match(s: Seq<char>, p: Seq<char>, t: Seq<char>, i: int)
    requires
        p.len() > 0,
        match_at(s, p, i),
    ensures
        replace_all(s.skip(i), p, t) == t + replace_all(s.skip(i + p.len()), p, t),
{
    let rest = s.skip(i);
    assert(rest.subrange(0, p.len() as int) =~= s.subrange(i, i + p.len()));
    assert(match_at(rest, p, 0));
    assert(rest.skip(p.len() as int) =~= s.skip(i + p.len()));
}

/// Unfolding of `replace_all` at a position where the pattern does not match.
proof fn lemma_replace_step_miss(s: Seq<char>, p: Seq<char>, t: Seq<char>, i: int)
    requires
        p.len() > 0,
        0 <= i < s.len(),
        !match_at(s, p, i),
    ensures
        replace_all(s.skip(i), p, t) == seq![s[i]] + replace_all(s.skip(i + 1), p, t),
{
    let rest = s.skip(i);
    assert_by_contradiction!(!match_at(rest, p, 0), {
        assert(s.subrange(i, i + p.len()) =~= rest.subrange(0, p.len() as int));
    });
    assert(rest.skip(1) =~= s.skip(i + 1));
    assert(rest[0] == s[i]);
}

/// Executable form of `replace_all` for a non-empty pattern.
pub fn replace_all_x(s: &Vec<char>, p: &Vec<char>, t: &Vec<char>) -> (r: Vec<char>)
    requires
        p@.len() > 0,
    ensures
        r@ == replace_all(s@, p@, t@),
{
    let mut out: Vec<char> = Vec::new();
    let mut i: usize = 0;
    proof {
        assert(s@.skip(0) =~= s@);
        assert(Seq::<char>::empty() + replace_all(s@, p@, t@) =~= replace_all(s@, p@, t@));
    }
    while i < s.len()
        invariant
            i <= s@.len(),
            p@.len() > 0,
            out@ + replace_all(s@.skip(i as int), p@, t@) == replace_all(s@, p@, t@),
        decreases s.len() - i,
    {
        let ghost out0 = out@;
        if matches_at(s, p, i) {
            proof {
                lemma_replace_step_match(s@, p@, t@, i as int);
            }
            push_all(&mut out, t);
            i = i + p.len();
            proof {
                assert(out@ + replace_all(s@.skip(i as int), p@, t@) =~= replace_all(
                    s@,
                    p@,
                    t@,
                ));
            }
        } else {
            proof {
                lemma_replace_step_miss(s@, p@, t@, i as int);
            }
            out.push(s[i]);
            i = i + 1;
            proof {
                assert(out@ + replace_all(s@.skip(i as int), p@, t@) =~= replace_all(
                    s@,
                    p@,
                    t@,
                ));
            }
        }
    }
    proof {
        assert(s@.skip(s@.len() as int) =~= Seq::<char>::empty());
        assert(out@ + replace_all(Seq::<char>::empty(), p@, t@) =~= out@);
    }
    out
}

/// ASCII whitespace: space, tab, line feed, carriage return or form feed.
pub open spec fn is_space(c: char) -> bool {
    c == ' ' || c == '\t' || c == '\n' || c == '\r' || c as u32 == 12
}

/// `s` without leading whitespace.
pub open spec fn trim_start(s: Seq<char>) -> Seq<char>
    decreases s.len(),
{
    if s.len() > 0 && is_space(s[0]) {
        trim_start(s.drop_first())
    } else {
        s
    }
}

/// `s` without trailing whitespace.
pub open spec fn trim_end(s: Seq<char>) -> Seq<char>
    decreases s.len(),
{
    if s.len() > 0 && is_space(s.last()) {
        trim_end(s.drop_last())
    } else {
        s
    }
}

/// `s` without leading and trailing whitespace.
pub open spec fn trim(s: Seq<char>) -> Seq<char> {
    trim_start(trim_end(s))
}

/// Executable form of `is_space`.
pub fn is_space_x(c: char) -> (r: bool)
    ensures
        r == is_space(c),
{
    let u = c as u32;
    u == 32 || u == 9 || u == 10 || u == 13 || u == 12
}

/// Executable form of `trim`.
pub fn trim_chars(s: &Vec<char>) -> (r: Vec<char>)
    ensures
        r@ == trim(s@),
{
    let mut v: Vec<char> = Vec::new();
    push_all(&mut v, s);
    assert(v@ == s@);
    while v.len() > 0 && is_space_x(v[v.len() - 1])
        invariant
            trim_end(v@) == trim_end(s@),
        decreases v.len(),
    {
        proof {
            assert(is_space(v@.last()));
        }
        v.pop();
    }
    assert(v@ == trim_end(s@));
    let mut i: usize = 0;
    proof {
        assert(v@.skip(0) =~= v@);
    }
    while i < v.len() && is_space_x(v[i])
        invariant
            i <= v@.len(),
            v@ == trim_end(s@),
            trim_start(v@.skip(i as int)) == trim_start(v@),
        decreases v.len() - i,
    {
        proof {
            let rest = v@.skip(i as int);
            assert(rest[0] == v@[i as int]);
            assert(rest.drop_first() =~= v@.skip(i + 1));
        }
        i = i + 1;
    }
    proof {
        let rest = v@.skip(i as int);
        if i < v@.len() {
            assert(rest[0] == v@[i as int]);
        }
        assert(trim_start(rest) == rest);
    }
    let mut out: Vec<char> = Vec::new();
    let mut k: usize = i;
    while k < v.len()
        invariant
            i <= k <= v@.len(),
            out@ == v@.subrange(i as int, k as int),
        decreases v.len() - k,
    {
        out.push(v[k]);
        assert(out@ =~= v@.subrange(i as int, k + 1 as int));
        k = k + 1;
    }
    proof {
        assert(v@.subrange(i as int, v@.len() as int) =~= v@.skip(i as int));
    }
    out
}

} // verus!

verus! {

/// The pieces of `s` between occurrences of the separator `sep`;
/// a string without the separator yields one piece.
pub open spec fn split_char(s: Seq<char>, sep: char) -> Seq<Seq<char>>
    decreases s.len(),
{
    if s.len() == 0 {
        seq![Seq::<char>::empty()]
    } else if s[0] == sep {
        seq![Seq::<char>::empty()] + split_char(s.drop_first(), sep)
    } else {
        let r = split_char(s.drop_first(), sep);
        seq![seq![s[0]] + r[0]] + r.drop_first()
    }
}

/// `split_char` always yields at least one piece.
pub proof fn lemma_split_char_len(s: Seq<char>, sep: char)
    ensures
        split_char(s, sep).len() >= 1,
    decreases s.len(),
{
    if s.len() > 0 {
        lemma_split_char_len(s.drop_first(), sep);
    }
}

/// The pieces of `s` between commas, each trimmed of surrounding whitespace.
pub open spec fn split_trimmed(s: Seq<char>, sep: char) -> Seq<Seq<char>> {
    split_char(s, sep).map(|_i: int, piece: Seq<char>| trim(piece))
}

/// Executable splitting on a separator, pieces untrimmed.
pub fn split_chars(s: &Vec<char>, sep: char) -> (r: Vec<Vec<char>>)
    ensures
        r.deep_view() == split_char(s@, sep),
{
    let mut done: Vec<Vec<char>> = Vec::new();
    let mut cur: Vec<char> = Vec::new();
    let mut i: usize = 0;
    proof {
        assert(s@.skip(0) =~= s@);
        lemma_split_char_len(s@, sep);
        let r = split_char(s@, sep);
        assert(Seq::<char>::empty() + r[0] =~= r[0]);
        assert(Seq::<Seq<char>>::empty() + seq![r[0]] + r.drop_first() =~~= r);
    }
    while i < s.len()
        invariant
            i <= s@.len(),
            split_char(s@, sep) =~~= done.deep_view() + seq![
                cur@ + split_char(s@.skip(i as int), sep)[0],
            ] + split_char(s@.skip(i as int), sep).drop_first(),
        decreases s.len() - i,
    {
        let ghost rest = s@.skip(i as int);
        let ghost done0 = done.deep_view();
        let ghost cur0 = cur@;
        proof {
            assert(rest[0] == s@[i as int]);
            assert(rest.drop_first() =~= s@.skip(i + 1));
            lemma_split_char_len(s@.skip(i + 1), sep);
        }
        if s[i] == sep {
            done.push(cur);
            cur = Vec::new();
            proof {
                let r1 = split_char(s@.skip(i + 1), sep);
                assert(split_char(rest, sep) == seq![Seq::<char>::empty()] + r1);
                assert(done.deep_view() =~~= done0.push(cur0));
                assert(cur0 + split_char(rest, sep)[0] =~= cur0);
                assert(split_char(rest, sep).drop_first() =~~= r1);
                assert(done0 + seq![cur0] + r1 =~~= done0.push(cur0) + seq![
                    Seq::<char>::empty() + r1[0],
                ] + r1.drop_first());
            }
        } else {
            let ch = s[i];
            cur.push(ch);
            proof {
                let r1 = split_char(s@.skip(i + 1), sep);
                assert(split_char(rest, sep) == seq![seq![rest[0]] + r1[0]] + r1.drop_first());
                assert(cur0 + split_char(rest, sep)[0] =~= cur@ + r1[0]);
                assert(split_char(rest, sep).drop_first() =~~= r1.drop_first());
            }
        }
        i = i + 1;
        proof {
            assert(split_char(s@, sep) =~~= done.deep_view() + seq![
                cur@ + split_char(s@.skip(i as int), sep)[0],
            ] + split_char(s@.skip(i as int), sep).drop_first());
        }
    }
    proof {
        assert(s@.skip(s@.len() as int) =~= Seq::<char>::empty());
        let r0 = split_char(Seq::<char>::empty(), sep);
        assert(r0 == seq![Seq::<char>::empty()]);
        assert(cur@ + r0[0] =~= cur@);
        assert(r0.drop_first() =~~= Seq::<Seq<char>>::empty());
    }
    let ghost done1 = done.deep_view();
    let ghost cur1 = cur@;
    done.push(cur);
    proof {
        assert(done.deep_view() =~~= done1.push(cur1));
        assert(done.deep_view() =~~= split_char(s@, sep));
    }
    done
}

/// Executable splitting on a separator with trimming of every piece.
pub fn split_trim(s: &Vec<char>, sep: char) -> (r: Vec<Vec<char>>)
    ensures
        r.deep_view() == split_trimmed(s@, sep),
{
    let done = split_chars(s, sep);
    let ghost pieces = split_char(s@, sep);
    let mut out: Vec<Vec<char>> = Vec::new();
    let mut k: usize = 0;
    while k < done.len()
        invariant
            k <= done@.len(),
            done.deep_view() =~~= pieces,
            pieces == split_char(s@, sep),
            out@.len() == k,
            forall|j: int| 0 <= j < k ==> out.deep_view()[j] == trim(pieces[j]),
        decreases done.len() - k,
    {
        let ghost out0 = out.deep_view();
        let piece = trim_chars(&done[k]);
        proof {
            assert(piece@ == trim(done@[k as int]@));
        }
        out.push(piece);
        proof {
            assert(out.deep_view() =~~= out0.push(piece@));
            assert(done.deep_view()[k as int] == done@[k as int].deep_view());
            assert(done@[k as int].deep_view() =~= done@[k as int]@);
            assert(done.deep_view()[k as int] =~= pieces[k as int]);
            assert(pieces[k as int] == done@[k as int]@);
            assert(out.deep_view()[k as int] == trim(pieces[k as int]));
            assert(forall|j: int| 0 <= j < k ==> out.deep_view()[j] == out0[j]);
        }
        k = k + 1;
    }
    proof {
        assert(out.deep_view() =~~= split_trimmed(s@, sep));
    }
    out
}

} // verus!

verus! {

/// Value of an ASCII digit.
pub open spec fn digit_val(c: char) -> int {
    c as u32 - 48
}

/// Every character of `s` is an ASCII digit.
pub open spec fn all_digits(s: Seq<char>) -> bool {
    forall|i: int| 0 <= i < s.len() ==> is_digit(s[i])
}

/// Value of a decimal digit string.
pub open spec fn dec_value(s: Seq<char>) -> int
    decreases s.len(),
{
    if s.len() == 0 {
        0
    } else {
        dec_value(s.drop_last()) * 10 + digit_val(s.last())
    }
}

/// A digit string has a non-negative value.
pub proof fn lemma_dec_value_nonneg(s: Seq<char>)
    requires
        all_digits(s),
    ensures
        dec_value(s) >= 0,
    decreases s.len(),
{
    if s.len() > 0 {
        assert(all_digits(s.drop_last()));
        lemma_dec_value_nonneg(s.drop_last());
    }
}

/// The value of a digit string is at least the value of any of its prefixes.
pub proof fn lemma_dec_value_prefix(s: Seq<char>, k: int)
    requires
        all_digits(s),
        0 <= k <= s.len(),
    ensures
        dec_value(s) >= dec_value(s.take(k)),
    decreases s.len() - k,
{
    if k < s.len() {
        assert(all_digits(s.take(k)));
        assert(all_digits(s.take(k + 1)));
        lemma_dec_value_nonneg(s.take(k));
        assert(s.take(k + 1).drop_last() =~= s.take(k));
        assert(dec_value(s.take(k + 1)) == dec_value(s.take(k)) * 10 + digit_val(s.take(k + 1).last()));
        lemma_dec_value_prefix(s, k + 1);
    } else {
        assert(s.take(k) =~= s);
    }
}

/// The result of parsing a decimal port number, mirroring `str::parse::<u16>`:
/// an optional leading '+', then one or more digits whose value fits in `u16`.
pub open spec fn parse_u16_spec(s: Seq<char>) -> Option<u16> {
    let t = if s.len() > 0 && s[0] == '+' {
        s.drop_first()
    } else {
        s
    };
    if t.len() > 0 && all_digits(t) && dec_value(t) <= 65535 {
        Some(dec_value(t) as u16)
    } else {
        None
    }
}

/// Executable form of `parse_u16_spec`.
pub fn parse_u16(s: &Vec<char>) -> (r: Option<u16>)
    ensures
        r == parse_u16_spec(s@),
{
    let start: usize = if s.len() > 0 && s[0] == '+' {
        1
    } else {
        0
    };
    let ghost t = s@.skip(start as int);
    proof {
        if start == 0 {
            assert(t =~= s@);
        } else {
            assert(t =~= s@.drop_first());
        }
    }
    if s.len() == start {
        return None;
    }
    let mut acc: u32 = 0;
    let mut i: usize = start;
    while i < s.len()
        invariant
            start <= i <= s@.len(),
            t == s@.skip(start as int),
            t == (if s@.len() > 0 && s@[0] == '+' {
                s@.drop_first()
            } else {
                s@
            }),
            start as int == (if s@.len() > 0 && s@[0] == '+' {
                1int
            } else {
                0int
            }),
            t.len() == s@.len() - start,
            forall|j: int| 0 <= j < i - start ==> is_digit(t[j]),
            acc <= 65535,
            acc as int == dec_value(t.take(i - start)),
        decreases s.len() - i,
    {
        let u = s[i] as u32;
        proof {
            assert(t[i - start] == s@[i as int]);
        }
        if u < 48 || u > 57 {
            proof {
                assert(!is_digit(t[i - start]));
                assert(!all_digits(t));
            }
            return None;
        }
        proof {
            assert(t.take(i - start + 1).drop_last() =~= t.take(i - start));
            assert(t.take(i - start + 1).last() == t[i - start]);
        }
        acc = acc * 10 + (u - 48);
        if acc > 65535 {
            proof {
                assert(acc as int == dec_value(t.take(i - start + 1)));
                if all_digits(t) {
                    lemma_dec_value_prefix(t, i - start + 1);
                    assert(dec_value(t) > 65535);
                }
            }
            return None;
        }
        i = i + 1;
    }
    proof {
        assert(t.take(t.len() as int) =~= t);
        assert(all_digits(t));
    }
    Some(acc as u16)
}

/// The decimal rendering of a non-negative integer.
pub open spec fn dec_str(n: int) -> Seq<char>
    decreases n,
{
    if n < 10 {
        seq![(48 + n) as char]
    } else {
        dec_str(n / 10).push((48 + n % 10) as char)
    }
}

/// Executable decimal rendering of a `u16`.
pub fn u16_dec_chars(n: u16) -> (r: Vec<char>)
    ensures
        r@ == dec_str(n as int),
{
    let mut digits: Vec<char> = Vec::new();
    let mut m = n;
    while m >= 10
        invariant
            dec_str(n as int) == dec_str(m as int) + digits@,
        decreases m,
    {
        let d = m % 10;
        digits.insert(0, ((48 + d as u8) as char));
        m = m / 10;
        proof {
            assert(dec_str(n as int) =~= dec_str(m as int) + digits@);
        }
    }
    digits.insert(0, ((48 + (m % 10) as u8) as char));
    proof {
        assert(dec_str(m as int) == seq![(48 + m as int) as char]);
        assert(digits@ =~= dec_str(n as int));
    }
    digits
}

/// A 16-bit hash of a character sequence: a base-31 polynomial over the
/// character codes, reduced modulo 2^16 at every step.
pub open spec fn hash16(s: Seq<char>) -> int
    decreases s.len(),
{
    if s.len() == 0 {
        0
    } else {
        (hash16(s.drop_last()) * 31 + (s.last() as u32) % 65536) % 65536
    }
}

/// The hash always lies below 2^16.
pub proof fn lemma_hash16_range(s: Seq<char>)
    ensures
        0 <= hash16(s) < 65536,
    decreases s.len(),
{
    if s.len() > 0 {
        lemma_hash16_range(s.drop_last());
    }
}

/// Executable form of `hash16`.
pub fn hash16_x(s: &Vec<char>) -> (r: u32)
    ensures
        r as int == hash16(s@),
        r < 65536,
{
    let mut acc: u32 = 0;
    let mut i: usize = 0;
    while i < s.len()
        invariant
            i <= s@.len(),
            acc < 65536,
            acc as int == hash16(s@.take(i as int)),
        decreases s.len() - i,
    {
        let c = s[i];
        proof {
            assert(s@.take(i + 1).drop_last() =~= s@.take(i as int));
            assert(s@.take(i + 1).last() == s@[i as int]);
        }
        acc = (acc * 31 + (c as u32) % 65536) % 65536;
        i = i + 1;
    }
    proof {
        assert(s@.take(s@.len() as int) =~= s@);
    }
    acc
}

/// Hexadecimal digit for a value below 16, lowercase.
pub open spec fn hex_digit(d: int) -> char {
    if d < 10 {
        (48 + d) as char
    } else {
        (87 + d) as char
    }
}

/// Four lowercase hexadecimal digits of a 16-bit value.
pub open spec fn hex4(h: int) -> Seq<char> {
    seq![
        hex_digit(h / 4096 % 16),
        hex_digit(h / 256 % 16),
        hex_digit(h / 16 % 16),
        hex_digit(h % 16),
    ]
}

/// Executable hexadecimal digit.
fn hex_digit_x(d: u32) -> (r: char)
    requires
        d < 16,
    ensures
        r == hex_digit(d as int),
{
    if d < 10 {
        (48 + d as u8) as char
    } else {
        (87 + d as u8) as char
    }
}

/// Executable form of `hex4`.
pub fn hex4_x(h: u32) -> (r: Vec<char>)
    requires
        h < 65536,
    ensures
        r@ == hex4(h as int),
{
    let mut out: Vec<char> = Vec::new();
    out.push(hex_digit_x(h / 4096 % 16));
    out.push(hex_digit_x(h / 256 % 16));
    out.push(hex_digit_x(h / 16 % 16));
    out.push(hex_digit_x(h % 16));
    proof {
        assert(out@ =~= hex4(h as int));
    }
    out
}

} // verus!

verus! {

/// Compares two string slices character by character.
pub fn str_eq(a: &str, b: &str) -> (r: bool)
    ensures
        r == (a@ == b@),
{
    let na = a.unicode_len();
    let nb = b.unicode_len();
    if na != nb {
        return false;
    }
    let mut i: usize = 0;
    while i < na
        invariant
            na == a@.len(),
            na == b@.len(),
            i <= na,
            forall|j: int| 0 <= j < i ==> a@[j] == b@[j],
        decreases na - i,
    {
        if a.get_char(i) != b.get_char(i) {
            return false;
        }
        i = i + 1;
    }
    proof {
        assert(a@ =~= b@);
    }
    true
}

} // verus!

verus! {

/// ASCII lowercasing of a character sequence, character by character.
pub open spec fn lower_ascii(s: Seq<char>) -> Seq<char> {
    s.map(|_i: int, c: char| lower_char(c))
}

/// Executable form of `lower_char`.
pub fn lower_char_x(c: char) -> (r: char)
    ensures
        r == lower_char(c),
{
    let u = c as u32;
    if 65 <= u && u <= 90 {
        ((c as u8) + 32) as char
    } else {
        c
    }
}

/// Executable form of `lower_ascii`.
pub fn lower_ascii_x(s: &Vec<char>) -> (r: Vec<char>)
    ensures
        r@ == lower_ascii(s@),
{
    let mut out: Vec<char> = Vec::new();
    let mut i: usize = 0;
    while i < s.len()
        invariant
            i <= s@.len(),
            out@ == lower_ascii(s@.take(i as int)),
        decreases s.len() - i,
    {
        out.push(lower_char_x(s[i]));
        assert(out@ =~= lower_ascii(s@.take(i + 1 as int)));
        i = i + 1;
    }
    proof {
        assert(s@.take(s@.len() as int) =~= s@);
    }
    out
}

/// Owned strings out of a list of character vectors.
pub fn strings_of_chars(v: &Vec<Vec<char>>) -> (r: Vec<String>)
    ensures
        r.deep_view() == v.deep_view(),
{
    let mut out: Vec<String> = Vec::new();
    let mut i: usize = 0;
    while i < v.len()
        invariant
            i <= v@.len(),
            out@.len() == i,
            forall|j: int| 0 <= j < i ==> out.deep_view()[j] == v.deep_view()[j],
        decreases v.len() - i,
    {
        let ghost out0 = out.deep_view();
        let s = chars_string(&v[i]);
        out.push(s);
        proof {
            assert(out.deep_view() =~~= out0.push(s@));
            assert(v.deep_view()[i as int] == v@[i as int]@);
        }
        i = i + 1;
    }
    proof {
        assert(out.deep_view() =~~= v.deep_view());
    }
    out
}

} // verus!

verus! {

/// Compares two character vectors.
pub fn chars_eq(a: &Vec<char>, b: &Vec<char>) -> (r: bool)
    ensures
        r == (a@ == b@),
{
    if a.len() != b.len() {
        return false;
    }
    let mut i: usize = 0;
    while i < a.len()
        invariant
            a@.len() == b@.len(),
            i <= a@.len(),
            forall|j: int| 0 <= j < i ==> a@[j] == b@[j],
        decreases a.len() - i,
    {
        if a[i] != b[i] {
            return false;
        }
        i = i + 1;
    }
    proof {
        assert(a@ =~= b@);
    }
    true
}

/// The text before and after the first occurrence of `sep`, when `sep`
/// occurs at all (the behaviour of `str::split_once`).
pub open spec fn split_once_at(s: Seq<char>, sep: char) -> Option<(Seq<char>, Seq<char>)>
    decreases s.len(),
{
    if s.len() == 0 {
        None
    } else if s[0] == sep {
        Some((Seq::<char>::empty(), s.drop_first()))
    } else {
        match split_once_at(s.drop_first(), sep) {
            None => None,
            Some(kv) => Some((seq![s[0]] + kv.0, kv.1)),
        }
    }
}

/// When the first occurrence of `sep` is at `k`, the split yields the text
/// before `k` and the text after `k`.
proof fn lemma_split_once_found(s: Seq<char>, sep: char, k: int)
    requires
        0 <= k < s.len(),
        s[k] == sep,
        forall|j: int| 0 <= j < k ==> s[j] != sep,
    ensures
        split_once_at(s, sep) == Some((s.take(k), s.skip(k + 1))),
    decreases k,
{
    if k == 0 {
        assert(s.take(0) =~= Seq::<char>::empty());
        assert(s.skip(1) =~= s.drop_first());
    } else {
        let d = s.drop_first();
        assert(d[k - 1] == sep);
        assert(forall|j: int| 0 <= j < k - 1 ==> d[j] == s[j + 1]);
        lemma_split_once_found(d, sep, k - 1);
        assert(seq![s[0]] + d.take(k - 1) =~= s.take(k));
        assert(d.skip(k) =~= s.skip(k + 1));
    }
}

/// Without an occurrence of `sep` there is no split.
proof fn lemma_split_once_none(s: Seq<char>, sep: char)
    requires
        forall|j: int| 0 <= j < s.len() ==> s[j] != sep,
    ensures
        split_once_at(s, sep) is None,
    decreases s.len(),
{
    if s.len() > 0 {
        let d = s.drop_first();
        assert(forall|j: int| 0 <= j < d.len() ==> d[j] == s[j + 1]);
        lemma_split_once_none(d, sep);
    }
}

/// Executable form of `split_once_at`.
pub fn split_once_x(s: &Vec<char>, sep: char) -> (r: Option<(Vec<char>, Vec<char>)>)
    ensures
        r is Some <==> split_once_at(s@, sep) is Some,
        r matches Some(kv) ==> split_once_at(s@, sep) == Some((kv.0@, kv.1@)),
{
    let mut k: usize = 0;
    while k < s.len()
        invariant
            k <= s@.len(),
            forall|j: int| 0 <= j < k ==> s@[j] != sep,
        decreases s.len() - k,
    {
        if s[k] == sep {
            proof {
                lemma_split_once_found(s@, sep, k as int);
            }
            let mut before: Vec<char> = Vec::new();
            let mut i: usize = 0;
            while i < k
                invariant
                    i <= k <= s@.len(),
                    before@ == s@.take(k as int).take(i as int),
                decreases k - i,
            {
                before.push(s[i]);
                assert(before@ =~= s@.take(k as int).take(i + 1 as int));
                i = i + 1;
            }
            proof {
                assert(s@.take(k as int).take(k as int) =~= s@.take(k as int));
            }
            let mut after: Vec<char> = Vec::new();
            let mut j: usize = k + 1;
            while j < s.len()
                invariant
                    k + 1 <= j <= s@.len(),
                    after@ == s@.skip(k + 1).take(j - (k + 1)),
                decreases s.len() - j,
            {
                after.push(s[j]);
                assert(after@ =~= s@.skip(k + 1).take(j - (k + 1) + 1));
                j = j + 1;
            }
            proof {
                assert(s@.skip(k + 1).take(s@.len() - (k + 1)) =~= s@.skip(k + 1));
            }
            return Some((before, after));
        }
        k = k + 1;
    }
    proof {
        lemma_split_once_none(s@, sep);
    }
    None
}

} // verus!
