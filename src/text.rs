//! Character-level helpers over the views of strings.

use vstd::prelude::*;

verus! {

broadcast use vstd::string::axiom_spec_iter;

/// The characters of a string, in order.
pub fn chars_of(s: &str) -> (r: Vec<char>)
    ensures
        r@ == s@,
{
    let mut out: Vec<char> = Vec::new();
    for c in it: s.chars()
        invariant
            it.seq() == s@,
            out@ == it.seq().take(it.index() as int),
    {
        out.push(c);
    }
    out
}


/// Relies on `String`'s `FromIterator<&char>`: the string holds the given
/// characters in order.
#[verifier::external_body]
pub(crate) fn string_of(v: &Vec<char>) -> (r: String)
    ensures
        r@ == v@,
{
    v.iter().collect::<String>()
}

/// A character with the Unicode `White_Space` property.
pub open spec fn is_space(c: char) -> bool {
    let u = c as u32;
    ||| (0x9 <= u && u <= 0xD)
    ||| u == 0x20
    ||| u == 0x85
    ||| u == 0xA0
    ||| u == 0x1680
    ||| (0x2000 <= u && u <= 0x200A)
    ||| u == 0x2028
    ||| u == 0x2029
    ||| u == 0x202F
    ||| u == 0x205F
    ||| u == 0x3000
}

pub fn space_char(c: char) -> (r: bool)
    ensures
        r == is_space(c),
{
    let u = c as u32;
    (0x9 <= u && u <= 0xD) || u == 0x20 || u == 0x85 || u == 0xA0 || u == 0x1680 || (0x2000 <= u
        && u <= 0x200A) || u == 0x2028 || u == 0x2029 || u == 0x202F || u == 0x205F || u == 0x3000
}

/// The sequence without its leading white space.
pub open spec fn trim_start(s: Seq<char>) -> Seq<char>
    decreases s.len(),
{
    if s.len() > 0 && is_space(s[0]) {
        trim_start(s.drop_first())
    } else {
        s
    }
}

/// The sequence without its trailing white space.
pub open spec fn trim_end(s: Seq<char>) -> Seq<char>
    decreases s.len(),
{
    if s.len() > 0 && is_space(s.last()) {
        trim_end(s.drop_last())
    } else {
        s
    }
}

/// The sequence without leading and trailing white space.
pub open spec fn trim(s: Seq<char>) -> Seq<char> {
    trim_end(trim_start(s))
}

/// The characters of `v` from `from` up to `to`.
fn slice_chars(v: &Vec<char>, from: usize, to: usize) -> (r: Vec<char>)
    requires
        from <= to <= v.len(),
    ensures
        r@ == v@.subrange(from as int, to as int),
{
    let mut out: Vec<char> = Vec::new();
    let mut k: usize = from;
    while k < to
        invariant
            from <= k <= to <= v.len(),
            out@ == v@.subrange(from as int, k as int),
        decreases to - k,
    {
        out.push(v[k]);
        k = k + 1;
        assert(out@ =~= v@.subrange(from as int, k as int));
    }
    out
}

/// Removes leading and trailing white space.
pub fn trim_chars(v: &Vec<char>) -> (r: Vec<char>)
    ensures
        r@ == trim(v@),
{
    let n = v.len();
    let mut i: usize = 0;
    assert(v@.subrange(0, n as int) =~= v@);
    while i < n && space_char(v[i])
        invariant
            i <= n == v.len(),
            trim_start(v@) == trim_start(v@.subrange(i as int, n as int)),
        decreases n - i,
    {
        assert(v@.subrange(i as int, n as int).drop_first() =~= v@.subrange(i + 1, n as int));
        i = i + 1;
    }
    assert(trim_start(v@) == v@.subrange(i as int, n as int));
    let mut j: usize = n;
    while j > i && space_char(v[j - 1])
        invariant
            i <= j <= n == v.len(),
            trim(v@) == trim_end(v@.subrange(i as int, j as int)),
        decreases j,
    {
        assert(v@.subrange(i as int, j as int).drop_last() =~= v@.subrange(i as int, j - 1));
        j = j - 1;
    }
    slice_chars(v, i, j)
}

/// True when the string is empty or all white space.
pub open spec fn is_blank(s: Seq<char>) -> bool {
    trim(s).len() == 0
}

/// Whether the string is empty or all white space.
pub fn is_blank_text(s: &str) -> (r: bool)
    ensures
        r == is_blank(s@),
{
    let cs = chars_of(s);
    trim_chars(&cs).len() == 0
}

/// The character that decoders put in place of malformed input.
pub const REPLACEMENT: char = '\u{FFFD}';

/// Whether the characters hold `c`.
pub fn holds_char(v: &Vec<char>, c: char) -> (r: bool)
    ensures
        r == v@.contains(c),
{
    let mut k: usize = 0;
    while k < v.len()
        invariant
            k <= v.len(),
            forall|m: int| 0 <= m < k ==> v@[m] != c,
        decreases v.len() - k,
    {
        if v[k] == c {
            return true;
        }
        k = k + 1;
    }
    false
}


/// The pieces between the `-` characters of `s`; there is always at least one.
pub open spec fn pieces(s: Seq<char>) -> Seq<Seq<char>>
    decreases s.len(),
{
    if s.len() == 0 {
        seq![seq![]]
    } else {
        let p = pieces(s.drop_last());
        if s.last() == '-' {
            p.push(seq![])
        } else {
            p.update(p.len() - 1, p.last().push(s.last()))
        }
    }
}

/// The trimmed pieces that are not blank, in order.
pub open spec fn kept_trimmed(ps: Seq<Seq<char>>) -> Seq<Seq<char>>
    decreases ps.len(),
{
    if ps.len() == 0 {
        seq![]
    } else {
        let rest = kept_trimmed(ps.drop_last());
        if trim(ps.last()).len() > 0 {
            rest.push(trim(ps.last()))
        } else {
            rest
        }
    }
}

/// The parts of `s` split at `-`, trimmed, with blank parts left out.
pub open spec fn segments(s: Seq<char>) -> Seq<Seq<char>> {
    kept_trimmed(pieces(s))
}

/// The views of a vector of character vectors.
pub open spec fn views(v: Seq<Vec<char>>) -> Seq<Seq<char>> {
    v.map_values(|x: Vec<char>| x@)
}

/// Splits at `-`, trims each part and leaves out the blank ones.
pub fn split_segments(s: &Vec<char>) -> (r: Vec<Vec<char>>)
    ensures
        views(r@) == segments(s@),
{
    let mut done: Vec<Vec<char>> = Vec::new();
    let mut cur: Vec<char> = Vec::new();
    let ghost mut finished: Seq<Seq<char>> = seq![];
    let mut i: usize = 0;
    while i < s.len()
        invariant
            i <= s.len(),
            pieces(s@.take(i as int)) == finished.push(cur@),
            views(done@) == kept_trimmed(finished),
        decreases s.len() - i,
    {
        let c = s[i];
        assert(s@.take(i + 1).drop_last() =~= s@.take(i as int));
        if c == '-' {
            let t = trim_chars(&cur);
            let ghost earlier = finished;
            proof {
                finished = finished.push(cur@);
            }
            assert(finished.drop_last() =~= earlier);
            if t.len() > 0 {
                done.push(t);
            }
            assert(views(done@) =~= kept_trimmed(finished));
            cur = Vec::new();
        } else {
            cur.push(c);
            assert(finished.push(cur@) =~= pieces(s@.take(i as int)).update(
                finished.len() as int,
                pieces(s@.take(i as int)).last().push(c),
            ));
        }
        i = i + 1;
    }
    assert(s@.take(s.len() as int) =~= s@);
    let t = trim_chars(&cur);
    if t.len() > 0 {
        done.push(t);
    }
    assert(finished.push(cur@).drop_last() =~= finished);
    assert(views(done@) =~= kept_trimmed(finished.push(cur@)));
    done
}

/// The separator put between joined segments.
pub open spec fn separator() -> Seq<char> {
    seq![' ', '-', ' ']
}

/// The segments joined with `" - "` between each two.
pub open spec fn joined(segs: Seq<Seq<char>>) -> Seq<char>
    decreases segs.len(),
{
    if segs.len() == 0 {
        seq![]
    } else if segs.len() == 1 {
        segs[0]
    } else {
        joined(segs.drop_last()) + separator() + segs.last()
    }
}

fn append_chars(out: &mut Vec<char>, v: &Vec<char>)
    ensures
        final(out)@ == old(out)@ + v@,
{
    let mut k: usize = 0;
    while k < v.len()
        invariant
            k <= v.len(),
            out@ == old(out)@ + v@.take(k as int),
        decreases v.len() - k,
    {
        out.push(v[k]);
        k = k + 1;
        assert(out@ =~= old(out)@ + v@.take(k as int));
    }
    assert(v@.take(v.len() as int) =~= v@);
}

/// Joins the segments from index `from` on with `" - "`.
pub fn join_from(segs: &Vec<Vec<char>>, from: usize) -> (r: Vec<char>)
    requires
        from <= segs.len(),
    ensures
        r@ == joined(views(segs@).subrange(from as int, segs.len() as int)),
{
    let ghost vs = views(segs@);
    let mut out: Vec<char> = Vec::new();
    let mut k: usize = from;
    assert(vs.subrange(from as int, from as int) =~= seq![]);
    while k < segs.len()
        invariant
            from <= k <= segs.len(),
            vs == views(segs@),
            out@ == joined(vs.subrange(from as int, k as int)),
        decreases segs.len() - k,
    {
        let ghost before = vs.subrange(from as int, k as int);
        let ghost after = vs.subrange(from as int, k + 1);
        assert(after.drop_last() =~= before);
        if k > from {
            let sep: Vec<char> = vec![' ', '-', ' '];
            append_chars(&mut out, &sep);
            assert(sep@ =~= separator());
        } else {
            assert(before.len() == 0);
        }
        append_chars(&mut out, &segs[k]);
        k = k + 1;
        assert(out@ =~= joined(after));
    }
    out
}

/// The lower-case form of a string, as `str::to_lowercase` gives it.
pub uninterp spec fn lower_of(s: Seq<char>) -> Seq<char>;

/// Relies on `str::to_lowercase`: Unicode lower-case mapping of each
/// character, a function of the characters alone.
#[verifier::external_body]
pub(crate) fn lowercase(s: &str) -> (r: String)
    ensures
        r@ == lower_of(s@),
{
    s.to_lowercase()
}

/// The prefix that marks a lyrics tag.
pub open spec fn lyrics_word() -> Seq<char> {
    seq!['l', 'y', 'r', 'i', 'c', 's']
}

/// True when the key, in lower case, starts with `lyrics`.
pub open spec fn is_lyrics_key(k: Seq<char>) -> bool {
    lower_of(k).len() >= 6 && lower_of(k).take(6) == lyrics_word()
}

pub fn lyrics_key(k: &str) -> (r: bool)
    ensures
        r == is_lyrics_key(k@),
{
    let low = chars_of(lowercase(k).as_str());
    if low.len() < 6 {
        return false;
    }
    let word: Vec<char> = vec!['l', 'y', 'r', 'i', 'c', 's'];
    let mut j: usize = 0;
    while j < 6
        invariant
            j <= 6 <= low.len(),
            low@ == lower_of(k@),
            word@ == lyrics_word(),
            forall|m: int| 0 <= m < j ==> low@[m] == word@[m],
        decreases 6 - j,
    {
        if low[j] != word[j] {
            assert(low@.take(6)[j as int] != lyrics_word()[j as int]);
            return false;
        }
        j = j + 1;
    }
    assert(low@.take(6) =~= lyrics_word());
    true
}

} // verus!
