//! Sorting system font families into script groups by glyph coverage and by
//! the words their names hold.

use vstd::prelude::*;
use vstd::utf8::{encode_utf8, is_ascii_chars};
use crate::text::{chars_of, holds_char, lower_of, lowercase};

verus! {

/// True when `n` occurs in `h` as a contiguous run.
pub open spec fn has_infix(h: Seq<char>, n: Seq<char>) -> bool {
    exists|i: int| 0 <= i <= h.len() - n.len() && #[trigger] h.subrange(i, i + n.len()) == n
}

/// Name fragments typical of Chinese font families.
pub open spec fn chinese_patterns() -> Seq<Seq<char>> {
    seq![
        "sc"@, "cn"@, "gb"@, "hei"@, "song"@, "kai"@, "fang"@, "ping"@, "sim"@, "msyh"@,
        "思源"@, "方正"@, "兰亭"@, "微软雅黑"@, "华文"@, "中易"@, "简"@, "宋"@, "黑"@, "楷"@,
        "体"@, "粗"@, "细"@,
    ]
}

/// Name fragments typical of Japanese font families.
pub open spec fn japanese_patterns() -> Seq<Seq<char>> {
    seq![
        "jp"@, "mincho"@, "gothic"@, "hiragino"@, "meiryo"@, "yu"@, "kozuka"@, "ipa"@, "hg"@,
        "ms pgothic"@, "ms gothic"@, "明朝"@, "ゴシック"@, "メイリオ"@, "uzura"@, "kakugo"@,
        "marugo"@, "udkakugo"@, "udmarugo"@, "pr6n"@, "fot-"@, "morisawa"@, "kaku"@, "maru"@,
        "honya"@, "honyaji"@,
    ]
}

/// True when the text holds one of the fragments.
pub open spec fn holds_any(h: Seq<char>, pats: Seq<Seq<char>>) -> bool {
    exists|j: int| 0 <= j < pats.len() && has_infix(h, #[trigger] pats[j])
}

/// A family name that reads as Chinese: its lower-case form holds a Chinese
/// fragment.
pub open spec fn chinese_name(name: Seq<char>) -> bool {
    holds_any(lower_of(name), chinese_patterns())
}

/// A family name that reads as Japanese: its lower-case form holds a
/// Japanese fragment, or the name holds `ゴ` or `リ`.
pub open spec fn japanese_name(name: Seq<char>) -> bool {
    holds_any(lower_of(name), japanese_patterns()) || name.contains('ゴ') || name.contains('リ')
}

/// Whether `n` occurs in `h`.
pub fn find_infix(h: &Vec<char>, n: &Vec<char>) -> (r: bool)
    ensures
        r == has_infix(h@, n@),
{
    if n.len() > h.len() {
        return false;
    }
    let last = h.len() - n.len();
    let mut i: usize = 0;
    while i <= last
        invariant
            last == h.len() - n.len(),
            n.len() <= h.len(),
            forall|k: int| 0 <= k < i ==> #[trigger] h@.subrange(k, k + n.len()) != n@,
        decreases last + 1 - i,
    {
        let mut j: usize = 0;
        while j < n.len() && h[i + j] == n[j]
            invariant
                i <= last,
                last == h.len() - n.len(),
                j <= n.len(),
                forall|m: int| 0 <= m < j ==> h@[i + m] == n@[m],
            decreases n.len() - j,
        {
            j = j + 1;
        }
        if j == n.len() {
            assert(h@.subrange(i as int, i + n.len()) =~= n@);
            return true;
        }
        assert(h@.subrange(i as int, i + n.len())[j as int] != n@[j as int]);
        i = i + 1;
    }
    false
}

fn any_pattern(h: &Vec<char>, pats: &Vec<&str>, Ghost(want): Ghost<Seq<Seq<char>>>) -> (r: bool)
    requires
        pats@.map_values(|p: &str| p@) == want,
    ensures
        r == holds_any(h@, want),
{
    let mut j: usize = 0;
    while j < pats.len()
        invariant
            j <= pats.len() == want.len(),
            pats@.map_values(|p: &str| p@) == want,
            forall|k: int| 0 <= k < j ==> !has_infix(h@, #[trigger] want[k]),
        decreases pats.len() - j,
    {
        let n = chars_of(pats[j]);
        if find_infix(h, &n) {
            assert(want[j as int] == n@);
            return true;
        }
        j = j + 1;
    }
    false
}

/// Whether a family name reads as Chinese.
pub fn looks_chinese(name: &str) -> (r: bool)
    ensures
        r == chinese_name(name@),
{
    let low = chars_of(lowercase(name).as_str());
    let pats: Vec<&str> = vec![
        "sc", "cn", "gb", "hei", "song", "kai", "fang", "ping", "sim", "msyh", "思源", "方正",
        "兰亭", "微软雅黑", "华文", "中易", "简", "宋", "黑", "楷", "体", "粗", "细",
    ];
    assert(pats@.map_values(|p: &str| p@) =~= chinese_patterns());
    any_pattern(&low, &pats, Ghost(chinese_patterns()))
}

/// Whether a family name reads as Japanese.
pub fn looks_japanese(name: &str) -> (r: bool)
    ensures
        r == japanese_name(name@),
{
    let low = chars_of(lowercase(name).as_str());
    let pats: Vec<&str> = vec![
        "jp", "mincho", "gothic", "hiragino", "meiryo", "yu", "kozuka", "ipa", "hg",
        "ms pgothic", "ms gothic", "明朝", "ゴシック", "メイリオ", "uzura", "kakugo", "marugo",
        "udkakugo", "udmarugo", "pr6n", "fot-", "morisawa", "kaku", "maru", "honya", "honyaji",
    ];
    assert(pats@.map_values(|p: &str| p@) =~= japanese_patterns());
    if any_pattern(&low, &pats, Ghost(japanese_patterns())) {
        return true;
    }
    let cs = chars_of(name);
    holds_char(&cs, 'ゴ') || holds_char(&cs, 'リ')
}

/// The group a font family is listed under.
#[derive(PartialEq, Eq, Structural, Clone, Copy, Debug)]
pub enum FontCategory {
    Chinese,
    Japanese,
    English,
    Other,
}

/// The group of a family from whether some face of it has the Chinese test
/// glyphs (`zh`), the Japanese ones (`ja`), and from its name. Glyphs decide
/// where only one script is covered, except that a Chinese-covering family
/// whose name reads as Japanese only is Japanese, and one whose name reads as
/// neither is English when ASCII. Where both or neither script is covered,
/// the name decides, Chinese before Japanese on a tie when both are covered.
pub open spec fn category_of(name: Seq<char>, zh: bool, ja: bool) -> FontCategory {
    let c = chinese_name(name);
    let j = japanese_name(name);
    let plain = if is_ascii_chars(name) {
        FontCategory::English
    } else {
        FontCategory::Other
    };
    if zh && !ja {
        if j && !c {
            FontCategory::Japanese
        } else if !c {
            plain
        } else {
            FontCategory::Chinese
        }
    } else if !zh && ja {
        FontCategory::Japanese
    } else if zh && ja {
        if j && !c {
            FontCategory::Japanese
        } else {
            FontCategory::Chinese
        }
    } else {
        if j {
            FontCategory::Japanese
        } else if c {
            FontCategory::Chinese
        } else {
            plain
        }
    }
}

/// The group a font family is listed under.
pub fn categorize(name: &str, zh: bool, ja: bool) -> (r: FontCategory)
    ensures
        r == category_of(name@, zh, ja),
{
    let c = looks_chinese(name);
    let j = looks_japanese(name);
    let plain = if name.is_ascii() {
        FontCategory::English
    } else {
        FontCategory::Other
    };
    if zh && !ja {
        if j && !c {
            FontCategory::Japanese
        } else if !c {
            plain
        } else {
            FontCategory::Chinese
        }
    } else if !zh && ja {
        FontCategory::Japanese
    } else if zh && ja {
        if j && !c {
            FontCategory::Japanese
        } else {
            FontCategory::Chinese
        }
    } else {
        if j {
            FontCategory::Japanese
        } else if c {
            FontCategory::Chinese
        } else {
            plain
        }
    }
}


/// A family name with whether some face of it covers the Chinese test
/// glyphs and whether some face covers the Japanese ones.
pub type FamilyView = (Seq<char>, bool, bool);

/// The view of the family list.
pub open spec fn families_view(v: Seq<(String, bool, bool)>) -> Seq<FamilyView> {
    v.map_values(|f: (String, bool, bool)| (f.0@, f.1, f.2))
}

/// No family name occurs twice.
pub open spec fn names_unique(f: Seq<FamilyView>) -> bool {
    forall|i: int, j: int| 0 <= i < j < f.len() ==> f[i].0 != f[j].0
}

/// The family list after one more face: a known family gains the coverage
/// of the face, a new family is added at the end.
pub open spec fn with_face(f: Seq<FamilyView>, name: Seq<char>, zh: bool, ja: bool) -> Seq<
    FamilyView,
> {
    if exists|i: int| 0 <= i < f.len() && (#[trigger] f[i]).0 == name {
        let i = choose|i: int| 0 <= i < f.len() && (#[trigger] f[i]).0 == name;
        f.update(i, (name, f[i].1 || zh, f[i].2 || ja))
    } else {
        f.push((name, zh, ja))
    }
}

/// Records the glyph coverage of one face under its family name.
pub fn record_face(fams: &mut Vec<(String, bool, bool)>, name: String, zh: bool, ja: bool)
    requires
        names_unique(families_view(old(fams)@)),
    ensures
        names_unique(families_view(final(fams)@)),
        families_view(final(fams)@) == with_face(families_view(old(fams)@), name@, zh, ja),
{
    let ghost f = families_view(fams@);
    let mut i: usize = 0;
    while i < fams.len()
        invariant
            i <= fams.len(),
            fams@ == old(fams)@,
            f == families_view(fams@),
            names_unique(f),
            forall|k: int| 0 <= k < i ==> f[k].0 != name@,
        decreases fams.len() - i,
    {
        if fams[i].0 == name {
            assert(f[i as int].0 == name@);
            let zh2 = fams[i].1 || zh;
            let ja2 = fams[i].2 || ja;
            fams.set(i, (name, zh2, ja2));
            proof {
                let c = choose|c: int| 0 <= c < f.len() && (#[trigger] f[c]).0 == name@;
                assert(c == i);
                assert(families_view(fams@) =~= with_face(f, name@, zh, ja));
            }
            return;
        }
        i = i + 1;
    }
    fams.push((name, zh, ja));
    assert(families_view(fams@) =~= with_face(f, name@, zh, ja));
}

/// The names of the families that fall in a group, in list order.
pub open spec fn names_in(f: Seq<FamilyView>, cat: FontCategory) -> Seq<Seq<char>>
    decreases f.len(),
{
    if f.len() == 0 {
        seq![]
    } else {
        let rest = names_in(f.drop_last(), cat);
        if category_of(f.last().0, f.last().1, f.last().2) == cat {
            rest.push(f.last().0)
        } else {
            rest
        }
    }
}

/// Byte-wise lexicographic order.
pub open spec fn lex_le(a: Seq<u8>, b: Seq<u8>) -> bool
    decreases a.len(),
{
    if a.len() == 0 {
        true
    } else if b.len() == 0 {
        false
    } else if a[0] != b[0] {
        a[0] < b[0]
    } else {
        lex_le(a.drop_first(), b.drop_first())
    }
}

/// The views of a list of strings.
pub open spec fn string_views(v: Seq<String>) -> Seq<Seq<char>> {
    v.map_values(|s: String| s@)
}

/// The names are in the order of their UTF-8 bytes.
pub open spec fn sorted_names(v: Seq<Seq<char>>) -> bool {
    forall|i: int, j: int| 0 <= i < j < v.len() ==> lex_le(encode_utf8(v[i]), encode_utf8(v[j]))
}

/// Relies on `slice::sort` with `String`'s `Ord`, which orders strings
/// lexicographically by their bytes: the same strings, in that order.
#[verifier::external_body]
fn sort_names(v: &mut Vec<String>)
    ensures
        string_views(final(v)@).to_multiset() == string_views(old(v)@).to_multiset(),
        sorted_names(string_views(final(v)@)),
{
    v.sort();
}

/// The family names of each group.
pub struct FontGroups {
    pub zh_fonts: Vec<String>,
    pub ja_fonts: Vec<String>,
    pub en_fonts: Vec<String>,
    pub other_fonts: Vec<String>,
}

/// The list holds the names of the group, each once per family, in byte order.
pub open spec fn lists_group(v: Seq<String>, f: Seq<FamilyView>, cat: FontCategory) -> bool {
    &&& string_views(v).to_multiset() == names_in(f, cat).to_multiset()
    &&& sorted_names(string_views(v))
}

/// Sorts the families into the four groups, each list in byte order.
pub fn group_fonts(fams: &Vec<(String, bool, bool)>) -> (r: FontGroups)
    ensures
        lists_group(r.zh_fonts@, families_view(fams@), FontCategory::Chinese),
        lists_group(r.ja_fonts@, families_view(fams@), FontCategory::Japanese),
        lists_group(r.en_fonts@, families_view(fams@), FontCategory::English),
        lists_group(r.other_fonts@, families_view(fams@), FontCategory::Other),
{
    let ghost f = families_view(fams@);
    let mut zh: Vec<String> = Vec::new();
    let mut ja: Vec<String> = Vec::new();
    let mut en: Vec<String> = Vec::new();
    let mut other: Vec<String> = Vec::new();
    let mut i: usize = 0;
    while i < fams.len()
        invariant
            i <= fams.len(),
            f == families_view(fams@),
            string_views(zh@) == names_in(f.take(i as int), FontCategory::Chinese),
            string_views(ja@) == names_in(f.take(i as int), FontCategory::Japanese),
            string_views(en@) == names_in(f.take(i as int), FontCategory::English),
            string_views(other@) == names_in(f.take(i as int), FontCategory::Other),
        decreases fams.len() - i,
    {
        assert(f.take(i + 1).drop_last() =~= f.take(i as int));
        let name = fams[i].0.clone();
        match categorize(name.as_str(), fams[i].1, fams[i].2) {
            FontCategory::Chinese => zh.push(name),
            FontCategory::Japanese => ja.push(name),
            FontCategory::English => en.push(name),
            FontCategory::Other => other.push(name),
        }
        i = i + 1;
        assert(string_views(zh@) =~= names_in(f.take(i as int), FontCategory::Chinese));
        assert(string_views(ja@) =~= names_in(f.take(i as int), FontCategory::Japanese));
        assert(string_views(en@) =~= names_in(f.take(i as int), FontCategory::English));
        assert(string_views(other@) =~= names_in(f.take(i as int), FontCategory::Other));
    }
    assert(f.take(fams.len() as int) =~= f);
    sort_names(&mut zh);
    sort_names(&mut ja);
    sort_names(&mut en);
    sort_names(&mut other);
    FontGroups { zh_fonts: zh, ja_fonts: ja, en_fonts: en, other_fonts: other }
}


/// Picks the face whose file is served for a family: the first face in
/// regular style and weight, else the first face that loaded at all. Each
/// entry is `None` for a face that failed to load, else whether it is
/// regular.
pub fn choose_face(faces: &Vec<Option<bool>>) -> (r: Option<usize>)
    ensures
        (exists|i: int| 0 <= i < faces@.len() && faces@[i] == Some(true)) ==> r is Some
            && faces@[r->0 as int] == Some(true) && forall|k: int|
            0 <= k < r->0 ==> faces@[k] != Some(true),
        !(exists|i: int| 0 <= i < faces@.len() && faces@[i] == Some(true)) ==> (r is Some <==> exists|
            i: int,
        | 0 <= i < faces@.len() && faces@[i] is Some) && (r is Some ==> r->0 < faces@.len()
            && faces@[r->0 as int] is Some && forall|k: int| 0 <= k < r->0 ==> faces@[k] is None),
{
    let mut fallback: Option<usize> = None;
    let mut i: usize = 0;
    while i < faces.len()
        invariant
            i <= faces.len(),
            forall|k: int| 0 <= k < i ==> faces@[k] != Some(true),
            fallback is None <==> forall|k: int| 0 <= k < i ==> faces@[k] is None,
            fallback is Some ==> fallback->0 < i && faces@[fallback->0 as int] is Some && forall|
                k: int,
            | 0 <= k < fallback->0 ==> faces@[k] is None,
        decreases faces.len() - i,
    {
        match faces[i] {
            Some(true) => {
                return Some(i);
            },
            Some(false) => {
                if fallback.is_none() {
                    fallback = Some(i);
                }
            },
            None => {},
        }
        i = i + 1;
    }
    fallback
}

} // verus!
