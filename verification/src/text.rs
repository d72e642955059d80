//! Character-level string helpers: Unicode whitespace trimming, removal of
//! trailing slashes, and joining a relative component onto a path.
use vstd::prelude::*;

verus! {

/// The characters with the Unicode `White_Space` property, which is the set
/// that `char::is_whitespace` (and so `str::trim`) recognises.
pub open spec fn is_white_space(c: char) -> bool {
    let u = c as u32;
    ||| (0x9 <= u && u <= 0xd)
    ||| u == 0x20
    ||| u == 0x85
    ||| u == 0xa0
    ||| u == 0x1680
    ||| (0x2000 <= u && u <= 0x200a)
    ||| u == 0x2028
    ||| u == 0x2029
    ||| u == 0x202f
    ||| u == 0x205f
    ||| u == 0x3000
}

/// `s` without its leading whitespace.
pub open spec fn trim_start(s: Seq<char>) -> Seq<char>
    decreases s.len(),
{
    if s.len() > 0 && is_white_space(s[0]) {
        trim_start(s.drop_first())
    } else {
        s
    }
}

/// `s` without its trailing whitespace.
pub open spec fn trim_end(s: Seq<char>) -> Seq<char>
    decreases s.len(),
{
    if s.len() > 0 && is_white_space(s.last()) {
        trim_end(s.drop_last())
    } else {
        s
    }
}

/// `s` without leading and trailing whitespace, as `str::trim` gives it.
pub open spec fn trim(s: Seq<char>) -> Seq<char> {
    trim_end(trim_start(s))
}

/// `s` with every trailing `c` removed, as `str::trim_end_matches(c)` gives it.
pub open spec fn strip_trailing(s: Seq<char>, c: char) -> Seq<char>
    decreases s.len(),
{
    if s.len() > 0 && s.last() == c {
        strip_trailing(s.drop_last(), c)
    } else {
        s
    }
}

/// The path syntax of a platform: which characters separate components.
#[derive(Clone, Copy, Debug, PartialEq, Eq, Structural)]
pub enum PathStyle {
    /// Components are separated by `/`.
    Unix,
    /// Components are separated by `\`; `/` separates them too.
    Windows,
}

/// Whether `c` separates path components in `style`.
pub open spec fn is_separator(c: char, style: PathStyle) -> bool {
    c == '/' || (style == PathStyle::Windows && c == '\u{5c}')
}

/// The separator that `style` puts between components.
pub open spec fn main_separator_of(style: PathStyle) -> char {
    match style {
        PathStyle::Unix => '/',
        PathStyle::Windows => '\u{5c}',
    }
}

/// Whether `c` is an ASCII letter.
pub open spec fn is_ascii_letter(c: char) -> bool {
    let u = c as u32;
    (0x41 <= u && u <= 0x5a) || (0x61 <= u && u <= 0x7a)
}

/// Whether `base` is a bare Windows drive such as `C:`, onto which a
/// component is joined without a separator.
pub open spec fn is_bare_drive(base: Seq<char>, style: PathStyle) -> bool {
    &&& style == PathStyle::Windows
    &&& base.len() == 2
    &&& base[1] == ':'
    &&& is_ascii_letter(base[0])
}

/// `base` joined with the relative component `name` the way `Path::join`
/// does in `style`: a separator goes in between unless `base` is empty,
/// already ends with a separator, or is a bare drive.
/// Windows verbatim prefixes are not covered.
pub open spec fn path_join(base: Seq<char>, name: Seq<char>, style: PathStyle) -> Seq<char> {
    if base.len() == 0 || is_separator(base.last(), style) || is_bare_drive(base, style) {
        base + name
    } else {
        base + seq![main_separator_of(style)] + name
    }
}

/// What `strip_trailing` leaves does not end with the stripped character,
/// and is a prefix of its input.
pub proof fn lemma_strip_trailing_ends_clean(s: Seq<char>, c: char)
    ensures
        strip_trailing(s, c).len() == 0 || strip_trailing(s, c).last() != c,
        strip_trailing(s, c).len() <= s.len(),
        strip_trailing(s, c) == s.subrange(0, strip_trailing(s, c).len() as int),
    decreases s.len(),
{
    if s.len() > 0 && s.last() == c {
        lemma_strip_trailing_ends_clean(s.drop_last(), c);
        let t = strip_trailing(s.drop_last(), c);
        assert(s.drop_last().subrange(0, t.len() as int) =~= s.subrange(0, t.len() as int));
    } else {
        assert(s.subrange(0, s.len() as int) =~= s);
    }
}

/// What `trim` leaves neither starts nor ends with whitespace.
pub proof fn lemma_trim_has_no_edge_white_space(s: Seq<char>)
    ensures
        trim(s).len() > 0 ==> !is_white_space(trim(s)[0]) && !is_white_space(trim(s).last()),
{
    lemma_trim_start_clean(s);
    lemma_trim_end_prefix(trim_start(s));
}

proof fn lemma_trim_start_clean(s: Seq<char>)
    ensures
        trim_start(s).len() > 0 ==> !is_white_space(trim_start(s)[0]),
    decreases s.len(),
{
    if s.len() > 0 && is_white_space(s[0]) {
        lemma_trim_start_clean(s.drop_first());
    }
}

proof fn lemma_trim_end_prefix(s: Seq<char>)
    ensures
        trim_end(s).len() <= s.len(),
        trim_end(s) == s.subrange(0, trim_end(s).len() as int),
        trim_end(s).len() > 0 ==> !is_white_space(trim_end(s).last()),
    decreases s.len(),
{
    if s.len() > 0 && is_white_space(s.last()) {
        lemma_trim_end_prefix(s.drop_last());
        let t = trim_end(s.drop_last());
        assert(s.drop_last().subrange(0, t.len() as int) =~= s.subrange(0, t.len() as int));
    } else {
        assert(s.subrange(0, s.len() as int) =~= s);
    }
}

/// Whether `c` is Unicode whitespace.
pub fn is_white_space_char(c: char) -> (b: bool)
    ensures
        b == is_white_space(c),
{
    let u = c as u32;
    (0x9 <= u && u <= 0xd) || u == 0x20 || u == 0x85 || u == 0xa0 || u == 0x1680 || (0x2000 <= u
        && u <= 0x200a) || u == 0x2028 || u == 0x2029 || u == 0x202f || u == 0x205f || u == 0x3000
}

proof fn lemma_trim_start_step(s: Seq<char>, i: int)
    requires
        0 <= i < s.len(),
        is_white_space(s[i]),
    ensures
        trim_start(s.subrange(i, s.len() as int)) == trim_start(s.subrange(i + 1, s.len() as int)),
{
    assert(s.subrange(i, s.len() as int).drop_first() =~= s.subrange(i + 1, s.len() as int));
}

proof fn lemma_trim_end_step(s: Seq<char>, a: int, b: int)
    requires
        0 <= a < b <= s.len(),
        is_white_space(s[b - 1]),
    ensures
        trim_end(s.subrange(a, b)) == trim_end(s.subrange(a, b - 1)),
{
    assert(s.subrange(a, b).drop_last() =~= s.subrange(a, b - 1));
}

proof fn lemma_strip_step(s: Seq<char>, a: int, b: int, c: char)
    requires
        0 <= a < b <= s.len(),
        s[b - 1] == c,
    ensures
        strip_trailing(s.subrange(a, b), c) == strip_trailing(s.subrange(a, b - 1), c),
{
    assert(s.subrange(a, b).drop_last() =~= s.subrange(a, b - 1));
}

/// The bounds `(start, end)` of `trim(s@)` inside `s@`, counted in characters.
fn trimmed_bounds(s: &str) -> (r: (usize, usize))
    ensures
        r.0 <= r.1 <= s@.len(),
        trim(s@) == s@.subrange(r.0 as int, r.1 as int),
{
    let n = s.unicode_len();
    let mut a: usize = 0;
    assert(s@.subrange(0, n as int) =~= s@);
    while a < n && is_white_space_char(s.get_char(a))
        invariant
            n == s@.len(),
            a <= n,
            trim_start(s@) == trim_start(s@.subrange(a as int, n as int)),
        decreases n - a,
    {
        proof {
            lemma_trim_start_step(s@, a as int);
        }
        a = a + 1;
    }
    let ghost t = s@.subrange(a as int, n as int);
    let mut b: usize = n;
    while b > a && is_white_space_char(s.get_char(b - 1))
        invariant
            n == s@.len(),
            a <= b <= n,
            t == s@.subrange(a as int, n as int),
            trim_end(t) == trim_end(s@.subrange(a as int, b as int)),
        decreases b - a,
    {
        proof {
            lemma_trim_end_step(s@, a as int, b as int);
        }
        b = b - 1;
    }
    (a, b)
}

/// `s` with leading and trailing Unicode whitespace removed.
pub fn trimmed(s: &str) -> (r: String)
    ensures
        r@ == trim(s@),
{
    let (a, b) = trimmed_bounds(s);
    String::from_str(s.substring_char(a, b))
}

/// `s` trimmed of whitespace and then of every trailing `c`, as
/// `s.trim().trim_end_matches(c)` gives it.
pub fn trimmed_without_trailing(s: &str, c: char) -> (r: String)
    ensures
        r@ == strip_trailing(trim(s@), c),
{
    let (a, b) = trimmed_bounds(s);
    let mut e: usize = b;
    while e > a && s.get_char(e - 1) == c
        invariant
            a <= e <= b <= s@.len(),
            strip_trailing(s@.subrange(a as int, b as int), c) == strip_trailing(
                s@.subrange(a as int, e as int),
                c,
            ),
        decreases e - a,
    {
        proof {
            lemma_strip_step(s@, a as int, e as int, c);
        }
        e = e - 1;
    }
    String::from_str(s.substring_char(a, e))
}

/// Whether `a` and `b` hold the same characters.
pub fn same_text(a: &str, b: &str) -> (r: bool)
    ensures
        r == (a@ == b@),
{
    let n = a.unicode_len();
    if n != b.unicode_len() {
        return false;
    }
    let mut i: usize = 0;
    while i < n
        invariant
            n == a@.len(),
            n == b@.len(),
            i <= n,
            forall|j: int| 0 <= j < i ==> a@[j] == b@[j],
        decreases n - i,
    {
        if a.get_char(i) != b.get_char(i) {
            return false;
        }
        i = i + 1;
    }
    assert(a@ =~= b@);
    true
}

/// The path style whose main separator is `separator`: Windows for `\`,
/// Unix otherwise.
pub fn path_style_of(separator: char) -> (style: PathStyle)
    ensures
        style == (if separator == '\u{5c}' {
            PathStyle::Windows
        } else {
            PathStyle::Unix
        }),
{
    if separator == '\u{5c}' {
        PathStyle::Windows
    } else {
        PathStyle::Unix
    }
}

/// `name` joined onto `base` as a path component in `style`.
pub fn join_path(base: &str, name: &str, style: PathStyle) -> (r: String)
    requires
        name@.len() > 0,
        !is_separator(name@[0], style),
    ensures
        r@ == path_join(base@, name@, style),
{
    let n = base.unicode_len();
    let mut r = String::from_str(base);
    if n > 0 {
        let last = base.get_char(n - 1);
        let last_is_separator = last == '/' || (style == PathStyle::Windows && last == '\u{5c}');
        let bare_drive = style == PathStyle::Windows && n == 2 && base.get_char(1) == ':' && {
            let d = base.get_char(0) as u32;
            (0x41 <= d && d <= 0x5a) || (0x61 <= d && d <= 0x7a)
        };
        if !last_is_separator && !bare_drive {
            match style {
                PathStyle::Unix => {
                    let sep = "/";
                    proof {
                        reveal_strlit("/");
                    }
                    r.append(sep);
                },
                PathStyle::Windows => {
                    let sep = "\u{5c}";
                    proof {
                        reveal_strlit("\u{5c}");
                    }
                    r.append(sep);
                },
            }
        }
    }
    r.append(name);
    r
}

} // verus!
