//! Strings as the rest of the library uses them: flags, paths and file names.

use vstd::prelude::*;
use vstd::string::*;

verus! {

/// The lower-case form of a string, as `str::to_lowercase` computes it.
pub uninterp spec fn lowercase(s: Seq<char>) -> Seq<char>;

/// `c` with `A` to `Z` replaced by `a` to `z`.
pub open spec fn ascii_lower(c: char) -> char {
    if 'A' <= c <= 'Z' {
        ((c as u32) + 32) as char
    } else {
        c
    }
}

/// `str::to_lowercase` of the standard library: the Unicode lower-case form of the string,
/// which depends on the string alone. On a string of ASCII characters that form replaces the
/// capital letters and keeps everything else.
pub assume_specification[ str::to_lowercase ](s: &str) -> (r: String)
    ensures
        r@ == lowercase(s@),
        vstd::utf8::is_ascii_chars(s@) ==> r@ == s@.map_values(|c: char| ascii_lower(c)),
;

/// The characters of an optional string.
pub open spec fn opt_text(s: Option<String>) -> Option<Seq<char>> {
    match s {
        Some(text) => Some(text@),
        None => None,
    }
}

/// Whether two strings hold the same characters.
pub fn same_text(a: &str, b: &str) -> (r: bool)
    ensures
        r == (a@ == b@),
{
    a.to_owned() == b.to_owned()
}

/// Whose rules the paths of a machine follow.
#[derive(Clone, Copy, PartialEq, Eq, Structural, Debug)]
pub enum PathStyle {
    /// `/` separates the parts of a path.
    Unix,
    /// `\` and `/` separate the parts of a path, which may start with a drive such as `C:`.
    Windows,
}

/// Whether a path is absolute by the Unix rules: it starts at the root.
pub open spec fn is_absolute(path: Seq<char>) -> bool {
    path.len() > 0 && path[0] == '/'
}

/// Whether a path is made of names alone, with single `/` between them: it is relative, it goes
/// by no drive, and it steps neither aside (`.`) nor up (`..`). No name has a dot at its end or
/// two in a row.
pub open spec fn is_plain(rel: Seq<char>) -> bool {
    &&& rel.len() > 0
    &&& rel[0] != '/'
    &&& forall|i: int| #![trigger rel[i]]
        0 <= i < rel.len() ==> {
            &&& rel[i] != '\\' && rel[i] != ':'
            &&& rel[i] == '/' ==> i + 1 < rel.len() && rel[i + 1] != '/'
            &&& rel[i] == '.' ==> i + 1 < rel.len() && rel[i + 1] != '/' && rel[i + 1] != '.'
        }
}

/// Whether a path is a Windows drive and nothing else, such as `C:`. What follows it directly is
/// taken from the drive's current directory.
pub open spec fn is_bare_drive(path: Seq<char>) -> bool {
    path.len() == 2 && path[1] == ':' && ('a' <= path[0] <= 'z' || 'A' <= path[0] <= 'Z')
}

/// Whether a Windows path is verbatim: it starts with `\\?\`, and only `\` separates its parts.
pub open spec fn is_verbatim(path: Seq<char>) -> bool {
    path.len() >= 4 && path[0] == '\\' && path[1] == '\\' && path[2] == '?' && path[3] == '\\'
}

/// Whether a verbatim path has no part after what marks it as verbatim, `\\?\` or `\\?\UNC\`.
pub open spec fn is_verbatim_mark(path: Seq<char>) -> bool {
    is_verbatim(path) && (path.len() == 4 || path.len() == 8 && path[4] == 'U' && path[5] == 'N'
        && path[6] == 'C' && path[7] == '\\')
}

/// A path with `\` in place of each `/`.
pub open spec fn backslashed(path: Seq<char>) -> Seq<char> {
    path.map_values(
        |c: char|
            if c == '/' {
                '\\'
            } else {
                c
            },
    )
}

/// The plain path `rel` taken from the directory `base`. A separator comes between the two,
/// unless `base` is empty or ends in one, or is a drive whose current directory is meant. Where
/// `base` has separators in a row they stay, which is the same path.
pub open spec fn joined(style: PathStyle, base: Seq<char>, rel: Seq<char>) -> Seq<char> {
    match style {
        PathStyle::Unix => if base.len() == 0 || base.last() == '/' {
            base + rel
        } else {
            base + seq!['/'] + rel
        },
        PathStyle::Windows => if is_verbatim(base) {
            if base.last() == '\\' && !is_verbatim_mark(base) {
                base + backslashed(rel)
            } else {
                base + seq!['\\'] + backslashed(rel)
            }
        } else if base.len() == 0 || base.last() == '/' || base.last() == '\\' || is_bare_drive(
            base,
        ) {
            base + rel
        } else {
            base + seq!['\\'] + rel
        },
    }
}

fn with_backslashes(path: &str) -> (r: String)
    ensures
        r@ == backslashed(path@),
{
    proof {
        reveal_strlit("\\");
        assert("\\"@ == seq!['\\']);
    }
    let mut out: String = String::new();
    let len: usize = path.unicode_len();
    assert(out@ == backslashed(path@.take(0)));
    for i in 0..len
        invariant
            len == path@.len(),
            "\\"@ == seq!['\\'],
            out@ == backslashed(path@.take(i as int)),
    {
        if path.get_char(i) == '/' {
            out.append("\\");
        } else {
            out.append(path.substring_char(i, i + 1));
        }
        assert(path@.take(i + 1) == path@.take(i as int).push(path@[i as int]));
        assert(out@ == backslashed(path@.take(i + 1)));
    }
    assert(path@.take(len as int) == path@);
    out
}

fn starts_verbatim(path: &str) -> (r: bool)
    ensures
        r == is_verbatim(path@),
{
    path.unicode_len() >= 4 && path.get_char(0) == '\\' && path.get_char(1) == '\\'
        && path.get_char(2) == '?' && path.get_char(3) == '\\'
}

fn is_only_verbatim_mark(path: &str) -> (r: bool)
    ensures
        r == is_verbatim_mark(path@),
{
    let len: usize = path.unicode_len();
    starts_verbatim(path) && (len == 4 || len == 8 && path.get_char(4) == 'U' && path.get_char(5)
        == 'N' && path.get_char(6) == 'C' && path.get_char(7) == '\\')
}

fn is_only_drive(path: &str) -> (r: bool)
    ensures
        r == is_bare_drive(path@),
{
    if path.unicode_len() != 2 || path.get_char(1) != ':' {
        return false;
    }
    let letter: char = path.get_char(0);
    'a' <= letter && letter <= 'z' || 'A' <= letter && letter <= 'Z'
}

/// Takes the plain path `rel` from the directory `base`.
pub fn join_path(style: PathStyle, base: &str, rel: &str) -> (r: String)
    requires
        is_plain(rel@),
    ensures
        r@ == joined(style, base@, rel@),
{
    proof {
        reveal_strlit("/");
        reveal_strlit("\\");
        assert("/"@ == seq!['/']);
        assert("\\"@ == seq!['\\']);
    }
    let len: usize = base.unicode_len();
    let mut path = base.to_owned();
    match style {
        PathStyle::Unix => {
            if len > 0 && base.get_char(len - 1) != '/' {
                path.append("/");
            }
            path.append(rel);
        },
        PathStyle::Windows => {
            if starts_verbatim(base) {
                if base.get_char(len - 1) != '\\' || is_only_verbatim_mark(base) {
                    path.append("\\");
                }
                path.append(with_backslashes(rel).as_str());
            } else {
                if len > 0 && base.get_char(len - 1) != '/' && base.get_char(len - 1) != '\\'
                    && !is_only_drive(base) {
                    path.append("\\");
                }
                path.append(rel);
            }
        },
    }
    path
}

/// Whether `.tiktoken` is the extension of the file name `name`: something stands before it.
pub open spec fn is_tiktoken_name(name: Seq<char>) -> bool {
    exists|stem: Seq<char>| stem.len() > 0 && name == #[trigger] (stem + ".tiktoken"@)
}

/// Tells whether `.tiktoken` is the extension of the file name `name`.
pub fn has_tiktoken_extension(name: &str) -> (r: bool)
    ensures
        r == is_tiktoken_name(name@),
{
    proof {
        reveal_strlit(".tiktoken");
    }
    let len: usize = name.unicode_len();
    if len < 10 {
        assert forall|stem: Seq<char>| stem.len() > 0 implies name@ != #[trigger] (stem
            + ".tiktoken"@) by {
            assert((stem + ".tiktoken"@).len() == stem.len() + 9);
        }
        return false;
    }
    let tail = name.substring_char(len - 9, len);
    let r = same_text(tail, ".tiktoken");
    proof {
        let stem = name@.subrange(0, len - 9);
        assert(name@ == stem + name@.subrange(len - 9, len as int));
        if !r {
            assert forall|stem: Seq<char>| stem.len() > 0 implies name@ != #[trigger] (stem
                + ".tiktoken"@) by {
                if name@ == stem + ".tiktoken"@ {
                    assert(stem.len() == len - 9);
                    assert(name@.subrange(len - 9, len as int) == ".tiktoken"@);
                }
            }
        }
    }
    r
}

/// Whether a directory whose entries bear the names `names` holds a `*.tiktoken` file.
pub open spec fn any_tiktoken(names: Seq<Seq<char>>) -> bool {
    exists|i: int| 0 <= i < names.len() && is_tiktoken_name(#[trigger] names[i])
}

/// The characters of each of several strings.
pub open spec fn texts(names: Seq<String>) -> Seq<Seq<char>> {
    names.map_values(|name: String| name@)
}

/// Tells whether a directory holds a `*.tiktoken` file (such as `qwen.tiktoken`), from the
/// names of its entries.
pub fn has_tiktoken_file(names: &Vec<String>) -> (r: bool)
    ensures
        r == any_tiktoken(texts(names@)),
{
    for i in 0..names.len()
        invariant
            forall|j: int| 0 <= j < i ==> !is_tiktoken_name(#[trigger] texts(names@)[j]),
    {
        if has_tiktoken_extension(names[i].as_str()) {
            assert(is_tiktoken_name(texts(names@)[i as int]));
            return true;
        }
    }
    false
}

/// A file name has the extension exactly where some characters stand before a final `.tiktoken`.
pub proof fn law_tiktoken_extension(name: &str, r: bool)
    requires
        call_ensures(has_tiktoken_extension, (name,), r),
    ensures
        r <==> name@.len() > 9 && name@.subrange(name@.len() - 9, name@.len() as int)
            == ".tiktoken"@,
        forall|stem: Seq<char>|
            stem.len() > 0 && name@ == #[trigger] (stem + ".tiktoken"@) ==> r,
{
    reveal_strlit(".tiktoken");
    if r {
        let stem = choose|stem: Seq<char>|
            stem.len() > 0 && name@ == #[trigger] (stem + ".tiktoken"@);
        assert(name@.subrange(name@.len() - 9, name@.len() as int) == ".tiktoken"@);
    }
    if name@.len() > 9 && name@.subrange(name@.len() - 9, name@.len() as int) == ".tiktoken"@ {
        let stem = name@.subrange(0, name@.len() - 9);
        assert(name@ == stem + ".tiktoken"@);
    }
}

/// A directory holds a `*.tiktoken` file exactly where one of its names, wherever it stands in
/// the listing, is some characters followed by `.tiktoken`.
pub proof fn law_any_tiktoken_name_will_do(names: &Vec<String>, r: bool)
    requires
        call_ensures(has_tiktoken_file, (names,), r),
    ensures
        forall|i: int, stem: Seq<char>|
            0 <= i < names@.len() && stem.len() > 0 && (#[trigger] names@[i])@ == #[trigger] (stem
                + ".tiktoken"@) ==> r,
        r ==> exists|i: int, stem: Seq<char>|
            0 <= i < names@.len() && stem.len() > 0 && (#[trigger] names@[i])@ == #[trigger] (stem
                + ".tiktoken"@),
        names@.len() == 1 ==> (r <==> exists|stem: Seq<char>|
            stem.len() > 0 && names@[0]@ == #[trigger] (stem + ".tiktoken"@)),
{
    let listed = texts(names@);
    assert forall|i: int, stem: Seq<char>|
        0 <= i < names@.len() && stem.len() > 0 && (#[trigger] names@[i])@ == #[trigger] (stem
            + ".tiktoken"@) implies r by {
        assert(is_tiktoken_name(listed[i]));
    }
    if r {
        let i = choose|i: int| 0 <= i < listed.len() && is_tiktoken_name(#[trigger] listed[i]);
        let stem = choose|stem: Seq<char>|
            stem.len() > 0 && listed[i] == #[trigger] (stem + ".tiktoken"@);
        assert(names@[i]@ == stem + ".tiktoken"@);
    }
}

/// The order of a listing, and how often it has a name, make no difference: a listing whose
/// names are all in another has a `*.tiktoken` file only where the other has one.
pub proof fn law_order_of_names_makes_no_difference(
    fewer: &Vec<String>,
    more: &Vec<String>,
    in_fewer: bool,
    in_more: bool,
)
    requires
        call_ensures(has_tiktoken_file, (fewer,), in_fewer),
        call_ensures(has_tiktoken_file, (more,), in_more),
        forall|i: int|
            0 <= i < fewer@.len() ==> exists|j: int|
                0 <= j < more@.len() && (#[trigger] more@[j])@ == (#[trigger] fewer@[i])@,
    ensures
        in_fewer ==> in_more,
{
    law_any_tiktoken_name_will_do(fewer, in_fewer);
    law_any_tiktoken_name_will_do(more, in_more);
    if in_fewer {
        let (i, stem) = choose|i: int, stem: Seq<char>|
            0 <= i < fewer@.len() && stem.len() > 0 && (#[trigger] fewer@[i])@ == #[trigger] (stem
                + ".tiktoken"@);
        let j = choose|j: int| 0 <= j < more@.len() && (#[trigger] more@[j])@ == fewer@[i]@;
        assert(more@[j]@ == stem + ".tiktoken"@);
    }
}

/// Whether `path` is the path of what is called `rel` inside the directory `base`: `base`, one
/// separator where it is needed, and `rel`, whose own separators become `\` after a base that
/// starts with `\\?\`.
pub open spec fn is_inside(
    style: PathStyle,
    base: Seq<char>,
    rel: Seq<char>,
    path: Seq<char>,
) -> bool {
    let windows = style == PathStyle::Windows;
    let gap = path.len() - base.len() - rel.len();
    let verbatim = windows && base.len() > 3 && base[0] == '\\' && base[1] == '\\' && base[2] == '?'
        && base[3] == '\\';
    let ended = base.len() > 0 && (base.last() == '/' && !verbatim || base.last() == '\\'
        && windows);
    let drive = windows && base.len() == 2 && base[1] == ':' && ('a' <= base[0] <= 'z' || 'A'
        <= base[0] <= 'Z');
    let mark_only = verbatim && (base.len() == 4 || base.len() == 8 && base.subrange(4, 8)
        == seq!['U', 'N', 'C', '\\']);
    &&& gap == 0 || gap == 1
    &&& gap == 0 <==> base.len() == 0 || drive || ended && !mark_only
    &&& path.subrange(0, base.len() as int) == base
    &&& gap == 1 ==> path[base.len() as int] == (if windows {
        '\\'
    } else {
        '/'
    })
    &&& forall|i: int|
        0 <= i < rel.len() ==> path[base.len() + gap + i] == (if verbatim && rel[i] == '/' {
            '\\'
        } else {
            #[trigger] rel[i]
        })
}

/// Joining puts a path inside its base, in either style.
pub proof fn law_joined_path_is_inside(style: PathStyle, base: &str, rel: &str, r: String)
    requires
        call_ensures(join_path, (style, base, rel), r),
    ensures
        is_inside(style, base@, rel@, r@),
{
    lemma_joined_is_inside(style, base@, rel@);
}

pub(crate) proof fn lemma_joined_is_inside(style: PathStyle, base: Seq<char>, rel: Seq<char>)
    ensures
        is_inside(style, base, rel, joined(style, base, rel)),
{
    let path = joined(style, base, rel);
    assert(path.subrange(0, base.len() as int) == base);
    if base.len() == 8 {
        let tail = base.subrange(4, 8);
        assert(tail[0] == base[4] && tail[1] == base[5] && tail[2] == base[6] && tail[3] == base[7]);
        if is_verbatim_mark(base) {
            assert(tail == seq!['U', 'N', 'C', '\\']);
        }
    }
}

/// On Unix the joined path is the base, a `/` unless the base is empty or ends in one, and the
/// rest, character for character.
pub proof fn law_unix_join(base: &str, rel: &str, r: String)
    requires
        call_ensures(join_path, (PathStyle::Unix, base, rel), r),
    ensures
        base@.len() == 0 || base@.last() == '/' ==> r@ == base@ + rel@,
        base@.len() > 0 && base@.last() != '/' ==> r@ == base@ + seq!['/'] + rel@,
{
}

/// Two strings are the same text exactly where they have the same characters.
pub proof fn law_same_text(a: &str, b: &str, r: bool)
    requires
        call_ensures(same_text, (a, b), r),
    ensures
        r <==> a@ == b@,
{
}

/// Any name without dots, colons and separators can be joined to any base.
pub proof fn law_any_simple_name_can_be_joined(style: PathStyle, base: &str, rel: &str)
    requires
        rel@.len() > 0,
        forall|i: int|
            0 <= i < rel@.len() ==> #[trigger] rel@[i] != '/' && rel@[i] != '\\' && rel@[i] != ':'
                && rel@[i] != '.',
    ensures
        call_requires(join_path, (style, base, rel)),
{
}

/// On Windows a `\` comes between the two, unless the base is empty or ends in `\` or `/`, or is a
/// drive by itself, which what follows is taken from. After a base that starts with `\\?\` every
/// separator of the rest is a `\`.
pub proof fn law_windows_join(base: &str, rel: &str, r: String)
    requires
        call_ensures(join_path, (PathStyle::Windows, base, rel), r),
    ensures
        base@.len() == 0 ==> r@ == rel@,
        base@.len() > 0 && base@[0] != '\\' && (base@.last() == '\\' || base@.last() == '/') ==> r@
            == base@ + rel@,
        base@.len() == 2 && ('A' <= base@[0] <= 'Z' || 'a' <= base@[0] <= 'z') && base@[1] == ':'
            ==> r@ == base@ + rel@,
        base@.len() > 2 && base@[2] != '?' && base@.last() != '\\' && base@.last() != '/' ==> r@
            == base@ + seq!['\\'] + rel@,
        base@.len() > 8 && base@.take(4) == seq!['\\', '\\', '?', '\\'] && base@.last() != '\\'
            ==> r@.len() == base@.len() + 1 + rel@.len() && r@.take(base@.len() as int) == base@
            && r@[base@.len() as int] == '\\' && (forall|i: int|
            0 <= i < rel@.len() ==> r@[base@.len() + 1 + i] == (if rel@[i] == '/' {
                '\\'
            } else {
                #[trigger] rel@[i]
            })),
        base@.len() > 8 && base@.take(4) == seq!['\\', '\\', '?', '\\'] && base@.last() == '\\'
            ==> r@.len() == base@.len() + rel@.len() && r@.take(base@.len() as int) == base@ && (
        forall|i: int|
            0 <= i < rel@.len() ==> r@[base@.len() + i] == (if rel@[i] == '/' {
                '\\'
            } else {
                #[trigger] rel@[i]
            })),
{
    assert(base@.len() == 0 ==> base@ + rel@ == rel@);
    if base@.len() > 8 && base@.take(4) == seq!['\\', '\\', '?', '\\'] {
        let first = base@.take(4);
        assert(first[0] == base@[0] && first[1] == base@[1] && first[2] == base@[2] && first[3]
            == base@[3]);
        assert(r@.take(base@.len() as int) == base@);
    }
}

} // verus!
