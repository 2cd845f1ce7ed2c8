//! File paths as text, with the Unix rules of `PathBuf::push`,
//! `Path::extension` and `Path::file_stem`.

use vstd::prelude::*;
use crate::text::{chars_of, substring, string_of, str_eq, texts, push_text};
use crate::version::{split_on, split_chars, lemma_split_nonempty};

verus! {

/// `part` adjoined to `base` as `PathBuf::push` does on Unix: an absolute
/// `part` replaces `base`, otherwise a `/` is put between them unless
/// `base` is empty or already ends with one.
pub open spec fn path_join(base: Seq<char>, part: Seq<char>) -> Seq<char> {
    if part.len() > 0 && part[0] == '/' {
        part
    } else if base.len() == 0 || base.last() == '/' {
        base + part
    } else {
        base + "/"@ + part
    }
}

/// Joins a path and a part (`Path::join` on Unix).
pub fn join_path(base: &str, part: &str) -> (r: String)
    ensures
        r@ == path_join(base@, part@),
{
    let p = chars_of(part);
    let b = chars_of(base);
    if p.len() > 0 && p[0] == '/' {
        return String::from_str(part);
    }
    let mut r = String::from_str(base);
    if b.len() > 0 && b[b.len() - 1] != '/' {
        r.append("/");
        proof {
            reveal_strlit("/");
        }
    }
    r.append(part);
    r
}

/// The position of the last `.` in a file name, if any.
pub open spec fn last_dot(name: Seq<char>) -> Option<int>
    decreases name.len(),
{
    if name.len() == 0 {
        None
    } else if name.last() == '.' {
        Some(name.len() - 1)
    } else {
        last_dot(name.drop_last())
    }
}

/// The extension of a file name: the text after its last `.`, unless
/// that dot is its first character.
pub open spec fn name_extension(name: Seq<char>) -> Option<Seq<char>> {
    match last_dot(name) {
        Some(k) if k > 0 => Some(name.subrange(k + 1, name.len() as int)),
        _ => None,
    }
}

/// The stem of a file name: the text before its last `.`, or the whole
/// name when it has no extension.
pub open spec fn name_stem(name: Seq<char>) -> Seq<char> {
    match last_dot(name) {
        Some(k) if k > 0 => name.take(k),
        _ => name,
    }
}

/// The extension of a path (`Path::extension`): that of its file name.
pub open spec fn extension_of(p: Seq<char>) -> Option<Seq<char>> {
    match file_name_of(p) {
        Some(n) => name_extension(n),
        None => None,
    }
}

/// The stem of a path (`Path::file_stem`): that of its file name.
pub open spec fn file_stem_of(p: Seq<char>) -> Option<Seq<char>> {
    match file_name_of(p) {
        Some(n) => Some(name_stem(n)),
        None => None,
    }
}

proof fn lemma_last_dot_range(name: Seq<char>)
    ensures
        last_dot(name) matches Some(k) ==> 0 <= k < name.len() && name[k] == '.',
        last_dot(name) matches Some(k) ==> forall|j: int| k < j < name.len() ==> name[j] != '.',
        last_dot(name) is None ==> forall|j: int| 0 <= j < name.len() ==> name[j] != '.',
    decreases name.len(),
{
    if name.len() > 0 && name.last() != '.' {
        lemma_last_dot_range(name.drop_last());
        assert forall|j: int| 0 <= j < name.len() - 1 implies name.drop_last()[j] == name[j] by {}
    }
}

fn find_last_dot(cs: &Vec<char>) -> (r: Option<usize>)
    ensures
        match r {
            Some(k) => last_dot(cs@) == Some(k as int),
            None => last_dot(cs@) is None,
        },
{
    let mut i: usize = cs.len();
    assert(cs@.take(i as int) =~= cs@);
    while i > 0
        invariant
            i <= cs@.len(),
            last_dot(cs@) == last_dot(cs@.take(i as int)),
        decreases i,
    {
        assert(cs@.take(i as int).last() == cs@[i - 1]);
        if cs[i - 1] == '.' {
            return Some(i - 1);
        }
        assert(cs@.take(i as int).drop_last() =~= cs@.take(i - 1));
        i = i - 1;
    }
    None
}

/// The extension of a file name.
pub fn name_extension_of(name: &str) -> (r: Option<String>)
    ensures
        match r {
            Some(e) => name_extension(name@) == Some(e@),
            None => name_extension(name@) is None,
        },
{
    let cs = chars_of(name);
    match find_last_dot(&cs) {
        Some(k) => {
            proof {
                lemma_last_dot_range(name@);
            }
            if k > 0 {
                Some(substring(name, k + 1, cs.len()))
            } else {
                None
            }
        },
        None => None,
    }
}

/// The stem of a file name.
pub fn name_stem_of(name: &str) -> (r: String)
    ensures
        r@ == name_stem(name@),
{
    let cs = chars_of(name);
    match find_last_dot(&cs) {
        Some(k) => {
            proof {
                lemma_last_dot_range(name@);
            }
            if k > 0 {
                let r = substring(name, 0, k);
                assert(name@.subrange(0, k as int) =~= name@.take(k as int));
                r
            } else {
                String::from_str(name)
            }
        },
        None => String::from_str(name),
    }
}

/// The pieces of a path that name something: neither empty nor `.`.
pub open spec fn named_pieces(pieces: Seq<Seq<char>>) -> Seq<Seq<char>>
    decreases pieces.len(),
{
    if pieces.len() == 0 {
        Seq::<Seq<char>>::empty()
    } else {
        let r = named_pieces(pieces.drop_last());
        if pieces.last().len() == 0 || pieces.last() == "."@ {
            r
        } else {
            r.push(pieces.last())
        }
    }
}

/// The components of a path (`Path::components` on Unix): `/` for the
/// root, `.` for a leading current directory, then the pieces between
/// slashes that are neither empty nor `.`.
pub open spec fn path_components(p: Seq<char>) -> Seq<Seq<char>> {
    let pieces = split_on(p, '/');
    (if p.len() > 0 && p[0] == '/' {
        seq!["/"@]
    } else if pieces[0] == "."@ {
        seq!["."@]
    } else {
        Seq::<Seq<char>>::empty()
    }) + named_pieces(pieces)
}

/// The file name of a path (`Path::file_name`): its last component when
/// that is a name, `None` when the path is empty or ends in the root,
/// `.` or `..`.
pub open spec fn file_name_of(p: Seq<char>) -> Option<Seq<char>> {
    let c = path_components(p);
    if c.len() == 0 || c.last() == "/"@ || c.last() == "."@ || c.last() == ".."@ {
        None
    } else {
        Some(c.last())
    }
}

/// `path` starts with `base`, component by component
/// (`Path::starts_with`).
pub open spec fn path_starts_with(path: Seq<char>, base: Seq<char>) -> bool {
    let a = path_components(path);
    let b = path_components(base);
    b.len() <= a.len() && a.take(b.len() as int) == b
}

fn is_named(piece: &Vec<char>) -> (r: bool)
    ensures
        r == !(piece@.len() == 0 || piece@ == "."@),
{
    proof {
        reveal_strlit(".");
    }
    if piece.len() == 0 {
        return false;
    }
    if piece.len() == 1 && piece[0] == '.' {
        assert(piece@ =~= "."@);
        return false;
    }
    assert(piece@ != "."@) by {
        if piece@ == "."@ {
            assert(piece@.len() == 1 && piece@[0] == '.');
        }
    }
    true
}

/// The components of a path, as `Path::components` gives them on Unix.
pub fn components(p: &str) -> (r: Vec<String>)
    ensures
        texts(r@) == path_components(p@),
{
    proof {
        reveal_strlit("/");
        reveal_strlit(".");
    }
    let cs = chars_of(p);
    let pieces = split_chars(&cs, '/');
    proof {
        lemma_split_nonempty(p@, '/');
    }
    let mut r: Vec<String> = Vec::new();
    if cs.len() > 0 && cs[0] == '/' {
        push_text(&mut r, String::from_str("/"));
    } else if pieces[0].len() == 1 && pieces[0][0] == '.' {
        assert(pieces@[0]@ =~= "."@);
        push_text(&mut r, String::from_str("."));
    } else {
        assert(split_on(p@, '/')[0] != "."@) by {
            if split_on(p@, '/')[0] == "."@ {
                assert(pieces@[0]@.len() == 1 && pieces@[0]@[0] == '.');
            }
        }
    }
    let ghost head = texts(r@);
    let mut i: usize = 0;
    while i < pieces.len()
        invariant
            i <= pieces@.len(),
            pieces@.len() == split_on(p@, '/').len(),
            forall|j: int| 0 <= j < pieces@.len() ==> #[trigger] pieces@[j]@ == split_on(p@, '/')[j],
            texts(r@) == head + named_pieces(split_on(p@, '/').take(i as int)),
        decreases pieces.len() - i,
    {
        assert(split_on(p@, '/').take(i + 1).drop_last() =~= split_on(p@, '/').take(i as int));
        if is_named(&pieces[i]) {
            push_text(&mut r, string_of(&pieces[i]));
        }
        i = i + 1;
    }
    assert(split_on(p@, '/').take(pieces@.len() as int) =~= split_on(p@, '/'));
    r
}

/// The file name of a path, as `Path::file_name` gives it.
pub fn file_name(p: &str) -> (r: Option<String>)
    ensures
        match r {
            Some(n) => file_name_of(p@) == Some(n@),
            None => file_name_of(p@) is None,
        },
{
    let c = components(p);
    let n = c.len();
    assert(texts(c@).len() == n);
    if n == 0 {
        return None;
    }
    let last = c[n - 1].as_str();
    assert(last@ == texts(c@)[n - 1]);
    if str_eq(last, "/") || str_eq(last, ".") || str_eq(last, "..") {
        None
    } else {
        Some(String::from_str(last))
    }
}

/// Whether `path` starts with `base`, as `Path::starts_with` decides.
pub fn starts_with_path(path: &str, base: &str) -> (r: bool)
    ensures
        r == path_starts_with(path@, base@),
{
    let a = components(path);
    let b = components(base);
    assert(texts(a@).len() == a@.len() && texts(b@).len() == b@.len());
    if b.len() > a.len() {
        return false;
    }
    let mut i: usize = 0;
    while i < b.len()
        invariant
            i <= b@.len() <= a@.len(),
            texts(a@) == path_components(path@),
            texts(b@) == path_components(base@),
            forall|j: int| 0 <= j < i ==> texts(a@)[j] == texts(b@)[j],
        decreases b.len() - i,
    {
        assert(texts(a@)[i as int] == a@[i as int]@ && texts(b@)[i as int] == b@[i as int]@);
        if !str_eq(a[i].as_str(), b[i].as_str()) {
            assert(texts(a@).take(b@.len() as int)[i as int] != texts(b@)[i as int]);
            return false;
        }
        i = i + 1;
    }
    assert(texts(a@).take(b@.len() as int) =~= texts(b@));
    true
}

/// The extension of a path, as `Path::extension` gives it.
pub fn extension(p: &str) -> (r: Option<String>)
    ensures
        match r {
            Some(e) => extension_of(p@) == Some(e@),
            None => extension_of(p@) is None,
        },
{
    match file_name(p) {
        Some(n) => name_extension_of(n.as_str()),
        None => None,
    }
}

/// The stem of a path, as `Path::file_stem` gives it.
pub fn file_stem(p: &str) -> (r: Option<String>)
    ensures
        match r {
            Some(t) => file_stem_of(p@) == Some(t@),
            None => file_stem_of(p@) is None,
        },
{
    match file_name(p) {
        Some(n) => Some(name_stem_of(n.as_str())),
        None => None,
    }
}

} // verus!
