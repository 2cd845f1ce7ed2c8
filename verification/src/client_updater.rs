//! The update client's requests to the package server and the safe
//! placement of an installed package inside the install directory.

use vstd::prelude::*;
use crate::crypto::HybridPublicKey;
use crate::models::{CheckUpdateRequest, PackageMetadata, Platform};
use crate::package_verifier::VerificationReport;
use crate::paths::{file_name_of, file_name, name_stem, name_stem_of, path_join, join_path, path_starts_with, starts_with_path};
use crate::text::{chars_of, concat_str, str_eq, trim_end_char, trim_end_matches_char};
use crate::version::{SemanticVersion, split_on, lemma_split_extend, lemma_split_sep, lemma_split_nonempty};
use crate::paths::{path_components, named_pieces};

verus! {

/// What an update check and verification came to.
pub enum UpdateResult {
    UpToDate,
    UpdateReady {
        metadata: PackageMetadata,
        package_data: Vec<u8>,
        report: VerificationReport,
        publisher_key: HybridPublicKey,
    },
    VerificationFailed { report: VerificationReport },
}

/// The address listing a server's applications: `<server>/api/apps`.
pub fn apps_url(server_url: &str) -> (r: String)
    ensures
        r@ == trim_end_char(server_url@, '/') + "/api/apps"@,
{
    let base = trim_end_matches_char(server_url, '/');
    concat_str(base.as_str(), "/api/apps")
}

/// The address of an update check: `<server>/api/check/<app_id>`.
pub fn check_url(server_url: &str, app_id: &str) -> (r: String)
    ensures
        r@ == trim_end_char(server_url@, '/') + "/api/check/"@ + app_id@,
{
    let base = trim_end_matches_char(server_url, '/');
    let mut r = concat_str(base.as_str(), "/api/check/");
    r.append(app_id);
    r
}

/// The address of a package download:
/// `<server>/api/download/<app_id>/<version>`.
pub fn package_download_url(server_url: &str, app_id: &str, version: &str) -> (r: String)
    ensures
        r@ == server_url@ + "/api/download/"@ + app_id@ + "/"@ + version@,
{
    let mut r = concat_str(server_url, "/api/download/");
    r.append(app_id);
    r.append("/");
    r.append(version);
    r
}

/// The request asking whether a newer version exists for this platform.
pub fn check_request(app_id: &str, current_version: &SemanticVersion, platform: Platform) -> (r: CheckUpdateRequest)
    ensures
        r.app_id@ == app_id@,
        r.current_version == *current_version,
        r.platform == platform,
{
    CheckUpdateRequest { app_id: String::from_str(app_id), current_version: *current_version, platform }
}

/// The name under which a package is installed: the file name of the
/// metadata's `filename` (or `package.bin` when it has none).
pub open spec fn safe_name(filename: Seq<char>) -> Seq<char> {
    match file_name_of(filename) {
        Some(n) => n,
        None => "package.bin"@,
    }
}

/// What the check of an install name gives: the name, or the text of
/// the refusal.
pub open spec fn install_name_outcome(filename: Seq<char>) -> Result<Seq<char>, Seq<char>> {
    let n = safe_name(filename);
    if n.contains('/') || n.contains('\\') {
        Err("Invalid filename: contains path separator: "@ + n)
    } else if n == ".."@ || n == "."@ {
        Err("Invalid filename: "@ + n)
    } else {
        Ok(n)
    }
}

pub(crate) fn contains_char(cs: &Vec<char>, c: char) -> (r: bool)
    ensures
        r == cs@.contains(c),
{
    let mut i: usize = 0;
    while i < cs.len()
        invariant
            i <= cs@.len(),
            forall|j: int| 0 <= j < i ==> cs@[j] != c,
        decreases cs.len() - i,
    {
        if cs[i] == c {
            assert(cs@[i as int] == c);
            return true;
        }
        i = i + 1;
    }
    false
}

/// The name a package is installed under, refusing names that could
/// leave the install directory.
pub fn install_file_name(filename: &str) -> (r: Result<String, String>)
    ensures
        match r {
            Ok(n) => install_name_outcome(filename@) == Ok::<Seq<char>, Seq<char>>(n@),
            Err(e) => install_name_outcome(filename@) == Err::<Seq<char>, Seq<char>>(e@),
        },
{
    proof {
        reveal_strlit("package.bin");
    }
    let name = match file_name(filename) {
        Some(n) => n,
        None => String::from_str("package.bin"),
    };
    let cs = chars_of(name.as_str());
    if contains_char(&cs, '/') || contains_char(&cs, '\\') {
        return Err(concat_str("Invalid filename: contains path separator: ", name.as_str()));
    }
    if str_eq(name.as_str(), "..") || str_eq(name.as_str(), ".") {
        return Err(concat_str("Invalid filename: ", name.as_str()));
    }
    Ok(name)
}

/// Where a package with an accepted install name is installed, and the
/// temporary file it is first written to: the same path with the
/// extension `tmp` (as `Path::with_extension` gives it).
pub fn install_paths(install_dir: &str, name: &str) -> (r: (String, String))
    requires
        install_name_outcome(name@) == Ok::<Seq<char>, Seq<char>>(name@),
    ensures
        r.0@ == path_join(install_dir@, name@),
        r.1@ == path_join(install_dir@, name_stem(name@) + ".tmp"@),
{
    let output = join_path(install_dir, name);
    let stem = name_stem_of(name);
    let tmp_name = concat_str(stem.as_str(), ".tmp");
    let tmp = join_path(install_dir, tmp_name.as_str());
    (output, tmp)
}

/// The written file must lie inside the install directory, both paths
/// with symbolic links and `..` resolved.
pub fn check_within(canonical_file: &str, canonical_install: &str) -> (r: Result<(), String>)
    ensures
        match r {
            Ok(()) => path_starts_with(canonical_file@, canonical_install@),
            Err(e) => !path_starts_with(canonical_file@, canonical_install@) && e@ == "Path traversal detected: "@
                + canonical_file@ + " is outside install dir "@ + canonical_install@,
        },
{
    if starts_with_path(canonical_file, canonical_install) {
        Ok(())
    } else {
        let mut e = concat_str("Path traversal detected: ", canonical_file);
        e.append(" is outside install dir ");
        e.append(canonical_install);
        Err(e)
    }
}

proof fn lemma_named_pieces_named(ps: Seq<Seq<char>>)
    ensures
        forall|i: int| 0 <= i < named_pieces(ps).len() ==> #[trigger] named_pieces(ps)[i].len() > 0
            && named_pieces(ps)[i] != "."@,
    decreases ps.len(),
{
    if ps.len() > 0 {
        lemma_named_pieces_named(ps.drop_last());
        let r = named_pieces(ps.drop_last());
        if !(ps.last().len() == 0 || ps.last() == "."@) {
            assert forall|i: int| 0 <= i < r.push(ps.last()).len() implies #[trigger] r.push(
                ps.last(),
            )[i].len() > 0 && r.push(ps.last())[i] != "."@ by {
                if i < r.len() {
                    assert(r.push(ps.last())[i] == r[i]);
                }
            }
        }
    }
}

proof fn lemma_safe_name_shape(filename: Seq<char>)
    requires
        install_name_outcome(filename) is Ok,
    ensures
        safe_name(filename).len() > 0,
        forall|i: int| 0 <= i < safe_name(filename).len() ==> safe_name(filename)[i] != '/',
        safe_name(filename) != "."@,
        safe_name(filename) != ".."@,
{
    reveal_strlit("package.bin");
    let n = safe_name(filename);
    if file_name_of(filename) is Some {
        let c = path_components(filename);
        let pieces = split_on(filename, '/');
        lemma_named_pieces_named(pieces);
        let head = if filename.len() > 0 && filename[0] == '/' {
            seq!["/"@]
        } else if pieces[0] == "."@ {
            seq!["."@]
        } else {
            Seq::<Seq<char>>::empty()
        };
        assert(c == head + named_pieces(pieces));
        reveal_strlit("/");
        reveal_strlit(".");
        if c.len() - 1 >= head.len() {
            assert(c.last() == named_pieces(pieces)[c.len() - 1 - head.len()]);
        }
    }
    assert forall|i: int| 0 <= i < n.len() implies n[i] != '/' by {
        if n[i] == '/' {
            assert(n.contains('/'));
        }
    }
}

/// Joining a single path component (not empty, not `.` or `..`, without
/// `/`) onto a directory adds exactly that component: the components of
/// the result are those of the directory followed by it, so the result
/// starts with the directory.
pub proof fn lemma_join_component(install_dir: Seq<char>, n: Seq<char>)
    requires
        n.len() > 0,
        forall|i: int| 0 <= i < n.len() ==> n[i] != '/',
        n != "."@,
        n != ".."@,
    ensures
        path_components(path_join(install_dir, n)) == path_components(install_dir).push(n),
        path_starts_with(path_join(install_dir, n), install_dir),
{
    reveal_strlit(".");
    reveal_strlit("/");
    let dir = install_dir;
    let joined = path_join(dir, n);
    assert(!(n.len() > 0 && n[0] == '/'));
    let e = Seq::<char>::empty();
    lemma_split_extend(e, n, '/');
    assert(e + n =~= n);
    assert(split_on(e, '/') == seq![e]);
    assert(split_on(n, '/') =~= seq![n]);
    if dir.len() == 0 {
        assert(joined == dir + n);
        assert(dir + n =~= n);
        assert(seq![n].drop_last() =~= Seq::<Seq<char>>::empty());
        assert(named_pieces(seq![n]) =~= named_pieces(Seq::<Seq<char>>::empty()).push(n));
        assert(path_components(dir) =~= Seq::<Seq<char>>::empty());
        assert(path_components(joined) =~= seq![n]);
    } else {
        let base = if dir.last() == '/' {
            dir.drop_last()
        } else {
            dir
        };
        let t = base.push('/');
        assert(joined == t + n) by {
            if dir.last() == '/' {
                assert(dir.drop_last().push('/') =~= dir);
            } else {
                assert(dir + "/"@ =~= dir.push('/'));
            }
        }
        lemma_split_sep(base, '/');
        lemma_split_extend(t, n, '/');
        lemma_split_nonempty(base, '/');
        let sb = split_on(base, '/');
        assert(split_on(t, '/') == sb.push(e));
        assert(split_on(joined, '/') =~= sb.push(n)) by {
            assert(split_on(t + n, '/').drop_last() == sb);
            assert(split_on(t + n, '/').last() == e + n);
            assert(e + n =~= n);
        }
        assert(named_pieces(sb.push(n)).drop_last() == named_pieces(sb)) by {
            assert(sb.push(n).drop_last() =~= sb);
        }
        assert(named_pieces(sb.push(n)) =~= named_pieces(sb).push(n)) by {
            assert(sb.push(n).drop_last() =~= sb);
        }
        assert(named_pieces(split_on(dir, '/')) == named_pieces(sb)) by {
            if dir.last() == '/' {
                assert(dir.drop_last().push('/') =~= dir);
                assert(split_on(dir, '/') == sb.push(e));
                assert(sb.push(e).drop_last() =~= sb);
            }
        }
        assert(joined[0] == dir[0]) by {
            if dir.last() == '/' {
                assert(dir.drop_last().push('/') =~= dir);
            }
            assert(joined[0] == t[0]);
            if base.len() == 0 {
                assert(dir.len() == 1);
            }
        }
        assert(split_on(joined, '/')[0] == split_on(dir, '/')[0]) by {
            if dir.last() == '/' {
                assert(dir.drop_last().push('/') =~= dir);
                assert(split_on(dir, '/') == sb.push(e));
            }
        }
        assert(path_components(joined) =~= path_components(dir).push(n));
    }
    let a = path_components(joined);
    let b = path_components(dir);
    assert(a.take(b.len() as int) =~= b);
}

/// A package installed under an accepted name stays inside the install
/// directory: the components of its path are those of the directory
/// followed by the name, so the path starts with the directory.
pub proof fn lemma_install_path_inside(install_dir: Seq<char>, filename: Seq<char>)
    requires
        install_name_outcome(filename) is Ok,
    ensures
        path_components(path_join(install_dir, safe_name(filename))) == path_components(install_dir).push(
            safe_name(filename),
        ),
        path_starts_with(path_join(install_dir, safe_name(filename)), install_dir),
{
    lemma_safe_name_shape(filename);
    lemma_join_component(install_dir, safe_name(filename));
}

} // verus!
