//! The workspace filesystem: request and result types, the path jail that
//! confines every file operation to the workspace root, and in-memory edits.

use vstd::prelude::*;
use crate::disk::{probe_canonical, probe_exists, CanonicalProbe, ExistsProbe};
use crate::path::{
    comps_start_with, fold_steps, is_absolute, lemma_fold_concat, lemma_normalize_render,
    lemma_normalize_well_formed, lemma_split_concat, normalize, normalize_path, components_start_with, pieces,
    render, render_components, root_comp, step, lexical, lexical_components, path_starts_with, comps_view,
};
use crate::text::{
    chars_to_string, concat_str, contains, find_first, occurs_at, owned, push_all,
    str_chars,
};

verus! {

/// Errors of file operations.
#[derive(Debug, Clone)]
pub enum FileError {
    NotFound(String),
    PermissionDenied(String),
    IoError(String),
    PathEscape(String),
}

/// The display text of a file error.
pub open spec fn file_error_text(e: FileError) -> Seq<char> {
    match e {
        FileError::NotFound(s) => "file not found: "@ + s@,
        FileError::PermissionDenied(s) => "permission denied: "@ + s@,
        FileError::IoError(s) => "io error: "@ + s@,
        FileError::PathEscape(s) => "path outside sandbox: "@ + s@,
    }
}

impl FileError {
    /// The human-readable message of this error.
    pub fn message(&self) -> (res: String)
        ensures
            res@ == file_error_text(*self),
    {
        match self {
            FileError::NotFound(s) => concat_str("file not found: ", s.as_str()),
            FileError::PermissionDenied(s) => concat_str("permission denied: ", s.as_str()),
            FileError::IoError(s) => concat_str("io error: ", s.as_str()),
            FileError::PathEscape(s) => concat_str("path outside sandbox: ", s.as_str()),
        }
    }
}

/// One entry of a directory listing.
#[derive(Debug, Clone)]
pub struct FileInfo {
    pub path: String,
    pub name: String,
    pub is_dir: bool,
    pub size: u64,
    pub modified: String,
}

/// The content of a file that was read.
#[derive(Debug, Clone)]
pub struct FileReadResult {
    pub path: String,
    pub content: String,
    pub encoding: String,
}

/// A request to write a whole file.
#[derive(Debug, Clone)]
pub struct FileWriteRequest {
    pub path: String,
    pub content: String,
    pub encoding: Option<String>,
}

/// A request to replace the first occurrence of `old_text` by `new_text`.
#[derive(Debug, Clone)]
pub struct FileEditRequest {
    pub path: String,
    pub old_text: String,
    pub new_text: String,
}

/// A request to search file contents.
#[derive(Debug, Clone)]
pub struct FileSearchRequest {
    pub query: String,
    pub path: Option<String>,
    pub file_pattern: Option<String>,
    pub max_results: Option<usize>,
}

/// One matching line of a search.
#[derive(Debug, Clone)]
pub struct FileSearchResult {
    pub path: String,
    pub line_number: usize,
    pub line_content: String,
}

/// The Debug rendering of a path (quoted, with escapes), as std's
/// `impl Debug for Path` produces it.
pub uninterp spec fn path_debug_text(s: Seq<char>) -> Seq<char>;

/// Renders the path `s` with std's `Debug` formatting for `Path`. Trusted:
/// the result is `path_debug_text` of the argument; what that text is, is
/// not stated.
#[verifier::external_body]
fn debug_quoted(s: &str) -> (res: String)
    ensures
        res@ == path_debug_text(s@),
{
    format!("{:?}", std::path::Path::new(s))
}

/// The text that a request path denotes before normalization: an absolute
/// path stands for itself, a relative one is appended to the root (and to
/// nothing when the root is empty).
pub open spec fn joined(root: Seq<char>, p: Seq<char>) -> Seq<char> {
    if is_absolute(p) || root.len() == 0 {
        p
    } else {
        root + seq!['/'] + p
    }
}

/// The normalized components that a request path designates.
pub open spec fn designated(root: Seq<char>, p: Seq<char>) -> Seq<Seq<char>> {
    normalize(joined(root, p))
}

/// The request path stays inside the root: its normalized components start
/// with the root's normalized components.
pub open spec fn within_root(root: Seq<char>, p: Seq<char>) -> bool {
    comps_start_with(designated(root, p), normalize(root))
}

/// The message of the error for a missing workspace root.
pub open spec fn missing_root_text(root: Seq<char>) -> Seq<char> {
    "Workspace root does not exist: "@ + path_debug_text(root)
}

/// What resolving `p` against `root` gives, when the root does (`root_exists`)
/// or does not exist.
pub open spec fn resolve_outcome(root: Seq<char>, p: Seq<char>, root_exists: bool, res: Result<String, FileError>) -> bool {
    match res {
        Ok(r) => root_exists && within_root(root, p) && r@ == render(designated(root, p)),
        Err(FileError::IoError(m)) => !root_exists && m@ == missing_root_text(root),
        Err(FileError::PathEscape(m)) => root_exists && !within_root(root, p) && m@ == p,
        Err(_) => false,
    }
}

/// What resolving `p` against `root` gives once the filesystem has been
/// consulted: whether the root exists, the canonical form of the root
/// (`canonical_root`), and the canonical form of the nearest existing
/// ancestor-or-self of the lexically resolved path (`canonical_found`). A
/// lexical refusal stands; when the root has a canonical form, a path whose
/// real location (symbolic links followed) leaves it is refused as an
/// escape; when it has none, the lexical resolution stands.
pub open spec fn confined_outcome(
    root: Seq<char>,
    p: Seq<char>,
    root_exists: bool,
    canonical_root: Option<Seq<char>>,
    canonical_found: Option<Seq<char>>,
    res: Result<String, FileError>,
) -> bool {
    if !root_exists || !within_root(root, p) {
        resolve_outcome(root, p, root_exists, res)
    } else {
        match canonical_root {
            None => res matches Ok(r) && r@ == render(designated(root, p)),
            Some(cr) => match canonical_found {
                Some(cf) if comps_start_with(lexical(cf), lexical(cr)) =>
                    res matches Ok(r) && r@ == render(designated(root, p)),
                _ => res matches Err(FileError::PathEscape(m)) && m@ == p,
            },
        }
    }
}

/// The paths whose canonical form is sought for a resolved path: the
/// renderings of the prefixes of its normalized components, longest first.
pub open spec fn candidates(resolved: Seq<char>) -> Seq<Seq<char>> {
    let c = normalize(resolved);
    Seq::new(c.len(), |i: int| render(c.take(c.len() - i)))
}

/// `probes` asked the candidates `cands` in order and stopped at the first
/// that had a canonical form (or after the last).
pub open spec fn probed_in_order(probes: Seq<CanonicalProbe>, cands: Seq<Seq<char>>) -> bool {
    &&& probes.len() <= cands.len()
    &&& forall|j: int| 0 <= j < probes.len() ==> (#[trigger] probes[j]).asked() == cands[j]
    &&& forall|j: int| 0 <= j < probes.len() - 1 ==> (#[trigger] probes[j]).found() is None
    &&& probes.len() < cands.len() ==> probes.len() > 0 && probes.last().found() is Some
}

/// The canonical form that a run of probes ended with, if any.
pub open spec fn last_found(probes: Seq<CanonicalProbe>) -> Option<Seq<char>> {
    if probes.len() == 0 { None } else { probes.last().found() }
}

/// One way resolving `p` against `root` can go: the root's existence is
/// asked (`rp`); when the path is refused lexically nothing more is asked;
/// otherwise the root's canonical form is asked (`cr`) and the candidates
/// of the resolved path are asked in order (`probes`), and the result is
/// `confined_outcome` of those answers.
pub open spec fn resolve_trace(
    root: Seq<char>,
    p: Seq<char>,
    rp: ExistsProbe,
    cr: Option<CanonicalProbe>,
    probes: Seq<CanonicalProbe>,
    res: Result<String, FileError>,
) -> bool {
    &&& rp.asked() == root
    &&& if !rp.present() || !within_root(root, p) {
        cr is None && probes.len() == 0 && resolve_outcome(root, p, rp.present(), res)
    } else {
        &&& cr matches Some(c) && c.asked() == root
        &&& probed_in_order(probes, candidates(render(designated(root, p))))
        &&& confined_outcome(root, p, true, cr.unwrap().found(), last_found(probes), res)
    }
}

/// `res` is what resolving `p` against `root` gave for some answers of the
/// disk to the questions that `resolve_trace` lists.
pub open spec fn resolved_by(root: Seq<char>, p: Seq<char>, res: Result<String, FileError>) -> bool {
    exists|rp: ExistsProbe, cr: Option<CanonicalProbe>, probes: Seq<CanonicalProbe>|
        #[trigger] resolve_trace(root, p, rp, cr, probes, res)
}

/// How a path is shown to a client: relative to the workspace root when it
/// lies under the root (its components after the root's), unchanged
/// otherwise.
pub open spec fn relative_text(root: Seq<char>, p: Seq<char>) -> Seq<char> {
    if comps_start_with(lexical(p), lexical(root)) {
        render(lexical(p).skip(lexical(root).len() as int))
    } else {
        p
    }
}

/// A filesystem confined to a workspace root directory.
pub struct LocalFilesystem {
    root: String,
}

impl LocalFilesystem {
    /// The workspace root.
    pub closed spec fn root_text(&self) -> Seq<char> {
        self.root@
    }

    /// A filesystem rooted at `root`.
    pub fn new(root: String) -> (fs: LocalFilesystem)
        ensures
            fs.root_text() == root@,
    {
        LocalFilesystem { root }
    }

    /// The workspace root.
    pub fn root(&self) -> (res: &str)
        ensures
            res@ == self.root_text(),
    {
        self.root.as_str()
    }

    /// Resolves `path` against the root, given whether the root exists: the
    /// normalized path when it stays under the root, `IoError` when the root
    /// is missing, `PathEscape` when the path leaves the root.
    pub fn resolve_with(&self, root_exists: bool, path: &str) -> (res: Result<String, FileError>)
        ensures
            resolve_outcome(self.root_text(), path@, root_exists, res),
    {
        let p = str_chars(path);
        let rc = str_chars(self.root.as_str());
        let joined_text: String = if (p.len() > 0 && p[0] == '/') || rc.len() == 0 {
            owned(path)
        } else {
            let mut v = rc;
            v.push('/');
            push_all(&mut v, p.as_slice());
            chars_to_string(v.as_slice())
        };
        assert(joined_text@ == joined(self.root@, path@));
        let normalized = normalize_path(joined_text.as_str());
        let root_normalized = normalize_path(self.root.as_str());
        if !root_exists {
            let q = debug_quoted(self.root.as_str());
            return Err(FileError::IoError(concat_str("Workspace root does not exist: ", q.as_str())));
        }
        if !components_start_with(&normalized, &root_normalized) {
            return Err(FileError::PathEscape(owned(path)));
        }
        Ok(render_components(&normalized))
    }

    /// Resolves `path` against the root given what the filesystem said:
    /// whether the root exists and the canonical forms of the root and of the
    /// nearest existing ancestor-or-self of the lexically resolved path. The
    /// lexical resolution of `resolve_with` comes first; its result is then
    /// kept only when its real location lies inside the real root.
    pub fn confine_real(
        &self,
        root_exists: bool,
        path: &str,
        canonical_root: Option<String>,
        canonical_found: Option<String>,
    ) -> (res: Result<String, FileError>)
        ensures
            confined_outcome(
                self.root_text(),
                path@,
                root_exists,
                match canonical_root { Some(c) => Some(c@), None => None },
                match canonical_found { Some(c) => Some(c@), None => None },
                res,
            ),
    {
        let lexical_res = self.resolve_with(root_exists, path);
        match lexical_res {
            Err(e) => Err(e),
            Ok(r) => match canonical_root {
                None => Ok(r),
                Some(cr) => match canonical_found {
                    Some(cf) => {
                        if path_starts_with(cf.as_str(), cr.as_str()) {
                            Ok(r)
                        } else {
                            Err(FileError::PathEscape(owned(path)))
                        }
                    },
                    None => Err(FileError::PathEscape(owned(path))),
                },
            },
        }
    }

    /// Resolves `path` against the root and confines its real location:
    /// the root's existence is asked of the disk; a path refused lexically
    /// (`resolve_with`) stays refused; otherwise the root's canonical form
    /// and those of the candidates of the resolved path (longest first, up
    /// to the first that has one) are asked, and the result is that of
    /// `confine_real` for the answers, as `resolve_trace` lists them.
    pub fn resolve(&self, path: &str) -> (res: Result<String, FileError>)
        ensures
            resolved_by(self.root_text(), path@, res),
    {
        let rp = probe_exists(owned(self.root.as_str()));
        let root_exists = rp.answer();
        match self.resolve_with(root_exists, path) {
            Err(e) => {
                let ghost none: Option<CanonicalProbe> = None;
                let ghost empty: Seq<CanonicalProbe> = Seq::empty();
                assert(resolve_trace(self.root_text(), path@, rp, none, empty, Err::<String, FileError>(e)));
                Err(e)
            },
            Ok(r) => {
                let cp = probe_canonical(owned(self.root.as_str()));
                let ghost cr = cp;
                let canonical_root = cp.into_answer();
                let cands = canonical_candidates(r.as_str());
                let (canonical_found, probes) = nearest_canonical(&cands);
                let res = self.confine_real(root_exists, path, canonical_root, canonical_found);
                assert(resolve_trace(self.root_text(), path@, rp, Some(cr), probes@, res));
                res
            },
        }
    }

    /// `path` as shown to a client: relative to the workspace root when it
    /// lies under it.
    pub fn workspace_relative(&self, path: &str) -> (res: String)
        ensures
            res@ == relative_text(self.root_text(), path@),
    {
        let pc = lexical_components(path);
        let rc = lexical_components(self.root.as_str());
        if !components_start_with(&pc, &rc) {
            return owned(path);
        }
        let ghost n = comps_view(rc@).len() as int;
        let mut suffix: Vec<Vec<char>> = Vec::new();
        let mut k: usize = rc.len();
        assert(comps_view(pc@).subrange(n, n) =~= comps_view(suffix@));
        while k < pc.len()
            invariant
                rc@.len() <= k <= pc@.len(),
                n == rc@.len(),
                comps_view(suffix@) == comps_view(pc@).subrange(n, k as int),
            decreases pc@.len() - k,
        {
            let mut c: Vec<char> = Vec::new();
            push_all(&mut c, pc[k].as_slice());
            let ghost before = suffix@;
            suffix.push(c);
            assert(comps_view(suffix@) =~= comps_view(before).push(c@));
            assert(comps_view(pc@).subrange(n, k + 1) =~= comps_view(pc@).subrange(n, k as int).push(pc@[k as int]@));
            k = k + 1;
        }
        assert(comps_view(pc@).subrange(n, pc@.len() as int) =~= comps_view(pc@).skip(n));
        render_components(&suffix)
    }

    /// Where a content search starts: the resolved `path` when one is
    /// given, else the root as it is.
    pub fn search_root(&self, path: Option<&str>) -> (res: Result<String, FileError>)
        ensures
            path is None ==> (res matches Ok(r) && r@ == self.root_text()),
            path matches Some(p) ==> resolved_by(self.root_text(), p@, res),
    {
        match path {
            Some(p) => self.resolve(p),
            None => Ok(self.root.clone()),
        }
    }

    /// Whether `path` resolves (`resolve`) and the resolved path exists on
    /// disk, as asked of the disk; a path that does not resolve does not
    /// exist.
    pub fn exists_at(&self, path: &str) -> (res: bool)
        ensures
            exists|r: Result<String, FileError>| #[trigger] resolved_by(self.root_text(), path@, r) && match r {
                Ok(q) => exists|ep: ExistsProbe| ep.asked() == q@ && res == #[trigger] ep.present(),
                Err(_) => !res,
            },
    {
        let resolved = self.resolve(path);
        match resolved {
            Ok(p) => {
                let ghost q = p@;
                let ep = probe_exists(p);
                let res = ep.answer();
                assert(ep.asked() == q && res == ep.present());
                assert(resolved_by(self.root_text(), path@, resolved));
                res
            },
            Err(_) => {
                assert(resolved_by(self.root_text(), path@, resolved));
                false
            },
        }
    }
}

/// The candidates of a resolved path (`candidates`): the renderings of the
/// prefixes of its normalized components, longest first.
pub fn canonical_candidates(resolved: &str) -> (res: Vec<String>)
    ensures
        res@.len() == candidates(resolved@).len(),
        forall|i: int| 0 <= i < res@.len() ==> (#[trigger] res@[i])@ == candidates(resolved@)[i],
{
    let mut prefix = normalize_path(resolved);
    let ghost c = normalize(resolved@);
    let ghost n = c.len() as int;
    let mut out: Vec<String> = Vec::new();
    assert(comps_view(prefix@) =~= c.take(n));
    while prefix.len() > 0
        invariant
            c == normalize(resolved@),
            n == c.len(),
            0 <= prefix@.len() <= n,
            comps_view(prefix@) == c.take(prefix@.len() as int),
            out@.len() == n - prefix@.len(),
            forall|i: int| 0 <= i < out@.len() ==> (#[trigger] out@[i])@ == render(c.take(n - i)),
        decreases prefix.len(),
    {
        let candidate = render_components(&prefix);
        out.push(candidate);
        let _ = prefix.pop();
        assert(comps_view(prefix@) =~= c.take(prefix@.len() as int));
    }
    assert(prefix@.len() == 0);
    out
}

/// Asks the disk for the canonical forms of `cands` in order, stopping at
/// the first that has one. Returns that canonical form, if any, and the
/// probes made.
fn nearest_canonical(cands: &Vec<String>) -> (res: (Option<String>, Ghost<Seq<CanonicalProbe>>))
    ensures
        probed_in_order(res.1@, cands@.map_values(|s: String| s@)),
        match res.0 {
            Some(c) => last_found(res.1@) == Some(c@),
            None => last_found(res.1@) is None,
        },
{
    let ghost cv = cands@.map_values(|s: String| s@);
    let mut probes: Ghost<Seq<CanonicalProbe>> = Ghost(Seq::empty());
    let mut i: usize = 0;
    while i < cands.len()
        invariant
            cv == cands@.map_values(|s: String| s@),
            i <= cands@.len(),
            probes@.len() == i,
            forall|j: int| 0 <= j < i ==> (#[trigger] probes@[j]).asked() == cv[j],
            forall|j: int| 0 <= j < i ==> (#[trigger] probes@[j]).found() is None,
        decreases cands.len() - i,
    {
        let cp = probe_canonical(owned(cands[i].as_str()));
        let ghost g = cp;
        let answer = cp.into_answer();
        proof {
            probes@ = probes@.push(g);
        }
        match answer {
            Some(c) => {
                return (Some(c), probes);
            },
            None => {},
        }
        i = i + 1;
    }
    (None, probes)
}

/// Every path that resolves lies inside the workspace: the resolved text,
/// parsed again, has the root's normalized components as a prefix.
pub proof fn lemma_resolved_path_in_jail(root: Seq<char>, p: Seq<char>, resolved: Seq<char>)
    requires
        within_root(root, p),
        resolved == render(designated(root, p)),
    ensures
        comps_start_with(normalize(resolved), normalize(root)),
        normalize(resolved) == designated(root, p),
{
    lemma_normalize_well_formed(joined(root, p));
    lemma_normalize_render(designated(root, p));
}

/// Resolving is idempotent when the root, normalized, is absolute or empty:
/// a resolved path stays inside the root when resolved again, and resolves
/// to itself.
pub proof fn lemma_resolve_idempotent(root: Seq<char>, p: Seq<char>)
    requires
        normalize(root).len() == 0 || normalize(root)[0] == root_comp(),
        within_root(root, p),
    ensures
        within_root(root, render(designated(root, p))),
        render(designated(root, render(designated(root, p)))) == render(designated(root, p)),
{
    let c = designated(root, p);
    let r = render(c);
    let big_r = normalize(root);
    lemma_normalize_well_formed(joined(root, p));
    lemma_normalize_render(c);
    if root.len() == 0 || is_absolute(r) {
        assert(joined(root, r) == r);
    } else if big_r.len() > 0 {
        assert(c.take(big_r.len() as int) == big_r);
        assert(c[0] == big_r[0]);
        assert(r == seq!['/'] + crate::path::join_names(c.skip(1)));
        assert(is_absolute(r));
    } else {
        let j = root + seq!['/'] + r;
        assert(joined(root, r) == j);
        lemma_split_concat(root, r, '/');
        assert(pieces(j) == pieces(root) + pieces(r));
        assert(is_absolute(j) == is_absolute(root));
        let init = if is_absolute(root) { seq![root_comp()] } else { Seq::<Seq<char>>::empty() };
        lemma_fold_concat(init, pieces(root), pieces(r));
        assert(normalize(j) == fold_steps(big_r, pieces(r)));
        assert(big_r =~= Seq::<Seq<char>>::empty());
        assert(normalize(r) == fold_steps(Seq::<Seq<char>>::empty(), pieces(r)));
    }
}

/// `t` first occurs in `s` at index `i`.
pub open spec fn first_occurrence(s: Seq<char>, t: Seq<char>, i: int) -> bool {
    occurs_at(s, t, i) && forall|k: int| 0 <= k < i ==> !occurs_at(s, t, k)
}

/// `s` with the occurrence of `t` at `i` replaced by `r`.
pub open spec fn replaced_at(s: Seq<char>, t: Seq<char>, r: Seq<char>, i: int) -> Seq<char> {
    s.take(i) + r + s.skip(i + t.len())
}

/// Replaces the first occurrence of `old_text` in `content` by `new_text`;
/// fails with `IoError("old_text not found in file")` when it does not occur.
pub fn edit_content(content: &str, old_text: &str, new_text: &str) -> (res: Result<String, FileError>)
    ensures
        res is Ok <==> contains(content@, old_text@),
        res matches Ok(out) ==> exists|i: int|
            first_occurrence(content@, old_text@, i) && out@ == replaced_at(
                content@,
                old_text@,
                new_text@,
                i,
            ),
        res matches Err(e) ==> e matches FileError::IoError(m) && m@ == "old_text not found in file"@,
{
    let c = str_chars(content);
    let o = str_chars(old_text);
    match find_first(c.as_slice(), o.as_slice()) {
        None => Err(FileError::IoError(owned("old_text not found in file"))),
        Some(i) => {
            let clen = c.len();
            assert(i + o@.len() <= clen);
            let mut out: Vec<char> = Vec::new();
            let mut k: usize = 0;
            while k < i
                invariant
                    i + o@.len() <= c@.len(),
                    k <= i,
                    out@ == c@.take(k as int),
                decreases i - k,
            {
                assert(c@.take(k + 1) =~= c@.take(k as int).push(c@[k as int]));
                out.push(c[k]);
                k = k + 1;
            }
            let n = str_chars(new_text);
            push_all(&mut out, n.as_slice());
            let mut j: usize = i + o.len();
            let ghost start = out@;
            while j < c.len()
                invariant
                    i + o@.len() <= j <= c@.len(),
                    out@ == start + c@.subrange(i + o@.len(), j as int),
                decreases c@.len() - j,
            {
                assert(c@.subrange(i + o@.len(), j + 1) =~= c@.subrange(i + o@.len(), j as int).push(c@[j as int]));
                out.push(c[j]);
                j = j + 1;
            }
            assert(c@.subrange(i + o@.len(), c@.len() as int) =~= c@.skip(i + o@.len()));
            assert(out@ =~= replaced_at(c@, o@, n@, i as int));
            let res = chars_to_string(out.as_slice());
            assert(first_occurrence(content@, old_text@, i as int) && res@ == replaced_at(
                content@,
                old_text@,
                new_text@,
                i as int,
            ));
            Ok(res)
        },
    }
}

proof fn lemma_fold_keeps_prefix(init: Seq<Seq<char>>, ps: Seq<Seq<char>>)
    requires
        forall|k: int| 0 <= k < ps.len() ==> #[trigger] ps[k] != seq!['.', '.'],
    ensures
        comps_start_with(fold_steps(init, ps), init),
    decreases ps.len(),
{
    if ps.len() == 0 {
        assert(init.take(init.len() as int) =~= init);
    } else {
        let d = ps.drop_last();
        assert forall|k: int| 0 <= k < d.len() implies #[trigger] d[k] != seq!['.', '.'] by {
            assert(d[k] == ps[k]);
        }
        lemma_fold_keeps_prefix(init, d);
        let f = fold_steps(init, d);
        assert(ps[ps.len() - 1] != seq!['.', '.']);
        let g = step(f, ps.last());
        if g != f {
            assert(g == f.push(ps.last()));
            assert(g.take(init.len() as int) =~= f.take(init.len() as int));
        }
    }
}

/// A relative request path none of whose pieces is `..` always stays inside
/// the workspace root.
pub proof fn lemma_plain_relative_path_within_root(root: Seq<char>, p: Seq<char>)
    requires
        !is_absolute(p),
        forall|k: int| 0 <= k < pieces(p).len() ==> #[trigger] pieces(p)[k] != seq!['.', '.'],
    ensures
        within_root(root, p),
{
    if root.len() == 0 {
        assert(normalize(root).len() == 0) by {
            let e = seq![Seq::<char>::empty()];
            assert(pieces(root) == e);
            assert(e.drop_last() =~= Seq::<Seq<char>>::empty());
            let z = Seq::<Seq<char>>::empty();
            assert(fold_steps(z, z) == z);
        }
        assert(designated(root, p).take(0) =~= normalize(root));
    } else {
        let j = root + seq!['/'] + p;
        assert(joined(root, p) == j);
        lemma_split_concat(root, p, '/');
        assert(j[0] == root[0]);
        let init: Seq<Seq<char>> = if is_absolute(root) { seq![root_comp()] } else { seq![] };
        assert(is_absolute(j) == is_absolute(root));
        lemma_fold_concat(init, pieces(root), pieces(p));
        lemma_fold_keeps_prefix(normalize(root), pieces(p));
    }
}

/// Replacing a text by itself gives the content back unchanged.
pub proof fn lemma_edit_same_text_identity(content: Seq<char>, text: Seq<char>, i: int)
    requires
        first_occurrence(content, text, i),
    ensures
        replaced_at(content, text, text, i) == content,
{
    assert(content.subrange(i, i + text.len()) == text);
    assert(replaced_at(content, text, text, i) =~= content);
}

/// After an edit, the new text stands where the first occurrence of the old
/// text stood, and everything before it is unchanged.
pub proof fn lemma_edit_places_new_text(content: Seq<char>, old_text: Seq<char>, new_text: Seq<char>, i: int)
    requires
        first_occurrence(content, old_text, i),
    ensures
        occurs_at(replaced_at(content, old_text, new_text, i), new_text, i),
        replaced_at(content, old_text, new_text, i).take(i) == content.take(i),
        replaced_at(content, old_text, new_text, i).len() == content.len() - old_text.len() + new_text.len(),
{
    let r = replaced_at(content, old_text, new_text, i);
    assert(r.subrange(i, i + new_text.len()) =~= new_text);
    assert(r.take(i) =~= content.take(i));
}

} // verus!
