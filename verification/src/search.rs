//! Workspace content search: file-name patterns, line splitting, the
//! case-insensitive line match, and the depth-first walk whose directory and
//! file reads are performed by the caller.

use vstd::prelude::*;
use crate::filesystem::{FileSearchRequest, FileSearchResult};
use crate::text::{
    chars_to_string, contains, contains_chars, ends_with, ends_with_chars, occurs_at, owned, split_on,
    starts_with, starts_with_chars, str_chars,
};

verus! {

/// Lower-case mapping of a text as std's `str::to_lowercase` performs it
/// (full Unicode case mapping).
pub uninterp spec fn lowercase(s: Seq<char>) -> Seq<char>;

/// Lower-cases a text with std's `str::to_lowercase`. Trusted: the result
/// is `lowercase` of the argument.
#[verifier::external_body]
fn lowercase_str(s: &str) -> (res: String)
    ensures
        res@ == lowercase(s@),
{
    s.to_lowercase()
}

/// The lower-cased characters of `v`.
fn lowercase_chars(v: &[char]) -> (res: Vec<char>)
    ensures
        res@ == lowercase(v@),
{
    let s = chars_to_string(v);
    let low = lowercase_str(s.as_str());
    str_chars(low.as_str())
}

/// `line` without one trailing carriage return.
pub open spec fn strip_cr(line: Seq<char>) -> Seq<char> {
    if line.len() > 0 && line.last() == '\r' { line.drop_last() } else { line }
}

/// The lines of a text as std's `str::lines` yields them: split at `\n`, a
/// `\r` before a `\n` removed, and no final empty line after a trailing `\n`.
pub open spec fn text_lines(s: Seq<char>) -> Seq<Seq<char>> {
    let ps = split_on(s, '\n');
    let terminated = ps.drop_last().map_values(|p: Seq<char>| strip_cr(p));
    if ps.last().len() == 0 { terminated } else { terminated.push(ps.last()) }
}

/// A search hit as plain values: path, 1-based line number, line text.
pub type HitView = (Seq<char>, int, Seq<char>);

/// The plain values of a search result.
pub open spec fn hit_view(r: FileSearchResult) -> HitView {
    (r.path@, r.line_number as int, r.line_content@)
}

/// The lines of `lines` whose lower-cased text contains `query`, with their
/// 1-based numbers, in order.
pub open spec fn hits(path: Seq<char>, lines: Seq<Seq<char>>, query: Seq<char>) -> Seq<HitView>
    decreases lines.len(),
{
    if lines.len() == 0 {
        seq![]
    } else {
        let earlier = hits(path, lines.drop_last(), query);
        if contains(lowercase(lines.last()), query) {
            earlier.push((path, lines.len() as int, lines.last()))
        } else {
            earlier
        }
    }
}

/// Whether a file name matches a search pattern: `*` matches everything,
/// `*.ext` matches names ending in `.ext`, any other pattern matches names
/// that contain it.
pub open spec fn pattern_matches(name: Seq<char>, pattern: Seq<char>) -> bool {
    if pattern == seq!['*'] {
        true
    } else if starts_with(pattern, seq!['*', '.']) {
        ends_with(name, seq!['.'] + pattern.skip(2))
    } else {
        contains(name, pattern)
    }
}

/// Whether the file name `name` matches the search pattern `pattern`.
pub fn file_pattern_matches(name: &str, pattern: &str) -> (res: bool)
    ensures
        res == pattern_matches(name@, pattern@),
{
    let n = str_chars(name);
    let p = str_chars(pattern);
    if p.len() == 1 && p[0] == '*' {
        assert(p@ =~= seq!['*']);
        return true;
    }
    assert(p@ != seq!['*']);
    let star_dot = vec!['*', '.'];
    assert(star_dot@ =~= seq!['*', '.']);
    if starts_with_chars(p.as_slice(), star_dot.as_slice()) {
        let mut suffix: Vec<char> = vec!['.'];
        let mut k: usize = 2;
        while k < p.len()
            invariant
                2 <= k <= p@.len(),
                suffix@ == seq!['.'] + p@.subrange(2, k as int),
            decreases p@.len() - k,
        {
            assert(p@.subrange(2, k + 1) =~= p@.subrange(2, k as int).push(p@[k as int]));
            suffix.push(p[k]);
            k = k + 1;
        }
        assert(p@.subrange(2, p@.len() as int) =~= p@.skip(2));
        ends_with_chars(n.as_slice(), suffix.as_slice())
    } else {
        contains_chars(n.as_slice(), p.as_slice())
    }
}

/// The pattern `*` selects every file name.
pub proof fn lemma_star_selects_all(name: Seq<char>)
    ensures
        pattern_matches(name, seq!['*']),
{
}

/// A pattern `*.` followed by an extension selects exactly the names that
/// end with a dot followed by that extension (so `*.js` selects `app.js`
/// but not `config.cjs`).
pub proof fn lemma_extension_pattern(name: Seq<char>, ext: Seq<char>)
    ensures
        pattern_matches(name, seq!['*', '.'] + ext) <==> (
            name.len() >= ext.len() + 1
            && name[name.len() - ext.len() - 1] == '.'
            && forall|i: int| 0 <= i < ext.len() ==> #[trigger] name[name.len() - ext.len() + i] == ext[i]),
{
    let p = seq!['*', '.'] + ext;
    let d = seq!['.'] + ext;
    assert(p != seq!['*']) by {
        assert(p.len() != 1);
    }
    assert(p.subrange(0, 2) =~= seq!['*', '.']);
    assert(p.skip(2) =~= ext);
    assert(pattern_matches(name, p) == ends_with(name, d));
    let m = name.len() - ext.len() - 1;
    if name.len() >= ext.len() + 1 {
        let tail = name.subrange(m, name.len() as int);
        if tail == d {
            assert(name[m] == tail[0]);
            assert forall|i: int| 0 <= i < ext.len() implies #[trigger] name[name.len() - ext.len() + i] == ext[i] by {
                assert(tail[i + 1] == d[i + 1]);
            }
        }
        if name[m] == '.' && forall|i: int| 0 <= i < ext.len() ==> #[trigger] name[name.len() - ext.len() + i] == ext[i] {
            assert(tail =~= d) by {
                assert forall|j: int| 0 <= j < d.len() implies tail[j] == d[j] by {
                    if j > 0 {
                        assert(name[name.len() - ext.len() + (j - 1)] == ext[j - 1]);
                    }
                }
            }
        }
    }
}

/// Any other pattern (neither `*` nor beginning with `*.`) selects the names
/// in which it appears as a run of consecutive characters.
pub proof fn lemma_substring_pattern(name: Seq<char>, pattern: Seq<char>)
    requires
        pattern != seq!['*'],
        !(pattern.len() >= 2 && pattern[0] == '*' && pattern[1] == '.'),
    ensures
        pattern_matches(name, pattern) <==> exists|i: int| 0 <= i && i + pattern.len() <= name.len()
            && #[trigger] name.subrange(i, i + pattern.len()) == pattern,
{
    if starts_with(pattern, seq!['*', '.']) {
        assert(pattern[0] == pattern.subrange(0, 2)[0]);
        assert(pattern[1] == pattern.subrange(0, 2)[1]);
    }
    assert(pattern_matches(name, pattern) == contains(name, pattern));
    if contains(name, pattern) {
        let i = choose|i: int| occurs_at(name, pattern, i);
        assert(name.subrange(i, i + pattern.len()) == pattern);
    }
    if exists|i: int| 0 <= i && i + pattern.len() <= name.len() && #[trigger] name.subrange(i, i + pattern.len()) == pattern {
        let i = choose|i: int| 0 <= i && i + pattern.len() <= name.len() && #[trigger] name.subrange(i, i + pattern.len()) == pattern;
        assert(occurs_at(name, pattern, i));
    }
}

/// `s` cut to its first `n` elements when longer.
pub open spec fn at_most<A>(s: Seq<A>, n: int) -> Seq<A> {
    if s.len() <= n { s } else { s.take(n) }
}

/// `s` cut to the limit `m`, when there is one.
pub open spec fn capped<A>(s: Seq<A>, m: Option<usize>) -> Seq<A> {
    match m {
        Some(k) => at_most(s, k as int),
        None => s,
    }
}

/// A file the search has scanned: its path, its name and its content.
pub type ScannedFile = (Seq<char>, Seq<char>, Seq<char>);

/// The lines of `files` that contain `query` once lower-cased, file after
/// file, each file's lines in order.
pub open spec fn all_hits(files: Seq<ScannedFile>, query: Seq<char>) -> Seq<HitView>
    decreases files.len(),
{
    if files.len() == 0 {
        seq![]
    } else {
        all_hits(files.drop_last(), query) + hits(files.last().0, text_lines(files.last().2), query)
    }
}

/// The state of a depth-first content search: directories still to read,
/// the lines found so far, the file pattern, the lower-cased query, the
/// optional result limit, the file `visit` last approved for scanning, and
/// the files scanned so far.
pub struct SearchWalk {
    stack: Vec<String>,
    results: Vec<FileSearchResult>,
    pattern: String,
    query: Vec<char>,
    max_results: Option<usize>,
    approved: Ghost<Option<(Seq<char>, Seq<char>)>>,
    scanned: Ghost<Seq<ScannedFile>>,
}

impl SearchWalk {
    /// Directories still to read; the last one is read next.
    pub closed spec fn pending(&self) -> Seq<Seq<char>> {
        self.stack@.map_values(|d: String| d@)
    }

    /// The lines found so far.
    pub closed spec fn found(&self) -> Seq<HitView> {
        self.results@.map_values(|r: FileSearchResult| hit_view(r))
    }

    /// The file-name pattern.
    pub closed spec fn pattern_text(&self) -> Seq<char> {
        self.pattern@
    }

    /// The lower-cased query.
    pub closed spec fn query_text(&self) -> Seq<char> {
        self.query@
    }

    /// The result limit; none means unlimited.
    pub closed spec fn limit(&self) -> Option<usize> {
        self.max_results
    }

    /// The file (path, name) that `visit` last approved for scanning.
    pub closed spec fn approved(&self) -> Option<(Seq<char>, Seq<char>)> {
        self.approved@
    }

    /// The name of the approved file (empty when none is).
    pub open spec fn approved_name(&self) -> Seq<char> {
        match self.approved() {
            Some(a) => a.1,
            None => Seq::<char>::empty(),
        }
    }

    /// The files scanned so far, in order.
    pub closed spec fn scanned(&self) -> Seq<ScannedFile> {
        self.scanned@
    }

    /// The walk has found, up to the limit, exactly the matching lines of the
    /// files it scanned, and every scanned or approved file's name matches the
    /// pattern.
    pub open spec fn wf(&self) -> bool {
        &&& self.found() == capped(all_hits(self.scanned(), self.query_text()), self.limit())
        &&& forall|k: int| 0 <= k < self.scanned().len() ==> pattern_matches(#[trigger] self.scanned()[k].1, self.pattern_text())
        &&& (self.approved() matches Some(a) ==> pattern_matches(a.1, self.pattern_text()))
    }

    /// Whether the walk has found as many lines as its limit allows.
    pub open spec fn full(&self) -> bool {
        self.limit() matches Some(k) && self.found().len() >= k
    }

    /// A walk that starts at `root` with the request's pattern (default `*`),
    /// its limit (none: unlimited) and its lower-cased query.
    pub fn new(root: String, request: &FileSearchRequest) -> (w: SearchWalk)
        ensures
            w.wf(),
            w.pending() == seq![root@],
            w.found().len() == 0,
            w.scanned().len() == 0,
            w.approved() is None,
            w.pattern_text() == (match request.file_pattern {
                Some(p) => p@,
                None => seq!['*'],
            }),
            w.limit() == request.max_results,
            w.query_text() == lowercase(request.query@),
    {
        let pattern = match &request.file_pattern {
            Some(p) => p.clone(),
            None => chars_to_string(&['*']),
        };
        let q = str_chars(request.query.as_str());
        let query = lowercase_chars(q.as_slice());
        let mut stack: Vec<String> = Vec::new();
        stack.push(root);
        let w = SearchWalk {
            stack,
            results: Vec::new(),
            pattern,
            query,
            max_results: request.max_results,
            approved: Ghost(None),
            scanned: Ghost(Seq::empty()),
        };
        assert(w.pending() =~= seq![root@]);
        assert(w.found() =~= Seq::<HitView>::empty());
        assert(all_hits(w.scanned(), w.query_text()) =~= Seq::<HitView>::empty());
        w
    }

    /// Whether the walk has found as many lines as its limit allows; a full
    /// walk scans no more.
    pub fn is_full(&self) -> (res: bool)
        ensures
            res == self.full(),
    {
        match self.max_results {
            Some(k) => self.results.len() >= k,
            None => false,
        }
    }

    /// The next directory to read (the most recently discovered one).
    pub fn next_dir(&mut self) -> (res: Option<String>)
        ensures
            final(self).found() == old(self).found(),
            final(self).pattern_text() == old(self).pattern_text(),
            final(self).query_text() == old(self).query_text(),
            final(self).limit() == old(self).limit(),
            final(self).scanned() == old(self).scanned(),
            final(self).approved() == old(self).approved(),
            old(self).pending().len() == 0 ==> res is None && final(self).pending() == old(self).pending(),
            old(self).pending().len() > 0 ==> (res matches Some(d) && d@ == old(self).pending().last()
                && final(self).pending() == old(self).pending().drop_last()),
    {
        let r = self.stack.pop();
        assert(self.pending() =~= old(self).pending().drop_last() || old(self).pending().len() == 0);
        r
    }

    /// Records a directory entry: a directory is queued for reading (and
    /// `false` returned); for a file, whether its name matches the pattern,
    /// that is, whether its content is to be scanned, in which case the file
    /// becomes the approved one.
    pub fn visit(&mut self, path: String, name: &str, is_dir: bool) -> (res: bool)
        ensures
            final(self).found() == old(self).found(),
            final(self).pattern_text() == old(self).pattern_text(),
            final(self).query_text() == old(self).query_text(),
            final(self).limit() == old(self).limit(),
            final(self).scanned() == old(self).scanned(),
            is_dir ==> !res && final(self).pending() == old(self).pending().push(path@),
            !is_dir ==> res == pattern_matches(name@, old(self).pattern_text())
                && final(self).pending() == old(self).pending(),
            final(self).approved() == (if res { Some((path@, name@)) } else { None::<(Seq<char>, Seq<char>)> }),
            old(self).wf() ==> final(self).wf(),
    {
        if is_dir {
            self.approved = Ghost(None);
            self.stack.push(path);
            assert(self.pending() =~= old(self).pending().push(path@));
            false
        } else {
            let ok = file_pattern_matches(name, self.pattern.as_str());
            if ok {
                self.approved = Ghost(Some((path@, name@)));
            } else {
                self.approved = Ghost(None);
            }
            ok
        }
    }

    fn consider(&mut self, path: &str, line: &Vec<char>, number: usize, Ghost(base): Ghost<Seq<HitView>>)
        requires
            old(self).found() == capped(base, old(self).limit()),
        ensures
            final(self).pending() == old(self).pending(),
            final(self).pattern_text() == old(self).pattern_text(),
            final(self).query_text() == old(self).query_text(),
            final(self).limit() == old(self).limit(),
            final(self).approved() == old(self).approved(),
            final(self).scanned() == old(self).scanned(),
            final(self).found() == capped(
                if contains(lowercase(line@), old(self).query_text()) {
                    base.push((path@, number as int, line@))
                } else {
                    base
                },
                old(self).limit(),
            ),
    {
        let low = lowercase_chars(line.as_slice());
        if contains_chars(low.as_slice(), self.query.as_slice()) {
            let ghost nb = base.push((path@, number as int, line@));
            let room = match self.max_results {
                Some(k) => self.results.len() < k,
                None => true,
            };
            assert(old(self).found().len() == old(self).results@.len());
            if room {
                let r = FileSearchResult {
                    path: owned(path),
                    line_number: number,
                    line_content: chars_to_string(line.as_slice()),
                };
                self.results.push(r);
                assert(self.found() =~= old(self).found().push((path@, number as int, line@)));
                assert(self.found() =~= capped(nb, self.limit()));
            } else {
                assert(capped(nb, self.limit()) =~= capped(base, self.limit()));
            }
        }
    }

    /// Scans the content of the approved file, adding its matching lines
    /// (1-based numbers) up to the limit; returns whether the walk is now
    /// full. The file joins the scanned ones and is no longer approved.
    pub fn scan_file(&mut self, path: &str, content: &str) -> (full: bool)
        requires
            old(self).wf(),
            old(self).approved() matches Some(a) && a.0 == path@,
        ensures
            final(self).pending() == old(self).pending(),
            final(self).pattern_text() == old(self).pattern_text(),
            final(self).query_text() == old(self).query_text(),
            final(self).limit() == old(self).limit(),
            final(self).approved() is None,
            final(self).scanned() == old(self).scanned().push((path@, old(self).approved_name(), content@)),
            final(self).found() == capped(
                old(self).found() + hits(path@, text_lines(content@), old(self).query_text()),
                old(self).limit(),
            ),
            final(self).wf(),
            full == final(self).full(),
    {
        let c = str_chars(content);
        let ghost old_found = self.found();
        let ghost q = self.query_text();
        let ghost m = self.limit();
        let ghost p = path@;
        proof {
            lemma_capped_idempotent(old_found, m, all_hits(old(self).scanned(), q));
        }
        let mut cur: Vec<char> = Vec::new();
        let ghost mut done: Seq<Seq<char>> = seq![];
        let mut line_no: usize = 0;
        let mut i: usize = 0;
        assert(c@.take(0) =~= Seq::<char>::empty());
        assert(done.map_values(|x: Seq<char>| strip_cr(x)) =~= Seq::<Seq<char>>::empty());
        assert(old_found + hits(p, done.map_values(|x: Seq<char>| strip_cr(x)), q) =~= old_found);
        while i < c.len()
            invariant
                p == path@,
                old_found == old(self).found(),
                q == old(self).query_text(),
                m == old(self).limit(),
                i <= c@.len(),
                line_no as int == done.len(),
                line_no + cur@.len() <= i,
                split_on(c@.take(i as int), '\n') == done.push(cur@),
                self.found() == capped(old_found + hits(p, done.map_values(|x: Seq<char>| strip_cr(x)), q), m),
                self.pending() == old(self).pending(),
                self.pattern_text() == old(self).pattern_text(),
                self.query_text() == q,
                self.limit() == m,
                self.approved() == old(self).approved(),
                self.scanned() == old(self).scanned(),
            decreases c@.len() - i,
        {
            let ch = c[i];
            assert(c@.take(i + 1).drop_last() =~= c@.take(i as int));
            assert(c@.take(i + 1).last() == ch);
            if ch == '\n' {
                let mut line = cur;
                cur = Vec::new();
                let ghost raw = line@;
                if line.len() > 0 && line[line.len() - 1] == '\r' {
                    line.pop();
                }
                assert(line@ =~= strip_cr(raw));
                let ghost ls = done.map_values(|x: Seq<char>| strip_cr(x));
                let ghost base = old_found + hits(p, ls, q);
                let number: usize = line_no + 1;
                self.consider(path, &line, number, Ghost(base));
                proof {
                    let nd = done.push(raw);
                    let nls = nd.map_values(|x: Seq<char>| strip_cr(x));
                    assert(nls =~= ls.push(line@));
                    assert(nls.drop_last() =~= ls);
                    assert(nls.len() == line_no + 1);
                    assert(hits(p, nls, q) == (if contains(lowercase(nls.last()), q) {
                        hits(p, nls.drop_last(), q).push((p, nls.len() as int, nls.last()))
                    } else {
                        hits(p, nls.drop_last(), q)
                    }));
                    if contains(lowercase(line@), q) {
                        assert(base.push((path@, number as int, line@)) =~= old_found + hits(p, nls, q));
                    } else {
                        assert(base =~= old_found + hits(p, nls, q));
                    }
                    assert(self.found() == capped(old_found + hits(p, nls, q), m));
                    done = nd;
                }
                line_no = line_no + 1;
            } else {
                cur.push(ch);
                proof {
                    let sp = split_on(c@.take(i as int), '\n');
                    assert(sp.update(sp.len() - 1, sp.last().push(ch)) =~= done.push(cur@));
                }
            }
            i = i + 1;
        }
        assert(c@.take(c@.len() as int) =~= c@);
        let ghost ls = done.map_values(|x: Seq<char>| strip_cr(x));
        assert(done.push(cur@).drop_last() =~= done);
        if cur.len() > 0 {
            let ghost base = old_found + hits(p, ls, q);
            let number: usize = line_no + 1;
            self.consider(path, &cur, number, Ghost(base));
            proof {
                let nls = ls.push(cur@);
                assert(text_lines(content@) == nls);
                assert(nls.drop_last() =~= ls);
                if contains(lowercase(cur@), q) {
                    assert(base.push((p, number as int, cur@)) =~= old_found + hits(p, nls, q));
                } else {
                    assert(base =~= old_found + hits(p, nls, q));
                }
            }
        } else {
            assert(text_lines(content@) == ls);
        }
        let ghost name = old(self).approved_name();
        let ghost new_scanned = old(self).scanned().push((path@, name, content@));
        self.approved = Ghost(None);
        self.scanned = Ghost(new_scanned);
        proof {
            let h = hits(path@, text_lines(content@), q);
            assert(new_scanned.drop_last() =~= old(self).scanned());
            assert(all_hits(new_scanned, q) == all_hits(old(self).scanned(), q) + h);
            lemma_capped_concat(all_hits(old(self).scanned(), q), h, m);
            assert forall|k: int| 0 <= k < new_scanned.len() implies pattern_matches(#[trigger] new_scanned[k].1, self.pattern_text()) by {
                if k < old(self).scanned().len() {
                    assert(new_scanned[k] == old(self).scanned()[k]);
                }
            }
        }
        assert(self.found().len() == self.results@.len());
        match self.max_results {
            Some(k) => self.results.len() >= k,
            None => false,
        }
    }

    /// The lines found, in the order they were found.
    pub fn into_results(self) -> (res: Vec<FileSearchResult>)
        ensures
            res@.map_values(|r: FileSearchResult| hit_view(r)) == self.found(),
    {
        self.results
    }
}

/// Every hit of a scan is a line of the file, numbered from 1, whose
/// lower-cased text contains the query; the hits come in line order; and
/// every such line is a hit.
pub proof fn lemma_hits_are_matching_lines(path: Seq<char>, lines: Seq<Seq<char>>, query: Seq<char>)
    ensures
        forall|k: int| 0 <= k < hits(path, lines, query).len() ==> {
            let h = #[trigger] hits(path, lines, query)[k];
            &&& h.0 == path
            &&& 1 <= h.1 <= lines.len()
            &&& h.2 == lines[h.1 - 1]
            &&& contains(lowercase(h.2), query)
        },
        forall|k: int, l: int| 0 <= k < l < hits(path, lines, query).len() ==>
            hits(path, lines, query)[k].1 < hits(path, lines, query)[l].1,
        forall|n: int| 1 <= n <= lines.len() && contains(lowercase(#[trigger] lines[n - 1]), query) ==>
            exists|k: int| 0 <= k < hits(path, lines, query).len() && hits(path, lines, query)[k] == (path, n, lines[n - 1]),
    decreases lines.len(),
{
    if lines.len() > 0 {
        let d = lines.drop_last();
        lemma_hits_are_matching_lines(path, d, query);
        let e = hits(path, d, query);
        let all = hits(path, lines, query);
        assert forall|k: int| 0 <= k < e.len() implies #[trigger] e[k].2 == lines[e[k].1 - 1] by {
            assert(d[e[k].1 - 1] == lines[e[k].1 - 1]);
        }
        assert forall|n: int| 1 <= n <= lines.len() && contains(lowercase(#[trigger] lines[n - 1]), query) implies
            exists|k: int| 0 <= k < all.len() && all[k] == (path, n, lines[n - 1]) by {
            if n == lines.len() {
                assert(all[all.len() - 1] == (path, n, lines[n - 1]));
            } else {
                assert(d[n - 1] == lines[n - 1]);
                let k = choose|k: int| 0 <= k < e.len() && e[k] == (path, n, d[n - 1]);
                assert(all[k] == e[k]);
            }
        }
    }
}

/// `h` is line `h.1` (from 1) of scanned file `i`, with that file's path, and
/// contains the query once lower-cased.
pub open spec fn hit_from(files: Seq<ScannedFile>, i: int, h: HitView, query: Seq<char>) -> bool {
    &&& 0 <= i < files.len()
    &&& h.0 == files[i].0
    &&& 1 <= h.1 <= text_lines(files[i].2).len()
    &&& h.2 == text_lines(files[i].2)[h.1 - 1]
    &&& contains(lowercase(h.2), query)
}

/// `h` is a matching line of one of the scanned files.
pub open spec fn from_scanned_file(files: Seq<ScannedFile>, h: HitView, query: Seq<char>) -> bool {
    exists|i: int| #[trigger] hit_from(files, i, h, query)
}

/// What a search finds, up to its limit: every line of every scanned file
/// that contains the query once lower-cased, and only those, with the file's
/// path and the 1-based line number; when the scanned paths are distinct,
/// each such line once.
pub proof fn lemma_search_finds_matching_lines(files: Seq<ScannedFile>, query: Seq<char>)
    ensures
        forall|k: int| 0 <= k < all_hits(files, query).len() ==> #[trigger] from_scanned_file(files, all_hits(files, query)[k], query),
        forall|i: int, n: int| 0 <= i < files.len() && 1 <= n <= text_lines(files[i].2).len()
            && contains(lowercase(#[trigger] text_lines(files[i].2)[n - 1]), query) ==>
            exists|k: int| 0 <= k < all_hits(files, query).len()
                && all_hits(files, query)[k] == (files[i].0, n, text_lines(files[i].2)[n - 1]),
        (forall|i: int, j: int| 0 <= i < j < files.len() ==> #[trigger] files[i].0 != #[trigger] files[j].0) ==>
            forall|k: int, l: int| 0 <= k < l < all_hits(files, query).len() ==>
                all_hits(files, query)[k] != all_hits(files, query)[l],
    decreases files.len(),
{
    if files.len() > 0 {
        let d = files.drop_last();
        let f = files.last();
        let lines = text_lines(f.2);
        lemma_search_finds_matching_lines(d, query);
        lemma_hits_are_matching_lines(f.0, lines, query);
        let a = all_hits(d, query);
        let h = hits(f.0, lines, query);
        let all = all_hits(files, query);
        assert(all == a + h);
        assert forall|k: int| 0 <= k < all.len() implies #[trigger] from_scanned_file(files, all[k], query) by {
            if k < a.len() {
                assert(all[k] == a[k]);
                assert(from_scanned_file(d, a[k], query));
                let i = choose|i: int| hit_from(d, i, a[k], query);
                assert(d[i] == files[i]);
                assert(hit_from(files, i, all[k], query));
            } else {
                assert(all[k] == h[k - a.len()]);
                assert(files[files.len() - 1] == f);
                assert(hit_from(files, files.len() - 1, all[k], query));
            }
        }
        assert forall|i: int, n: int| 0 <= i < files.len() && 1 <= n <= text_lines(files[i].2).len()
            && contains(lowercase(#[trigger] text_lines(files[i].2)[n - 1]), query) implies
            exists|k: int| 0 <= k < all.len() && all[k] == (files[i].0, n, text_lines(files[i].2)[n - 1]) by {
            if i < d.len() {
                assert(d[i] == files[i]);
                let k = choose|k: int| 0 <= k < a.len() && a[k] == (d[i].0, n, text_lines(d[i].2)[n - 1]);
                assert(all[k] == a[k]);
            } else {
                assert(files[i] == f);
                assert(contains(lowercase(lines[n - 1]), query));
                let k = choose|k: int| 0 <= k < h.len() && h[k] == (f.0, n, lines[n - 1]);
                assert(all[k + a.len()] == h[k]);
            }
        }
        if forall|i: int, j: int| 0 <= i < j < files.len() ==> #[trigger] files[i].0 != #[trigger] files[j].0 {
            assert forall|i: int, j: int| 0 <= i < j < d.len() implies #[trigger] d[i].0 != #[trigger] d[j].0 by {
                assert(d[i] == files[i] && d[j] == files[j]);
            }
            assert forall|k: int, l: int| 0 <= k < l < all.len() implies all[k] != all[l] by {
                if l < a.len() {
                    assert(all[k] == a[k] && all[l] == a[l]);
                } else if k >= a.len() {
                    assert(all[k] == h[k - a.len()] && all[l] == h[l - a.len()]);
                } else {
                    assert(all[k] == a[k]);
                    assert(all[l] == h[l - a.len()]);
                    assert(from_scanned_file(d, a[k], query));
                    let i = choose|i: int| hit_from(d, i, a[k], query);
                    assert(files[i] == d[i]);
                    assert(files[files.len() - 1] == f);
                    assert(files[i].0 != files[files.len() - 1].0);
                }
            }
        }
    }
}

/// A sequence already cut to a limit is its own cut.
proof fn lemma_capped_idempotent(found: Seq<HitView>, m: Option<usize>, all: Seq<HitView>)
    requires
        found == capped(all, m),
    ensures
        capped(found, m) == found,
{
    if let Some(k) = m {
        if all.len() > k {
            assert(all.take(k as int).len() == k);
        }
    }
}

/// Cutting a cut sequence extended by more elements is cutting the whole.
proof fn lemma_capped_concat(a: Seq<HitView>, b: Seq<HitView>, m: Option<usize>)
    ensures
        capped(capped(a, m) + b, m) == capped(a + b, m),
{
    if let Some(k) = m {
        if a.len() > k {
            assert((a.take(k as int) + b).take(k as int) =~= (a + b).take(k as int));
        } else if a.len() + b.len() > k {
            assert((a + b).take(k as int) =~= (a + b).take(k as int));
        }
    }
}

} // verus!
