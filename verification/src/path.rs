//! Lexical Unix path handling: splitting a path into components, resolving
//! `.` and `..` without touching the filesystem, rendering components back
//! into a path, and component-wise prefix tests.
//!
//! A normalized path is modelled as a sequence of components. The root
//! directory is the one-character component `"/"` (it can only stand first,
//! since no other component contains a separator); every other component is a
//! non-empty name that is neither `.` nor `..`.

use vstd::prelude::*;
use crate::text::{split_on, chars_to_string, matches_at, push_all, str_chars};

verus! {

/// The component texts of an executable component vector.
pub open spec fn comps_view(v: Seq<Vec<char>>) -> Seq<Seq<char>> {
    v.map_values(|c: Vec<char>| c@)
}

/// The component that stands for the root directory.
pub open spec fn root_comp() -> Seq<char> {
    seq!['/']
}

/// The `/`-separated pieces of `s`, empty pieces included
/// (`"/a//b"` gives `["", "a", "", "b"]`).
pub open spec fn pieces(s: Seq<char>) -> Seq<Seq<char>> {
    split_on(s, '/')
}

/// One step of normalization: empty pieces and `.` are dropped, `..` removes
/// the last component (the root included, as a plain pop does), any other
/// piece is appended.
pub open spec fn step(stack: Seq<Seq<char>>, piece: Seq<char>) -> Seq<Seq<char>> {
    if piece.len() == 0 || piece == seq!['.'] {
        stack
    } else if piece == seq!['.', '.'] {
        if stack.len() > 0 { stack.drop_last() } else { stack }
    } else {
        stack.push(piece)
    }
}

/// Normalization steps applied to `init` over `ps`, in order.
pub open spec fn fold_steps(init: Seq<Seq<char>>, ps: Seq<Seq<char>>) -> Seq<Seq<char>>
    decreases ps.len(),
{
    if ps.len() == 0 {
        init
    } else {
        step(fold_steps(init, ps.drop_last()), ps.last())
    }
}

/// A path is absolute when it starts with `/`.
pub open spec fn is_absolute(s: Seq<char>) -> bool {
    s.len() > 0 && s[0] == '/'
}

/// The components of `s` with `.` and `..` resolved lexically.
pub open spec fn normalize(s: Seq<char>) -> Seq<Seq<char>> {
    fold_steps(if is_absolute(s) { seq![root_comp()] } else { seq![] }, pieces(s))
}

/// `base` is a component-wise prefix of `path`.
pub open spec fn comps_start_with(path: Seq<Seq<char>>, base: Seq<Seq<char>>) -> bool {
    base.len() <= path.len() && path.take(base.len() as int) == base
}

/// `names` joined by `/`.
pub open spec fn join_names(names: Seq<Seq<char>>) -> Seq<char>
    decreases names.len(),
{
    if names.len() == 0 {
        seq![]
    } else if names.len() == 1 {
        names[0]
    } else {
        join_names(names.drop_last()) + seq!['/'] + names.last()
    }
}

/// The path text of a component sequence: `/` then the names joined by `/`
/// for an absolute one, the names joined by `/` otherwise.
pub open spec fn render(comps: Seq<Seq<char>>) -> Seq<char> {
    if comps.len() > 0 && comps[0] == root_comp() {
        seq!['/'] + join_names(comps.skip(1))
    } else {
        join_names(comps)
    }
}

/// Every component of `comps` is well formed: the root only first, every
/// other component a non-empty name without `/` that is not `.` or `..`.
pub open spec fn well_formed(comps: Seq<Seq<char>>) -> bool {
    forall|i: int| 0 <= i < comps.len() ==> {
        ||| (i == 0 && #[trigger] comps[i] == root_comp())
        ||| (comps[i].len() > 0 && comps[i] != seq!['.'] && comps[i] != seq!['.', '.']
            && !comps[i].contains('/'))
    }
}

proof fn lemma_pieces_nonempty(s: Seq<char>)
    ensures
        pieces(s).len() > 0,
    decreases s.len(),
{
    if s.len() > 0 {
        lemma_pieces_nonempty(s.drop_last());
    }
}

proof fn lemma_pieces_no_sep(s: Seq<char>)
    ensures
        forall|k: int| 0 <= k < pieces(s).len() ==> !(#[trigger] pieces(s)[k]).contains('/'),
    decreases s.len(),
{
    if s.len() > 0 {
        lemma_pieces_no_sep(s.drop_last());
        lemma_pieces_nonempty(s.drop_last());
        let p = pieces(s.drop_last());
        if s.last() != '/' {
            assert forall|k: int| 0 <= k < pieces(s).len() implies !(#[trigger] pieces(s)[k]).contains('/') by {
                if k == p.len() - 1 {
                    let q = p.last().push(s.last());
                    assert(pieces(s)[k] == q);
                    if q.contains('/') {
                        let j = choose|j: int| 0 <= j < q.len() && q[j] == '/';
                        if j < q.len() - 1 {
                            assert(p.last()[j] == '/');
                        }
                    }
                } else {
                    assert(pieces(s)[k] == p[k]);
                }
            }
        }
    }
}

proof fn lemma_step_well_formed(stack: Seq<Seq<char>>, piece: Seq<char>)
    requires
        well_formed(stack),
        !piece.contains('/'),
    ensures
        well_formed(step(stack, piece)),
{
    let r = step(stack, piece);
    assert forall|i: int| 0 <= i < r.len() implies {
        ||| (i == 0 && #[trigger] r[i] == root_comp())
        ||| (r[i].len() > 0 && r[i] != seq!['.'] && r[i] != seq!['.', '.'] && !r[i].contains('/'))
    } by {
        if i < stack.len() {
            assert(r[i] == stack[i]);
        }
    }
}

proof fn lemma_fold_well_formed(init: Seq<Seq<char>>, ps: Seq<Seq<char>>)
    requires
        well_formed(init),
        forall|k: int| 0 <= k < ps.len() ==> !(#[trigger] ps[k]).contains('/'),
    ensures
        well_formed(fold_steps(init, ps)),
    decreases ps.len(),
{
    if ps.len() > 0 {
        assert forall|k: int| 0 <= k < ps.drop_last().len() implies !(#[trigger] ps.drop_last()[k]).contains('/') by {
            assert(ps.drop_last()[k] == ps[k]);
        }
        lemma_fold_well_formed(init, ps.drop_last());
        assert(!ps[ps.len() - 1].contains('/'));
        lemma_step_well_formed(fold_steps(init, ps.drop_last()), ps.last());
    }
}

/// Normalized components are always well formed.
pub proof fn lemma_normalize_well_formed(s: Seq<char>)
    ensures
        well_formed(normalize(s)),
{
    lemma_pieces_no_sep(s);
    let init: Seq<Seq<char>> = if is_absolute(s) { seq![root_comp()] } else { seq![] };
    assert(well_formed(init));
    lemma_fold_well_formed(init, pieces(s));
}

proof fn lemma_split_nonempty(s: Seq<char>, sep: char)
    ensures
        split_on(s, sep).len() > 0,
    decreases s.len(),
{
    if s.len() > 0 {
        lemma_split_nonempty(s.drop_last(), sep);
    }
}

/// Splitting around an explicit separator splits each side independently.
pub(crate) proof fn lemma_split_concat(a: Seq<char>, b: Seq<char>, sep: char)
    ensures
        split_on(a + seq![sep] + b, sep) == split_on(a, sep) + split_on(b, sep),
    decreases b.len(),
{
    let x = a + seq![sep] + b;
    if b.len() == 0 {
        assert(x.drop_last() =~= a);
        assert(split_on(x, sep) =~= split_on(a, sep) + split_on(b, sep));
    } else {
        let b1 = b.drop_last();
        assert(x.drop_last() =~= a + seq![sep] + b1);
        assert(x.last() == b.last());
        lemma_split_concat(a, b1, sep);
        lemma_split_nonempty(b1, sep);
        let pa = split_on(a, sep);
        let q = split_on(b1, sep);
        if b.last() == sep {
            assert(split_on(x, sep) =~= pa + split_on(b, sep));
        } else {
            let p = pa + q;
            assert(p.update(p.len() - 1, p.last().push(b.last())) =~= pa + q.update(
                q.len() - 1,
                q.last().push(b.last()),
            ));
        }
    }
}

/// A text without separators is a single piece.
proof fn lemma_split_single(s: Seq<char>, sep: char)
    requires
        !s.contains(sep),
    ensures
        split_on(s, sep) == seq![s],
    decreases s.len(),
{
    if s.len() > 0 {
        let s1 = s.drop_last();
        assert(!s1.contains(sep)) by {
            if s1.contains(sep) {
                let j = choose|j: int| 0 <= j < s1.len() && s1[j] == sep;
                assert(s[j] == sep);
            }
        }
        lemma_split_single(s1, sep);
        assert(s[s.len() - 1] != sep);
        assert(s1.push(s.last()) =~= s);
        assert(seq![s1].update(0, s1.push(s.last())) =~= seq![s]);
    } else {
        assert(s =~= Seq::<char>::empty());
    }
}

/// A component other than the root: non-empty, not `.` or `..`, no `/`.
pub open spec fn is_name(c: Seq<char>) -> bool {
    c.len() > 0 && c != seq!['.'] && c != seq!['.', '.'] && !c.contains('/')
}

proof fn lemma_join_prefix(names: Seq<Seq<char>>)
    requires
        names.len() > 0,
    ensures
        join_names(names).len() >= names[0].len(),
        forall|j: int| 0 <= j < names[0].len() ==> join_names(names)[j] == names[0][j],
    decreases names.len(),
{
    if names.len() > 1 {
        lemma_join_prefix(names.drop_last());
        assert(names.drop_last()[0] == names[0]);
    }
}

proof fn lemma_pieces_join(names: Seq<Seq<char>>)
    requires
        names.len() > 0,
        forall|k: int| 0 <= k < names.len() ==> is_name(#[trigger] names[k]),
    ensures
        pieces(join_names(names)) == names,
    decreases names.len(),
{
    if names.len() == 1 {
        assert(is_name(names[0]));
        lemma_split_single(names[0], '/');
        assert(seq![names[0]] =~= names);
    } else {
        let init = names.drop_last();
        assert forall|k: int| 0 <= k < init.len() implies is_name(#[trigger] init[k]) by {
            assert(init[k] == names[k]);
        }
        lemma_pieces_join(init);
        assert(is_name(names[names.len() - 1]));
        lemma_split_concat(join_names(init), names.last(), '/');
        lemma_split_single(names.last(), '/');
        assert(init + seq![names.last()] =~= names);
    }
}

pub(crate) proof fn lemma_fold_concat(init: Seq<Seq<char>>, a: Seq<Seq<char>>, b: Seq<Seq<char>>)
    ensures
        fold_steps(init, a + b) == fold_steps(fold_steps(init, a), b),
    decreases b.len(),
{
    if b.len() == 0 {
        assert(a + b =~= a);
    } else {
        assert((a + b).drop_last() =~= a + b.drop_last());
        lemma_fold_concat(init, a, b.drop_last());
    }
}

proof fn lemma_fold_names(init: Seq<Seq<char>>, names: Seq<Seq<char>>)
    requires
        forall|k: int| 0 <= k < names.len() ==> is_name(#[trigger] names[k]),
    ensures
        fold_steps(init, names) == init + names,
    decreases names.len(),
{
    if names.len() == 0 {
        assert(init + names =~= init);
    } else {
        let d = names.drop_last();
        assert forall|k: int| 0 <= k < d.len() implies is_name(#[trigger] d[k]) by {
            assert(d[k] == names[k]);
        }
        lemma_fold_names(init, d);
        assert(is_name(names[names.len() - 1]));
        assert((init + d).push(names.last()) =~= init + names);
    }
}

/// Rendering well-formed components and normalizing the text gives back the
/// same components: the text of a resolved path denotes that path.
pub proof fn lemma_normalize_render(c: Seq<Seq<char>>)
    requires
        well_formed(c),
    ensures
        normalize(render(c)) == c,
{
    if c.len() == 0 {
        assert(render(c) =~= Seq::<char>::empty());
        assert(pieces(Seq::<char>::empty()) == seq![Seq::<char>::empty()]);
        let ps = seq![Seq::<char>::empty()];
        let z = Seq::<Seq<char>>::empty();
        assert(ps.drop_last() =~= z);
        assert(fold_steps(z, z) == z);
        assert(fold_steps(z, ps) == step(z, Seq::<char>::empty()));
        assert(normalize(render(c)) == fold_steps(z, ps));
        assert(c =~= z);
    } else if c[0] == root_comp() {
        let rest = c.skip(1);
        assert forall|k: int| 0 <= k < rest.len() implies is_name(#[trigger] rest[k]) by {
            assert(rest[k] == c[k + 1]);
            assert(!(k + 1 == 0));
        }
        let text = seq!['/'] + join_names(rest);
        assert(render(c) == text);
        assert(is_absolute(text));
        let e = Seq::<char>::empty();
        assert(text =~= e + seq!['/'] + join_names(rest));
        lemma_split_concat(e, join_names(rest), '/');
        let first = seq![e];
        assert(pieces(e) == first);
        if rest.len() == 0 {
            assert(join_names(rest) =~= e);
            let ps = first + first;
            assert(pieces(text) == ps);
            assert(ps.drop_last() =~= first);
            assert(first.drop_last() =~= Seq::<Seq<char>>::empty());
            let r = seq![root_comp()];
            assert(fold_steps(r, Seq::<Seq<char>>::empty()) == r);
            assert(fold_steps(r, first) == step(r, e));
            assert(fold_steps(r, first) == r);
            assert(fold_steps(r, ps) == step(fold_steps(r, first), e));
            assert(fold_steps(seq![root_comp()], ps) == seq![root_comp()]);
            assert(c =~= seq![root_comp()]);
        } else {
            lemma_pieces_join(rest);
            assert(pieces(text) == first + rest);
            lemma_fold_concat(seq![root_comp()], first, rest);
            assert(first.drop_last() =~= Seq::<Seq<char>>::empty());
            let r = seq![root_comp()];
            assert(fold_steps(r, Seq::<Seq<char>>::empty()) == r);
            assert(fold_steps(r, first) == step(r, e));
            assert(fold_steps(seq![root_comp()], first) == seq![root_comp()]);
            lemma_fold_names(seq![root_comp()], rest);
            assert(seq![root_comp()] + rest =~= c);
        }
    } else {
        assert forall|k: int| 0 <= k < c.len() implies is_name(#[trigger] c[k]) by {
            if k == 0 {
                assert(c[0] != root_comp());
            }
        }
        assert(render(c) == join_names(c));
        lemma_join_prefix(c);
        assert(is_name(c[0]));
        assert(join_names(c)[0] == c[0][0]);
        assert(c[0][0] != '/');
        assert(!is_absolute(render(c)));
        lemma_pieces_join(c);
        lemma_fold_names(seq![], c);
        assert(Seq::<Seq<char>>::empty() + c =~= c);
    }
}

fn is_dot(p: &Vec<char>) -> (res: bool)
    ensures
        res == (p@ == seq!['.']),
{
    let r = p.len() == 1 && p[0] == '.';
    if r {
        assert(p@ =~= seq!['.']);
    }
    r
}

fn is_dot_dot(p: &Vec<char>) -> (res: bool)
    ensures
        res == (p@ == seq!['.', '.']),
{
    let r = p.len() == 2 && p[0] == '.' && p[1] == '.';
    if r {
        assert(p@ =~= seq!['.', '.']);
    }
    r
}

/// Applies one normalization step to an executable component stack.
fn apply_step(stack: &mut Vec<Vec<char>>, piece: Vec<char>)
    ensures
        comps_view(final(stack)@) == step(comps_view(old(stack)@), piece@),
{
    if piece.len() == 0 || is_dot(&piece) {
    } else if is_dot_dot(&piece) {
        if stack.len() > 0 {
            let _ = stack.pop();
            assert(comps_view(stack@) =~= comps_view(old(stack)@).drop_last());
        }
    } else {
        stack.push(piece);
        assert(comps_view(stack@) =~= comps_view(old(stack)@).push(piece@));
    }
}

/// Splits `path` into components and resolves `.` and `..` without requiring
/// the path to exist.
pub fn normalize_path(path: &str) -> (res: Vec<Vec<char>>)
    ensures
        comps_view(res@) == normalize(path@),
{
    let s = str_chars(path);
    let mut stack: Vec<Vec<char>> = Vec::new();
    if s.len() > 0 && s[0] == '/' {
        let r = vec!['/'];
        assert(r@ =~= root_comp());
        stack.push(r);
        assert(comps_view(stack@) =~= seq![root_comp()]);
    } else {
        assert(comps_view(stack@) =~= Seq::<Seq<char>>::empty());
    }
    let ghost init = comps_view(stack@);
    assert(init == (if is_absolute(s@) { seq![root_comp()] } else { Seq::<Seq<char>>::empty() }));
    let mut cur: Vec<char> = Vec::new();
    let ghost mut done: Seq<Seq<char>> = seq![];
    let mut i: usize = 0;
    assert(s@.take(0) =~= Seq::<char>::empty());
    while i < s.len()
        invariant
            i <= s@.len(),
            pieces(s@.take(i as int)) == done.push(cur@),
            comps_view(stack@) == fold_steps(init, done),
        decreases s@.len() - i,
    {
        let c = s[i];
        assert(s@.take(i + 1).drop_last() =~= s@.take(i as int));
        assert(s@.take(i + 1).last() == c);
        if c == '/' {
            let piece = cur;
            cur = Vec::new();
            proof {
                assert(fold_steps(init, done.push(piece@)).len() >= 0);
                assert(done.push(piece@).drop_last() =~= done);
            }
            apply_step(&mut stack, piece);
            proof {
                done = done.push(piece@);
            }
        } else {
            let ghost old_cur = cur@;
            cur.push(c);
            proof {
                let p = pieces(s@.take(i as int));
                assert(p.update(p.len() - 1, p.last().push(c)) =~= done.push(cur@));
            }
        }
        i = i + 1;
    }
    assert(s@.take(s@.len() as int) =~= s@);
    let ghost last = cur@;
    assert(done.push(last).drop_last() =~= done);
    apply_step(&mut stack, cur);
    stack
}

/// Whether the component sequence `base` is a prefix of `path`.
pub fn components_start_with(path: &Vec<Vec<char>>, base: &Vec<Vec<char>>) -> (res: bool)
    ensures
        res == comps_start_with(comps_view(path@), comps_view(base@)),
{
    if base.len() > path.len() {
        return false;
    }
    let mut i: usize = 0;
    while i < base.len()
        invariant
            base@.len() <= path@.len(),
            i <= base@.len(),
            forall|k: int| 0 <= k < i ==> comps_view(path@)[k] == comps_view(base@)[k],
        decreases base@.len() - i,
    {
        let a = &path[i];
        let b = &base[i];
        let same = a.len() == b.len() && matches_at(a.as_slice(), b.as_slice(), 0);
        proof {
            if a.len() == b.len() {
                assert(a@.subrange(0, b@.len() as int) =~= a@);
            }
        }
        if !same {
            assert(comps_view(path@).take(base@.len() as int)[i as int] != comps_view(base@)[i as int]);
            return false;
        }
        i = i + 1;
    }
    assert(comps_view(path@).take(base@.len() as int) =~= comps_view(base@));
    true
}

fn push_join(out: &mut Vec<char>, names: &Vec<Vec<char>>, from: usize)
    requires
        from <= names@.len(),
    ensures
        final(out)@ == old(out)@ + join_names(comps_view(names@).skip(from as int)),
{
    let ghost ns = comps_view(names@).skip(from as int);
    let mut i: usize = from;
    assert(comps_view(names@).skip(from as int).take(0) =~= Seq::<Seq<char>>::empty());
    while i < names.len()
        invariant
            from <= i <= names@.len(),
            ns == comps_view(names@).skip(from as int),
            out@ == old(out)@ + join_names(ns.take(i - from)),
        decreases names@.len() - i,
    {
        let ghost before = out@;
        if i > from {
            out.push('/');
        }
        push_all(out, names[i].as_slice());
        proof {
            let t = ns.take(i + 1 - from);
            assert(t.drop_last() =~= ns.take(i - from));
            assert(t.last() == comps_view(names@)[i as int]);
            if i > from {
                assert(out@ =~= old(out)@ + (join_names(t.drop_last()) + seq!['/'] + t.last()));
            } else {
                assert(t.len() == 1);
                assert(out@ =~= old(out)@ + t[0]);
            }
        }
        i = i + 1;
    }
    assert(ns.take(names@.len() - from) =~= ns);
}

/// Renders a component sequence back into path text.
pub fn render_components(comps: &Vec<Vec<char>>) -> (res: String)
    ensures
        res@ == render(comps_view(comps@)),
{
    let mut out: Vec<char> = Vec::new();
    let rooted = comps.len() > 0 && comps[0].len() == 1 && comps[0][0] == '/';
    proof {
        if comps@.len() > 0 {
            if comps_view(comps@)[0] == root_comp() {
                assert(comps@[0]@.len() == 1 && comps@[0]@[0] == '/');
            }
            if comps@[0]@.len() == 1 && comps@[0]@[0] == '/' {
                assert(comps_view(comps@)[0] =~= root_comp());
            }
        }
    }
    if rooted {
        out.push('/');
        push_join(&mut out, comps, 1);
    } else {
        push_join(&mut out, comps, 0);
        assert(comps_view(comps@).skip(0) =~= comps_view(comps@));
    }
    chars_to_string(out.as_slice())
}

/// `a` joined with `b` as `PathBuf::push` does it: an absolute `b` replaces
/// `a`; otherwise a separator is added unless `a` is empty or already ends
/// with one.
pub open spec fn path_join(a: Seq<char>, b: Seq<char>) -> Seq<char> {
    if is_absolute(b) || a.len() == 0 {
        b
    } else if a.last() == '/' {
        a + b
    } else {
        a + seq!['/'] + b
    }
}

/// Joins two paths as `PathBuf::push` does.
pub fn join_paths(a: &str, b: &str) -> (res: String)
    ensures
        res@ == path_join(a@, b@),
{
    let x = str_chars(a);
    let y = str_chars(b);
    if (y.len() > 0 && y[0] == '/') || x.len() == 0 {
        return crate::text::owned(b);
    }
    let mut v = x;
    if v[v.len() - 1] != '/' {
        v.push('/');
    }
    push_all(&mut v, y.as_slice());
    chars_to_string(v.as_slice())
}

/// The pieces of `ps` that are names or `..` (empty pieces and `.` dropped).
pub open spec fn kept_pieces(ps: Seq<Seq<char>>) -> Seq<Seq<char>>
    decreases ps.len(),
{
    if ps.len() == 0 {
        seq![]
    } else {
        let earlier = kept_pieces(ps.drop_last());
        if ps.last().len() == 0 || ps.last() == seq!['.'] { earlier } else { earlier.push(ps.last()) }
    }
}

/// The components of `s` as `Path::components` yields them, without
/// resolving `..`: the root for an absolute path, `.` for a relative path
/// whose first piece is `.`, then every piece other than empty ones and `.`.
pub open spec fn lexical(s: Seq<char>) -> Seq<Seq<char>> {
    let ps = pieces(s);
    let head: Seq<Seq<char>> = if is_absolute(s) {
        seq![root_comp()]
    } else if ps[0] == seq!['.'] {
        seq![seq!['.']]
    } else {
        seq![]
    };
    head + kept_pieces(ps)
}

/// The components of `path` without resolving `..` (`Path::components`).
pub fn lexical_components(path: &str) -> (res: Vec<Vec<char>>)
    ensures
        comps_view(res@) == lexical(path@),
{
    let s = str_chars(path);
    let mut kept: Vec<Vec<char>> = Vec::new();
    let mut cur: Vec<char> = Vec::new();
    let ghost mut done: Seq<Seq<char>> = seq![];
    let mut first_dot = false;
    let mut first_done = false;
    let mut i: usize = 0;
    assert(s@.take(0) =~= Seq::<char>::empty());
    assert(comps_view(kept@) =~= Seq::<Seq<char>>::empty());
    while i < s.len()
        invariant
            i <= s@.len(),
            pieces(s@.take(i as int)) == done.push(cur@),
            comps_view(kept@) == kept_pieces(done),
            first_done == (done.len() > 0),
            first_done ==> first_dot == (done[0] == seq!['.']),
        decreases s@.len() - i,
    {
        let c = s[i];
        assert(s@.take(i + 1).drop_last() =~= s@.take(i as int));
        assert(s@.take(i + 1).last() == c);
        if c == '/' {
            let piece = cur;
            cur = Vec::new();
            let ghost pv = piece@;
            if !first_done {
                first_dot = is_dot(&piece);
                first_done = true;
            }
            assert(done.push(pv).drop_last() =~= done);
            if !(piece.len() == 0 || is_dot(&piece)) {
                kept.push(piece);
                assert(comps_view(kept@) =~= kept_pieces(done).push(pv));
            }
            proof {
                if done.len() > 0 {
                    assert(done.push(pv)[0] == done[0]);
                }
                done = done.push(pv);
            }
        } else {
            cur.push(c);
            proof {
                let p = pieces(s@.take(i as int));
                assert(p.update(p.len() - 1, p.last().push(c)) =~= done.push(cur@));
            }
        }
        i = i + 1;
    }
    assert(s@.take(s@.len() as int) =~= s@);
    let ghost pv = cur@;
    let ghost all = done.push(pv);
    assert(all.drop_last() =~= done);
    if !first_done {
        first_dot = is_dot(&cur);
    }
    proof {
        if done.len() > 0 {
            assert(all[0] == done[0]);
        }
    }
    if !(cur.len() == 0 || is_dot(&cur)) {
        kept.push(cur);
        assert(comps_view(kept@) =~= kept_pieces(done).push(pv));
    }
    let mut res: Vec<Vec<char>> = Vec::new();
    if s.len() > 0 && s[0] == '/' {
        let r = vec!['/'];
        assert(r@ =~= root_comp());
        res.push(r);
    } else if first_dot {
        let d = vec!['.'];
        assert(d@ =~= seq!['.']);
        res.push(d);
    }
    let ghost head = res@;
    let ghost kv = kept@;
    res.append(&mut kept);
    assert(res@ =~= head + kv);
    assert(comps_view(res@) =~= comps_view(head) + comps_view(kv));
    res
}

/// `path` lies strictly below `base`, comparing components as `Path` does.
pub open spec fn strictly_below(path: Seq<char>, base: Seq<char>) -> bool {
    comps_start_with(lexical(path), lexical(base)) && lexical(path) != lexical(base)
}

/// Whether `path` lies strictly below `base` (`Path::starts_with` and `!=`).
pub fn is_strictly_below(path: &str, base: &str) -> (res: bool)
    ensures
        res == strictly_below(path@, base@),
{
    let p = lexical_components(path);
    let b = lexical_components(base);
    let prefix = components_start_with(&p, &b);
    if !prefix {
        return false;
    }
    // a prefix of equal length is the whole sequence
    let equal = p.len() == b.len();
    proof {
        if comps_view(p@).len() == comps_view(b@).len() {
            assert(comps_view(p@).take(comps_view(b@).len() as int) =~= comps_view(p@));
        }
    }
    !equal
}

/// Whether `path` starts with `base`, comparing components as `Path` does.
pub fn path_starts_with(path: &str, base: &str) -> (res: bool)
    ensures
        res == comps_start_with(lexical(path@), lexical(base@)),
{
    let p = lexical_components(path);
    let b = lexical_components(base);
    components_start_with(&p, &b)
}

/// `a` and `b` denote the same path, comparing components as `Path` does.
pub open spec fn same_path(a: Seq<char>, b: Seq<char>) -> bool {
    lexical(a) == lexical(b)
}

/// Whether `a` and `b` denote the same path (`Path` equality).
pub fn paths_equal(a: &str, b: &str) -> (res: bool)
    ensures
        res == same_path(a@, b@),
{
    let p = lexical_components(a);
    let q = lexical_components(b);
    if p.len() != q.len() {
        return false;
    }
    let r = components_start_with(&p, &q);
    proof {
        assert(comps_view(p@).take(comps_view(q@).len() as int) =~= comps_view(p@));
    }
    r
}

/// Joining a name to a path adds exactly that name to its components, so
/// the joined path lies strictly below the path.
pub proof fn lemma_lexical_join_name(x: Seq<char>, u: Seq<char>)
    requires
        is_name(u),
    ensures
        lexical(path_join(x, u)) == lexical(x).push(u),
        strictly_below(path_join(x, u), x),
{
    let e = Seq::<char>::empty();
    lemma_split_single(u, '/');
    assert(!is_absolute(u)) by {
        if is_absolute(u) {
            assert(u.contains('/'));
        }
    }
    if x.len() == 0 {
        assert(path_join(x, u) == u);
        assert(pieces(u) == seq![u]);
        assert(pieces(x) == seq![e]);
        assert(seq![u].drop_last() =~= Seq::<Seq<char>>::empty());
        assert(seq![e].drop_last() =~= Seq::<Seq<char>>::empty());
        assert(kept_pieces(seq![u]) == kept_pieces(Seq::<Seq<char>>::empty()).push(u));
        assert(kept_pieces(seq![e]) == kept_pieces(Seq::<Seq<char>>::empty()));
        assert(lexical(x) =~= Seq::<Seq<char>>::empty());
        assert(lexical(u) =~= seq![u]);
    } else {
        let xp = if x.last() == '/' { x.drop_last() } else { x };
        let j = xp + seq!['/'] + u;
        assert(path_join(x, u) == j) by {
            if x.last() == '/' {
                assert(xp + seq!['/'] =~= x);
                assert(x + u =~= j);
            }
        }
        lemma_split_concat(xp, u, '/');
        lemma_split_nonempty(xp, '/');
        let px = pieces(xp);
        assert(pieces(j) == px + seq![u]);
        assert((px + seq![u]).drop_last() =~= px);
        assert(kept_pieces(px + seq![u]) == kept_pieces(px).push(u));
        // the pieces of `x` keep the same names as those of `xp`
        if x.last() == '/' {
            lemma_split_concat(xp, e, '/');
            assert(xp + seq!['/'] + e =~= x);
            assert(pieces(x) == px + seq![e]);
            assert((px + seq![e]).drop_last() =~= px);
            assert(kept_pieces(pieces(x)) == kept_pieces(px));
            assert(pieces(x)[0] == px[0]);
        } else {
            assert(xp == x);
        }
        assert(pieces(j)[0] == px[0]);
        assert(j[0] == x[0]);
        assert(is_absolute(j) == is_absolute(x));
        let head: Seq<Seq<char>> = if is_absolute(x) {
            seq![root_comp()]
        } else if px[0] == seq!['.'] {
            seq![seq!['.']]
        } else {
            seq![]
        };
        assert(lexical(x) == head + kept_pieces(px));
        assert(lexical(j) == head + kept_pieces(px).push(u));
        assert(head + kept_pieces(px).push(u) =~= (head + kept_pieces(px)).push(u));
    }
    let lx = lexical(x);
    assert(lx.push(u).take(lx.len() as int) =~= lx);
    assert(lx.push(u).len() != lx.len());
}

} // verus!
