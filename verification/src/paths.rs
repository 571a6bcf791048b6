//! Paths as text: their components, and whether one path lies under another.
//!
//! A path is read by the separators of its platform: `/` on POSIX, `/` and
//! `\` on Windows. A leading separator is the root component; empty
//! segments and `.` segments count for nothing, except that a relative path
//! that starts with a `.` segment has `.` as its first component; `..` is a
//! component like any name, and so is a drive or server prefix, which is
//! compared letter for letter. Nothing is looked up on disk.

use crate::text::{same, to_chars};
use vstd::prelude::*;

verus! {

/// The kind of system whose paths and commands are meant.
#[derive(Clone, Copy, Debug, PartialEq, Eq, Structural)]
pub enum Platform {
    Posix,
    Windows,
}

/// `c` separates the segments of a path on `platform`.
pub open spec fn separates(platform: Platform, c: char) -> bool {
    c == '/' || (platform == Platform::Windows && c == '\\')
}

/// The path starts at the root.
pub open spec fn leads_with_root(platform: Platform, p: Seq<char>) -> bool {
    p.len() > 0 && separates(platform, p[0])
}

/// The path is relative and its first segment is `.`.
pub open spec fn leads_with_dot(platform: Platform, p: Seq<char>) -> bool {
    p.len() > 0 && p[0] == '.' && (p.len() == 1 || separates(platform, p[1]))
}

/// The component that the start of the path gives, if any. The root is
/// written `/` on either platform.
pub open spec fn leading_component(platform: Platform, p: Seq<char>) -> Seq<Seq<char>> {
    if leads_with_root(platform, p) {
        seq![seq!['/']]
    } else if leads_with_dot(platform, p) {
        seq![seq!['.']]
    } else {
        Seq::empty()
    }
}

/// A segment counts as a component: it is neither empty nor `.`.
pub open spec fn counts(segment: Seq<char>) -> bool {
    segment.len() > 0 && segment != seq!['.']
}

/// `done` with `segment` behind it where the segment counts.
pub open spec fn with_segment(done: Seq<Seq<char>>, segment: Seq<char>) -> Seq<Seq<char>> {
    if counts(segment) {
        done.push(segment)
    } else {
        done
    }
}

/// The characters of `p` behind its last separator.
pub open spec fn open_segment(platform: Platform, p: Seq<char>) -> Seq<char>
    decreases p.len(),
{
    if p.len() == 0 || separates(platform, p.last()) {
        Seq::empty()
    } else {
        open_segment(platform, p.drop_last()).push(p.last())
    }
}

/// The segments of `p` that a separator ends and that count, in order.
pub open spec fn closed_segments(platform: Platform, p: Seq<char>) -> Seq<Seq<char>>
    decreases p.len(),
{
    if p.len() == 0 {
        Seq::empty()
    } else if separates(platform, p.last()) {
        with_segment(
            closed_segments(platform, p.drop_last()),
            open_segment(platform, p.drop_last()),
        )
    } else {
        closed_segments(platform, p.drop_last())
    }
}

/// All segments of `p` that count, in order.
pub open spec fn named_components(platform: Platform, p: Seq<char>) -> Seq<Seq<char>> {
    with_segment(closed_segments(platform, p), open_segment(platform, p))
}

/// The components of `p`: the root as `/`, a leading `.` as `.`, then the
/// segments that count.
pub open spec fn components(platform: Platform, p: Seq<char>) -> Seq<Seq<char>> {
    leading_component(platform, p) + named_components(platform, p)
}

/// `dir` is `root` or lies under it: the components of `root` begin those of `dir`.
pub open spec fn path_within(platform: Platform, dir: Seq<char>, root: Seq<char>) -> bool {
    components(platform, root).is_prefix_of(components(platform, dir))
}

/// The character sequences that a vector of character vectors holds.
pub open spec fn views(v: Seq<Vec<char>>) -> Seq<Seq<char>> {
    Seq::new(v.len(), |i: int| v[i]@)
}

fn segment_counts(segment: &Vec<char>) -> (b: bool)
    ensures
        b == counts(segment@),
{
    if segment.len() == 0 {
        return false;
    }
    if segment.len() == 1 && segment[0] == '.' {
        assert(segment@ =~= seq!['.']);
        return false;
    }
    proof {
        if segment@.len() == 1 {
            assert(segment@[0] != seq!['.'][0]);
        }
    }
    true
}

/// Decides `separates`.
pub fn is_separator(platform: Platform, c: char) -> (b: bool)
    ensures
        b == separates(platform, c),
{
    match platform {
        Platform::Posix => c == '/',
        Platform::Windows => c == '/' || c == '\\',
    }
}

/// The components of `path` on `platform`.
pub fn split_components(path: &[char], platform: Platform) -> (out: Vec<Vec<char>>)
    ensures
        views(out@) == components(platform, path@),
{
    let n = path.len();
    let mut out: Vec<Vec<char>> = Vec::new();
    if n > 0 && is_separator(platform, path[0]) {
        let mut root: Vec<char> = Vec::new();
        root.push('/');
        assert(root@ =~= seq!['/']);
        out.push(root);
    } else if n > 0 && path[0] == '.' && (n == 1 || is_separator(platform, path[1])) {
        let mut dot: Vec<char> = Vec::new();
        dot.push('.');
        assert(dot@ =~= seq!['.']);
        out.push(dot);
    }
    assert(views(out@) =~= leading_component(platform, path@));
    let mut current: Vec<char> = Vec::new();
    let mut i: usize = 0;
    proof {
        assert(path@.take(0) =~= Seq::<char>::empty());
        assert(views(out@) =~= leading_component(platform, path@) + closed_segments(platform, path@.take(0)));
    }
    while i < n
        invariant
            n == path.len(),
            i <= n,
            views(out@) == leading_component(platform, path@) + closed_segments(platform, path@.take(i as int)),
            current@ == open_segment(platform, path@.take(i as int)),
        decreases n - i,
    {
        let c = path[i];
        proof {
            let next = path@.take(i + 1);
            assert(next.drop_last() =~= path@.take(i as int));
            assert(next.last() == c);
        }
        if is_separator(platform, c) {
            if segment_counts(&current) {
                let ghost before = out@;
                out.push(current);
                proof {
                    assert(views(out@) =~= views(before).push(current@));
                    assert(views(out@) =~= leading_component(platform, path@) + closed_segments(
                        platform,
                        path@.take(i + 1),
                    ));
                }
            }
            current = Vec::new();
        } else {
            current.push(c);
        }
        i += 1;
    }
    proof {
        assert(path@.take(n as int) =~= path@);
    }
    if segment_counts(&current) {
        let ghost before = out@;
        out.push(current);
        proof {
            assert(views(out@) =~= views(before).push(current@));
            assert(views(out@) =~= components(platform, path@));
        }
    } else {
        proof {
            assert(views(out@) =~= components(platform, path@));
        }
    }
    out
}

fn begins(whole: &Vec<Vec<char>>, start: &Vec<Vec<char>>) -> (b: bool)
    ensures
        b == views(start@).is_prefix_of(views(whole@)),
{
    if start.len() > whole.len() {
        return false;
    }
    let mut i: usize = 0;
    while i < start.len()
        invariant
            i <= start.len() <= whole.len(),
            forall|j: int| 0 <= j < i ==> start@[j]@ == whole@[j]@,
        decreases start.len() - i,
    {
        if !same(start[i].as_slice(), whole[i].as_slice()) {
            proof {
                let cut = views(whole@).subrange(0, start@.len() as int);
                assert(cut[i as int] == whole@[i as int]@);
                assert(views(start@)[i as int] == start@[i as int]@);
            }
            return false;
        }
        i += 1;
    }
    proof {
        assert(views(start@) =~= views(whole@).subrange(0, start@.len() as int));
    }
    true
}

/// Decides `path_within` on the text of two paths of `platform`.
pub fn is_within(dir: &str, root: &str, platform: Platform) -> (b: bool)
    ensures
        b == path_within(platform, dir@, root@),
{
    let dir_chars = to_chars(dir);
    let root_chars = to_chars(root);
    let dir_parts = split_components(dir_chars.as_slice(), platform);
    let root_parts = split_components(root_chars.as_slice(), platform);
    begins(&dir_parts, &root_parts)
}

proof fn lemma_closed_segments_grow(platform: Platform, p: Seq<char>, more: Seq<char>)
    ensures
        closed_segments(platform, p).is_prefix_of(closed_segments(platform, p + more)),
    decreases more.len(),
{
    if more.len() == 0 {
        assert(p + more =~= p);
    } else {
        let shorter = more.drop_last();
        lemma_closed_segments_grow(platform, p, shorter);
        assert((p + more).drop_last() =~= p + shorter);
        assert((p + more).last() == more.last());
    }
}

/// Every path lies within itself.
pub proof fn law_path_within_itself(platform: Platform, p: Seq<char>)
    ensures
        path_within(platform, p, p),
{
    let parts = components(platform, p);
    assert(parts.subrange(0, parts.len() as int) =~= parts);
}

/// A path made of `root`, a separator of the platform and anything behind
/// it lies within `root`.
pub proof fn law_nested_path_within(
    platform: Platform,
    root: Seq<char>,
    separator: char,
    rest: Seq<char>,
)
    requires
        separates(platform, separator),
    ensures
        path_within(platform, root + seq![separator] + rest, root),
{
    let closed = root + seq![separator];
    let dir = closed + rest;
    assert(closed.drop_last() =~= root);
    assert(closed.last() == separator);
    assert(closed_segments(platform, closed) == named_components(platform, root));
    lemma_closed_segments_grow(platform, closed, rest);
    let inner = named_components(platform, root);
    let outer = named_components(platform, dir);
    assert(inner.is_prefix_of(closed_segments(platform, dir)));
    assert(inner.is_prefix_of(outer)) by {
        assert(inner =~= outer.subrange(0, inner.len() as int));
    }
    if root.len() == 0 {
        assert(components(platform, root) =~= Seq::<Seq<char>>::empty());
        assert(components(platform, root) =~= components(platform, dir).subrange(0, 0));
    } else {
        assert(dir[0] == root[0]);
        if root.len() >= 2 {
            assert(dir[1] == root[1]);
        } else {
            assert(dir[1] == separator);
        }
        assert(leading_component(platform, dir) == leading_component(platform, root));
        assert(components(platform, root) =~= components(platform, dir).subrange(
            0,
            components(platform, root).len() as int,
        ));
    }
}

/// Lying within is transitive.
pub proof fn law_path_within_chains(platform: Platform, a: Seq<char>, b: Seq<char>, c: Seq<char>)
    requires
        path_within(platform, a, b),
        path_within(platform, b, c),
    ensures
        path_within(platform, a, c),
{
    let ca = components(platform, a);
    let cc = components(platform, c);
    assert(cc =~= ca.subrange(0, cc.len() as int));
}

/// What lies within on POSIX lies within on Windows too where neither path
/// holds a backslash: there the two platforms read a path alike.
pub proof fn law_platforms_agree_without_backslash(dir: Seq<char>, root: Seq<char>)
    requires
        !dir.contains('\\'),
        !root.contains('\\'),
    ensures
        path_within(Platform::Windows, dir, root) == path_within(Platform::Posix, dir, root),
{
    lemma_same_components_without_backslash(dir);
    lemma_same_components_without_backslash(root);
}

proof fn lemma_same_segments_without_backslash(p: Seq<char>)
    requires
        !p.contains('\\'),
    ensures
        open_segment(Platform::Windows, p) == open_segment(Platform::Posix, p),
        closed_segments(Platform::Windows, p) == closed_segments(Platform::Posix, p),
    decreases p.len(),
{
    if p.len() > 0 {
        let shorter = p.drop_last();
        assert(p.last() == p[p.len() - 1]);
        assert forall|i: int| 0 <= i < shorter.len() implies shorter[i] != '\\' by {
            assert(shorter[i] == p[i]);
        }
        lemma_same_segments_without_backslash(shorter);
    }
}

proof fn lemma_same_components_without_backslash(p: Seq<char>)
    requires
        !p.contains('\\'),
    ensures
        components(Platform::Windows, p) == components(Platform::Posix, p),
{
    lemma_same_segments_without_backslash(p);
    if p.len() > 0 {
        assert(p[0] != '\\');
    }
    if p.len() > 1 {
        assert(p[1] != '\\');
    }
}

} // verus!
