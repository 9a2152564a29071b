//! Pure path logic: separator normalization and the joining of a base path
//! with a relative input under `.` / `..` / absolute-override rules.
//!
//! Nothing here touches the filesystem; every function is total over its
//! inputs and specified exactly over sequences of characters.
use vstd::prelude::*;

use crate::errors::{AfsError, AfsResult};
use crate::strutil::{chars_to_string, str_to_chars};

verus! {

/// The characters of `s` with every backslash replaced by a forward slash.
pub open spec fn normalize_spec(s: Seq<char>) -> Seq<char> {
    s.map_values(|c: char| if c == '\\' { '/' } else { c })
}

/// Separator normalization changes nothing the second time around.
pub proof fn lemma_normalize_idempotent(p: Seq<char>)
    ensures
        normalize_spec(normalize_spec(p)) == normalize_spec(p),
{
    assert(normalize_spec(normalize_spec(p)) =~= normalize_spec(p));
}

/// A normalized path never holds a backslash separator.
pub proof fn lemma_normalize_no_backslash(p: Seq<char>, i: int)
    requires
        0 <= i < normalize_spec(p).len(),
    ensures
        normalize_spec(p)[i] != '\\',
{
}

/// Replaces every backslash in `path` with a forward slash.
///
/// This is the single canonical separator convention of the library: a
/// normalized path never contains a backslash.
pub fn normalize_path(path: &str) -> (r: String)
    ensures
        r@ == normalize_spec(path@),
{
    let n = path.unicode_len();
    let mut out: Vec<char> = Vec::new();
    for i in 0..n
        invariant
            n == path@.len(),
            out@ == normalize_spec(path@.take(i as int)),
    {
        let c = path.get_char(i);
        if c == '\\' {
            out.push('/');
        } else {
            out.push(c);
        }
        assert(normalize_spec(path@.take(i + 1)) =~= normalize_spec(
            path@.take(i as int),
        ).push(if path@[i as int] == '\\' {
            '/'
        } else {
            path@[i as int]
        }));
    }
    assert(path@.take(n as int) == path@);
    chars_to_string(&out)
}

/// A path is absolute when it starts with the root separator.
pub open spec fn is_absolute(s: Seq<char>) -> bool {
    s.len() > 0 && s[0] == '/'
}

/// The non-empty runs of characters between `/` separators in `cur + s`,
/// where `cur` is a partial segment already begun. Empty runs (from repeated
/// or trailing separators) produce no segment.
pub open spec fn segments_from(s: Seq<char>, cur: Seq<char>) -> Seq<Seq<char>>
    decreases s.len(),
{
    if s.len() == 0 {
        if cur.len() == 0 {
            Seq::empty()
        } else {
            seq![cur]
        }
    } else if s[0] == '/' {
        (if cur.len() == 0 {
            Seq::<Seq<char>>::empty()
        } else {
            seq![cur]
        }) + segments_from(s.drop_first(), Seq::empty())
    } else {
        segments_from(s.drop_first(), cur.push(s[0]))
    }
}

/// The segments of a path string: maximal non-empty runs between separators.
pub open spec fn segments(s: Seq<char>) -> Seq<Seq<char>> {
    segments_from(s, Seq::empty())
}

/// `s` consists of separators alone (or is empty): it names no segment.
pub open spec fn at_root(s: Seq<char>) -> bool {
    forall|i: int| 0 <= i < s.len() ==> s[i] == '/'
}

/// Appends segment `seg` to accumulator `acc`, inserting a separator unless
/// `acc` is empty or already ends with one.
pub open spec fn push_on(acc: Seq<char>, seg: Seq<char>) -> Seq<char> {
    if acc.len() == 0 {
        seg
    } else if acc.last() == '/' {
        acc + seg
    } else {
        acc + seq!['/'] + seg
    }
}

/// Strips trailing separators, but keeps a lone leading one: `"a/b//"`
/// becomes `"a/b"`, while `"/"` (and `""`) stay as they are.
pub open spec fn trim_seps(s: Seq<char>) -> Seq<char>
    decreases s.len(),
{
    if s.len() <= 1 {
        s
    } else if s.last() == '/' {
        trim_seps(s.drop_last())
    } else {
        s
    }
}

/// Removes the final segment of `s` together with the separators just before
/// it, keeping a lone root separator.
pub open spec fn drop_last_segment(s: Seq<char>) -> Seq<char>
    decreases s.len(),
{
    if s.len() == 0 {
        s
    } else if s.last() == '/' {
        trim_seps(s)
    } else {
        drop_last_segment(s.drop_last())
    }
}

/// Removes the last segment of `acc`: `"/home/user"` becomes `"/home"`,
/// `"a"` becomes `""`. When `acc` is already at its root (empty or all
/// separators) there is nothing to remove and `acc` is returned unchanged;
/// the pop silently does nothing rather than underflow.
pub open spec fn pop_on(acc: Seq<char>) -> Seq<char> {
    if at_root(acc) {
        acc
    } else {
        drop_last_segment(trim_seps(acc))
    }
}

/// One step of path joining: `.` is a no-op, `..` pops a segment, and any
/// other segment is appended.
pub open spec fn apply_component(acc: Seq<char>, seg: Seq<char>) -> Seq<char> {
    if seg == seq!['.'] {
        acc
    } else if seg == seq!['.', '.'] {
        pop_on(acc)
    } else {
        push_on(acc, seg)
    }
}

/// Folds `apply_component` over a list of segments, left to right.
pub open spec fn fold_components(acc: Seq<char>, segs: Seq<Seq<char>>) -> Seq<char>
    decreases segs.len(),
{
    if segs.len() == 0 {
        acc
    } else {
        fold_components(apply_component(acc, segs[0]), segs.drop_first())
    }
}

/// What `resolve` returns: an absolute input overrides the base entirely
/// (returned with its separators normalized); a relative input's segments
/// are folded onto the base.
pub open spec fn resolve_spec(base: Seq<char>, input: Seq<char>) -> Seq<char> {
    if is_absolute(input) {
        normalize_spec(input)
    } else {
        fold_components(base, segments(input))
    }
}

fn trim_seps_exec(acc: &mut Vec<char>)
    ensures
        final(acc)@ == trim_seps(old(acc)@),
{
    while acc.len() > 1 && acc[acc.len() - 1] == '/'
        invariant
            trim_seps(acc@) == trim_seps(old(acc)@),
        decreases acc@.len(),
    {
        let n = acc.len();
        assert(acc@.take(n - 1) =~= acc@.drop_last());
        acc.truncate(n - 1);
    }
}

pub(crate) fn push_seg_exec(acc: &mut Vec<char>, seg: &Vec<char>)
    ensures
        final(acc)@ == push_on(old(acc)@, seg@),
{
    if acc.len() == 0 {
        acc.extend_from_slice(seg.as_slice());
    } else if acc[acc.len() - 1] == '/' {
        acc.extend_from_slice(seg.as_slice());
    } else {
        acc.push('/');
        acc.extend_from_slice(seg.as_slice());
        assert(acc@ =~= old(acc)@ + seq!['/'] + seg@);
    }
}

fn pop_seg_exec(acc: &mut Vec<char>)
    ensures
        final(acc)@ == pop_on(old(acc)@),
{
    let mut has_seg = false;
    let n = acc.len();
    for i in 0..n
        invariant
            n == acc@.len(),
            acc@ == old(acc)@,
            has_seg == exists|j: int| 0 <= j < i && acc@[j] != '/',
    {
        if acc[i] != '/' {
            has_seg = true;
        }
    }
    if !has_seg {
        // at the root already: popping is a no-op
        return ;
    }
    trim_seps_exec(acc);
    while acc.len() > 0 && acc[acc.len() - 1] != '/'
        invariant
            drop_last_segment(acc@) == drop_last_segment(trim_seps(old(acc)@)),
        decreases acc@.len(),
    {
        let n2 = acc.len();
        assert(acc@.take(n2 - 1) =~= acc@.drop_last());
        acc.truncate(n2 - 1);
    }
    trim_seps_exec(acc);
}

fn apply_seg_exec(acc: &mut Vec<char>, seg: &Vec<char>)
    ensures
        final(acc)@ == apply_component(old(acc)@, seg@),
{
    if seg.len() == 1 && seg[0] == '.' {
        assert(seg@ =~= seq!['.']);
    } else if seg.len() == 2 && seg[0] == '.' && seg[1] == '.' {
        assert(seg@ =~= seq!['.', '.']);
        pop_seg_exec(acc);
    } else {
        assert(seg@ != seq!['.'] && seg@ != seq!['.', '.']) by {
            if seg@ == seq!['.'] {
                assert(seg@.len() == 1 && seg@[0] == '.');
            }
            if seg@ == seq!['.', '.'] {
                assert(seg@.len() == 2 && seg@[0] == '.' && seg@[1] == '.');
            }
        }
        push_seg_exec(acc, seg);
    }
}

/// Joins `base_str` and `input_str` into one path.
///
/// An absolute `input_str` overrides the base entirely and is returned with
/// its separators normalized. A relative one is consumed segment by segment:
/// a normal segment is appended, `.` changes nothing, and `..` removes the
/// last segment of the accumulated path (a no-op when the path is already at
/// its root). No filesystem access occurs and the call always succeeds; the
/// result need not name an existing entry. A root marker cannot occur among
/// the segments of a relative input — a segment never holds a separator —
/// so no resetting arm is needed for one.
pub fn resolve(base_str: &str, input_str: &str) -> (r: AfsResult<String>)
    ensures
        r matches Ok(s) && s@ == resolve_spec(base_str@, input_str@),
{
    let ilen = input_str.unicode_len();
    if ilen > 0 && input_str.get_char(0) == '/' {
        return Ok(normalize_path(input_str));
    }
    let mut acc = str_to_chars(base_str);
    let mut cur: Vec<char> = Vec::new();
    assert(input_str@.skip(0) == input_str@);
    let ghost target = fold_components(base_str@, segments(input_str@));
    for i in 0..ilen
        invariant
            ilen == input_str@.len(),
            fold_components(acc@, segments_from(input_str@.skip(i as int), cur@)) == target,
            target == fold_components(base_str@, segments(input_str@)),
    {
        let ghost s_i = input_str@.skip(i as int);
        let ghost cur0 = cur@;
        let ghost acc0 = acc@;
        let c = input_str.get_char(i);
        proof {
            assert(s_i[0] == input_str@[i as int]);
            assert(s_i.drop_first() =~= input_str@.skip(i + 1));
        }
        if c == '/' {
            if cur.len() > 0 {
                proof {
                    let rest = segments_from(input_str@.skip(i + 1), Seq::empty());
                    assert(segments_from(s_i, cur0) == seq![cur0] + rest);
                    assert((seq![cur0] + rest)[0] == cur0);
                    assert((seq![cur0] + rest).drop_first() =~= rest);
                    assert(fold_components(acc0, seq![cur0] + rest) == fold_components(
                        apply_component(acc0, cur0),
                        rest,
                    ));
                }
                apply_seg_exec(&mut acc, &cur);
                cur = Vec::new();
                proof {
                    let rest = segments_from(input_str@.skip(i + 1), Seq::empty());
                    assert(acc@ == apply_component(acc0, cur0));
                    assert(fold_components(acc0, seq![cur0] + rest) == target);
                    assert(fold_components(acc@, rest) == target);
                    assert(cur@ == Seq::<char>::empty());
                    assert(segments_from(input_str@.skip(i + 1), cur@) == rest);
                }
                assert(fold_components(acc@, segments_from(input_str@.skip(i + 1), cur@))
                    == target);
            } else {
                proof {
                    let rest = segments_from(input_str@.skip(i + 1), Seq::empty());
                    assert(segments_from(s_i, cur0) == Seq::<Seq<char>>::empty() + rest);
                    assert(Seq::<Seq<char>>::empty() + rest =~= rest);
                    assert(cur@ =~= Seq::<char>::empty());
                }
                assert(fold_components(acc@, segments_from(input_str@.skip(i + 1), cur@))
                    == target);
            }
        } else {
            cur.push(c);
            proof {
                assert(cur@ == cur0.push(c));
                assert(segments_from(s_i, cur0) == segments_from(input_str@.skip(i + 1), cur@));
            }
            assert(fold_components(acc@, segments_from(input_str@.skip(i + 1), cur@)) == target);
        }
    }
    proof {
        assert(input_str@.skip(ilen as int) =~= Seq::<char>::empty());
    }
    if cur.len() > 0 {
        proof {
            let ghost acc0 = acc@;
            assert(segments_from(Seq::<char>::empty(), cur@) == seq![cur@]);
            assert(seq![cur@][0] == cur@);
            assert(seq![cur@].drop_first() =~= Seq::<Seq<char>>::empty());
            assert(fold_components(acc0, seq![cur@]) == fold_components(
                apply_component(acc0, cur@),
                Seq::<Seq<char>>::empty(),
            ));
        }
        apply_seg_exec(&mut acc, &cur);
        assert(acc@ == target);
    } else {
        assert(segments_from(Seq::<char>::empty(), cur@) == Seq::<Seq<char>>::empty());
        assert(acc@ == target);
    }
    Ok(chars_to_string(&acc))
}

/// An absolute input makes the base irrelevant: whatever two bases are
/// given, the result is the input itself, separators normalized.
pub proof fn lemma_resolve_absolute_ignores_base(
    base_a: Seq<char>,
    base_b: Seq<char>,
    input: Seq<char>,
)
    requires
        is_absolute(input),
    ensures
        resolve_spec(base_a, input) == normalize_spec(input),
        resolve_spec(base_a, input) == resolve_spec(base_b, input),
{
}

/// Resolving the lone `..` input removes exactly the last segment of the
/// base, and resolving the lone `.` input leaves the base unchanged.
pub proof fn lemma_resolve_dot_components(base: Seq<char>)
    ensures
        resolve_spec(base, seq!['.', '.']) == pop_on(base),
        resolve_spec(base, seq!['.']) == base,
{
    let e = Seq::<char>::empty();
    let d = seq!['.'];
    let dd = seq!['.', '.'];
    assert(!is_absolute(dd));
    assert(dd.drop_first() =~= d);
    assert(e.push('.') =~= d);
    assert(segments_from(dd, e) == segments_from(d, d));
    assert(d.drop_first() =~= e);
    assert(d.push('.') =~= dd);
    assert(segments_from(d, d) == segments_from(e, dd));
    assert(segments_from(e, dd) == seq![dd]);
    assert(segments(dd) == seq![dd]);
    assert(seq![dd][0] == dd);
    assert(fold_components(base, seq![dd]) == fold_components(pop_on(base), seq![dd].drop_first()));
    assert(seq![dd].drop_first() =~= Seq::<Seq<char>>::empty());

    assert(!is_absolute(d));
    assert(segments_from(d, e) == segments_from(e, d));
    assert(segments_from(e, d) == seq![d]);
    assert(segments(d) == seq![d]);
    assert(seq![d][0] == d);
    assert(fold_components(base, seq![d]) == fold_components(base, seq![d].drop_first()));
    assert(seq![d].drop_first() =~= Seq::<Seq<char>>::empty());
}

/// Popping undoes pushing: appending a segment to a path that does not end
/// in a separator and popping again restores the original path. (A base with
/// trailing separators loses them to the pop, which is why they are ruled
/// out here.)
pub proof fn lemma_pop_undoes_push(acc: Seq<char>, seg: Seq<char>)
    requires
        seg.len() > 0,
        forall|i: int| 0 <= i < seg.len() ==> seg[i] != '/',
        acc.len() == 0 || acc.last() != '/',
    ensures
        pop_on(push_on(acc, seg)) == acc,
    decreases seg.len(),
{
    let p = push_on(acc, seg);
    assert(p.last() == seg.last());
    assert(!at_root(p)) by {
        assert(p[p.len() - 1] != '/');
    }
    assert(trim_seps(p) == p);
    if seg.len() == 1 {
        if acc.len() == 0 {
            assert(p =~= seg);
            assert(drop_last_segment(p) == drop_last_segment(p.drop_last()));
            assert(p.drop_last() =~= Seq::<char>::empty());
        } else if acc.last() == '/' {
            // excluded by the precondition
        } else {
            assert(p =~= acc + seq!['/'] + seg);
            assert(seg.last() != '/');
            assert(p.drop_last() =~= acc + seq!['/']);
            assert(drop_last_segment(p) == drop_last_segment(p.drop_last()));
            assert((acc + seq!['/']).last() == '/');
            assert((acc + seq!['/']).len() > 0);
            assert(drop_last_segment(acc + seq!['/']) == trim_seps(acc + seq!['/']));
            lemma_trim_seps_after_sep(acc);
        }
    } else {
        let shorter = seg.drop_last();
        assert(push_on(acc, shorter).push(seg.last()) =~= p);
        assert(p.drop_last() =~= push_on(acc, shorter));
        lemma_pop_undoes_push(acc, shorter);
        assert(drop_last_segment(p) == drop_last_segment(push_on(acc, shorter)));
        assert(!at_root(push_on(acc, shorter))) by {
            let q = push_on(acc, shorter);
            assert(q[q.len() - 1] != '/');
        }
        assert(trim_seps(push_on(acc, shorter)) == push_on(acc, shorter));
    }
}

/// The views of a vector of character vectors.
pub open spec fn segs_views(v: Seq<Vec<char>>) -> Seq<Seq<char>> {
    v.map_values(|x: Vec<char>| x@)
}

/// Splits a path string into its segments: maximal non-empty runs of
/// characters between `/` separators.
pub fn split_segments(s: &str) -> (v: Vec<Vec<char>>)
    ensures
        segs_views(v@) == segments(s@),
{
    let n = s.unicode_len();
    let mut v: Vec<Vec<char>> = Vec::new();
    let mut cur: Vec<char> = Vec::new();
    assert(s@.skip(0) == s@);
    assert(segs_views(v@) =~= Seq::<Seq<char>>::empty());
    for i in 0..n
        invariant
            n == s@.len(),
            segs_views(v@) + segments_from(s@.skip(i as int), cur@) == segments(s@),
    {
        let ghost s_i = s@.skip(i as int);
        let ghost cur0 = cur@;
        let ghost v0 = v@;
        let c = s.get_char(i);
        proof {
            assert(s_i[0] == s@[i as int]);
            assert(s_i.drop_first() =~= s@.skip(i + 1));
        }
        if c == '/' {
            if cur.len() > 0 {
                v.push(cur);
                cur = Vec::new();
                proof {
                    let rest = segments_from(s@.skip(i + 1), Seq::empty());
                    assert(segments_from(s_i, cur0) == seq![cur0] + rest);
                    assert(segs_views(v@) =~= segs_views(v0).push(cur0));
                    assert(segs_views(v0) + (seq![cur0] + rest) =~= segs_views(v@) + rest);
                    assert(cur@ == Seq::<char>::empty());
                }
            } else {
                proof {
                    let rest = segments_from(s@.skip(i + 1), Seq::empty());
                    assert(segments_from(s_i, cur0) == Seq::<Seq<char>>::empty() + rest);
                    assert(Seq::<Seq<char>>::empty() + rest =~= rest);
                    assert(cur@ =~= Seq::<char>::empty());
                }
            }
        } else {
            cur.push(c);
            proof {
                assert(cur@ == cur0.push(c));
                assert(segments_from(s_i, cur0) == segments_from(s@.skip(i + 1), cur@));
            }
        }
    }
    proof {
        assert(s@.skip(n as int) =~= Seq::<char>::empty());
    }
    if cur.len() > 0 {
        let ghost v0 = v@;
        let ghost cur0 = cur@;
        v.push(cur);
        proof {
            assert(segments_from(Seq::<char>::empty(), cur0) == seq![cur0]);
            assert(segs_views(v@) =~= segs_views(v0).push(cur0));
            assert(segs_views(v0) + seq![cur0] =~= segs_views(v@));
        }
    } else {
        proof {
            assert(segments_from(Seq::<char>::empty(), cur@) == Seq::<Seq<char>>::empty());
            assert(segs_views(v@) + Seq::<Seq<char>>::empty() =~= segs_views(v@));
        }
    }
    v
}

/// The final name a path refers to: its last segment, with any trailing `.`
/// segments skipped. `None` when no segment remains, or when the path ends
/// in `..` (no name can be given without consulting the filesystem).
pub open spec fn last_real_segment(segs: Seq<Seq<char>>) -> Option<Seq<char>>
    decreases segs.len(),
{
    if segs.len() == 0 {
        None
    } else if segs.last() == seq!['.'] {
        last_real_segment(segs.drop_last())
    } else if segs.last() == seq!['.', '.'] {
        None
    } else {
        Some(segs.last())
    }
}

/// The file name of a path, after separator normalization.
pub open spec fn file_name_spec(n: Seq<char>) -> Option<Seq<char>> {
    last_real_segment(segments(n))
}

fn file_name_of(normalized: &String) -> (r: Option<String>)
    ensures
        match r {
            Some(s) => file_name_spec(normalized@) == Some(s@),
            None => file_name_spec(normalized@) is None,
        },
{
    let segs = split_segments(normalized.as_str());
    let mut idx = segs.len();
    proof {
        assert(segs_views(segs@).take(idx as int) =~= segs_views(segs@));
    }
    while idx > 0
        invariant
            idx <= segs@.len(),
            last_real_segment(segs_views(segs@).take(idx as int)) == file_name_spec(normalized@),
        decreases idx,
    {
        let seg = &segs[idx - 1];
        let ghost prefix = segs_views(segs@).take(idx as int);
        proof {
            assert(prefix.last() == seg@);
            assert(prefix.drop_last() =~= segs_views(segs@).take(idx - 1));
        }
        if seg.len() == 1 && seg[0] == '.' {
            assert(seg@ =~= seq!['.']);
            idx = idx - 1;
        } else if seg.len() == 2 && seg[0] == '.' && seg[1] == '.' {
            assert(seg@ =~= seq!['.', '.']);
            return None;
        } else {
            assert(seg@ != seq!['.'] && seg@ != seq!['.', '.']) by {
                if seg@ == seq!['.'] {
                    assert(seg@.len() == 1 && seg@[0] == '.');
                }
                if seg@ == seq!['.', '.'] {
                    assert(seg@.len() == 2 && seg@[0] == '.' && seg@[1] == '.');
                }
            }
            return Some(chars_to_string(seg));
        }
    }
    proof {
        assert(segs_views(segs@).take(0) =~= Seq::<Seq<char>>::empty());
    }
    None
}

/// The file name of `path_str`, separators normalized first: the last
/// segment of the path, skipping trailing `.` segments.
///
/// Fails with `EmptyPath` on an empty path, and with `PathComponent` when
/// the path names no final segment (it is a bare root, or ends in `..`).
pub fn basename(path_str: &str) -> (r: AfsResult<String>)
    ensures
        ({
            let n = normalize_spec(path_str@);
            match r {
                Ok(s) => n.len() > 0 && file_name_spec(n) == Some(s@),
                Err(e) => match e {
                    AfsError::EmptyPath => n.len() == 0,
                    AfsError::PathComponent(p) => n.len() > 0 && p@ == n && file_name_spec(
                        n,
                    ) is None,
                    _ => false,
                },
            }
        }),
{
    let normalized = normalize_path(path_str);
    if normalized.as_str().unicode_len() == 0 {
        return Err(AfsError::EmptyPath);
    }
    match file_name_of(&normalized) {
        Some(s) => Ok(s),
        None => Err(AfsError::PathComponent(normalized)),
    }
}

/// The file name of `path_str`; identical to [`basename`].
pub fn filename(path_str: &str) -> (r: AfsResult<String>)
    ensures
        ({
            let n = normalize_spec(path_str@);
            match r {
                Ok(s) => n.len() > 0 && file_name_spec(n) == Some(s@),
                Err(e) => match e {
                    AfsError::EmptyPath => n.len() == 0,
                    AfsError::PathComponent(p) => n.len() > 0 && p@ == n && file_name_spec(
                        n,
                    ) is None,
                    _ => false,
                },
            }
        }),
{
    basename(path_str)
}

/// The parent of `path_str`, separators normalized first: the path with its
/// last segment removed, `"."` when nothing remains.
///
/// Fails with `EmptyPath` on an empty path, and with `PathComponent` when
/// the path is a bare root and has no parent.
pub fn dirname(path_str: &str) -> (r: AfsResult<String>)
    ensures
        ({
            let n = normalize_spec(path_str@);
            match r {
                Ok(s) => n.len() > 0 && !at_root(n) && s@ == (if pop_on(n).len() == 0 {
                    seq!['.']
                } else {
                    pop_on(n)
                }),
                Err(e) => match e {
                    AfsError::EmptyPath => n.len() == 0,
                    AfsError::PathComponent(p) => n.len() > 0 && at_root(n) && p@ == n,
                    _ => false,
                },
            }
        }),
{
    let normalized = normalize_path(path_str);
    let mut acc = str_to_chars(normalized.as_str());
    if acc.len() == 0 {
        return Err(AfsError::EmptyPath);
    }
    let mut has_seg = false;
    let n = acc.len();
    for i in 0..n
        invariant
            n == acc@.len(),
            acc@ == normalize_spec(path_str@),
            has_seg == exists|j: int| 0 <= j < i && acc@[j] != '/',
    {
        if acc[i] != '/' {
            has_seg = true;
        }
    }
    if !has_seg {
        return Err(AfsError::PathComponent(normalized));
    }
    pop_seg_exec(&mut acc);
    if acc.len() == 0 {
        let dot = ".";
        proof {
            reveal_strlit(".");
            assert(dot@ =~= seq!['.']);
        }
        Ok(dot.to_owned())
    } else {
        Ok(chars_to_string(&acc))
    }
}

/// The parent of `normalized`: the path with its last segment removed.
/// `None` when the path has no segment at all (it is empty or a bare root)
/// and so has no parent.
pub fn parent_path(normalized: &str) -> (r: Option<String>)
    ensures
        match r {
            Some(p) => !at_root(normalized@) && p@ == pop_on(normalized@),
            None => at_root(normalized@),
        },
{
    let mut acc = str_to_chars(normalized);
    let mut has_seg = false;
    let n = acc.len();
    for i in 0..n
        invariant
            n == acc@.len(),
            acc@ == normalized@,
            has_seg == exists|j: int| 0 <= j < i && acc@[j] != '/',
    {
        if acc[i] != '/' {
            has_seg = true;
        }
    }
    if !has_seg {
        return None;
    }
    pop_seg_exec(&mut acc);
    Some(chars_to_string(&acc))
}

proof fn lemma_trim_seps_after_sep(acc: Seq<char>)
    requires
        acc.len() == 0 || acc.last() != '/',
    ensures
        trim_seps(acc + seq!['/']) == if acc.len() == 0 {
            seq!['/']
        } else {
            acc
        },
{
    let t = acc + seq!['/'];
    if acc.len() == 0 {
        assert(t =~= seq!['/']);
    } else {
        assert(t.len() >= 2);
        assert(t.last() == '/');
        assert(t.drop_last() =~= acc);
        assert(trim_seps(acc) == acc);
    }
}

} // verus!
