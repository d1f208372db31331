//! Lexical cleaning of paths, after the `cleanname` procedure of Plan 9 (and Go's `path.Clean`),
//! except that `..` elements which begin a path are kept.
//!
//! 1. Reduce multiple slashes to a single slash.
//! 2. Eliminate `.` path name elements (the current directory).
//! 3. Eliminate `..` path name elements (the parent directory) and the non-`.` non-`..` element
//!    that precedes them.
//! 4. Leave intact `..` elements that begin a path.
//!
//! If the result of this process is empty, the result is `"."`, the current directory. Both `/`
//! and `\` separate elements on input; the output always uses `/`.
use vstd::prelude::*;
use vstd::string::*;
use vstd::utf8::*;
use std::path::{Path, PathBuf};

verus! {

/// The byte `.`.
pub const DOT: u8 = 46;

/// The byte `/`, the separator written on output.
pub const SEP: u8 = 47;

/// The byte `\`, accepted as a separator on input.
pub const BACKSLASH: u8 = 92;

/// Whether a byte separates path elements: either kind of slash.
pub open spec fn spec_is_sep(b: u8) -> bool {
    b == SEP || b == BACKSLASH
}

/// Whether a byte separates path elements: either kind of slash.
pub fn is_sep(b: u8) -> (r: bool)
    ensures
        r == spec_is_sep(b),
{
    b == SEP || b == BACKSLASH
}

/// The path elements of `p` read so far, as a pair: the elements closed by a separator, and the
/// element still being read (empty right after a separator).
pub open spec fn split_acc(p: Seq<u8>) -> (Seq<Seq<u8>>, Seq<u8>)
    decreases p.len(),
{
    if p.len() == 0 {
        (Seq::empty(), Seq::empty())
    } else {
        let prev = split_acc(p.drop_last());
        if spec_is_sep(p.last()) {
            if prev.1.len() > 0 {
                (prev.0.push(prev.1), Seq::empty())
            } else {
                (prev.0, Seq::empty())
            }
        } else {
            (prev.0, prev.1.push(p.last()))
        }
    }
}

/// The non-empty maximal runs of non-separator bytes of `p`, in order.
pub open spec fn elements(p: Seq<u8>) -> Seq<Seq<u8>> {
    let acc = split_acc(p);
    if acc.1.len() > 0 {
        acc.0.push(acc.1)
    } else {
        acc.0
    }
}

/// The element `.`.
pub open spec fn is_dot(e: Seq<u8>) -> bool {
    e == seq![DOT]
}

/// The element `..`.
pub open spec fn is_dotdot(e: Seq<u8>) -> bool {
    e == seq![DOT, DOT]
}

/// A byte sequence without separators.
pub open spec fn no_sep(e: Seq<u8>) -> bool {
    forall|i: int| 0 <= i < e.len() ==> !spec_is_sep(#[trigger] e[i])
}

/// A real path element: non-empty, without separators, neither `.` nor `..`.
pub open spec fn is_real(e: Seq<u8>) -> bool {
    e.len() > 0 && no_sep(e) && !is_dot(e) && !is_dotdot(e)
}

/// The effect of one element on the stack of kept elements: `.` is dropped, `..` removes the
/// preceding real element when there is one and is kept otherwise, a real element is kept.
pub open spec fn step(st: Seq<Seq<u8>>, e: Seq<u8>) -> Seq<Seq<u8>> {
    if is_dot(e) {
        st
    } else if is_dotdot(e) {
        if st.len() > 0 && !is_dotdot(st.last()) {
            st.drop_last()
        } else {
            st.push(e)
        }
    } else {
        st.push(e)
    }
}

/// The elements kept after reading all of `es`, left to right.
pub open spec fn resolve(es: Seq<Seq<u8>>) -> Seq<Seq<u8>>
    decreases es.len(),
{
    if es.len() == 0 {
        Seq::empty()
    } else {
        step(resolve(es.drop_last()), es.last())
    }
}

/// The elements of `st` joined by single `/` bytes.
pub open spec fn join(st: Seq<Seq<u8>>) -> Seq<u8>
    decreases st.len(),
{
    if st.len() == 0 {
        Seq::empty()
    } else if st.len() == 1 {
        st[0]
    } else {
        join(st.drop_last()) + seq![SEP] + st.last()
    }
}

/// The path written from kept elements: a leading `/` when rooted, then the elements joined.
pub open spec fn render(rooted: bool, st: Seq<Seq<u8>>) -> Seq<u8> {
    (if rooted {
        seq![SEP]
    } else {
        Seq::empty()
    }) + join(st)
}

/// The cleaned form of the path `p`.
pub open spec fn spec_clean(p: Seq<u8>) -> Seq<u8> {
    if p.len() == 0 {
        seq![DOT]
    } else {
        let out = render(spec_is_sep(p[0]), resolve(elements(p)));
        if out.len() == 0 {
            seq![DOT]
        } else {
            out
        }
    }
}

/// A stack of kept elements in the shape that cleaning produces: `k` leading `..` elements, then
/// only real elements.
pub open spec fn normal_from(st: Seq<Seq<u8>>, k: int) -> bool {
    &&& 0 <= k <= st.len()
    &&& forall|i: int| 0 <= i < k ==> is_dotdot(#[trigger] st[i])
    &&& forall|i: int| k <= i < st.len() ==> is_real(#[trigger] st[i])
}

// ---------------------------------------------------------------------------------------------
// Lemmas on splitting into elements
// ---------------------------------------------------------------------------------------------

/// Reading a separator never changes the elements.
proof fn lemma_elements_sep(p: Seq<u8>, b: u8)
    requires
        spec_is_sep(b),
    ensures
        elements(p.push(b)) == elements(p),
        split_acc(p.push(b)).1.len() == 0,
{
    assert(p.push(b).drop_last() =~= p);
}

/// After a separator (or at the start) the element being read is empty.
proof fn lemma_acc_empty_after_sep(p: Seq<u8>)
    requires
        p.len() == 0 || spec_is_sep(p.last()),
    ensures
        split_acc(p).1.len() == 0,
        elements(p) == split_acc(p).0,
{
}

/// Reading separator-free bytes `e` right after a separator (or at the start) leaves `e` as the
/// element being read.
proof fn lemma_acc_append_word(q: Seq<u8>, e: Seq<u8>)
    requires
        split_acc(q).1.len() == 0,
        no_sep(e),
    ensures
        split_acc(q + e) == (split_acc(q).0, e),
    decreases e.len(),
{
    if e.len() == 0 {
        assert(q + e =~= q);
    } else {
        let e0 = e.drop_last();
        lemma_acc_append_word(q, e0);
        assert((q + e).drop_last() =~= q + e0);
        assert((q + e).last() == e.last());
        assert(e0.push(e.last()) =~= e);
    }
}

/// Reading a whole non-empty separator-free element right after a separator (or at the start)
/// adds exactly that element.
proof fn lemma_elements_append_word(q: Seq<u8>, e: Seq<u8>)
    requires
        split_acc(q).1.len() == 0,
        no_sep(e),
        e.len() > 0,
    ensures
        elements(q + e) == elements(q).push(e),
{
    lemma_acc_append_word(q, e);
}

/// The elements of the first `r` bytes, where `r` ends an element or a separator run.
proof fn lemma_take_step_sep(p: Seq<u8>, r: int)
    requires
        0 <= r < p.len(),
        spec_is_sep(p[r]),
    ensures
        elements(p.take(r + 1)) == elements(p.take(r)),
{
    assert(p.take(r + 1) =~= p.take(r).push(p[r]));
    lemma_elements_sep(p.take(r), p[r]);
}

/// Reading the element `p[r..j]` that starts at `r` (right after a separator or at the start).
proof fn lemma_take_step_word(p: Seq<u8>, r: int, j: int)
    requires
        0 <= r < j <= p.len(),
        r == 0 || spec_is_sep(p[r - 1]),
        forall|i: int| r <= i < j ==> !spec_is_sep(#[trigger] p[i]),
    ensures
        elements(p.take(j)) == elements(p.take(r)).push(p.subrange(r, j)),
{
    let q = p.take(r);
    let e = p.subrange(r, j);
    if r > 0 {
        assert(q.last() == p[r - 1]);
    }
    lemma_acc_empty_after_sep(q);
    assert(forall|i: int| 0 <= i < e.len() ==> e[i] == p[r + i]);
    assert(no_sep(e));
    lemma_elements_append_word(q, e);
    assert(q + e =~= p.take(j));
}

// ---------------------------------------------------------------------------------------------
// Lemmas on joining
// ---------------------------------------------------------------------------------------------

/// Joining one more element: a separator is written before it unless the stack was empty.
proof fn lemma_join_push(st: Seq<Seq<u8>>, e: Seq<u8>)
    ensures
        join(st.push(e)) == (if st.len() == 0 {
            e
        } else {
            join(st) + seq![SEP] + e
        }),
{
    assert(st.push(e).drop_last() =~= st);
    if st.len() == 0 {
        assert(st.push(e)[0] == e);
    }
}

/// Joining non-empty elements is empty exactly when there are none.
proof fn lemma_join_len(st: Seq<Seq<u8>>)
    requires
        forall|i: int| 0 <= i < st.len() ==> (#[trigger] st[i]).len() > 0,
    ensures
        (join(st).len() == 0) == (st.len() == 0),
    decreases st.len(),
{
    if st.len() > 1 {
        lemma_join_len(st.drop_last());
    }
}

/// Joining a prefix of non-empty elements gives a strictly shorter result.
proof fn lemma_join_prefix_shorter(st: Seq<Seq<u8>>, k: int)
    requires
        0 <= k < st.len(),
        forall|i: int| 0 <= i < st.len() ==> (#[trigger] st[i]).len() > 0,
    ensures
        join(st.take(k)).len() < join(st).len(),
    decreases st.len() - k,
{
    let s1 = st.take(k + 1);
    assert(st.take(k).push(st[k]) =~= s1);
    lemma_join_push(st.take(k), st[k]);
    if k + 1 < st.len() {
        lemma_join_prefix_shorter(st, k + 1);
    } else {
        assert(s1 =~= st);
    }
}

// ---------------------------------------------------------------------------------------------
// Lemmas on the stack of kept elements
// ---------------------------------------------------------------------------------------------

/// Every element of a stack in normal shape is non-empty.
proof fn lemma_normal_nonempty(st: Seq<Seq<u8>>, k: int)
    requires
        normal_from(st, k),
    ensures
        forall|i: int| 0 <= i < st.len() ==> (#[trigger] st[i]).len() > 0,
{
    assert forall|i: int| 0 <= i < st.len() implies (#[trigger] st[i]).len() > 0 by {
        if i < k {
            assert(is_dotdot(st[i]));
        } else {
            assert(is_real(st[i]));
        }
    }
}

/// In normal shape, the rendered prefix of `..` elements is shorter than the whole exactly when
/// there is a real element after it.
proof fn lemma_normal_prefix_len(rooted: bool, st: Seq<Seq<u8>>, k: int)
    requires
        normal_from(st, k),
    ensures
        (render(rooted, st.take(k)).len() < render(rooted, st).len()) == (k < st.len()),
        k == st.len() ==> st.take(k) == st,
{
    lemma_normal_nonempty(st, k);
    if k < st.len() {
        lemma_join_prefix_shorter(st, k);
    } else {
        assert(st.take(k) =~= st);
    }
}

/// The rendered form of a stack is just the root exactly when the stack is empty.
proof fn lemma_render_len(rooted: bool, st: Seq<Seq<u8>>, k: int)
    requires
        normal_from(st, k),
    ensures
        (render(rooted, st).len() == (if rooted { 1int } else { 0int })) == (st.len() == 0),
{
    lemma_normal_nonempty(st, k);
    lemma_join_len(st);
}

/// Rendering one more element.
proof fn lemma_render_push(rooted: bool, st: Seq<Seq<u8>>, e: Seq<u8>)
    ensures
        render(rooted, st.push(e)) == (if st.len() == 0 {
            render(rooted, st) + e
        } else {
            render(rooted, st) + seq![SEP] + e
        }),
{
    lemma_join_push(st, e);
    if st.len() == 0 {
        assert(render(rooted, st.push(e)) =~= render(rooted, st) + e);
    } else {
        assert(render(rooted, st.push(e)) =~= render(rooted, st) + seq![SEP] + e);
    }
}

/// A `.` element or a separator at `r` leaves the kept elements unchanged.
proof fn lemma_step_skip(p: Seq<u8>, r: int)
    requires
        0 <= r < p.len(),
        r == 0 || spec_is_sep(p[r - 1]) || spec_is_sep(p[r]),
        spec_is_sep(p[r]) || (p[r] == DOT && (r + 1 == p.len() || spec_is_sep(p[r + 1]))),
    ensures
        resolve(elements(p.take(r + 1))) == resolve(elements(p.take(r))),
{
    if spec_is_sep(p[r]) {
        lemma_take_step_sep(p, r);
    } else {
        lemma_take_step_word(p, r, r + 1);
        let e = p.subrange(r, r + 1);
        assert(e =~= seq![DOT]);
        let es = elements(p.take(r + 1));
        assert(es.drop_last() =~= elements(p.take(r)));
    }
}

/// A `..` element at `r`, which ends at `r + 2`.
proof fn lemma_step_dotdot(p: Seq<u8>, r: int)
    requires
        0 <= r,
        r + 2 <= p.len(),
        r == 0 || spec_is_sep(p[r - 1]),
        p[r] == DOT,
        p[r + 1] == DOT,
        r + 2 == p.len() || spec_is_sep(p[r + 2]),
    ensures
        resolve(elements(p.take(r + 2))) == step(resolve(elements(p.take(r))), seq![DOT, DOT]),
{
    lemma_take_step_word(p, r, r + 2);
    assert(p.subrange(r, r + 2) =~= seq![DOT, DOT]);
    let es = elements(p.take(r + 2));
    assert(es.drop_last() =~= elements(p.take(r)));
}

/// A real element at `r..j`.
proof fn lemma_step_real(p: Seq<u8>, r: int, j: int)
    requires
        0 <= r < j <= p.len(),
        r == 0 || spec_is_sep(p[r - 1]),
        forall|i: int| r <= i < j ==> !spec_is_sep(#[trigger] p[i]),
        j == p.len() || spec_is_sep(p[j]),
        !(p[r] == DOT && (r + 1 == p.len() || spec_is_sep(p[r + 1]))),
        !(p[r] == DOT && p[r + 1] == DOT && (r + 2 == p.len() || spec_is_sep(p[r + 2]))),
    ensures
        is_real(p.subrange(r, j)),
        resolve(elements(p.take(j))) == resolve(elements(p.take(r))).push(p.subrange(r, j)),
{
    let e = p.subrange(r, j);
    lemma_take_step_word(p, r, j);
    assert(no_sep(e)) by {
        assert forall|i: int| 0 <= i < e.len() implies !spec_is_sep(#[trigger] e[i]) by {
            assert(e[i] == p[r + i]);
        }
    }
    assert(!is_dot(e)) by {
        if is_dot(e) {
            assert(e.len() == 1);
            assert(e[0] == DOT);
        }
    }
    assert(!is_dotdot(e)) by {
        if is_dotdot(e) {
            assert(e.len() == 2);
            assert(e[0] == DOT && e[1] == DOT);
        }
    }
    let es = elements(p.take(j));
    assert(es.drop_last() =~= elements(p.take(r)));
}

// ---------------------------------------------------------------------------------------------
// The cleaning algorithm
// ---------------------------------------------------------------------------------------------

/// Removes the last (real) element from the written path, along with the separator before it.
fn truncate_last_element(
    out: &mut Vec<u8>,
    dotdot: usize,
    Ghost(rooted): Ghost<bool>,
    Ghost(st): Ghost<Seq<Seq<u8>>>,
    Ghost(k): Ghost<int>,
)
    requires
        old(out)@ == render(rooted, st),
        normal_from(st, k),
        k < st.len(),
        dotdot == render(rooted, st.take(k)).len(),
    ensures
        final(out)@ == render(rooted, st.drop_last()),
{
    let ghost st1 = st.drop_last();
    let ghost e = st.last();
    proof {
        assert(st1.push(e) =~= st);
        lemma_render_push(rooted, st1, e);
        assert(is_real(e));
        assert(normal_from(st1, k)) by {
            assert forall|i: int| k <= i < st1.len() implies is_real(#[trigger] st1[i]) by {
                assert(st1[i] == st[i]);
            }
            assert forall|i: int| 0 <= i < k implies is_dotdot(#[trigger] st1[i]) by {
                assert(st1[i] == st[i]);
            }
        }
        assert(st1.take(k) =~= st.take(k));
        lemma_normal_prefix_len(rooted, st1, k);
    }
    let ghost q: int = render(rooted, st1).len() as int;
    let ghost pre: int = out@.len() - e.len();
    proof {
        if st1.len() > 0 {
            assert(pre == q + 1);
            assert(out@[q] == SEP);
        } else {
            assert(pre == q);
        }
        assert forall|i: int| pre <= i < out@.len() implies !spec_is_sep(#[trigger] out@[i]) by {
            assert(out@[i] == e[i - pre]);
        }
        assert(dotdot <= q);
    }
    let mut w = out.len() - 1;
    while w > dotdot && !is_sep(out[w])
        invariant
            dotdot <= w < out.len(),
            forall|i: int| w < i < out@.len() ==> !spec_is_sep(#[trigger] out@[i]),
        decreases w,
    {
        w -= 1;
    }
    proof {
        if st1.len() > 0 {
            if w < q {
                assert(spec_is_sep(out@[q]));
            } else if w > q {
                assert(w >= pre);
            }
        } else {
            if w > q {
                assert(w >= pre);
            }
        }
        assert(w == q);
    }
    out.truncate(w);
    proof {
        assert(out@ =~= render(rooted, st1));
    }
}

/// Writes the real element that starts at `r` (with a separator before it when elements were
/// written already) and returns the index just past it.
fn push_element(
    out: &mut Vec<u8>,
    path: &[u8],
    r: usize,
    rooted: bool,
    Ghost(st): Ghost<Seq<Seq<u8>>>,
    Ghost(k): Ghost<int>,
) -> (end: usize)
    requires
        old(out)@ == render(rooted, st),
        normal_from(st, k),
        r < path.len(),
        !spec_is_sep(path@[r as int]),
    ensures
        r < end <= path.len(),
        end == path.len() || spec_is_sep(path@[end as int]),
        forall|i: int| r <= i < end ==> !spec_is_sep(#[trigger] path@[i]),
        final(out)@ == render(rooted, st.push(path@.subrange(r as int, end as int))),
{
    let ghost p = path@;
    let n = path.len();
    proof {
        lemma_render_len(rooted, st, k);
    }
    if rooted && out.len() != 1 || !rooted && out.len() != 0 {
        out.push(SEP);
    }
    let ghost base = out@;
    let mut j = r;
    while j < n && !is_sep(path[j])
        invariant
            n == path.len(),
            p == path@,
            r <= j <= n,
            out@ == base + p.subrange(r as int, j as int),
            forall|i: int| r <= i < j ==> !spec_is_sep(#[trigger] p[i]),
        decreases n - j,
    {
        proof {
            assert(p.subrange(r as int, j + 1) =~= p.subrange(r as int, j as int).push(p[j as int]));
        }
        out.push(path[j]);
        j += 1;
    }
    proof {
        let e = p.subrange(r as int, j as int);
        assert(j > r);
        lemma_render_push(rooted, st, e);
        if st.len() > 0 {
            assert(out@ =~= render(rooted, st) + seq![SEP] + e);
        } else {
            assert(out@ =~= render(rooted, st) + e);
        }
    }
    j
}

/// The core of cleaning, on bytes. Performs lexically:
/// 1. Reduce multiple slashes to a single slash.
/// 2. Eliminate `.` path name elements (the current directory).
/// 3. Eliminate `..` path name elements (the parent directory) and the non-`.` non-`..` element
///    that precedes them.
/// 4. Leave intact `..` elements that begin a path.
///
/// If the result of this process is empty, return `"."`, the current directory.
pub fn clean_internal(path: &[u8]) -> (out: Vec<u8>)
    ensures
        out@ == spec_clean(path@),
{
    let n = path.len();
    if n == 0 {
        let mut out: Vec<u8> = Vec::new();
        out.push(DOT);
        proof {
            assert(out@ =~= seq![DOT]);
        }
        return out;
    }
    let rooted = is_sep(path[0]);
    let ghost p = path@;

    let mut out: Vec<u8> = Vec::with_capacity(n);
    let mut r: usize = 0;
    let mut dotdot: usize = 0;
    let ghost mut k: int = 0;

    proof {
        assert(Seq::<Seq<u8>>::empty().take(0) =~= Seq::<Seq<u8>>::empty());
    }
    if rooted {
        out.push(SEP);
        r = 1;
        dotdot = 1;
        proof {
            lemma_take_step_sep(p, 0);
            assert(p.take(0) =~= Seq::<u8>::empty());
            assert(out@ =~= render(rooted, Seq::empty()));
        }
    } else {
        proof {
            assert(p.take(0) =~= Seq::<u8>::empty());
            assert(out@ =~= render(rooted, Seq::empty()));
        }
    }

    while r < n
        invariant
            n == path.len(),
            p == path@,
            n > 0,
            rooted == spec_is_sep(p[0]),
            0 <= r <= n,
            rooted ==> r >= 1,
            r == 0 || r == n || spec_is_sep(p[r - 1]) || spec_is_sep(p[r as int]),
            out@ == render(rooted, resolve(elements(p.take(r as int)))),
            normal_from(resolve(elements(p.take(r as int))), k),
            dotdot == render(rooted, resolve(elements(p.take(r as int))).take(k)).len(),
        decreases n - r,
    {
        let ghost st = resolve(elements(p.take(r as int)));
        if is_sep(path[r]) || path[r] == DOT && (r + 1 == n || is_sep(path[r + 1])) {
            // empty path element or `.` element: skip
            proof {
                lemma_step_skip(p, r as int);
            }
            r += 1;
        } else if path[r] == DOT && path[r + 1] == DOT && (r + 2 == n || is_sep(path[r + 2])) {
            // `..` element: remove to last separator
            proof {
                lemma_step_dotdot(p, r as int);
                lemma_normal_prefix_len(rooted, st, k);
            }
            let ghost dd: Seq<u8> = seq![DOT, DOT];
            r += 2;
            if out.len() > dotdot {
                // can backtrack: truncate to last separator
                proof {
                    assert(is_real(st.last()));
                    assert(st.drop_last().take(k) =~= st.take(k));
                    assert(normal_from(st.drop_last(), k)) by {
                        assert forall|i: int| k <= i < st.drop_last().len() implies is_real(
                            #[trigger] st.drop_last()[i],
                        ) by {
                            assert(st.drop_last()[i] == st[i]);
                        }
                        assert forall|i: int| 0 <= i < k implies is_dotdot(
                            #[trigger] st.drop_last()[i],
                        ) by {
                            assert(st.drop_last()[i] == st[i]);
                        }
                    }
                }
                truncate_last_element(&mut out, dotdot, Ghost(rooted), Ghost(st), Ghost(k));
            } else {
                // cannot backtrack, so append a `..` element
                proof {
                    lemma_render_len(rooted, st, k);
                    lemma_render_push(rooted, st, dd);
                    if st.len() > 0 {
                        assert(is_dotdot(st.last()));
                    }
                }
                if !(out.len() == 0 || (rooted && out.len() == 1)) {
                    out.push(SEP);
                }
                out.push(DOT);
                out.push(DOT);
                dotdot = out.len();
                proof {
                    if st.len() > 0 {
                        assert(out@ =~= render(rooted, st) + seq![SEP] + dd);
                    } else {
                        assert(out@ =~= render(rooted, st) + dd);
                    }
                    k = k + 1;
                    assert(st.push(dd).take(k) =~= st.push(dd));
                    assert(normal_from(st.push(dd), k)) by {
                        assert forall|i: int| 0 <= i < k implies is_dotdot(
                            #[trigger] st.push(dd)[i],
                        ) by {
                            if i < st.len() {
                                assert(st.push(dd)[i] == st[i]);
                            }
                        }
                    }
                }
            }
        } else {
            // real path element: add a separator if needed, then the element
            let ghost r0: int = r as int;
            proof {
                if r0 > 0 && !spec_is_sep(p[r0 - 1]) {
                    assert(spec_is_sep(p[r0]));
                }
            }
            let end = push_element(&mut out, path, r, rooted, Ghost(st), Ghost(k));
            proof {
                lemma_step_real(p, r0, end as int);
                let e = p.subrange(r0, end as int);
                assert(st.push(e).take(k) =~= st.take(k));
                assert(normal_from(st.push(e), k)) by {
                    assert forall|i: int| k <= i < st.push(e).len() implies is_real(
                        #[trigger] st.push(e)[i],
                    ) by {
                        if i < st.len() {
                            assert(st.push(e)[i] == st[i]);
                        }
                    }
                    assert forall|i: int| 0 <= i < k implies is_dotdot(
                        #[trigger] st.push(e)[i],
                    ) by {
                        assert(st.push(e)[i] == st[i]);
                    }
                }
            }
            r = end;
        }
    }

    proof {
        assert(p.take(n as int) =~= p);
    }
    // Turn an empty result into "."
    if out.len() == 0 {
        out.push(DOT);
        proof {
            assert(out@ =~= seq![DOT]);
        }
    }
    out
}


// ---------------------------------------------------------------------------------------------
// Clean paths don't change
// ---------------------------------------------------------------------------------------------

/// Non-empty separator-free elements, as splitting produces.
pub open spec fn words(es: Seq<Seq<u8>>) -> bool {
    forall|i: int| 0 <= i < es.len() ==> (#[trigger] es[i]).len() > 0 && no_sep(es[i])
}

/// The elements of any path are non-empty and hold no separator.
proof fn lemma_elements_words(p: Seq<u8>)
    ensures
        words(elements(p)),
        words(split_acc(p).0),
        no_sep(split_acc(p).1),
    decreases p.len(),
{
    if p.len() > 0 {
        lemma_elements_words(p.drop_last());
        let prev = split_acc(p.drop_last());
        if spec_is_sep(p.last()) {
            if prev.1.len() > 0 {
                assert forall|i: int| 0 <= i < prev.0.push(prev.1).len() implies (
                #[trigger] prev.0.push(prev.1)[i]).len() > 0 && no_sep(prev.0.push(prev.1)[i]) by {
                    if i < prev.0.len() {
                        assert(prev.0.push(prev.1)[i] == prev.0[i]);
                    }
                }
            }
        } else {
            let c = prev.1.push(p.last());
            assert forall|i: int| 0 <= i < c.len() implies !spec_is_sep(#[trigger] c[i]) by {
                if i < prev.1.len() {
                    assert(c[i] == prev.1[i]);
                }
            }
        }
    }
    let acc = split_acc(p);
    if acc.1.len() > 0 {
        assert forall|i: int| 0 <= i < acc.0.push(acc.1).len() implies (#[trigger] acc.0.push(
            acc.1,
        )[i]).len() > 0 && no_sep(acc.0.push(acc.1)[i]) by {
            if i < acc.0.len() {
                assert(acc.0.push(acc.1)[i] == acc.0[i]);
            }
        }
    }
}

/// Keeping elements of a word list gives a stack in normal shape.
proof fn lemma_resolve_normal(es: Seq<Seq<u8>>) -> (k: int)
    requires
        words(es),
    ensures
        normal_from(resolve(es), k),
    decreases es.len(),
{
    if es.len() == 0 {
        0
    } else {
        let es0 = es.drop_last();
        assert(words(es0)) by {
            assert forall|i: int| 0 <= i < es0.len() implies (#[trigger] es0[i]).len() > 0
                && no_sep(es0[i]) by {
                assert(es0[i] == es[i]);
            }
        }
        let k0 = lemma_resolve_normal(es0);
        let st = resolve(es0);
        let e = es.last();
        assert(e == es[es.len() - 1]);
        if is_dot(e) {
            k0
        } else if is_dotdot(e) {
            if st.len() > 0 && !is_dotdot(st.last()) {
                let st1 = st.drop_last();
                assert(normal_from(st1, k0)) by {
                    assert forall|i: int| k0 <= i < st1.len() implies is_real(#[trigger] st1[i]) by {
                        assert(st1[i] == st[i]);
                    }
                    assert forall|i: int| 0 <= i < k0 implies is_dotdot(#[trigger] st1[i]) by {
                        assert(st1[i] == st[i]);
                    }
                    if k0 == st.len() {
                        assert(is_dotdot(st[st.len() - 1]));
                    }
                }
                k0
            } else {
                let st1 = st.push(e);
                assert(k0 == st.len()) by {
                    if k0 < st.len() {
                        assert(is_real(st[st.len() - 1]));
                    }
                }
                assert(normal_from(st1, k0 + 1)) by {
                    assert forall|i: int| 0 <= i < k0 + 1 implies is_dotdot(#[trigger] st1[i]) by {
                        if i < st.len() {
                            assert(st1[i] == st[i]);
                        }
                    }
                }
                k0 + 1
            }
        } else {
            let st1 = st.push(e);
            assert(normal_from(st1, k0)) by {
                assert forall|i: int| k0 <= i < st1.len() implies is_real(#[trigger] st1[i]) by {
                    if i < st.len() {
                        assert(st1[i] == st[i]);
                    }
                }
                assert forall|i: int| 0 <= i < k0 implies is_dotdot(#[trigger] st1[i]) by {
                    assert(st1[i] == st[i]);
                }
            }
            k0
        }
    }
}

/// Splitting a rendered stack of words gives back the stack.
proof fn lemma_elements_render(rooted: bool, st: Seq<Seq<u8>>)
    requires
        words(st),
    ensures
        elements(render(rooted, st)) == st,
        split_acc(render(rooted, st)).1.len() == 0 ==> st.len() == 0,
        st.len() > 0 ==> split_acc(render(rooted, st)).1 == st.last(),
    decreases st.len(),
{
    let pre: Seq<u8> = if rooted { seq![SEP] } else { Seq::empty() };
    if rooted {
        lemma_elements_sep(Seq::<u8>::empty(), SEP);
        assert(Seq::<u8>::empty().push(SEP) =~= pre);
    }
    if st.len() == 0 {
        assert(render(rooted, st) =~= pre);
    } else {
        let st0 = st.drop_last();
        let e = st.last();
        assert(st0.push(e) =~= st);
        assert(words(st0)) by {
            assert forall|i: int| 0 <= i < st0.len() implies (#[trigger] st0[i]).len() > 0
                && no_sep(st0[i]) by {
                assert(st0[i] == st[i]);
            }
        }
        assert(e == st[st.len() - 1]);
        lemma_render_push(rooted, st0, e);
        if st0.len() == 0 {
            assert(render(rooted, st0) =~= pre);
            lemma_acc_append_word(pre, e);
            assert(elements(pre + e) == elements(pre).push(e));
            assert(render(rooted, st) =~= pre + e);
        } else {
            lemma_elements_render(rooted, st0);
            let q = render(rooted, st0).push(SEP);
            lemma_elements_sep(render(rooted, st0), SEP);
            lemma_acc_append_word(q, e);
            assert(render(rooted, st0) + seq![SEP] + e =~= q + e);
        }
    }
}

/// A stack in normal shape is kept as it is.
proof fn lemma_resolve_fixed(st: Seq<Seq<u8>>, k: int)
    requires
        normal_from(st, k),
    ensures
        resolve(st) == st,
    decreases st.len(),
{
    if st.len() > 0 {
        let st0 = st.drop_last();
        let e = st.last();
        let k0 = if k == st.len() { k - 1 } else { k };
        assert(normal_from(st0, k0)) by {
            assert forall|i: int| k0 <= i < st0.len() implies is_real(#[trigger] st0[i]) by {
                assert(st0[i] == st[i]);
            }
            assert forall|i: int| 0 <= i < k0 implies is_dotdot(#[trigger] st0[i]) by {
                assert(st0[i] == st[i]);
            }
        }
        lemma_resolve_fixed(st0, k0);
        assert(e == st[st.len() - 1]);
        assert(resolve(st) == step(resolve(st0), e));
        if k == st.len() {
            assert(is_dotdot(e));
            assert(e.len() == 2);
            assert(!is_dot(e));
            if st0.len() > 0 {
                assert(is_dotdot(st0[st0.len() - 1]));
            }
            assert(step(st0, e) == st0.push(e));
        } else {
            assert(is_real(e));
        }
        assert(st0.push(e) =~= st);
    }
}

/// The first byte of a rendered, unrooted, non-empty stack of words is not a separator.
proof fn lemma_join_first(st: Seq<Seq<u8>>)
    requires
        words(st),
        st.len() > 0,
    ensures
        join(st).len() > 0,
        join(st)[0] == st[0][0],
    decreases st.len(),
{
    assert(st[0].len() > 0);
    if st.len() > 1 {
        let st0 = st.drop_last();
        assert(words(st0)) by {
            assert forall|i: int| 0 <= i < st0.len() implies (#[trigger] st0[i]).len() > 0
                && no_sep(st0[i]) by {
                assert(st0[i] == st[i]);
            }
        }
        lemma_join_first(st0);
        assert(st0[0] == st[0]);
    }
}

/// Clean paths don't change: cleaning a cleaned path gives it back.
pub proof fn lemma_clean_idempotent(p: Seq<u8>)
    ensures
        spec_clean(spec_clean(p)) == spec_clean(p),
{
    let dot: Seq<u8> = seq![DOT];
    // the path "." cleans to itself
    assert(spec_clean(dot) == dot) by {
        lemma_take_step_word(dot, 0, 1);
        assert(dot.take(0) =~= Seq::<u8>::empty());
        assert(dot.take(1) =~= dot);
        assert(dot.subrange(0, 1) =~= dot);
        let es = elements(dot);
        assert(elements(Seq::<u8>::empty()) =~= Seq::<Seq<u8>>::empty());
        assert(es =~= Seq::<Seq<u8>>::empty().push(dot));
        assert(es.drop_last() =~= Seq::<Seq<u8>>::empty());
        assert(es.last() == dot);
        assert(resolve(es) == step(resolve(es.drop_last()), es.last()));
        assert(resolve(es) =~= Seq::<Seq<u8>>::empty());
        assert(render(false, Seq::<Seq<u8>>::empty()) =~= Seq::<u8>::empty());
    }
    if p.len() > 0 {
        let rooted = spec_is_sep(p[0]);
        lemma_elements_words(p);
        let k = lemma_resolve_normal(elements(p));
        let st = resolve(elements(p));
        let out = render(rooted, st);
        if out.len() > 0 {
            assert(words(st)) by {
                lemma_normal_nonempty(st, k);
                assert forall|i: int| 0 <= i < st.len() implies (#[trigger] st[i]).len() > 0
                    && no_sep(st[i]) by {
                    if i < k {
                        assert(is_dotdot(st[i]));
                        assert(no_sep(st[i])) by {
                            assert forall|j: int| 0 <= j < st[i].len() implies !spec_is_sep(
                                #[trigger] st[i][j],
                            ) by {
                                assert(st[i][j] == DOT);
                            }
                        }
                    } else {
                        assert(is_real(st[i]));
                    }
                }
            }
            lemma_elements_render(rooted, st);
            lemma_resolve_fixed(st, k);
            if rooted {
                assert(out[0] == SEP);
            } else {
                assert(out =~= join(st));
                lemma_join_first(st);
                assert(st[0].len() > 0 && no_sep(st[0]));
                assert(!spec_is_sep(st[0][0]));
            }
        }
    }
}

/// What a clean path looks like (the rules of the module documentation, read on the result): it
/// is `.`, or an optional leading `/` followed by elements joined by single `/`, where a run of
/// `..` elements comes first and every other element is a real one (non-empty, without
/// separators, neither `.` nor `..`).
pub proof fn lemma_clean_normal_form(p: Seq<u8>)
    ensures
        spec_clean(p) == seq![DOT] || exists|rooted: bool, st: Seq<Seq<u8>>, k: int|
            normal_from(st, k) && spec_clean(p) == render(rooted, st),
{
    if p.len() > 0 {
        lemma_elements_words(p);
        let k = lemma_resolve_normal(elements(p));
        let rooted = spec_is_sep(p[0]);
        let st = resolve(elements(p));
        if render(rooted, st).len() > 0 {
            assert(normal_from(st, k) && spec_clean(p) == render(rooted, st));
        }
    }
}

// ---------------------------------------------------------------------------------------------
// Cleaning keeps UTF-8 valid
// ---------------------------------------------------------------------------------------------

/// A byte sequence of ASCII bytes only is valid UTF-8.
proof fn lemma_ascii_valid(s: Seq<u8>)
    requires
        forall|i: int| 0 <= i < s.len() ==> (#[trigger] s[i]) <= 0x7f,
    ensures
        valid_utf8(s),
{
    assert(s.subrange(0, 0) =~= Seq::<u8>::empty());
    assert(partial_valid_utf8(s, 0));
    partial_valid_utf8_extend_ascii_block(s, 0, s.len() as int);
    assert(s.subrange(0, s.len() as int) =~= s);
}

/// The bytes between two separators (or the ends) of valid UTF-8 are valid UTF-8.
proof fn lemma_between_seps_valid(b: Seq<u8>, s: int, j: int)
    requires
        valid_utf8(b),
        0 <= s <= j <= b.len(),
        s == 0 || spec_is_sep(b[s - 1]),
        j == b.len() || spec_is_sep(b[j]),
    ensures
        valid_utf8(b.subrange(s, j)),
{
    broadcast use is_char_boundary_start_end_of_seq;

    // the suffix that starts at `s` is valid
    let t = b.subrange(s, b.len() as int);
    if s == 0 {
        assert(t =~= b);
    } else {
        is_char_boundary_iff_not_is_continuation_byte(b, s - 1);
        valid_utf8_split(b, s - 1);
        let u = b.subrange(s - 1, b.len() as int);
        assert(u[0] == b[s - 1]);
        assert(valid_utf8(pop_first_scalar(u)));
        assert(pop_first_scalar(u) =~= t);
    }
    assert(valid_utf8(t));
    // split it where the next separator is
    let m = j - s;
    if j == b.len() {
        assert(t.subrange(0, m) =~= t);
    } else {
        assert(t[m] == b[j]);
        is_char_boundary_iff_not_is_continuation_byte(t, m);
        valid_utf8_split(t, m);
    }
    assert(t.subrange(0, m) =~= b.subrange(s, j));
}

/// The shape of the pair of closed elements and element being read, on a prefix of valid UTF-8:
/// closed elements are valid UTF-8 and the element being read is the tail of the prefix since
/// the last separator.
proof fn lemma_split_acc_valid(b: Seq<u8>, m: int)
    requires
        valid_utf8(b),
        0 <= m <= b.len(),
    ensures
        forall|i: int|
            0 <= i < split_acc(b.take(m)).0.len() ==> valid_utf8(
                #[trigger] split_acc(b.take(m)).0[i],
            ),
        split_acc(b.take(m)).1.len() <= m,
        split_acc(b.take(m)).1 == b.subrange(m - split_acc(b.take(m)).1.len(), m),
        m - split_acc(b.take(m)).1.len() == 0 || spec_is_sep(
            b[m - split_acc(b.take(m)).1.len() - 1],
        ),
    decreases m,
{
    if m == 0 {
        assert(b.take(0) =~= Seq::<u8>::empty());
        assert(b.subrange(0, 0) =~= Seq::<u8>::empty());
    } else {
        lemma_split_acc_valid(b, m - 1);
        let q = b.take(m);
        assert(q.drop_last() =~= b.take(m - 1));
        assert(q.last() == b[m - 1]);
        let prev = split_acc(b.take(m - 1));
        let s0 = m - 1 - prev.1.len();
        if spec_is_sep(b[m - 1]) {
            if prev.1.len() > 0 {
                lemma_between_seps_valid(b, s0, m - 1);
            }
            assert(b.subrange(m, m) =~= Seq::<u8>::empty());
        } else {
            assert(b.subrange(s0, m) =~= b.subrange(s0, m - 1).push(b[m - 1]));
        }
    }
}

/// The elements of valid UTF-8 are valid UTF-8.
proof fn lemma_elements_valid(b: Seq<u8>)
    requires
        valid_utf8(b),
    ensures
        forall|i: int| 0 <= i < elements(b).len() ==> valid_utf8(#[trigger] elements(b)[i]),
{
    lemma_split_acc_valid(b, b.len() as int);
    assert(b.take(b.len() as int) =~= b);
    let acc = split_acc(b);
    if acc.1.len() > 0 {
        lemma_between_seps_valid(b, b.len() - acc.1.len(), b.len() as int);
        assert forall|i: int| 0 <= i < elements(b).len() implies valid_utf8(
            #[trigger] elements(b)[i],
        ) by {
            if i < acc.0.len() {
                assert(elements(b)[i] == acc.0[i]);
            }
        }
    }
}

/// Keeping elements keeps them valid UTF-8.
proof fn lemma_resolve_valid(es: Seq<Seq<u8>>)
    requires
        forall|i: int| 0 <= i < es.len() ==> valid_utf8(#[trigger] es[i]),
    ensures
        forall|i: int| 0 <= i < resolve(es).len() ==> valid_utf8(#[trigger] resolve(es)[i]),
    decreases es.len(),
{
    if es.len() > 0 {
        let es0 = es.drop_last();
        assert forall|i: int| 0 <= i < es0.len() implies valid_utf8(#[trigger] es0[i]) by {
            assert(es0[i] == es[i]);
        }
        lemma_resolve_valid(es0);
        let st = resolve(es0);
        let e = es.last();
        assert(valid_utf8(e));
        assert forall|i: int| 0 <= i < resolve(es).len() implies valid_utf8(
            #[trigger] resolve(es)[i],
        ) by {
            if is_dotdot(e) && st.len() > 0 && !is_dotdot(st.last()) {
                assert(resolve(es)[i] == st[i]);
            } else if !is_dot(e) {
                if i < st.len() {
                    assert(resolve(es)[i] == st.push(e)[i]);
                }
            }
        }
    }
}

/// Joining valid UTF-8 elements gives valid UTF-8.
proof fn lemma_join_valid(st: Seq<Seq<u8>>)
    requires
        forall|i: int| 0 <= i < st.len() ==> valid_utf8(#[trigger] st[i]),
    ensures
        valid_utf8(join(st)),
    decreases st.len(),
{
    if st.len() == 0 {
        assert(valid_utf8(Seq::<u8>::empty()));
    } else if st.len() > 1 {
        let st0 = st.drop_last();
        assert forall|i: int| 0 <= i < st0.len() implies valid_utf8(#[trigger] st0[i]) by {
            assert(st0[i] == st[i]);
        }
        lemma_join_valid(st0);
        lemma_ascii_valid(seq![SEP]);
        valid_utf8_concat(join(st0), seq![SEP]);
        valid_utf8_concat(join(st0) + seq![SEP], st.last());
    }
}

/// Cleaning valid UTF-8 gives valid UTF-8.
pub proof fn lemma_clean_valid_utf8(b: Seq<u8>)
    requires
        valid_utf8(b),
    ensures
        valid_utf8(spec_clean(b)),
{
    lemma_ascii_valid(seq![DOT]);
    lemma_ascii_valid(seq![SEP]);
    lemma_ascii_valid(Seq::<u8>::empty());
    if b.len() > 0 {
        lemma_elements_valid(b);
        lemma_resolve_valid(elements(b));
        lemma_join_valid(resolve(elements(b)));
        let rooted = spec_is_sep(b[0]);
        let pre: Seq<u8> = if rooted { seq![SEP] } else { Seq::empty() };
        valid_utf8_concat(pre, join(resolve(elements(b))));
    }
}

/// Clean paths don't change, on text: the text that `clean` returns cleans to itself.
pub proof fn lemma_clean_text_idempotent(text: Seq<char>)
    ensures
        decode_utf8(spec_clean(encode_utf8(decode_utf8(spec_clean(encode_utf8(text))))))
            == decode_utf8(spec_clean(encode_utf8(text))),
{
    let b = spec_clean(encode_utf8(text));
    encode_utf8_valid_utf8(text);
    lemma_clean_valid_utf8(encode_utf8(text));
    decode_utf8_encode_utf8(b);
    lemma_clean_idempotent(encode_utf8(text));
}

/// Builds a `String` from bytes that are valid UTF-8 (`None` when they are not).
#[verifier::external_body]
fn string_from_utf8(bytes: Vec<u8>) -> (r: Option<String>)
    ensures
        r is Some <==> valid_utf8(bytes@),
        r matches Some(s) ==> s@ == decode_utf8(bytes@),
{
    String::from_utf8(bytes).ok()
}

/// Cleans a path lexically; see the module documentation for the rules. The result, read as
/// UTF-8, is the cleaned form of the path's UTF-8 bytes.
pub fn clean(path: &str) -> (res: String)
    ensures
        res@ == decode_utf8(spec_clean(path.spec_bytes())),
        encode_utf8(res@) == spec_clean(path.spec_bytes()),
{
    let bytes = path.as_bytes();
    proof {
        encode_utf8_valid_utf8(path@);
        lemma_clean_valid_utf8(bytes@);
    }
    let out = clean_internal(bytes);
    let ghost out_bytes = out@;
    match string_from_utf8(out) {
        Some(s) => {
            proof {
                decode_utf8_encode_utf8(out_bytes);
            }
            s
        },
        None => {
            proof {
                assert(false);
            }
            String::new()
        },
    }
}


#[verifier::external_type_specification]
#[verifier::external_body]
pub struct ExPath(std::path::Path);

#[verifier::external_type_specification]
#[verifier::external_body]
pub struct ExPathBuf(std::path::PathBuf);

/// The `clean` method: the cleaned form of a path. The [`clean`] function is the recommended way
/// to clean a path held as a string.
pub trait PathClean<T> {
    fn clean(&self) -> T;
}

/// What `Path::to_str` gives for a path: its text, when the path is valid Unicode. The text of a
/// path depends on the path alone.
pub uninterp spec fn path_text(path: &Path) -> Option<Seq<char>>;

/// What `to_str` gives for an owned path (through the `Path` it dereferences to): its text, when
/// the path is valid Unicode.
pub uninterp spec fn path_buf_text(path: PathBuf) -> Option<Seq<char>>;

/// The cleaned form of a text: the UTF-8 decoding of the cleaned form of its UTF-8 bytes (what
/// [`clean`] returns).
pub open spec fn clean_text(text: Seq<char>) -> Seq<char> {
    decode_utf8(spec_clean(encode_utf8(text)))
}

/// `Path::to_str`: the path as a string slice when it is valid Unicode, `None` otherwise. The
/// path's contents are not visible to the verifier; the result is named by [`path_text`].
#[verifier::external_body]
fn path_to_str(path: &Path) -> (r: Option<&str>)
    ensures
        r is None <==> path_text(path) is None,
        r matches Some(t) ==> path_text(path) == Some(t@),
{
    path.to_str()
}

/// `PathBuf::from` on a `String`: the string becomes the path's storage unchanged, so `to_str`
/// on the result reads the same text back. Nothing is said of the storage itself (its capacity
/// comes from how the string was built).
#[verifier::external_body]
fn path_buf_from_string(s: String) -> (r: PathBuf)
    ensures
        path_buf_text(r) == Some(s@),
{
    PathBuf::from(s)
}

impl PathClean<PathBuf> for Path {
    /// Cleans the path's text with [`clean`]; a path that is not valid Unicode is read as the
    /// empty path.
    fn clean(&self) -> (cleaned: PathBuf)
        ensures
            path_buf_text(cleaned) == Some(
                clean_text(
                    match path_text(self) {
                        Some(t) => t,
                        None => Seq::empty(),
                    },
                ),
            ),
    {
        let text = match path_to_str(self) {
            Some(s) => s,
            None => {
                proof {
                    reveal_strlit("");
                }
                ""
            },
        };
        path_buf_from_string(clean(text))
    }
}

} // verus!
