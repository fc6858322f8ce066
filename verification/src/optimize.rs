//! Peephole optimization of block functions.
//!
//! Four passes run in turn until a whole round changes nothing:
//! store-to-load forwarding through a temporary local, folding of
//! `local.set; local.get` into `local.tee`, caching of register-file values
//! in locals, and folding of integer constants. Every local that a pass
//! introduces holds an i64.

use crate::ir::{emit, ops, WasmFunction, WasmInst, WasmOp};
use std::collections::HashMap;
use vstd::prelude::*;

verus! {

broadcast use vstd::std_specs::hash::group_hash_axioms;

// ---------------------------------------------------------------------------
// Vocabulary
// ---------------------------------------------------------------------------

/// `x` in front of `rest`.
pub open spec fn cons(x: WasmOp, rest: Seq<WasmOp>) -> Seq<WasmOp> {
    seq![x] + rest
}

/// What a pass makes of the operations from some position on: the rewritten
/// operations, the number of rewrites, and the next unused local.
pub struct Rewritten {
    pub body: Seq<WasmOp>,
    pub changes: nat,
    pub next_local: int,
}

/// `x` in front of what was made of the rest, unchanged.
pub open spec fn kept(x: WasmOp, rest: Rewritten) -> Rewritten {
    Rewritten { body: cons(x, rest.body), changes: rest.changes, next_local: rest.next_local }
}

/// `body` in front of what was made of the rest, counted as one rewrite.
pub open spec fn rewrote(body: Seq<WasmOp>, rest: Rewritten) -> Rewritten {
    Rewritten { body, changes: rest.changes + 1, next_local: rest.next_local }
}

/// The end of a body.
pub open spec fn done(next_local: int) -> Rewritten {
    Rewritten { body: Seq::<WasmOp>::empty(), changes: 0, next_local }
}

/// The machine-state base, parameter 0.
pub open spec fn base_get() -> WasmOp {
    WasmOp::LocalGet { idx: 0 }
}

/// Offsets of the integer registers x1..x31. Offset 0 is left out: it is
/// also the zero displacement of every access to guest memory.
pub open spec fn cacheable(offset: u32) -> bool {
    offset != 0 && offset < 256 && offset % 8 == 0
}

// ---------------------------------------------------------------------------
// Removal of annotations
// ---------------------------------------------------------------------------

/// The body without its annotations.
pub open spec fn stripped(body: Seq<WasmOp>) -> Seq<WasmOp>
    decreases body.len(),
{
    if body.len() == 0 {
        Seq::<WasmOp>::empty()
    } else if body.last() is Comment {
        stripped(body.drop_last())
    } else {
        stripped(body.drop_last()).push(body.last())
    }
}

/// Does the body hold no annotation?
pub open spec fn bare(body: Seq<WasmOp>) -> bool {
    forall|i: int| 0 <= i < body.len() ==> !(#[trigger] body[i] is Comment)
}

// ---------------------------------------------------------------------------
// Pass 1: store-to-load forwarding
// ---------------------------------------------------------------------------

/// Forwarding from position `i` on. A store to offset X that is followed by
/// `local.get 0; i64.load X`, or by `local.get 0; local.get 0; i64.load X`,
/// tees the stored value to a fresh local, and the reload becomes a read of
/// that local.
pub open spec fn forward_from(body: Seq<WasmOp>, i: int, next_local: int) -> Rewritten
    decreases body.len() - i,
{
    if i < 0 || i >= body.len() {
        done(next_local)
    } else {
        match body[i] {
            WasmOp::I64Store { offset } => {
                let temp = WasmOp::LocalTee { idx: next_local as u32 };
                let read = WasmOp::LocalGet { idx: next_local as u32 };
                if i + 2 < body.len() && body[i + 1] == base_get() && body[i + 2]
                    == (WasmOp::I64Load { offset }) {
                    let rest = forward_from(body, i + 3, next_local + 1);
                    rewrote(cons(temp, cons(body[i], cons(read, rest.body))), rest)
                } else if i + 3 < body.len() && body[i + 1] == base_get() && body[i + 2]
                    == base_get() && body[i + 3] == (WasmOp::I64Load { offset }) {
                    let rest = forward_from(body, i + 4, next_local + 1);
                    rewrote(cons(temp, cons(body[i], cons(base_get(), cons(read, rest.body)))), rest)
                } else {
                    kept(body[i], forward_from(body, i + 1, next_local))
                }
            },
            _ => kept(body[i], forward_from(body, i + 1, next_local)),
        }
    }
}

// ---------------------------------------------------------------------------
// Pass 2: local.set; local.get of one local becomes local.tee
// ---------------------------------------------------------------------------

/// Is `a; b` a write of a local followed by a read of the same local?
pub open spec fn set_then_get(a: WasmOp, b: WasmOp) -> bool {
    a is LocalSet && b is LocalGet && a->LocalSet_idx == b->LocalGet_idx
}

/// Tee folding from position `i` on.
pub open spec fn tee_from(body: Seq<WasmOp>, i: int) -> Rewritten
    decreases body.len() - i,
{
    if i < 0 || i >= body.len() {
        done(0)
    } else if i + 1 < body.len() && set_then_get(body[i], body[i + 1]) {
        let rest = tee_from(body, i + 2);
        rewrote(cons(WasmOp::LocalTee { idx: body[i]->LocalSet_idx }, rest.body), rest)
    } else {
        kept(body[i], tee_from(body, i + 1))
    }
}

// ---------------------------------------------------------------------------
// Pass 3: register-file value caching
// ---------------------------------------------------------------------------

/// Is `a; b` a reload of a cached register?
pub open spec fn cached_reload(a: WasmOp, b: WasmOp, cache: Map<u32, u32>) -> bool {
    a == base_get() && b is I64Load && cacheable(b->I64Load_offset) && cache.contains_key(
        b->I64Load_offset,
    )
}

/// Register caching from position `i` on; `cache` maps the offset of each
/// register stored so far to the local that holds its value. A store to a
/// register whose value was just teed to a local adopts that local. Any
/// other store to a register tees its value to the register's local, a
/// fresh one if it has none yet. A reload of a cached register becomes a
/// read of its local.
pub open spec fn cache_from(body: Seq<WasmOp>, i: int, cache: Map<u32, u32>, next_local: int) -> Rewritten
    decreases body.len() - i,
{
    if i < 0 || i >= body.len() {
        done(next_local)
    } else if i + 1 < body.len() && cached_reload(body[i], body[i + 1], cache) {
        let rest = cache_from(body, i + 2, cache, next_local);
        rewrote(cons(WasmOp::LocalGet { idx: cache[body[i + 1]->I64Load_offset] }, rest.body), rest)
    } else if body[i] is I64Store && cacheable(body[i]->I64Store_offset) {
        let offset = body[i]->I64Store_offset;
        if i > 0 && body[i - 1] is LocalTee {
            kept(body[i], cache_from(body, i + 1, cache.insert(offset, body[i - 1]->LocalTee_idx), next_local))
        } else if cache.contains_key(offset) {
            let rest = cache_from(body, i + 1, cache, next_local);
            rewrote(cons(WasmOp::LocalTee { idx: cache[offset] }, cons(body[i], rest.body)), rest)
        } else {
            let rest = cache_from(body, i + 1, cache.insert(offset, next_local as u32), next_local + 1);
            rewrote(cons(WasmOp::LocalTee { idx: next_local as u32 }, cons(body[i], rest.body)), rest)
        }
    } else {
        kept(body[i], cache_from(body, i + 1, cache, next_local))
    }
}

// ---------------------------------------------------------------------------
// Pass 4: integer constant folding
// ---------------------------------------------------------------------------

/// The value of `lhs op rhs` for a foldable 64-bit operator.
pub open spec fn folded_i64(op: WasmOp, lhs: i64, rhs: i64) -> Option<i64> {
    match op {
        WasmOp::I64Add => Some(vstd::wrapping::i64_specs::wrapping_add(lhs, rhs)),
        WasmOp::I64Sub => Some(vstd::wrapping::i64_specs::wrapping_sub(lhs, rhs)),
        WasmOp::I64And => Some(lhs & rhs),
        WasmOp::I64Or => Some(lhs | rhs),
        WasmOp::I64Xor => Some(lhs ^ rhs),
        WasmOp::I64Shl => Some(((lhs as u64) << ((rhs as u64) & 63)) as i64),
        WasmOp::I64ShrS => Some(lhs >> ((rhs as u64) & 63)),
        WasmOp::I64ShrU => Some(((lhs as u64) >> ((rhs as u64) & 63)) as i64),
        _ => None,
    }
}

/// The value of `lhs op rhs` for a foldable 32-bit operator.
pub open spec fn folded_i32(op: WasmOp, lhs: i32, rhs: i32) -> Option<i32> {
    match op {
        WasmOp::I32Add => Some(vstd::wrapping::i32_specs::wrapping_add(lhs, rhs)),
        WasmOp::I32Sub => Some(vstd::wrapping::i32_specs::wrapping_sub(lhs, rhs)),
        WasmOp::I32And => Some(lhs & rhs),
        WasmOp::I32Or => Some(lhs | rhs),
        WasmOp::I32Xor => Some(lhs ^ rhs),
        WasmOp::I32Shl => Some(((lhs as u32) << ((rhs as u32) & 31)) as i32),
        WasmOp::I32ShrS => Some(lhs >> ((rhs as u32) & 31)),
        WasmOp::I32ShrU => Some(((lhs as u32) >> ((rhs as u32) & 31)) as i32),
        _ => None,
    }
}

/// The constant that the triple `a; b; op` folds to, if it is two constants
/// of one width and a foldable operator of that width.
pub open spec fn folded(a: WasmOp, b: WasmOp, op: WasmOp) -> Option<WasmOp> {
    if a is I64Const && b is I64Const && folded_i64(op, a->I64Const_value, b->I64Const_value)
        is Some {
        Some(
            WasmOp::I64Const {
                value: folded_i64(op, a->I64Const_value, b->I64Const_value)->Some_0,
            },
        )
    } else if a is I32Const && b is I32Const && folded_i32(
        op,
        a->I32Const_value,
        b->I32Const_value,
    ) is Some {
        Some(
            WasmOp::I32Const {
                value: folded_i32(op, a->I32Const_value, b->I32Const_value)->Some_0,
            },
        )
    } else {
        None
    }
}

/// Constant folding from position `i` on.
pub open spec fn fold_from(body: Seq<WasmOp>, i: int) -> Rewritten
    decreases body.len() - i,
{
    if i < 0 || i >= body.len() {
        done(0)
    } else if i + 2 < body.len() && folded(body[i], body[i + 1], body[i + 2]) is Some {
        let rest = fold_from(body, i + 3);
        rewrote(cons(folded(body[i], body[i + 1], body[i + 2])->Some_0, rest.body), rest)
    } else {
        kept(body[i], fold_from(body, i + 1))
    }
}


// ---------------------------------------------------------------------------
// What every pass keeps
// ---------------------------------------------------------------------------

/// A pass that rewrites nothing returns its input; no pass lowers the next
/// unused local, and none takes more new locals than it makes rewrites.
pub open spec fn faithful(input: Seq<WasmOp>, i: int, next_local: int, r: Rewritten) -> bool {
    &&& next_local <= r.next_local <= next_local + r.changes
    &&& r.changes == 0 ==> r.body == input.skip(i)
    &&& bare(input) ==> bare(r.body)
}

proof fn lemma_skip_cons(body: Seq<WasmOp>, i: int)
    requires
        0 <= i < body.len(),
    ensures
        body.skip(i) == cons(body[i], body.skip(i + 1)),
{
    assert(body.skip(i) =~= cons(body[i], body.skip(i + 1)));
}

proof fn lemma_bare_cons(x: WasmOp, rest: Seq<WasmOp>)
    requires
        !(x is Comment),
        bare(rest),
    ensures
        bare(cons(x, rest)),
{
    assert forall|j: int| 0 <= j < cons(x, rest).len() implies !(#[trigger] cons(x, rest)[j]
        is Comment) by {
        if j > 0 {
            assert(cons(x, rest)[j] == rest[j - 1]);
        }
    }
}

pub proof fn lemma_forward_faithful(body: Seq<WasmOp>, i: int, next_local: int)
    requires
        0 <= i <= body.len(),
    ensures
        faithful(body, i, next_local, forward_from(body, i, next_local)),
    decreases body.len() - i,
{
    let r = forward_from(body, i, next_local);
    if i >= body.len() {
        assert(body.skip(i) =~= Seq::<WasmOp>::empty());
    } else {
        lemma_skip_cons(body, i);
        let temp = WasmOp::LocalTee { idx: next_local as u32 };
        let read = WasmOp::LocalGet { idx: next_local as u32 };
        if body[i] is I64Store && i + 2 < body.len() && body[i + 1] == base_get() && body[i + 2] == (
        WasmOp::I64Load { offset: body[i]->I64Store_offset }) {
            lemma_forward_faithful(body, i + 3, next_local + 1);
            let rest = forward_from(body, i + 3, next_local + 1);
            if bare(body) {
                lemma_bare_cons(read, rest.body);
                lemma_bare_cons(body[i], cons(read, rest.body));
                lemma_bare_cons(temp, cons(body[i], cons(read, rest.body)));
            }
        } else if body[i] is I64Store && i + 3 < body.len() && body[i + 1] == base_get() && body[i
            + 2] == base_get() && body[i + 3] == (WasmOp::I64Load {
            offset: body[i]->I64Store_offset,
        }) {
            lemma_forward_faithful(body, i + 4, next_local + 1);
            let rest = forward_from(body, i + 4, next_local + 1);
            if bare(body) {
                lemma_bare_cons(read, rest.body);
                lemma_bare_cons(base_get(), cons(read, rest.body));
                lemma_bare_cons(body[i], cons(base_get(), cons(read, rest.body)));
                lemma_bare_cons(temp, cons(body[i], cons(base_get(), cons(read, rest.body))));
            }
        } else {
            lemma_forward_faithful(body, i + 1, next_local);
            if bare(body) {
                lemma_bare_cons(body[i], forward_from(body, i + 1, next_local).body);
            }
        }
    }
}

pub proof fn lemma_tee_faithful(body: Seq<WasmOp>, i: int)
    requires
        0 <= i <= body.len(),
    ensures
        faithful(body, i, 0, tee_from(body, i)),
        tee_from(body, i).next_local == 0,
    decreases body.len() - i,
{
    if i >= body.len() {
        assert(body.skip(i) =~= Seq::<WasmOp>::empty());
    } else {
        lemma_skip_cons(body, i);
        if i + 1 < body.len() && set_then_get(body[i], body[i + 1]) {
            lemma_tee_faithful(body, i + 2);
            if bare(body) {
                lemma_bare_cons(
                    WasmOp::LocalTee { idx: body[i]->LocalSet_idx },
                    tee_from(body, i + 2).body,
                );
            }
        } else {
            lemma_tee_faithful(body, i + 1);
            if bare(body) {
                lemma_bare_cons(body[i], tee_from(body, i + 1).body);
            }
        }
    }
}

pub proof fn lemma_cache_faithful(body: Seq<WasmOp>, i: int, cache: Map<u32, u32>, next_local: int)
    requires
        0 <= i <= body.len(),
    ensures
        faithful(body, i, next_local, cache_from(body, i, cache, next_local)),
    decreases body.len() - i,
{
    if i >= body.len() {
        assert(body.skip(i) =~= Seq::<WasmOp>::empty());
    } else {
        lemma_skip_cons(body, i);
        if i + 1 < body.len() && cached_reload(body[i], body[i + 1], cache) {
            lemma_cache_faithful(body, i + 2, cache, next_local);
            if bare(body) {
                lemma_bare_cons(
                    WasmOp::LocalGet { idx: cache[body[i + 1]->I64Load_offset] },
                    cache_from(body, i + 2, cache, next_local).body,
                );
            }
        } else if body[i] is I64Store && cacheable(body[i]->I64Store_offset) {
            let offset = body[i]->I64Store_offset;
            if i > 0 && body[i - 1] is LocalTee {
                let next_cache = cache.insert(offset, body[i - 1]->LocalTee_idx);
                lemma_cache_faithful(body, i + 1, next_cache, next_local);
                if bare(body) {
                    lemma_bare_cons(body[i], cache_from(body, i + 1, next_cache, next_local).body);
                }
            } else if cache.contains_key(offset) {
                lemma_cache_faithful(body, i + 1, cache, next_local);
                let rest = cache_from(body, i + 1, cache, next_local);
                if bare(body) {
                    lemma_bare_cons(body[i], rest.body);
                    lemma_bare_cons(WasmOp::LocalTee { idx: cache[offset] }, cons(body[i], rest.body));
                }
            } else {
                let next_cache = cache.insert(offset, next_local as u32);
                lemma_cache_faithful(body, i + 1, next_cache, next_local + 1);
                let rest = cache_from(body, i + 1, next_cache, next_local + 1);
                if bare(body) {
                    lemma_bare_cons(body[i], rest.body);
                    lemma_bare_cons(
                        WasmOp::LocalTee { idx: next_local as u32 },
                        cons(body[i], rest.body),
                    );
                }
            }
        } else {
            lemma_cache_faithful(body, i + 1, cache, next_local);
            if bare(body) {
                lemma_bare_cons(body[i], cache_from(body, i + 1, cache, next_local).body);
            }
        }
    }
}

pub proof fn lemma_fold_faithful(body: Seq<WasmOp>, i: int)
    requires
        0 <= i <= body.len(),
    ensures
        faithful(body, i, 0, fold_from(body, i)),
        fold_from(body, i).next_local == 0,
    decreases body.len() - i,
{
    if i >= body.len() {
        assert(body.skip(i) =~= Seq::<WasmOp>::empty());
    } else {
        lemma_skip_cons(body, i);
        if i + 2 < body.len() && folded(body[i], body[i + 1], body[i + 2]) is Some {
            lemma_fold_faithful(body, i + 3);
            if bare(body) {
                lemma_bare_cons(
                    folded(body[i], body[i + 1], body[i + 2])->Some_0,
                    fold_from(body, i + 3).body,
                );
            }
        } else {
            lemma_fold_faithful(body, i + 1);
            if bare(body) {
                lemma_bare_cons(body[i], fold_from(body, i + 1).body);
            }
        }
    }
}


// ---------------------------------------------------------------------------
// Why the rounds end
// ---------------------------------------------------------------------------

/// Operators that constant folding knows.
pub open spec fn foldable(op: WasmOp) -> bool {
    op is I64Add || op is I64Sub || op is I64And || op is I64Or || op is I64Xor || op is I64Shl
        || op is I64ShrS || op is I64ShrU || op is I32Add || op is I32Sub || op is I32And || op
        is I32Or || op is I32Xor || op is I32Shl || op is I32ShrS || op is I32ShrU
}

/// What one operation adds to the weight of a body: 1 for each 64-bit load,
/// each `local.set`, each foldable operator, and each register store that
/// does not follow a `local.tee`.
pub open spec fn unit(op: WasmOp, after_tee: bool) -> nat {
    if op is I64Load || op is LocalSet || foldable(op) {
        1
    } else if op is I64Store && cacheable(op->I64Store_offset) && !after_tee {
        1
    } else {
        0
    }
}

/// The weight of a body that follows a `local.tee` (`after_tee`) or not.
/// Every rewrite of every pass lowers it.
pub open spec fn weight(body: Seq<WasmOp>, after_tee: bool) -> nat
    decreases body.len(),
{
    if body.len() == 0 {
        0
    } else {
        unit(body[0], after_tee) + weight(body.drop_first(), body[0] is LocalTee)
    }
}

/// Does position `i` of `body` follow a `local.tee`?
pub open spec fn after(body: Seq<WasmOp>, i: int) -> bool {
    0 < i <= body.len() && body[i - 1] is LocalTee
}

proof fn lemma_weight_cons(x: WasmOp, rest: Seq<WasmOp>, after_tee: bool)
    ensures
        weight(cons(x, rest), after_tee) == unit(x, after_tee) + weight(rest, x is LocalTee),
{
    assert(cons(x, rest).drop_first() =~= rest);
}

/// The weight of a body is at most its length.
pub proof fn lemma_weight_len(body: Seq<WasmOp>, after_tee: bool)
    ensures
        weight(body, after_tee) <= body.len(),
    decreases body.len(),
{
    if body.len() > 0 {
        lemma_weight_len(body.drop_first(), body[0] is LocalTee);
    }
}

/// A pass lowers the weight by at least the number of its rewrites.
pub open spec fn lighter(input: Seq<WasmOp>, i: int, r: Rewritten, after_tee: bool) -> bool {
    weight(r.body, after_tee) + r.changes <= weight(input.skip(i), after(input, i))
}

proof fn lemma_kept_lighter(body: Seq<WasmOp>, i: int, rest: Rewritten, after_tee: bool)
    requires
        0 <= i < body.len(),
        after(body, i) ==> after_tee,
        lighter(body, i + 1, rest, body[i] is LocalTee),
    ensures
        lighter(body, i, kept(body[i], rest), after_tee),
{
    lemma_skip_cons(body, i);
    lemma_weight_cons(body[i], body.skip(i + 1), after(body, i));
    lemma_weight_cons(body[i], rest.body, after_tee);
}

pub proof fn lemma_forward_lighter(body: Seq<WasmOp>, i: int, next_local: int, after_tee: bool)
    requires
        0 <= i <= body.len(),
        after(body, i) ==> after_tee,
    ensures
        lighter(body, i, forward_from(body, i, next_local), after_tee),
    decreases body.len() - i,
{
    if i >= body.len() {
        assert(body.skip(i) =~= Seq::<WasmOp>::empty());
    } else {
        let temp = WasmOp::LocalTee { idx: next_local as u32 };
        let read = WasmOp::LocalGet { idx: next_local as u32 };
        if body[i] is I64Store && i + 2 < body.len() && body[i + 1] == base_get() && body[i + 2] == (
        WasmOp::I64Load { offset: body[i]->I64Store_offset }) {
            lemma_forward_lighter(body, i + 3, next_local + 1, false);
            let rest = forward_from(body, i + 3, next_local + 1);
            lemma_skip_cons(body, i);
            lemma_skip_cons(body, i + 1);
            lemma_skip_cons(body, i + 2);
            lemma_weight_cons(body[i], body.skip(i + 1), after(body, i));
            lemma_weight_cons(body[i + 1], body.skip(i + 2), false);
            lemma_weight_cons(body[i + 2], body.skip(i + 3), false);
            lemma_weight_cons(read, rest.body, true);
            lemma_weight_cons(body[i], cons(read, rest.body), true);
            lemma_weight_cons(temp, cons(body[i], cons(read, rest.body)), after_tee);
        } else if body[i] is I64Store && i + 3 < body.len() && body[i + 1] == base_get() && body[i
            + 2] == base_get() && body[i + 3] == (WasmOp::I64Load {
            offset: body[i]->I64Store_offset,
        }) {
            lemma_forward_lighter(body, i + 4, next_local + 1, false);
            let rest = forward_from(body, i + 4, next_local + 1);
            lemma_skip_cons(body, i);
            lemma_skip_cons(body, i + 1);
            lemma_skip_cons(body, i + 2);
            lemma_skip_cons(body, i + 3);
            lemma_weight_cons(body[i], body.skip(i + 1), after(body, i));
            lemma_weight_cons(body[i + 1], body.skip(i + 2), false);
            lemma_weight_cons(body[i + 2], body.skip(i + 3), false);
            lemma_weight_cons(body[i + 3], body.skip(i + 4), false);
            lemma_weight_cons(read, rest.body, false);
            lemma_weight_cons(base_get(), cons(read, rest.body), false);
            lemma_weight_cons(body[i], cons(base_get(), cons(read, rest.body)), true);
            lemma_weight_cons(
                temp,
                cons(body[i], cons(base_get(), cons(read, rest.body))),
                after_tee,
            );
        } else {
            lemma_forward_lighter(body, i + 1, next_local, body[i] is LocalTee);
            lemma_kept_lighter(body, i, forward_from(body, i + 1, next_local), after_tee);
        }
    }
}

pub proof fn lemma_tee_lighter(body: Seq<WasmOp>, i: int, after_tee: bool)
    requires
        0 <= i <= body.len(),
        after(body, i) ==> after_tee,
    ensures
        lighter(body, i, tee_from(body, i), after_tee),
    decreases body.len() - i,
{
    if i >= body.len() {
        assert(body.skip(i) =~= Seq::<WasmOp>::empty());
    } else if i + 1 < body.len() && set_then_get(body[i], body[i + 1]) {
        lemma_tee_lighter(body, i + 2, true);
        let rest = tee_from(body, i + 2);
        lemma_skip_cons(body, i);
        lemma_skip_cons(body, i + 1);
        lemma_weight_cons(body[i], body.skip(i + 1), after(body, i));
        lemma_weight_cons(body[i + 1], body.skip(i + 2), false);
        lemma_weight_cons(WasmOp::LocalTee { idx: body[i]->LocalSet_idx }, rest.body, after_tee);
    } else {
        lemma_tee_lighter(body, i + 1, body[i] is LocalTee);
        lemma_kept_lighter(body, i, tee_from(body, i + 1), after_tee);
    }
}

pub proof fn lemma_cache_lighter(
    body: Seq<WasmOp>,
    i: int,
    cache: Map<u32, u32>,
    next_local: int,
    after_tee: bool,
)
    requires
        0 <= i <= body.len(),
        after(body, i) ==> after_tee,
    ensures
        lighter(body, i, cache_from(body, i, cache, next_local), after_tee),
    decreases body.len() - i,
{
    if i >= body.len() {
        assert(body.skip(i) =~= Seq::<WasmOp>::empty());
    } else if i + 1 < body.len() && cached_reload(body[i], body[i + 1], cache) {
        lemma_cache_lighter(body, i + 2, cache, next_local, false);
        let rest = cache_from(body, i + 2, cache, next_local);
        lemma_skip_cons(body, i);
        lemma_skip_cons(body, i + 1);
        lemma_weight_cons(body[i], body.skip(i + 1), after(body, i));
        lemma_weight_cons(body[i + 1], body.skip(i + 2), false);
        lemma_weight_cons(
            WasmOp::LocalGet { idx: cache[body[i + 1]->I64Load_offset] },
            rest.body,
            after_tee,
        );
    } else if body[i] is I64Store && cacheable(body[i]->I64Store_offset) {
        let offset = body[i]->I64Store_offset;
        if i > 0 && body[i - 1] is LocalTee {
            let next_cache = cache.insert(offset, body[i - 1]->LocalTee_idx);
            lemma_cache_lighter(body, i + 1, next_cache, next_local, false);
            lemma_kept_lighter(body, i, cache_from(body, i + 1, next_cache, next_local), after_tee);
        } else {
            let next_cache = if cache.contains_key(offset) {
                cache
            } else {
                cache.insert(offset, next_local as u32)
            };
            let next = if cache.contains_key(offset) {
                next_local
            } else {
                next_local + 1
            };
            let local = if cache.contains_key(offset) {
                cache[offset]
            } else {
                next_local as u32
            };
            lemma_cache_lighter(body, i + 1, next_cache, next, false);
            let rest = cache_from(body, i + 1, next_cache, next);
            lemma_skip_cons(body, i);
            lemma_weight_cons(body[i], body.skip(i + 1), after(body, i));
            lemma_weight_cons(body[i], rest.body, true);
            lemma_weight_cons(WasmOp::LocalTee { idx: local }, cons(body[i], rest.body), after_tee);
        }
    } else {
        lemma_cache_lighter(body, i + 1, cache, next_local, body[i] is LocalTee);
        lemma_kept_lighter(body, i, cache_from(body, i + 1, cache, next_local), after_tee);
    }
}

pub proof fn lemma_fold_lighter(body: Seq<WasmOp>, i: int, after_tee: bool)
    requires
        0 <= i <= body.len(),
        after(body, i) ==> after_tee,
    ensures
        lighter(body, i, fold_from(body, i), after_tee),
    decreases body.len() - i,
{
    if i >= body.len() {
        assert(body.skip(i) =~= Seq::<WasmOp>::empty());
    } else if i + 2 < body.len() && folded(body[i], body[i + 1], body[i + 2]) is Some {
        lemma_fold_lighter(body, i + 3, false);
        let rest = fold_from(body, i + 3);
        lemma_skip_cons(body, i);
        lemma_skip_cons(body, i + 1);
        lemma_skip_cons(body, i + 2);
        lemma_weight_cons(body[i], body.skip(i + 1), after(body, i));
        lemma_weight_cons(body[i + 1], body.skip(i + 2), false);
        lemma_weight_cons(body[i + 2], body.skip(i + 3), false);
        lemma_weight_cons(folded(body[i], body[i + 1], body[i + 2])->Some_0, rest.body, after_tee);
    } else {
        lemma_fold_lighter(body, i + 1, body[i] is LocalTee);
        lemma_kept_lighter(body, i, fold_from(body, i + 1), after_tee);
    }
}


// ---------------------------------------------------------------------------
// Rounds
// ---------------------------------------------------------------------------

/// What one round of the four passes makes of a body.
pub struct Round {
    pub body: Seq<WasmOp>,
    pub changed: bool,
    pub next_local: int,
}

/// One round: forwarding, tee folding, register caching with an empty
/// cache, constant folding, each on the result of the pass before.
pub open spec fn round(body: Seq<WasmOp>, next_local: int) -> Round {
    let a = forward_from(body, 0, next_local);
    let b = tee_from(a.body, 0);
    let c = cache_from(b.body, 0, Map::<u32, u32>::empty(), a.next_local);
    let d = fold_from(c.body, 0);
    Round {
        body: d.body,
        changed: a.changes > 0 || b.changes > 0 || c.changes > 0 || d.changes > 0,
        next_local: c.next_local,
    }
}

/// A round that changes something lowers the weight; one that changes
/// nothing returns the body and the next unused local as they were. No
/// round takes more new locals than the weight it removes, and none brings
/// an annotation into a body that has none.
pub proof fn lemma_round(body: Seq<WasmOp>, next_local: int)
    ensures
        ({
            let r = round(body, next_local);
            &&& r.changed ==> weight(r.body, false) < weight(body, false)
            &&& !r.changed ==> r.body == body && r.next_local == next_local
            &&& !r.changed ==> forward_from(body, 0, next_local).changes == 0 && tee_from(body, 0).changes == 0 && cache_from(body, 0, Map::<u32, u32>::empty(), next_local).changes
                == 0 && fold_from(body, 0).changes == 0
            &&& next_local <= r.next_local
            &&& r.next_local + weight(r.body, false) <= next_local + weight(body, false)
            &&& bare(body) ==> bare(r.body)
        }),
{
    let a = forward_from(body, 0, next_local);
    let b = tee_from(a.body, 0);
    let c = cache_from(b.body, 0, Map::<u32, u32>::empty(), a.next_local);
    let d = fold_from(c.body, 0);
    lemma_forward_faithful(body, 0, next_local);
    lemma_forward_lighter(body, 0, next_local, false);
    assert(body.skip(0) =~= body);
    lemma_tee_faithful(a.body, 0);
    lemma_tee_lighter(a.body, 0, false);
    assert(a.body.skip(0) =~= a.body);
    lemma_cache_faithful(b.body, 0, Map::<u32, u32>::empty(), a.next_local);
    lemma_cache_lighter(b.body, 0, Map::<u32, u32>::empty(), a.next_local, false);
    assert(b.body.skip(0) =~= b.body);
    lemma_fold_faithful(c.body, 0);
    lemma_fold_lighter(c.body, 0, false);
    assert(c.body.skip(0) =~= c.body);
}

/// Rounds until one changes nothing: the body and the next unused local at
/// the fixed point.
pub open spec fn settle(body: Seq<WasmOp>, next_local: int) -> (Seq<WasmOp>, int)
    decreases weight(body, false),
    via settle_decreases
{
    let r = round(body, next_local);
    if r.changed {
        settle(r.body, r.next_local)
    } else {
        (r.body, r.next_local)
    }
}

#[via_fn]
proof fn settle_decreases(body: Seq<WasmOp>, next_local: int) {
    lemma_round(body, next_local);
}

/// What optimization makes of a function: annotations are removed, then
/// rounds run to the fixed point. The second component is the number of
/// locals of the optimized function.
pub open spec fn optimized(body: Seq<WasmOp>, num_locals: u32) -> (Seq<WasmOp>, int) {
    settle(stripped(body), num_locals as int)
}

/// Has the body reached the fixed point of the rounds?
pub open spec fn settled(body: Seq<WasmOp>, next_local: int) -> bool {
    !round(body, next_local).changed
}

proof fn lemma_stripped_bare(body: Seq<WasmOp>)
    ensures
        bare(stripped(body)),
        stripped(body).len() <= body.len(),
        bare(body) ==> stripped(body) == body,
    decreases body.len(),
{
    if body.len() > 0 {
        lemma_stripped_bare(body.drop_last());
        if bare(body) {
            assert(!(body[body.len() - 1] is Comment));
            assert forall|i: int| 0 <= i < body.drop_last().len() implies !(
            #[trigger] body.drop_last()[i] is Comment) by {
                assert(body.drop_last()[i] == body[i]);
            }
            assert(stripped(body) =~= body);
        }
    }
}

/// The fixed point is a fixed point: it is bare if the start was, no round
/// changes it, and it needs no more locals than the weight it removed.
pub proof fn lemma_settle(body: Seq<WasmOp>, next_local: int)
    ensures
        ({
            let s = settle(body, next_local);
            &&& settled(s.0, s.1)
            &&& settle(s.0, s.1) == s
            &&& bare(body) ==> bare(s.0)
            &&& next_local <= s.1 <= next_local + weight(body, false)
        }),
    decreases weight(body, false),
{
    lemma_round(body, next_local);
    let r = round(body, next_local);
    if r.changed {
        lemma_settle(r.body, r.next_local);
    }
}

/// Optimizing an optimized function changes nothing, neither its body nor
/// its number of locals.
pub proof fn lemma_optimize_idempotent(body: Seq<WasmOp>, num_locals: u32)
    requires
        num_locals + body.len() <= u32::MAX,
    ensures
        ({
            let once = optimized(body, num_locals);
            &&& 0 <= once.1 <= u32::MAX
            &&& optimized(once.0, once.1 as u32) == once
        }),
{
    lemma_stripped_bare(body);
    lemma_weight_len(stripped(body), false);
    lemma_settle(stripped(body), num_locals as int);
    let once = optimized(body, num_locals);
    lemma_stripped_bare(once.0);
}

proof fn lemma_fold_none(body: Seq<WasmOp>, i: int)
    requires
        0 <= i <= body.len(),
        fold_from(body, i).changes == 0,
    ensures
        forall|j: int|
            i <= j && j + 2 < body.len() ==> folded(
                #[trigger] body[j],
                body[j + 1],
                body[j + 2],
            ) is None,
    decreases body.len() - i,
{
    if i < body.len() {
        lemma_fold_none(body, i + 1);
    }
}

/// After optimization no triple of two constants and a foldable operator
/// of their width remains: in particular no
/// `i64.const K1; i64.const K2; i64.add`.
pub proof fn lemma_optimized_has_no_constant_triple(body: Seq<WasmOp>, num_locals: u32, j: int)
    requires
        0 <= j,
        j + 2 < optimized(body, num_locals).0.len(),
    ensures
        ({
            let out = optimized(body, num_locals).0;
            &&& folded(out[j], out[j + 1], out[j + 2]) is None
            &&& !(out[j] is I64Const && out[j + 1] is I64Const && out[j + 2] is I64Add)
        }),
{
    let s = optimized(body, num_locals);
    lemma_settle(stripped(body), num_locals as int);
    lemma_round(s.0, s.1);
    lemma_fold_none(s.0, 0);
}


// ---------------------------------------------------------------------------
// What optimization keeps at the end of a body
// ---------------------------------------------------------------------------

/// Does the body end in `return`?
pub open spec fn ends_in_return(body: Seq<WasmOp>) -> bool {
    body.len() >= 1 && body.last() == WasmOp::Return
}

/// Does the body end in the return of the 32-bit constant `value`?
pub open spec fn returns_constant(body: Seq<WasmOp>, value: i32) -> bool {
    body.len() >= 2 && body.last() == WasmOp::Return && body[body.len() - 2] == (WasmOp::I32Const {
        value,
    })
}

/// What a pass made of the operations from `i` on ends as the input does,
/// where the input ends in a return.
pub open spec fn same_end(input: Seq<WasmOp>, i: int, out: Seq<WasmOp>) -> bool {
    &&& ends_in_return(input) && i <= input.len() - 1 ==> ends_in_return(out)
    &&& forall|value: i32|
        returns_constant(input, value) && i <= input.len() - 2 ==> returns_constant(out, value)
}

proof fn lemma_cons_end(x: WasmOp, rest: Seq<WasmOp>)
    ensures
        ends_in_return(rest) ==> ends_in_return(cons(x, rest)),
        forall|value: i32| returns_constant(rest, value) ==> returns_constant(cons(x, rest), value),
{
    let all = cons(x, rest);
    if rest.len() >= 1 {
        assert(all.last() == rest.last());
    }
    if rest.len() >= 2 {
        assert(all[all.len() - 2] == rest[rest.len() - 2]);
    }
}

proof fn lemma_kept_end(body: Seq<WasmOp>, i: int, rest: Seq<WasmOp>)
    requires
        0 <= i < body.len(),
        same_end(body, i + 1, rest),
        i == body.len() - 1 ==> rest.len() == 0,
        i == body.len() - 2 && ends_in_return(body) ==> rest.len() == 1 && rest[0] == body.last(),
    ensures
        same_end(body, i, cons(body[i], rest)),
{
    lemma_cons_end(body[i], rest);
    let all = cons(body[i], rest);
    if i == body.len() - 1 {
        assert(all.last() == body[i]);
    }
    if i == body.len() - 2 && ends_in_return(body) {
        assert(all.last() == rest[0]);
        assert(all[all.len() - 2] == body[i]);
    }
}

/// What every pass copies: the last operation, if nothing can be rewritten
/// there, and the last two.
pub open spec fn copies_end(input: Seq<WasmOp>, i: int, out: Seq<WasmOp>) -> bool {
    &&& same_end(input, i, out)
    &&& i >= input.len() ==> out.len() == 0
    &&& i == input.len() - 1 && ends_in_return(input) ==> out.len() == 1 && out[0] == input.last()
}

pub proof fn lemma_forward_end(body: Seq<WasmOp>, i: int, next_local: int)
    requires
        0 <= i <= body.len(),
    ensures
        copies_end(body, i, forward_from(body, i, next_local).body),
    decreases body.len() - i,
{
    if i < body.len() {
        let temp = WasmOp::LocalTee { idx: next_local as u32 };
        let read = WasmOp::LocalGet { idx: next_local as u32 };
        if body[i] is I64Store && i + 2 < body.len() && body[i + 1] == base_get() && body[i + 2] == (
        WasmOp::I64Load { offset: body[i]->I64Store_offset }) {
            lemma_forward_end(body, i + 3, next_local + 1);
            let rest = forward_from(body, i + 3, next_local + 1).body;
            lemma_cons_end(read, rest);
            lemma_cons_end(body[i], cons(read, rest));
            lemma_cons_end(temp, cons(body[i], cons(read, rest)));
        } else if body[i] is I64Store && i + 3 < body.len() && body[i + 1] == base_get() && body[i
            + 2] == base_get() && body[i + 3] == (WasmOp::I64Load {
            offset: body[i]->I64Store_offset,
        }) {
            lemma_forward_end(body, i + 4, next_local + 1);
            let rest = forward_from(body, i + 4, next_local + 1).body;
            lemma_cons_end(read, rest);
            lemma_cons_end(base_get(), cons(read, rest));
            lemma_cons_end(body[i], cons(base_get(), cons(read, rest)));
            lemma_cons_end(temp, cons(body[i], cons(base_get(), cons(read, rest))));
        } else {
            lemma_forward_end(body, i + 1, next_local);
            lemma_kept_end(body, i, forward_from(body, i + 1, next_local).body);
        }
    }
}

pub proof fn lemma_tee_end(body: Seq<WasmOp>, i: int)
    requires
        0 <= i <= body.len(),
    ensures
        copies_end(body, i, tee_from(body, i).body),
    decreases body.len() - i,
{
    if i < body.len() {
        if i + 1 < body.len() && set_then_get(body[i], body[i + 1]) {
            lemma_tee_end(body, i + 2);
            lemma_cons_end(WasmOp::LocalTee { idx: body[i]->LocalSet_idx }, tee_from(body, i + 2).body);
        } else {
            lemma_tee_end(body, i + 1);
            lemma_kept_end(body, i, tee_from(body, i + 1).body);
        }
    }
}

pub proof fn lemma_cache_end(body: Seq<WasmOp>, i: int, cache: Map<u32, u32>, next_local: int)
    requires
        0 <= i <= body.len(),
    ensures
        copies_end(body, i, cache_from(body, i, cache, next_local).body),
    decreases body.len() - i,
{
    if i < body.len() {
        if i + 1 < body.len() && cached_reload(body[i], body[i + 1], cache) {
            lemma_cache_end(body, i + 2, cache, next_local);
            lemma_cons_end(
                WasmOp::LocalGet { idx: cache[body[i + 1]->I64Load_offset] },
                cache_from(body, i + 2, cache, next_local).body,
            );
        } else if body[i] is I64Store && cacheable(body[i]->I64Store_offset) {
            let offset = body[i]->I64Store_offset;
            if i > 0 && body[i - 1] is LocalTee {
                let next_cache = cache.insert(offset, body[i - 1]->LocalTee_idx);
                lemma_cache_end(body, i + 1, next_cache, next_local);
                lemma_kept_end(body, i, cache_from(body, i + 1, next_cache, next_local).body);
            } else if cache.contains_key(offset) {
                lemma_cache_end(body, i + 1, cache, next_local);
                let rest = cache_from(body, i + 1, cache, next_local).body;
                lemma_kept_end(body, i, rest);
                lemma_cons_end(WasmOp::LocalTee { idx: cache[offset] }, cons(body[i], rest));
            } else {
                let next_cache = cache.insert(offset, next_local as u32);
                lemma_cache_end(body, i + 1, next_cache, next_local + 1);
                let rest = cache_from(body, i + 1, next_cache, next_local + 1).body;
                lemma_kept_end(body, i, rest);
                lemma_cons_end(WasmOp::LocalTee { idx: next_local as u32 }, cons(body[i], rest));
            }
        } else {
            lemma_cache_end(body, i + 1, cache, next_local);
            lemma_kept_end(body, i, cache_from(body, i + 1, cache, next_local).body);
        }
    }
}

pub proof fn lemma_fold_end(body: Seq<WasmOp>, i: int)
    requires
        0 <= i <= body.len(),
    ensures
        copies_end(body, i, fold_from(body, i).body),
    decreases body.len() - i,
{
    if i < body.len() {
        if i + 2 < body.len() && folded(body[i], body[i + 1], body[i + 2]) is Some {
            lemma_fold_end(body, i + 3);
            lemma_cons_end(
                folded(body[i], body[i + 1], body[i + 2])->Some_0,
                fold_from(body, i + 3).body,
            );
        } else {
            lemma_fold_end(body, i + 1);
            lemma_kept_end(body, i, fold_from(body, i + 1).body);
        }
    }
}

proof fn lemma_stripped_end(body: Seq<WasmOp>)
    ensures
        ends_in_return(body) ==> ends_in_return(stripped(body)),
        forall|value: i32| returns_constant(body, value) ==> returns_constant(stripped(body), value),
{
    if body.len() >= 1 && body.last() == WasmOp::Return {
        let front = body.drop_last();
        assert(stripped(body) == stripped(front).push(body.last()));
        if front.len() >= 1 && front.last() is I32Const {
            assert(stripped(front) == stripped(front.drop_last()).push(front.last()));
            assert(front.last() == body[body.len() - 2]);
        }
    }
}

proof fn lemma_settle_end(body: Seq<WasmOp>, next_local: int)
    ensures
        ends_in_return(body) ==> ends_in_return(settle(body, next_local).0),
        forall|value: i32|
            returns_constant(body, value) ==> returns_constant(settle(body, next_local).0, value),
    decreases weight(body, false),
{
    lemma_round(body, next_local);
    let a = forward_from(body, 0, next_local);
    let b = tee_from(a.body, 0);
    let c = cache_from(b.body, 0, Map::<u32, u32>::empty(), a.next_local);
    let d = fold_from(c.body, 0);
    lemma_forward_end(body, 0, next_local);
    lemma_tee_end(a.body, 0);
    lemma_cache_end(b.body, 0, Map::<u32, u32>::empty(), a.next_local);
    lemma_fold_end(c.body, 0);
    let r = round(body, next_local);
    if r.changed {
        lemma_settle_end(r.body, r.next_local);
    }
}

/// Optimization keeps the return at the end of a body, and the constant
/// that is returned.
pub proof fn lemma_optimized_keeps_return(body: Seq<WasmOp>, num_locals: u32)
    ensures
        ends_in_return(body) ==> ends_in_return(optimized(body, num_locals).0),
        forall|value: i32|
            returns_constant(body, value) ==> returns_constant(
                optimized(body, num_locals).0,
                value,
            ),
{
    lemma_stripped_end(body);
    lemma_settle_end(stripped(body), num_locals as int);
}

// ---------------------------------------------------------------------------
// The passes
// ---------------------------------------------------------------------------

fn is_base_get(inst: &WasmInst) -> (r: bool)
    ensures
        r == (inst@ == base_get()),
{
    match inst {
        WasmInst::LocalGet { idx } => *idx == 0,
        _ => false,
    }
}

fn load_offset(inst: &WasmInst) -> (r: Option<u32>)
    ensures
        r is Some <==> inst@ is I64Load,
        r is Some ==> inst@ == (WasmOp::I64Load { offset: r->Some_0 }),
{
    match inst {
        WasmInst::I64Load { offset } => Some(*offset),
        _ => None,
    }
}

fn store_offset(inst: &WasmInst) -> (r: Option<u32>)
    ensures
        r is Some <==> inst@ is I64Store,
        r is Some ==> inst@ == (WasmOp::I64Store { offset: r->Some_0 }),
{
    match inst {
        WasmInst::I64Store { offset } => Some(*offset),
        _ => None,
    }
}

fn tee_index(inst: &WasmInst) -> (r: Option<u32>)
    ensures
        r is Some <==> inst@ is LocalTee,
        r is Some ==> inst@ == (WasmOp::LocalTee { idx: r->Some_0 }),
{
    match inst {
        WasmInst::LocalTee { idx } => Some(*idx),
        _ => None,
    }
}

fn set_index(inst: &WasmInst) -> (r: Option<u32>)
    ensures
        r is Some <==> inst@ is LocalSet,
        r is Some ==> inst@ == (WasmOp::LocalSet { idx: r->Some_0 }),
{
    match inst {
        WasmInst::LocalSet { idx } => Some(*idx),
        _ => None,
    }
}

fn get_index(inst: &WasmInst) -> (r: Option<u32>)
    ensures
        r is Some <==> inst@ is LocalGet,
        r is Some ==> inst@ == (WasmOp::LocalGet { idx: r->Some_0 }),
{
    match inst {
        WasmInst::LocalGet { idx } => Some(*idx),
        _ => None,
    }
}

fn is_load_of(inst: &WasmInst, offset: u32) -> (r: bool)
    ensures
        r == (inst@ == (WasmOp::I64Load { offset })),
{
    match load_offset(inst) {
        Some(x) => x == offset,
        None => false,
    }
}

fn is_cacheable_gpr_offset(offset: u32) -> (r: bool)
    ensures
        r == cacheable(offset),
{
    offset != 0 && offset < 256 && offset % 8 == 0
}

/// Forwards stored values to the reloads that follow them; see
/// [`forward_from`].
pub fn forward_i64_store_loads(body: Vec<WasmInst>, next_local: &mut u32) -> (r: (
    Vec<WasmInst>,
    usize,
))
    requires
        forward_from(ops(body@), 0, *old(next_local) as int).next_local <= u32::MAX,
    ensures
        ({
            let want = forward_from(ops(body@), 0, *old(next_local) as int);
            &&& ops(r.0@) == want.body
            &&& r.1 == want.changes
            &&& *final(next_local) == want.next_local
        }),
{
    let ghost all = ops(body@);
    let ghost want = forward_from(all, 0, *next_local as int);
    let mut out: Vec<WasmInst> = Vec::new();
    let mut i: usize = 0;
    let mut changes: usize = 0;
    let n = body.len();
    proof {
        assert(ops(out@) =~= Seq::<WasmOp>::empty());
        assert(ops(out@) + want.body =~= want.body);
    }
    while i < n
        invariant
            n == body.len(),
            all == ops(body@),
            i <= n,
            changes <= i,
            want.next_local <= u32::MAX,
            want.body == ops(out@) + forward_from(all, i as int, *next_local as int).body,
            want.changes == changes + forward_from(all, i as int, *next_local as int).changes,
            want.next_local == forward_from(all, i as int, *next_local as int).next_local,
        decreases n - i,
    {
        let ghost before = ops(out@);
        let ghost next = *next_local as int;
        let mut handled = false;
        match store_offset(&body[i]) {
            Some(x) => {
                if n - i > 2 && is_base_get(&body[i + 1]) && is_load_of(&body[i + 2], x) {
                    proof {
                        lemma_forward_faithful(all, i + 3, next + 1);
                    }
                    let temp: u32 = *next_local;
                    *next_local = temp + 1;
                    emit(&mut out, WasmInst::LocalTee { idx: temp });
                    emit(&mut out, body[i].duplicate());
                    emit(&mut out, WasmInst::LocalGet { idx: temp });
                    proof {
                        let rest = forward_from(all, i + 3, next + 1);
                        assert(ops(out@) + rest.body =~= before + cons(
                            WasmOp::LocalTee { idx: temp },
                            cons(all[i as int], cons(WasmOp::LocalGet { idx: temp }, rest.body)),
                        ));
                    }
                    i += 3;
                    changes += 1;
                    handled = true;
                } else if n - i > 3 && is_base_get(&body[i + 1]) && is_base_get(&body[i + 2])
                    && is_load_of(&body[i + 3], x) {
                    proof {
                        lemma_forward_faithful(all, i + 4, next + 1);
                    }
                    let temp: u32 = *next_local;
                    *next_local = temp + 1;
                    emit(&mut out, WasmInst::LocalTee { idx: temp });
                    emit(&mut out, body[i].duplicate());
                    emit(&mut out, WasmInst::LocalGet { idx: 0 });
                    emit(&mut out, WasmInst::LocalGet { idx: temp });
                    proof {
                        let rest = forward_from(all, i + 4, next + 1);
                        assert(ops(out@) + rest.body =~= before + cons(
                            WasmOp::LocalTee { idx: temp },
                            cons(
                                all[i as int],
                                cons(base_get(), cons(WasmOp::LocalGet { idx: temp }, rest.body)),
                            ),
                        ));
                    }
                    i += 4;
                    changes += 1;
                    handled = true;
                }
            },
            None => {},
        }
        if !handled {
            emit(&mut out, body[i].duplicate());
            proof {
                let rest = forward_from(all, i + 1, next);
                assert(ops(out@) + rest.body =~= before + cons(all[i as int], rest.body));
            }
            i += 1;
        }
    }
    proof {
        assert(ops(out@) + Seq::<WasmOp>::empty() =~= ops(out@));
    }
    (out, changes)
}

/// Folds `local.set; local.get` of one local into `local.tee`; see
/// [`tee_from`].
pub fn fold_local_set_get(body: Vec<WasmInst>) -> (r: (Vec<WasmInst>, usize))
    ensures
        ops(r.0@) == tee_from(ops(body@), 0).body,
        r.1 == tee_from(ops(body@), 0).changes,
{
    let ghost all = ops(body@);
    let ghost want = tee_from(all, 0);
    let mut out: Vec<WasmInst> = Vec::new();
    let mut i: usize = 0;
    let mut changes: usize = 0;
    let n = body.len();
    proof {
        assert(ops(out@) =~= Seq::<WasmOp>::empty());
        assert(ops(out@) + want.body =~= want.body);
    }
    while i < n
        invariant
            n == body.len(),
            all == ops(body@),
            i <= n,
            changes <= i,
            want.body == ops(out@) + tee_from(all, i as int).body,
            want.changes == changes + tee_from(all, i as int).changes,
        decreases n - i,
    {
        let ghost before = ops(out@);
        let mut handled = false;
        if n - i > 1 {
            match (set_index(&body[i]), get_index(&body[i + 1])) {
                (Some(set_idx), Some(get_idx)) => {
                    if set_idx == get_idx {
                        emit(&mut out, WasmInst::LocalTee { idx: set_idx });
                        proof {
                            let rest = tee_from(all, i + 2);
                            assert(ops(out@) + rest.body =~= before + cons(
                                WasmOp::LocalTee { idx: set_idx },
                                rest.body,
                            ));
                        }
                        i += 2;
                        changes += 1;
                        handled = true;
                    }
                },
                _ => {},
            }
        }
        if !handled {
            emit(&mut out, body[i].duplicate());
            proof {
                let rest = tee_from(all, i + 1);
                assert(ops(out@) + rest.body =~= before + cons(all[i as int], rest.body));
            }
            i += 1;
        }
    }
    proof {
        assert(ops(out@) + Seq::<WasmOp>::empty() =~= ops(out@));
    }
    (out, changes)
}

/// The value of `lhs op rhs` if `op` is a foldable 64-bit operator.
pub fn fold_i64_binop(op: &WasmInst, lhs: i64, rhs: i64) -> (r: Option<i64>)
    ensures
        r == folded_i64(op@, lhs, rhs),
{
    let amount: u64 = (rhs as u64) & 63;
    assert(amount < 64) by (bit_vector)
        requires
            amount == (rhs as u64) & 63,
    ;
    match op {
        WasmInst::I64Add => Some(lhs.wrapping_add(rhs)),
        WasmInst::I64Sub => Some(lhs.wrapping_sub(rhs)),
        WasmInst::I64And => Some(lhs & rhs),
        WasmInst::I64Or => Some(lhs | rhs),
        WasmInst::I64Xor => Some(lhs ^ rhs),
        WasmInst::I64Shl => Some(((lhs as u64) << amount) as i64),
        WasmInst::I64ShrS => Some(lhs >> amount),
        WasmInst::I64ShrU => Some(((lhs as u64) >> amount) as i64),
        _ => None,
    }
}

/// The value of `lhs op rhs` if `op` is a foldable 32-bit operator.
pub fn fold_i32_binop(op: &WasmInst, lhs: i32, rhs: i32) -> (r: Option<i32>)
    ensures
        r == folded_i32(op@, lhs, rhs),
{
    let amount: u32 = (rhs as u32) & 31;
    assert(amount < 32) by (bit_vector)
        requires
            amount == (rhs as u32) & 31,
    ;
    match op {
        WasmInst::I32Add => Some(lhs.wrapping_add(rhs)),
        WasmInst::I32Sub => Some(lhs.wrapping_sub(rhs)),
        WasmInst::I32And => Some(lhs & rhs),
        WasmInst::I32Or => Some(lhs | rhs),
        WasmInst::I32Xor => Some(lhs ^ rhs),
        WasmInst::I32Shl => Some(((lhs as u32) << amount) as i32),
        WasmInst::I32ShrS => Some(lhs >> amount),
        WasmInst::I32ShrU => Some(((lhs as u32) >> amount) as i32),
        _ => None,
    }
}

fn fold_triple(a: &WasmInst, b: &WasmInst, op: &WasmInst) -> (r: Option<WasmInst>)
    ensures
        r is Some <==> folded(a@, b@, op@) is Some,
        r is Some ==> r->Some_0@ == folded(a@, b@, op@)->Some_0,
{
    match (a, b) {
        (WasmInst::I64Const { value: x }, WasmInst::I64Const { value: y }) => {
            match fold_i64_binop(op, *x, *y) {
                Some(value) => Some(WasmInst::I64Const { value }),
                None => None,
            }
        },
        (WasmInst::I32Const { value: x }, WasmInst::I32Const { value: y }) => {
            match fold_i32_binop(op, *x, *y) {
                Some(value) => Some(WasmInst::I32Const { value }),
                None => None,
            }
        },
        _ => None,
    }
}

/// Folds constant triples; see [`fold_from`].
pub fn fold_integer_constants(body: Vec<WasmInst>) -> (r: (Vec<WasmInst>, usize))
    ensures
        ops(r.0@) == fold_from(ops(body@), 0).body,
        r.1 == fold_from(ops(body@), 0).changes,
{
    let ghost all = ops(body@);
    let ghost want = fold_from(all, 0);
    let mut out: Vec<WasmInst> = Vec::new();
    let mut i: usize = 0;
    let mut changes: usize = 0;
    let n = body.len();
    proof {
        assert(ops(out@) =~= Seq::<WasmOp>::empty());
        assert(ops(out@) + want.body =~= want.body);
    }
    while i < n
        invariant
            n == body.len(),
            all == ops(body@),
            i <= n,
            changes <= i,
            want.body == ops(out@) + fold_from(all, i as int).body,
            want.changes == changes + fold_from(all, i as int).changes,
        decreases n - i,
    {
        let ghost before = ops(out@);
        let mut handled = false;
        if n - i > 2 {
            match fold_triple(&body[i], &body[i + 1], &body[i + 2]) {
                Some(value) => {
                    let ghost v = value@;
                    emit(&mut out, value);
                    proof {
                        let rest = fold_from(all, i + 3);
                        assert(ops(out@) + rest.body =~= before + cons(v, rest.body));
                    }
                    i += 3;
                    changes += 1;
                    handled = true;
                },
                None => {},
            }
        }
        if !handled {
            emit(&mut out, body[i].duplicate());
            proof {
                let rest = fold_from(all, i + 1);
                assert(ops(out@) + rest.body =~= before + cons(all[i as int], rest.body));
            }
            i += 1;
        }
    }
    proof {
        assert(ops(out@) + Seq::<WasmOp>::empty() =~= ops(out@));
    }
    (out, changes)
}

/// Caches register values in locals; see [`cache_from`].
pub fn cache_gpr_i64_values(body: Vec<WasmInst>, next_local: &mut u32) -> (r: (Vec<WasmInst>, usize))
    requires
        cache_from(ops(body@), 0, Map::<u32, u32>::empty(), *old(next_local) as int).next_local
            <= u32::MAX,
    ensures
        ({
            let want = cache_from(
                ops(body@),
                0,
                Map::<u32, u32>::empty(),
                *old(next_local) as int,
            );
            &&& ops(r.0@) == want.body
            &&& r.1 == want.changes
            &&& *final(next_local) == want.next_local
        }),
{
    let ghost all = ops(body@);
    let ghost want = cache_from(all, 0, Map::<u32, u32>::empty(), *next_local as int);
    let mut out: Vec<WasmInst> = Vec::new();
    let mut i: usize = 0;
    let mut changes: usize = 0;
    let mut offset_to_local: HashMap<u32, u32> = HashMap::new();
    let n = body.len();
    proof {
        assert(ops(out@) =~= Seq::<WasmOp>::empty());
        assert(ops(out@) + want.body =~= want.body);
    }
    while i < n
        invariant
            n == body.len(),
            all == ops(body@),
            i <= n,
            changes <= i,
            want.next_local <= u32::MAX,
            want.body == ops(out@) + cache_from(
                all,
                i as int,
                offset_to_local@,
                *next_local as int,
            ).body,
            want.changes == changes + cache_from(
                all,
                i as int,
                offset_to_local@,
                *next_local as int,
            ).changes,
            want.next_local == cache_from(
                all,
                i as int,
                offset_to_local@,
                *next_local as int,
            ).next_local,
        decreases n - i,
    {
        let ghost before = ops(out@);
        let ghost next = *next_local as int;
        let ghost cache = offset_to_local@;
        let mut handled = false;
        if n - i > 1 && is_base_get(&body[i]) {
            match load_offset(&body[i + 1]) {
                Some(offset) => {
                    if is_cacheable_gpr_offset(offset) {
                        match offset_to_local.get(&offset) {
                            Some(local) => {
                                let idx: u32 = *local;
                                emit(&mut out, WasmInst::LocalGet { idx });
                                proof {
                                    let rest = cache_from(all, i + 2, cache, next);
                                    assert(ops(out@) + rest.body =~= before + cons(
                                        WasmOp::LocalGet { idx },
                                        rest.body,
                                    ));
                                }
                                i += 2;
                                changes += 1;
                                handled = true;
                            },
                            None => {},
                        }
                    }
                },
                None => {},
            }
        }
        if !handled {
            let mut stored: Option<u32> = None;
            match store_offset(&body[i]) {
                Some(offset) => {
                    if is_cacheable_gpr_offset(offset) {
                        stored = Some(offset);
                    }
                },
                None => {},
            }
            match stored {
                Some(offset) => {
                    let preceding_tee: Option<u32> = if i > 0 {
                        tee_index(&body[i - 1])
                    } else {
                        None
                    };
                    match preceding_tee {
                        Some(idx) => {
                            offset_to_local.insert(offset, idx);
                            emit(&mut out, body[i].duplicate());
                            proof {
                                let rest = cache_from(all, i + 1, cache.insert(offset, idx), next);
                                assert(ops(out@) + rest.body =~= before + cons(
                                    all[i as int],
                                    rest.body,
                                ));
                            }
                        },
                        None => {
                            let known: Option<u32> = match offset_to_local.get(&offset) {
                                Some(local) => Some(*local),
                                None => None,
                            };
                            let cache_local: u32 = match known {
                                Some(local) => local,
                                None => {
                                    proof {
                                        lemma_cache_faithful(
                                            all,
                                            i + 1,
                                            cache.insert(offset, next as u32),
                                            next + 1,
                                        );
                                    }
                                    let idx: u32 = *next_local;
                                    *next_local = idx + 1;
                                    offset_to_local.insert(offset, idx);
                                    idx
                                },
                            };
                            emit(&mut out, WasmInst::LocalTee { idx: cache_local });
                            emit(&mut out, body[i].duplicate());
                            proof {
                                let rest = cache_from(
                                    all,
                                    i + 1,
                                    offset_to_local@,
                                    *next_local as int,
                                );
                                assert(ops(out@) + rest.body =~= before + cons(
                                    WasmOp::LocalTee { idx: cache_local },
                                    cons(all[i as int], rest.body),
                                ));
                            }
                            changes += 1;
                        },
                    }
                    i += 1;
                },
                None => {
                    emit(&mut out, body[i].duplicate());
                    proof {
                        let rest = cache_from(all, i + 1, cache, next);
                        assert(ops(out@) + rest.body =~= before + cons(all[i as int], rest.body));
                    }
                    i += 1;
                },
            }
        }
    }
    proof {
        assert(ops(out@) + Seq::<WasmOp>::empty() =~= ops(out@));
    }
    (out, changes)
}

// ---------------------------------------------------------------------------
// The optimizer
// ---------------------------------------------------------------------------

fn strip_comments(body: &Vec<WasmInst>) -> (out: Vec<WasmInst>)
    ensures
        ops(out@) == stripped(ops(body@)),
{
    let ghost all = ops(body@);
    let mut out: Vec<WasmInst> = Vec::new();
    let mut i: usize = 0;
    proof {
        assert(ops(out@) =~= Seq::<WasmOp>::empty());
        assert(all.take(0) =~= Seq::<WasmOp>::empty());
    }
    while i < body.len()
        invariant
            i <= body.len(),
            all == ops(body@),
            ops(out@) == stripped(all.take(i as int)),
        decreases body.len() - i,
    {
        proof {
            assert(all.take(i + 1).drop_last() =~= all.take(i as int));
            assert(all.take(i + 1).last() == all[i as int]);
        }
        match &body[i] {
            WasmInst::Comment { text } => {},
            other => {
                emit(&mut out, other.duplicate());
            },
        }
        i += 1;
    }
    proof {
        assert(all.take(i as int) =~= all);
    }
    out
}

/// Optimizes a block function in place: removes its annotations and runs
/// the four passes in rounds until a round changes nothing. The function
/// needs room for one new local for each of its operations.
pub fn optimize_function(func: &mut WasmFunction)
    requires
        old(func).num_locals + old(func).body@.len() <= u32::MAX,
    ensures
        ops(final(func).body@) == optimized(ops(old(func).body@), old(func).num_locals).0,
        final(func).num_locals == optimized(ops(old(func).body@), old(func).num_locals).1,
        final(func).name == old(func).name,
        final(func).block_addr == old(func).block_addr,
        bare(ops(final(func).body@)),
        settled(ops(final(func).body@), final(func).num_locals as int),
{
    let mut body = strip_comments(&func.body);
    let mut next_local: u32 = func.num_locals;
    let ghost target = optimized(ops(func.body@), func.num_locals);
    proof {
        lemma_stripped_bare(ops(func.body@));
        lemma_weight_len(ops(body@), false);
    }
    let mut changed = true;
    while changed
        invariant
            target == settle(ops(body@), next_local as int),
            bare(ops(body@)),
            next_local + weight(ops(body@), false) <= u32::MAX,
            !changed ==> settled(ops(body@), next_local as int),
        decreases weight(ops(body@), false), (if changed { 1int } else { 0int }),
    {
        let ghost start = ops(body@);
        let ghost first = next_local as int;
        proof {
            lemma_round(start, first);
            lemma_forward_faithful(start, 0, first);
            lemma_forward_lighter(start, 0, first, false);
            assert(start.skip(0) =~= start);
        }
        let (b1, forwarded) = forward_i64_store_loads(body, &mut next_local);
        let (b2, tee_folds) = fold_local_set_get(b1);
        proof {
            lemma_tee_faithful(ops(b1@), 0);
            lemma_tee_lighter(ops(b1@), 0, false);
            assert(ops(b1@).skip(0) =~= ops(b1@));
            lemma_cache_faithful(ops(b2@), 0, Map::<u32, u32>::empty(), next_local as int);
            lemma_cache_lighter(ops(b2@), 0, Map::<u32, u32>::empty(), next_local as int, false);
            assert(ops(b2@).skip(0) =~= ops(b2@));
        }
        let (b3, reg_cache_folds) = cache_gpr_i64_values(b2, &mut next_local);
        let (b4, const_folds) = fold_integer_constants(b3);
        body = b4;
        changed = forwarded > 0 || tee_folds > 0 || reg_cache_folds > 0 || const_folds > 0;
        proof {
            assert(changed == round(start, first).changed);
            assert(ops(body@) == round(start, first).body);
            assert(next_local == round(start, first).next_local);
        }
    }
    proof {
        lemma_round(ops(body@), next_local as int);
    }
    func.body = body;
    func.num_locals = next_local;
}

} // verus!
