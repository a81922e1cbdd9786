use vstd::prelude::*;
use crate::symbols::{Symbol, Symbols};
use crate::ty::{DefId, TyCtxt, TyId, TyKind, all_before};

verus! {

/// `alloc::rc::Rc`, the shared reference-counted pointer.
pub open spec fn is_rc_def(sym: Symbols, cx: TyCtxt, d: DefId) -> bool {
    cx.def_path_is(d, seq![sym.alloc, sym.rc, sym.rc_type])
}

/// `alloc::boxed::Box`, the owning heap allocation.
pub open spec fn is_box_def(sym: Symbols, cx: TyCtxt, d: DefId) -> bool {
    cx.def_path_is(d, seq![sym.alloc, sym.boxed, sym.box_type])
}

/// A library type that behaves like a borrow: the guards of `RefCell`,
/// the slice iterators, and the views into a hash map or set.
pub open spec fn is_ref_like_def(sym: Symbols, cx: TyCtxt, d: DefId) -> bool {
    ||| cx.def_path_is(d, seq![sym.core_crate, sym.cell, sym.ref_type])
    ||| cx.def_path_is(d, seq![sym.core_crate, sym.cell, sym.ref_mut_type])
    ||| cx.def_path_is(d, seq![sym.core_crate, sym.slice, sym.iter_type])
    ||| cx.def_path_is(d, seq![sym.core_crate, sym.slice, sym.iter_mut_type])
    ||| cx.def_path_is(d, seq![sym.std_crate, sym.collections, sym.hash, sym.hash_map, sym.entry])
    ||| cx.def_path_is(
        d,
        seq![sym.std_crate, sym.collections, sym.hash, sym.hash_map, sym.occupied_entry],
    )
    ||| cx.def_path_is(
        d,
        seq![sym.std_crate, sym.collections, sym.hash, sym.hash_map, sym.vacant_entry],
    )
    ||| cx.def_path_is(d, seq![sym.std_crate, sym.collections, sym.hash, sym.hash_map, sym.iter_type])
    ||| cx.def_path_is(d, seq![sym.std_crate, sym.collections, sym.hash, sym.hash_set, sym.iter_type])
}

/// The payload of an `Rc` with generic arguments `args` is a struct or
/// enum marked `allow_unrooted_in_rc`.
pub open spec fn rc_payload_allowed(sym: Symbols, cx: TyCtxt, args: Seq<TyId>) -> bool {
    args.len() > 0 && match cx.kind(args[0]) {
        TyKind::Adt { def, .. } => cx.def_has_marker(sym, def, sym.allow_unrooted_in_rc),
        _ => false,
    }
}

/// Type `t` holds a `must_root` type where it would not be rooted.
///
/// The walk stops at a `must_root` type (true), at a type marked
/// `allow_unrooted_interior` (false), at an `Rc` whose payload is marked
/// `allow_unrooted_in_rc` (false), at a borrow-like library type (false),
/// and, in a constructor, at a `Box` (false). It never looks behind a
/// reference, a raw pointer or a function type. Otherwise it goes on into
/// the generic arguments of a struct or enum, the elements of a tuple and
/// the element of an array.
pub open spec fn unrooted(sym: Symbols, cx: TyCtxt, t: TyId, in_new: bool) -> bool
    decreases t.index, 1int, 0int,
{
    match cx.kind(t) {
        TyKind::Adt { def, args } => {
            if cx.def_has_marker(sym, def, sym.must_root) {
                true
            } else if cx.def_has_marker(sym, def, sym.allow_unrooted_interior) {
                false
            } else if is_rc_def(sym, cx, def) && rc_payload_allowed(sym, cx, args@) {
                false
            } else if !is_rc_def(sym, cx, def) && is_ref_like_def(sym, cx, def) {
                false
            } else if !is_rc_def(sym, cx, def) && is_box_def(sym, cx, def) && in_new {
                false
            } else {
                some_unrooted(sym, cx, args@, t.index as int, in_new)
            }
        },
        TyKind::Tuple { elems } => some_unrooted(sym, cx, elems@, t.index as int, in_new),
        TyKind::Array { elem } => some_unrooted(sym, cx, seq![elem], t.index as int, in_new),
        _ => false,
    }
}

/// Some type of `tys` is unrooted. The types are the parts of a type at
/// index `outer`, so in a well-formed context they all come before it.
pub open spec fn some_unrooted(sym: Symbols, cx: TyCtxt, tys: Seq<TyId>, outer: int, in_new: bool) -> bool
    decreases outer, 0int, tys.len(),
{
    if tys.len() == 0 {
        false
    } else {
        some_unrooted(sym, cx, tys.drop_last(), outer, in_new)
            || (tys.last().index < outer && unrooted(sym, cx, tys.last(), in_new))
    }
}

fn is_rc(sym: &Symbols, cx: &TyCtxt, d: DefId) -> (r: bool)
    requires
        cx.valid_def(d),
    ensures
        r == is_rc_def(*sym, *cx, d),
{
    let path = vec![sym.alloc, sym.rc, sym.rc_type];
    assert(path@ =~= seq![sym.alloc, sym.rc, sym.rc_type]);
    cx.match_def_path(d, &path)
}

fn is_box(sym: &Symbols, cx: &TyCtxt, d: DefId) -> (r: bool)
    requires
        cx.valid_def(d),
    ensures
        r == is_box_def(*sym, *cx, d),
{
    let path = vec![sym.alloc, sym.boxed, sym.box_type];
    assert(path@ =~= seq![sym.alloc, sym.boxed, sym.box_type]);
    cx.match_def_path(d, &path)
}

/// Tells whether `d` is one of the library paths `krate::module::name`
/// for `name` in `names`.
fn is_path3(cx: &TyCtxt, d: DefId, krate: Symbol, module: Symbol, names: &Vec<Symbol>) -> (r: bool)
    requires
        cx.valid_def(d),
    ensures
        r == exists|i: int|
            0 <= i < names@.len() && cx.def_path_is(d, seq![krate, module, #[trigger] names@[i]]),
{
    let mut i: usize = 0;
    while i < names.len()
        invariant
            i <= names@.len(),
            cx.valid_def(d),
            forall|j: int| 0 <= j < i ==> !cx.def_path_is(d, seq![krate, module, #[trigger] names@[j]]),
        decreases names@.len() - i,
    {
        let path = vec![krate, module, names[i]];
        assert(path@ =~= seq![krate, module, names@[i as int]]);
        if cx.match_def_path(d, &path) {
            return true;
        }
        i += 1;
    }
    false
}

/// Tells whether `d` is `std::collections::hash::<table>::<name>`.
fn is_hash_path(sym: &Symbols, cx: &TyCtxt, d: DefId, table: Symbol, name: Symbol) -> (r: bool)
    requires
        cx.valid_def(d),
    ensures
        r == cx.def_path_is(d, seq![sym.std_crate, sym.collections, sym.hash, table, name]),
{
    let path = vec![sym.std_crate, sym.collections, sym.hash, table, name];
    assert(path@ =~= seq![sym.std_crate, sym.collections, sym.hash, table, name]);
    cx.match_def_path(d, &path)
}

fn is_ref_like(sym: &Symbols, cx: &TyCtxt, d: DefId) -> (r: bool)
    requires
        cx.valid_def(d),
    ensures
        r == is_ref_like_def(*sym, *cx, d),
{
    let cell_guards = vec![sym.ref_type, sym.ref_mut_type];
    let slice_iters = vec![sym.iter_type, sym.iter_mut_type];
    let in_cell = is_path3(cx, d, sym.core_crate, sym.cell, &cell_guards);
    assert(in_cell == (cx.def_path_is(d, seq![sym.core_crate, sym.cell, sym.ref_type])
        || cx.def_path_is(d, seq![sym.core_crate, sym.cell, sym.ref_mut_type]))) by {
        assert(cell_guards@[0] == sym.ref_type && cell_guards@[1] == sym.ref_mut_type);
    }
    let in_slice = is_path3(cx, d, sym.core_crate, sym.slice, &slice_iters);
    assert(in_slice == (cx.def_path_is(d, seq![sym.core_crate, sym.slice, sym.iter_type])
        || cx.def_path_is(d, seq![sym.core_crate, sym.slice, sym.iter_mut_type]))) by {
        assert(slice_iters@[0] == sym.iter_type && slice_iters@[1] == sym.iter_mut_type);
    }
    in_cell || in_slice
        || is_hash_path(sym, cx, d, sym.hash_map, sym.entry)
        || is_hash_path(sym, cx, d, sym.hash_map, sym.occupied_entry)
        || is_hash_path(sym, cx, d, sym.hash_map, sym.vacant_entry)
        || is_hash_path(sym, cx, d, sym.hash_map, sym.iter_type)
        || is_hash_path(sym, cx, d, sym.hash_set, sym.iter_type)
}

/// Tells whether the first generic argument of an `Rc` is a struct or enum
/// marked `allow_unrooted_in_rc`.
fn is_rc_payload_allowed(sym: &Symbols, cx: &TyCtxt, args: &Vec<TyId>) -> (r: bool)
    requires
        cx.wf(),
        forall|i: int| 0 <= i < args@.len() ==> cx.valid_ty(#[trigger] args@[i]),
    ensures
        r == rc_payload_allowed(*sym, *cx, args@),
{
    if args.len() == 0 {
        return false;
    }
    let payload = args[0];
    proof {
        assert(cx.valid_ty(args@[0]));
        assert(cx.kind_wf(payload.index as int));
    }
    match &cx.types[payload.index] {
        TyKind::Adt { def, .. } => cx.has_attr(sym, *def, sym.allow_unrooted_in_rc),
        _ => false,
    }
}

/// Tells whether some type of `tys`, all interned before `parent`, is
/// unrooted.
fn any_unrooted(sym: &Symbols, cx: &TyCtxt, tys: &Vec<TyId>, in_new_function: bool, parent: TyId) -> (r: bool)
    requires
        cx.wf(),
        cx.valid_ty(parent),
        all_before(tys@, parent.index as int),
    ensures
        r == some_unrooted(*sym, *cx, tys@, parent.index as int, in_new_function),
    decreases parent.index, 0int,
{
    let mut i: usize = 0;
    let mut found = false;
    while i < tys.len()
        invariant
            i <= tys@.len(),
            cx.wf(),
            cx.valid_ty(parent),
            all_before(tys@, parent.index as int),
            found == some_unrooted(*sym, *cx, tys@.subrange(0, i as int), parent.index as int, in_new_function),
        decreases tys@.len() - i,
    {
        let ghost prefix = tys@.subrange(0, i as int + 1);
        assert(prefix.drop_last() =~= tys@.subrange(0, i as int));
        assert(tys@[i as int].index < parent.index);
        if !found {
            found = is_unrooted_ty(sym, cx, tys[i], in_new_function);
        }
        i += 1;
    }
    assert(tys@.subrange(0, i as int) =~= tys@);
    found
}

/// Tells whether type `t` holds a `must_root` type where it would not be
/// rooted; `in_new_function` says whether the type is met inside a
/// constructor, where a `Box` is let through.
pub fn is_unrooted_ty(sym: &Symbols, cx: &TyCtxt, t: TyId, in_new_function: bool) -> (r: bool)
    requires
        cx.wf(),
        cx.valid_ty(t),
    ensures
        r == unrooted(*sym, *cx, t, in_new_function),
    decreases t.index, 1int,
{
    proof {
        assert(cx.kind_wf(t.index as int));
    }
    match &cx.types[t.index] {
        TyKind::Adt { def, args } => {
            let def = *def;
            assert forall|i: int| 0 <= i < args@.len() implies cx.valid_ty(#[trigger] args@[i]) by {
                assert(args@[i].index < t.index);
            }
            if cx.has_attr(sym, def, sym.must_root) {
                true
            } else if cx.has_attr(sym, def, sym.allow_unrooted_interior) {
                false
            } else if is_rc(sym, cx, def) {
                if is_rc_payload_allowed(sym, cx, args) {
                    false
                } else {
                    any_unrooted(sym, cx, args, in_new_function, t)
                }
            } else if is_ref_like(sym, cx, def) {
                false
            } else if is_box(sym, cx, def) && in_new_function {
                false
            } else {
                any_unrooted(sym, cx, args, in_new_function, t)
            }
        },
        TyKind::Tuple { elems } => any_unrooted(sym, cx, elems, in_new_function, t),
        TyKind::Array { elem } => {
            let ghost parts = seq![*elem];
            assert(parts.drop_last() =~= Seq::<TyId>::empty());
            assert(!some_unrooted(*sym, *cx, parts.drop_last(), t.index as int, in_new_function));
            is_unrooted_ty(sym, cx, *elem, in_new_function)
        },
        _ => false,
    }
}

} // verus!
