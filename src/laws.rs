use vstd::prelude::*;
use crate::pass::{
    BindingMode, BodyNode, Body, Diagnostic, Variant, VariantData, struct_variant_diagnostics, FieldDef, FnDecl, FnKind, Item, ItemKind, LintKind,
    body_diagnostics, declaration_diagnostics, field_diagnostic, field_place, field_diagnostics, fn_diagnostics,
    fn_name, item_diagnostics, node_diagnostic, param_diagnostics, tuple_variant_diagnostics,
    variant_diagnostics,
};
use crate::predicate::{is_box_def, is_rc_def, is_ref_like_def, some_unrooted, unrooted};
use crate::span::{ExpnKind, Span, is_constructor_name, is_derive_expn};
use crate::symbols::{Attribute, Symbols, has_marker};
use crate::ty::{TyCtxt, TyId};

verus! {

/// How many of `diags` are located at `s`.
pub open spec fn count_at(diags: Seq<Diagnostic>, s: Span) -> nat
    decreases diags.len(),
{
    if diags.len() == 0 {
        0
    } else {
        count_at(diags.drop_last(), s) + if diags.last().span == s { 1nat } else { 0nat }
    }
}

proof fn lemma_count_at_add(a: Seq<Diagnostic>, b: Seq<Diagnostic>, s: Span)
    ensures
        count_at(a + b, s) == count_at(a, s) + count_at(b, s),
    decreases b.len(),
{
    if b.len() == 0 {
        assert(a + b =~= a);
    } else {
        assert((a + b).drop_last() =~= a + b.drop_last());
        lemma_count_at_add(a, b.drop_last(), s);
    }
}

/// The diagnostic of one field is located at that field.
proof fn lemma_count_one_field(sym: Symbols, cx: TyCtxt, f: FieldDef, kind: LintKind, at_type: bool, s: Span)
    ensures
        count_at(field_diagnostic(sym, cx, f, kind, at_type), s) == if unrooted(sym, cx, f.ty, false)
            && field_place(f, at_type) == s {
            1nat
        } else {
            0nat
        },
{
    let d = field_diagnostic(sym, cx, f, kind, at_type);
    if unrooted(sym, cx, f.ty, false) {
        assert(d.drop_last() =~= Seq::<Diagnostic>::empty());
        assert(count_at(d.drop_last(), s) == 0);
    }
}

/// No field of `fields` is located at `s`: then none of their diagnostics is.
proof fn lemma_no_field_at(sym: Symbols, cx: TyCtxt, fields: Seq<FieldDef>, kind: LintKind, at_type: bool, s: Span)
    requires
        forall|i: int| 0 <= i < fields.len() ==> field_place(#[trigger] fields[i], at_type) != s,
    ensures
        count_at(field_diagnostics(sym, cx, fields, kind, at_type), s) == 0,
    decreases fields.len(),
{
    if fields.len() > 0 {
        lemma_no_field_at(sym, cx, fields.drop_last(), kind, at_type, s);
        let last = field_diagnostic(sym, cx, fields.last(), kind, at_type);
        lemma_count_at_add(field_diagnostics(sym, cx, fields.drop_last(), kind, at_type), last, s);
        assert(field_place(fields[fields.len() - 1], at_type) != s);
        lemma_count_one_field(sym, cx, fields.last(), kind, at_type, s);
    }
}

/// Field `k` of `fields` is unrooted and no other field stands at its place:
/// exactly one diagnostic is located there.
proof fn lemma_unrooted_field_once(
    sym: Symbols,
    cx: TyCtxt,
    fields: Seq<FieldDef>,
    kind: LintKind,
    at_type: bool,
    k: int,
)
    requires
        0 <= k < fields.len(),
        unrooted(sym, cx, fields[k].ty, false),
        forall|i: int|
            0 <= i < fields.len() && i != k ==> field_place(#[trigger] fields[i], at_type) != field_place(
                fields[k],
                at_type,
            ),
    ensures
        count_at(field_diagnostics(sym, cx, fields, kind, at_type), field_place(fields[k], at_type)) == 1,
    decreases fields.len(),
{
    let s = field_place(fields[k], at_type);
    let n = fields.len() - 1;
    let init = fields.drop_last();
    let last = field_diagnostic(sym, cx, fields.last(), kind, at_type);
    lemma_count_at_add(field_diagnostics(sym, cx, init, kind, at_type), last, s);
    if k == n {
        assert forall|i: int| 0 <= i < init.len() implies field_place(#[trigger] init[i], at_type) != s by {
            assert(init[i] == fields[i]);
        }
        lemma_no_field_at(sym, cx, init, kind, at_type, s);
        lemma_count_one_field(sym, cx, fields.last(), kind, at_type, s);
    } else {
        assert forall|i: int| 0 <= i < init.len() && i != k implies field_place(#[trigger] init[i], at_type)
            != field_place(init[k], at_type) by {
            assert(init[i] == fields[i]);
        }
        assert(init[k] == fields[k]);
        lemma_unrooted_field_once(sym, cx, init, kind, at_type, k);
        assert(field_place(fields[n], at_type) != s);
        lemma_count_one_field(sym, cx, fields.last(), kind, at_type, s);
    }
}

/// A struct that lacks `must_root` gets exactly one diagnostic located at
/// a field whose type is unrooted, when no other field stands at the same
/// place; and a declaration marked `must_root` gets none at all.
pub proof fn law_unrooted_field_reported_once(
    sym: Symbols,
    cx: TyCtxt,
    attrs: Vec<Attribute>,
    fields: Vec<FieldDef>,
    k: int,
)
    requires
        0 <= k < fields@.len(),
        unrooted(sym, cx, fields@[k].ty, false),
        forall|i: int| 0 <= i < fields@.len() && i != k ==> (#[trigger] fields@[i]).span != fields@[k].span,
    ensures
        !has_marker(sym, attrs@, sym.must_root) ==> count_at(
            declaration_diagnostics(sym, cx, Item { attrs, kind: ItemKind::Struct { fields } }),
            fields@[k].span,
        ) == 1,
        has_marker(sym, attrs@, sym.must_root) ==> declaration_diagnostics(
            sym,
            cx,
            Item { attrs, kind: ItemKind::Struct { fields } },
        ).len() == 0,
{
    let item = Item { attrs, kind: ItemKind::Struct { fields } };
    assert(declaration_diagnostics(sym, cx, item) =~= item_diagnostics(sym, cx, item));
    if !has_marker(sym, attrs@, sym.must_root) {
        assert forall|i: int| 0 <= i < fields@.len() && i != k implies field_place(#[trigger] fields@[i], false)
            != field_place(fields@[k], false) by {
            assert(fields@[i].span != fields@[k].span);
        }
        lemma_unrooted_field_once(sym, cx, fields@, LintKind::StructField, false, k);
    }
}

/// The fields of a variant.
pub open spec fn variant_fields(v: Variant) -> Seq<FieldDef> {
    match v.data {
        VariantData::Struct { fields } => fields@,
        VariantData::Tuple { fields } => fields@,
        VariantData::Unit => Seq::empty(),
    }
}

/// Where field `j` of variant `w` of `variants` is reported: at the field
/// in a struct-style variant, at its type in a tuple-style one.
pub open spec fn place_of(variants: Seq<Variant>, w: int, j: int) -> Span {
    field_place(variant_fields(variants[w])[j], variants[w].data is Tuple)
}

/// No field of a struct-style (when `tuple` is false) or tuple-style (when
/// `tuple` is true) variant of `variants` stands at `s`, but field `k` of
/// variant `v`, if that is one of them.
pub open spec fn only_place(variants: Seq<Variant>, tuple: bool, v: int, k: int, s: Span) -> bool {
    forall|w: int, j: int|
        0 <= w < variants.len() && 0 <= j < variant_fields(variants[w]).len() && (variants[w].data is Tuple)
            == tuple && !(w == v && j == k) ==> #[trigger] place_of(variants, w, j) != s
}

proof fn lemma_only_place_drop_last(variants: Seq<Variant>, tuple: bool, v: int, k: int, s: Span)
    requires
        variants.len() > 0,
        only_place(variants, tuple, v, k, s),
    ensures
        only_place(variants.drop_last(), tuple, v, k, s),
{
    let init = variants.drop_last();
    assert forall|w: int, j: int|
        0 <= w < init.len() && 0 <= j < variant_fields(init[w]).len() && (init[w].data is Tuple) == tuple
            && !(w == v && j == k) implies #[trigger] place_of(init, w, j) != s by {
        assert(init[w] == variants[w]);
        assert(place_of(variants, w, j) != s);
    }
}

/// Counts the diagnostics at `s` of the struct-style variants: one if field
/// `k` of variant `v` is unrooted, stands at `s` and is the only one there
/// (`v` may be out of range: then none).
proof fn lemma_struct_variants_count(sym: Symbols, cx: TyCtxt, variants: Seq<Variant>, v: int, k: int, s: Span)
    requires
        only_place(variants, false, v, k, s),
        0 <= v < variants.len() ==> {
            &&& variants[v].data is Struct
            &&& 0 <= k < variant_fields(variants[v]).len()
            &&& place_of(variants, v, k) == s
            &&& unrooted(sym, cx, variant_fields(variants[v])[k].ty, false)
        },
    ensures
        count_at(struct_variant_diagnostics(sym, cx, variants), s) == if 0 <= v < variants.len() {
            1nat
        } else {
            0nat
        },
    decreases variants.len(),
{
    if variants.len() > 0 {
        let n = variants.len() - 1;
        let init = variants.drop_last();
        lemma_only_place_drop_last(variants, false, v, k, s);
        if 0 <= v < n {
            assert(init[v] == variants[v]);
            assert(place_of(init, v, k) == place_of(variants, v, k));
        }
        lemma_struct_variants_count(sym, cx, init, if v == n { -1 } else { v }, k, s);
        let last = match variants[n].data {
            VariantData::Struct { fields } => field_diagnostics(sym, cx, fields@, LintKind::EnumField, false),
            _ => Seq::<Diagnostic>::empty(),
        };
        lemma_count_at_add(struct_variant_diagnostics(sym, cx, init), last, s);
        match variants[n].data {
            VariantData::Struct { fields } => {
                if v == n {
                    assert forall|i: int| 0 <= i < fields@.len() && i != k implies field_place(
                        #[trigger] fields@[i],
                        false,
                    ) != field_place(fields@[k], false) by {
                        assert(place_of(variants, n, i) != s);
                    }
                    lemma_unrooted_field_once(sym, cx, fields@, LintKind::EnumField, false, k);
                } else {
                    assert forall|i: int| 0 <= i < fields@.len() implies field_place(
                        #[trigger] fields@[i],
                        false,
                    ) != s by {
                        assert(place_of(variants, n, i) != s);
                    }
                    lemma_no_field_at(sym, cx, fields@, LintKind::EnumField, false, s);
                }
            },
            _ => {},
        }
    }
}

/// The same count for the tuple-style variants of an enum that lacks
/// `must_root`.
proof fn lemma_tuple_variants_count(
    sym: Symbols,
    cx: TyCtxt,
    attrs: Seq<Attribute>,
    variants: Seq<Variant>,
    v: int,
    k: int,
    s: Span,
)
    requires
        !has_marker(sym, attrs, sym.must_root),
        only_place(variants, true, v, k, s),
        0 <= v < variants.len() ==> {
            &&& variants[v].data is Tuple
            &&& 0 <= k < variant_fields(variants[v]).len()
            &&& place_of(variants, v, k) == s
            &&& unrooted(sym, cx, variant_fields(variants[v])[k].ty, false)
        },
    ensures
        count_at(tuple_variant_diagnostics(sym, cx, attrs, variants), s) == if 0 <= v < variants.len() {
            1nat
        } else {
            0nat
        },
    decreases variants.len(),
{
    if variants.len() > 0 {
        let n = variants.len() - 1;
        let init = variants.drop_last();
        lemma_only_place_drop_last(variants, true, v, k, s);
        if 0 <= v < n {
            assert(init[v] == variants[v]);
            assert(place_of(init, v, k) == place_of(variants, v, k));
        }
        lemma_tuple_variants_count(sym, cx, attrs, init, if v == n { -1 } else { v }, k, s);
        let last = variant_diagnostics(sym, cx, attrs, variants[n]);
        lemma_count_at_add(tuple_variant_diagnostics(sym, cx, attrs, init), last, s);
        match variants[n].data {
            VariantData::Tuple { fields } => {
                if v == n {
                    assert forall|i: int| 0 <= i < fields@.len() && i != k implies field_place(
                        #[trigger] fields@[i],
                        true,
                    ) != field_place(fields@[k], true) by {
                        assert(place_of(variants, n, i) != s);
                    }
                    lemma_unrooted_field_once(sym, cx, fields@, LintKind::EnumField, true, k);
                } else {
                    assert forall|i: int| 0 <= i < fields@.len() implies field_place(#[trigger] fields@[i], true)
                        != s by {
                        assert(place_of(variants, n, i) != s);
                    }
                    lemma_no_field_at(sym, cx, fields@, LintKind::EnumField, true, s);
                }
            },
            _ => {},
        }
    }
}

/// An enum that lacks `must_root` gets exactly one diagnostic located at a
/// field of one of its variants whose type is unrooted, when no other field
/// is reported at the same place.
pub proof fn law_unrooted_variant_field_reported_once(
    sym: Symbols,
    cx: TyCtxt,
    attrs: Vec<Attribute>,
    variants: Vec<Variant>,
    v: int,
    k: int,
)
    requires
        !has_marker(sym, attrs@, sym.must_root),
        0 <= v < variants@.len(),
        0 <= k < variant_fields(variants@[v]).len(),
        unrooted(sym, cx, variant_fields(variants@[v])[k].ty, false),
        forall|w: int, j: int|
            0 <= w < variants@.len() && 0 <= j < variant_fields(variants@[w]).len() && !(w == v && j == k)
                ==> #[trigger] place_of(variants@, w, j) != place_of(variants@, v, k),
    ensures
        count_at(
            declaration_diagnostics(sym, cx, Item { attrs, kind: ItemKind::Enum { variants } }),
            place_of(variants@, v, k),
        ) == 1,
{
    let s = place_of(variants@, v, k);
    let item = Item { attrs, kind: ItemKind::Enum { variants } };
    let tuple = variants@[v].data is Tuple;
    lemma_count_at_add(
        struct_variant_diagnostics(sym, cx, variants@),
        tuple_variant_diagnostics(sym, cx, attrs@, variants@),
        s,
    );
    if tuple {
        lemma_struct_variants_count(sym, cx, variants@, -1, k, s);
        lemma_tuple_variants_count(sym, cx, attrs@, variants@, v, k, s);
    } else {
        lemma_struct_variants_count(sym, cx, variants@, v, k, s);
        lemma_tuple_variants_count(sym, cx, attrs@, variants@, -1, k, s);
    }
}

proof fn lemma_tuple_variants_marked(sym: Symbols, cx: TyCtxt, attrs: Seq<Attribute>, variants: Seq<Variant>)
    requires
        has_marker(sym, attrs, sym.must_root),
    ensures
        tuple_variant_diagnostics(sym, cx, attrs, variants).len() == 0,
    decreases variants.len(),
{
    if variants.len() > 0 {
        lemma_tuple_variants_marked(sym, cx, attrs, variants.drop_last());
        assert(variant_diagnostics(sym, cx, attrs, variants.last()).len() == 0);
    }
}

/// A declaration marked `must_root` is never reported, whatever its fields
/// or variants hold.
pub proof fn law_marked_declaration_silent(sym: Symbols, cx: TyCtxt, item: Item)
    requires
        has_marker(sym, item.attrs@, sym.must_root),
    ensures
        declaration_diagnostics(sym, cx, item).len() == 0,
{
    match item.kind {
        ItemKind::Enum { variants } => lemma_tuple_variants_marked(sym, cx, item.attrs@, variants@),
        _ => {},
    }
}

/// A struct or enum marked `allow_unrooted_interior` (and not `must_root`)
/// is never unrooted, whatever its generic arguments, so a field of that
/// type is never reported.
pub proof fn law_unrooted_interior_exempt(sym: Symbols, cx: TyCtxt, t: TyId, in_new: bool, f: FieldDef, at_type: bool)
    requires
        cx.wf(),
        cx.valid_ty(t),
        cx.kind(t) is Adt,
        !cx.def_has_marker(sym, cx.kind(t)->def, sym.must_root),
        cx.def_has_marker(sym, cx.kind(t)->def, sym.allow_unrooted_interior),
        f.ty == t,
    ensures
        !unrooted(sym, cx, t, in_new),
        field_diagnostic(sym, cx, f, LintKind::StructField, at_type).len() == 0,
        field_diagnostic(sym, cx, f, LintKind::EnumField, at_type).len() == 0,
{
}

/// Some type of `tys` before `outer` is unrooted: then `some_unrooted` holds.
proof fn lemma_some_unrooted_intro(sym: Symbols, cx: TyCtxt, tys: Seq<TyId>, outer: int, in_new: bool, k: int)
    requires
        0 <= k < tys.len(),
        tys[k].index < outer,
        unrooted(sym, cx, tys[k], in_new),
    ensures
        some_unrooted(sym, cx, tys, outer, in_new),
    decreases tys.len(),
{
    if k < tys.len() - 1 {
        lemma_some_unrooted_intro(sym, cx, tys.drop_last(), outer, in_new, k);
    }
}

/// An `Rc` (not itself marked) whose payload is marked
/// `allow_unrooted_in_rc` is not unrooted; one whose payload is marked
/// `must_root` and not `allow_unrooted_in_rc` is.
pub proof fn law_rc_payload(sym: Symbols, cx: TyCtxt, t: TyId, in_new: bool)
    requires
        cx.wf(),
        cx.valid_ty(t),
        cx.kind(t) is Adt,
        is_rc_def(sym, cx, cx.kind(t)->def),
        !cx.def_has_marker(sym, cx.kind(t)->def, sym.must_root),
        !cx.def_has_marker(sym, cx.kind(t)->def, sym.allow_unrooted_interior),
        cx.kind(t)->args@.len() > 0,
        cx.kind(cx.kind(t)->args@[0]) is Adt,
    ensures
        cx.def_has_marker(sym, cx.kind(cx.kind(t)->args@[0])->def, sym.allow_unrooted_in_rc)
            ==> !unrooted(sym, cx, t, in_new),
        (cx.def_has_marker(sym, cx.kind(cx.kind(t)->args@[0])->def, sym.must_root)
            && !cx.def_has_marker(sym, cx.kind(cx.kind(t)->args@[0])->def, sym.allow_unrooted_in_rc))
            ==> unrooted(sym, cx, t, in_new),
{
    let args = cx.kind(t)->args@;
    let p = args[0];
    assert(cx.kind_wf(t.index as int));
    assert(p.index < t.index);
    if cx.def_has_marker(sym, cx.kind(p)->def, sym.must_root) {
        assert(unrooted(sym, cx, p, in_new));
        lemma_some_unrooted_intro(sym, cx, args, t.index as int, in_new, 0);
    }
}

/// A borrow-like library type (a `RefCell` guard, a slice iterator, a hash
/// map entry or iterator, a hash set iterator) that is not itself marked is
/// never unrooted, whatever its generic arguments.
pub proof fn law_ref_like_exempt(sym: Symbols, cx: TyCtxt, t: TyId, in_new: bool)
    requires
        cx.wf(),
        cx.valid_ty(t),
        cx.kind(t) is Adt,
        is_ref_like_def(sym, cx, cx.kind(t)->def),
        !is_rc_def(sym, cx, cx.kind(t)->def),
        !cx.def_has_marker(sym, cx.kind(t)->def, sym.must_root),
        !cx.def_has_marker(sym, cx.kind(t)->def, sym.allow_unrooted_interior),
    ensures
        !unrooted(sym, cx, t, in_new),
{
}

/// The return type of a constructor (`new`, `new_...`) is never reported,
/// and its parameters are checked as anywhere else; the return type of any
/// other function is reported, at the return type, when it is unrooted.
pub proof fn law_constructor_return_exempt(
    sym: Symbols,
    cx: TyCtxt,
    kind: FnKind,
    decl: FnDecl,
    body: Body,
    expn: ExpnKind,
)
    requires
        fn_name(kind) is Some,
        !is_derive_expn(expn),
    ensures
        is_constructor_name(fn_name(kind)->0) ==> fn_diagnostics(sym, cx, kind, decl, body, expn)
            == param_diagnostics(sym, cx, decl.inputs@) + body_diagnostics(sym, cx, body.nodes@, true),
        !is_constructor_name(fn_name(kind)->0) ==> fn_diagnostics(sym, cx, kind, decl, body, expn)
            == param_diagnostics(sym, cx, decl.inputs@) + (if unrooted(sym, cx, decl.output, false) {
                seq![Diagnostic { span: decl.output_span, kind: LintKind::Signature }]
            } else {
                Seq::empty()
            }) + body_diagnostics(sym, cx, body.nodes@, false),
{
    let empty = Seq::<Diagnostic>::empty();
    assert(param_diagnostics(sym, cx, decl.inputs@) + empty =~= param_diagnostics(sym, cx, decl.inputs@));
}

/// A `Box` (not itself marked, nor a borrow-like or `Rc` type) holding a
/// `must_root` type: an owned binding of it is let through in a
/// constructor, and reported, at the pattern, anywhere else.
pub proof fn law_box_binding_in_constructor(sym: Symbols, cx: TyCtxt, span: Span, t: TyId, mode: BindingMode)
    requires
        cx.wf(),
        cx.valid_ty(t),
        cx.kind(t) is Adt,
        is_box_def(sym, cx, cx.kind(t)->def),
        !is_rc_def(sym, cx, cx.kind(t)->def),
        !is_ref_like_def(sym, cx, cx.kind(t)->def),
        !cx.def_has_marker(sym, cx.kind(t)->def, sym.must_root),
        !cx.def_has_marker(sym, cx.kind(t)->def, sym.allow_unrooted_interior),
        cx.kind(t)->args@.len() > 0,
        cx.kind(cx.kind(t)->args@[0]) is Adt,
        cx.def_has_marker(sym, cx.kind(cx.kind(t)->args@[0])->def, sym.must_root),
        mode == BindingMode::Unannotated || mode == BindingMode::Mutable,
    ensures
        node_diagnostic(sym, cx, BodyNode::Binding { span, ty: t, mode }, true).len() == 0,
        node_diagnostic(sym, cx, BodyNode::Binding { span, ty: t, mode }, false)
            == seq![Diagnostic { span, kind: LintKind::Expression { ty: t } }],
{
    let args = cx.kind(t)->args@;
    assert(cx.kind_wf(t.index as int));
    assert(args[0].index < t.index);
    assert(unrooted(sym, cx, args[0], false));
    lemma_some_unrooted_intro(sym, cx, args, t.index as int, false, 0);
    let e = Seq::<Diagnostic>::empty();
    assert(e + seq![Diagnostic { span, kind: LintKind::Expression { ty: t } }] =~= seq![
        Diagnostic { span, kind: LintKind::Expression { ty: t } },
    ]);
}

/// A binding declared with `ref` or `ref mut` is never reported, in any
/// context.
pub proof fn law_borrowed_binding_silent(sym: Symbols, cx: TyCtxt, span: Span, t: TyId, mode: BindingMode, in_new: bool)
    requires
        mode == BindingMode::Ref || mode == BindingMode::RefMut,
    ensures
        node_diagnostic(sym, cx, BodyNode::Binding { span, ty: t, mode }, in_new).len() == 0,
{
}

} // verus!
