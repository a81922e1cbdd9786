use unrooted_must_root::pass::{
    Body, BodyNode, BindingMode, Diagnostic, FieldDef, FnDecl, FnDefVisitor, FnKind, Item, ItemKind, LintKind,
    Param, UnrootedPass, Variant, VariantData,
};
use unrooted_must_root::predicate::is_unrooted_ty;
use unrooted_must_root::registry::{Level, Registry, plugin_registrar};
use unrooted_must_root::span::{ExpnKind, MacroKind, Span, in_derive_expn, is_new_function_name};
use unrooted_must_root::symbols::{Attribute, Symbol, Symbols, has_lint_attr};
use unrooted_must_root::ty::{AdtDef, DefId, TyCtxt, TyId, TyKind};

fn s(i: u32) -> Symbol {
    Symbol { index: i }
}

fn symbols() -> Symbols {
    Symbols {
        unrooted_must_root_lint: s(1),
        allow_unrooted_interior: s(2),
        allow_unrooted_in_rc: s(3),
        must_root: s(4),
        core_crate: s(5),
        std_crate: s(6),
        alloc: s(7),
        rc: s(8),
        rc_type: s(9),
        boxed: s(10),
        box_type: s(11),
        cell: s(12),
        ref_type: s(13),
        ref_mut_type: s(14),
        slice: s(15),
        iter_type: s(16),
        iter_mut_type: s(17),
        collections: s(18),
        hash: s(19),
        hash_map: s(20),
        hash_set: s(21),
        entry: s(22),
        occupied_entry: s(23),
        vacant_entry: s(24),
    }
}

const LOCAL_CRATE: u32 = 100;

fn marker(name: Symbol) -> Attribute {
    Attribute::Normal { path: vec![s(1), name] }
}

/// A small world of declarations and types for the tests.
struct World {
    cx: TyCtxt,
}

impl World {
    fn new() -> World {
        World { cx: TyCtxt { defs: Vec::new(), types: Vec::new() } }
    }

    fn def(&mut self, krate: u32, path: Vec<u32>, attrs: Vec<Attribute>) -> DefId {
        self.cx.defs.push(AdtDef { krate: s(krate), path: path.into_iter().map(s).collect(), attrs });
        DefId { index: self.cx.defs.len() - 1 }
    }

    fn local(&mut self, name: u32, attrs: Vec<Attribute>) -> DefId {
        self.def(LOCAL_CRATE, vec![name], attrs)
    }

    fn ty(&mut self, kind: TyKind) -> TyId {
        self.cx.types.push(kind);
        TyId { index: self.cx.types.len() - 1 }
    }

    fn adt(&mut self, def: DefId, args: Vec<TyId>) -> TyId {
        self.ty(TyKind::Adt { def, args })
    }

    fn unrooted(&self, t: TyId, in_new: bool) -> bool {
        is_unrooted_ty(&symbols(), &self.cx, t, in_new)
    }
}

fn sp(lo: u32) -> Span {
    Span { lo, hi: lo + 5 }
}

fn field(lo: u32, ty: TyId) -> FieldDef {
    FieldDef { span: sp(lo), ty_span: sp(lo + 2), ty }
}

fn pass() -> UnrootedPass {
    UnrootedPass::new(symbols())
}

fn gc_world() -> (World, TyId) {
    let mut w = World::new();
    let gc = w.local(200, vec![marker(s(4))]);
    let gc_ty = w.adt(gc, vec![]);
    (w, gc_ty)
}

fn check_decl(w: &World, item: &Item) -> Vec<Diagnostic> {
    let mut diags = Vec::new();
    pass().check_declaration(&w.cx, item, &mut diags);
    diags
}

fn check_function(w: &World, kind: FnKind, decl: &FnDecl, body: &Body, expn: &ExpnKind) -> Vec<Diagnostic> {
    let mut diags = Vec::new();
    pass().check_fn(&w.cx, &kind, decl, body, expn, &mut diags);
    diags
}

#[test]
fn new_keeps_symbols() {
    let p = UnrootedPass::new(symbols());
    assert_eq!(p.symbols.must_root, s(4));
    assert_eq!(p.symbols.unrooted_must_root_lint, s(1));
}

#[test]
fn handle_with_gc_field_reported_at_field() {
    let (w, gc_ty) = gc_world();
    let item = Item { attrs: vec![], kind: ItemKind::Struct { fields: vec![field(10, gc_ty)] } };
    let diags = check_decl(&w, &item);
    assert_eq!(diags, vec![Diagnostic { span: sp(10), kind: LintKind::StructField }]);
}

#[test]
fn marked_handle_is_silent() {
    let (w, gc_ty) = gc_world();
    let item = Item {
        attrs: vec![marker(s(4))],
        kind: ItemKind::Struct { fields: vec![field(10, gc_ty), field(20, gc_ty)] },
    };
    assert!(check_decl(&w, &item).is_empty());
}

#[test]
fn each_unrooted_field_reported_once() {
    let (mut w, gc_ty) = gc_world();
    let int_ty = w.ty(TyKind::Scalar);
    let item = Item {
        attrs: vec![Attribute::DocComment],
        kind: ItemKind::Struct { fields: vec![field(10, gc_ty), field(20, int_ty), field(30, gc_ty)] },
    };
    let diags = check_decl(&w, &item);
    assert_eq!(
        diags,
        vec![
            Diagnostic { span: sp(10), kind: LintKind::StructField },
            Diagnostic { span: sp(30), kind: LintKind::StructField },
        ]
    );
}

#[test]
fn enum_variants_reported() {
    let (w, gc_ty) = gc_world();
    let item = Item {
        attrs: vec![],
        kind: ItemKind::Enum {
            variants: vec![
                Variant { data: VariantData::Tuple { fields: vec![field(10, gc_ty)] } },
                Variant { data: VariantData::Struct { fields: vec![field(20, gc_ty)] } },
                Variant { data: VariantData::Unit },
            ],
        },
    };
    let diags = check_decl(&w, &item);
    assert_eq!(
        diags,
        vec![
            Diagnostic { span: sp(20), kind: LintKind::EnumField },
            Diagnostic { span: sp(12), kind: LintKind::EnumField },
        ]
    );
    let marked = Item { attrs: vec![marker(s(4))], kind: item.kind };
    assert!(check_decl(&w, &marked).is_empty());
}

#[test]
fn check_variant_skips_struct_variants() {
    let (w, gc_ty) = gc_world();
    let parent = Item { attrs: vec![], kind: ItemKind::Other };
    let mut diags = Vec::new();
    let v = Variant { data: VariantData::Struct { fields: vec![field(20, gc_ty)] } };
    pass().check_variant(&w.cx, &parent, &v, &mut diags);
    assert!(diags.is_empty());
    let t = Variant { data: VariantData::Tuple { fields: vec![field(20, gc_ty)] } };
    pass().check_variant(&w.cx, &parent, &t, &mut diags);
    assert_eq!(diags, vec![Diagnostic { span: sp(22), kind: LintKind::EnumField }]);
}

#[test]
fn other_items_ignored() {
    let (w, _) = gc_world();
    let item = Item { attrs: vec![], kind: ItemKind::Other };
    assert!(check_decl(&w, &item).is_empty());
}

#[test]
fn interior_marked_container_never_unrooted() {
    let (mut w, gc_ty) = gc_world();
    let rooted = w.local(201, vec![marker(s(2))]);
    let rooted_gc = w.adt(rooted, vec![gc_ty]);
    assert!(!w.unrooted(rooted_gc, false));
    assert!(!w.unrooted(rooted_gc, true));
    let item = Item { attrs: vec![], kind: ItemKind::Struct { fields: vec![field(10, rooted_gc)] } };
    assert!(check_decl(&w, &item).is_empty());
}

#[test]
fn must_root_wins_over_interior_marker() {
    let mut w = World::new();
    let both = w.local(202, vec![marker(s(2)), marker(s(4))]);
    let t = w.adt(both, vec![]);
    assert!(w.unrooted(t, false));
}

#[test]
fn rc_payloads() {
    let (mut w, gc_ty) = gc_world();
    let rc = w.def(7, vec![8, 9], vec![]);
    let promise = w.local(203, vec![marker(s(3)), marker(s(4))]);
    let promise_ty = w.adt(promise, vec![]);
    let rc_promise = w.adt(rc, vec![promise_ty]);
    let rc_gc = w.adt(rc, vec![gc_ty]);
    let int_ty = w.ty(TyKind::Scalar);
    let rc_int = w.adt(rc, vec![int_ty]);
    assert!(!w.unrooted(rc_promise, false));
    assert!(w.unrooted(rc_gc, false));
    assert!(w.unrooted(rc_gc, true));
    assert!(!w.unrooted(rc_int, false));
}

#[test]
fn ref_like_views_exempt() {
    let (mut w, gc_ty) = gc_world();
    let cell_ref = w.def(5, vec![12, 13], vec![]);
    let cell_ref_mut = w.def(5, vec![12, 14], vec![]);
    let slice_iter = w.def(5, vec![15, 16], vec![]);
    let slice_iter_mut = w.def(5, vec![15, 17], vec![]);
    let entry = w.def(6, vec![18, 19, 20, 22], vec![]);
    let occupied = w.def(6, vec![18, 19, 20, 23], vec![]);
    let vacant = w.def(6, vec![18, 19, 20, 24], vec![]);
    let map_iter = w.def(6, vec![18, 19, 20, 16], vec![]);
    let set_iter = w.def(6, vec![18, 19, 21, 16], vec![]);
    for d in [cell_ref, cell_ref_mut, slice_iter, slice_iter_mut, entry, occupied, vacant, map_iter, set_iter] {
        let t = w.adt(d, vec![gc_ty, gc_ty]);
        assert!(!w.unrooted(t, false));
        assert!(!w.unrooted(t, true));
    }
    // The same name in another crate is an ordinary type.
    let lookalike = w.def(LOCAL_CRATE, vec![12, 13], vec![]);
    let t = w.adt(lookalike, vec![gc_ty]);
    assert!(w.unrooted(t, false));
}

#[test]
fn shapes_that_are_not_walked() {
    let (mut w, gc_ty) = gc_world();
    let r = w.ty(TyKind::Ref { referent: gc_ty });
    let p = w.ty(TyKind::RawPtr { pointee: gc_ty });
    let f = w.ty(TyKind::FnPtr { inputs: vec![gc_ty], output: gc_ty });
    assert!(!w.unrooted(r, false));
    assert!(!w.unrooted(p, false));
    assert!(!w.unrooted(f, false));
    let param = w.ty(TyKind::Param { index: 0 });
    assert!(!w.unrooted(param, false));
}

#[test]
fn shapes_that_are_walked() {
    let (mut w, gc_ty) = gc_world();
    let int_ty = w.ty(TyKind::Scalar);
    let tup = w.ty(TyKind::Tuple { elems: vec![int_ty, gc_ty] });
    let arr = w.ty(TyKind::Array { elem: gc_ty });
    let vec_def = w.def(7, vec![99, 98], vec![]);
    let vec_gc = w.adt(vec_def, vec![gc_ty]);
    let vec_int = w.adt(vec_def, vec![int_ty]);
    let nested = w.adt(vec_def, vec![tup]);
    assert!(w.unrooted(tup, false));
    assert!(w.unrooted(arr, false));
    assert!(w.unrooted(vec_gc, false));
    assert!(!w.unrooted(vec_int, false));
    assert!(w.unrooted(nested, false));
    let plain_tup = w.ty(TyKind::Tuple { elems: vec![int_ty, int_ty] });
    assert!(!w.unrooted(plain_tup, false));
}

#[test]
fn box_exempt_only_in_constructor() {
    let (mut w, gc_ty) = gc_world();
    let boxed = w.def(7, vec![10, 11], vec![]);
    let box_gc = w.adt(boxed, vec![gc_ty]);
    assert!(!w.unrooted(box_gc, true));
    assert!(w.unrooted(box_gc, false));
}

fn sig(inputs: Vec<Param>, output: TyId) -> FnDecl {
    FnDecl { inputs, output, output_span: sp(90) }
}

#[test]
fn constructor_return_exempt() {
    let (mut w, gc_ty) = gc_world();
    let unit = w.ty(TyKind::Tuple { elems: vec![] });
    let decl = sig(vec![Param { span: sp(10), ty: unit }], gc_ty);
    let body = Body { nodes: vec![] };
    let d = check_function(&w, FnKind::ItemFn { name: "new".to_string() }, &decl, &body, &ExpnKind::Root);
    assert!(d.is_empty());
    let d = check_function(&w, FnKind::Method { name: "get".to_string() }, &decl, &body, &ExpnKind::Root);
    assert_eq!(d, vec![Diagnostic { span: sp(90), kind: LintKind::Signature }]);
}

#[test]
fn constructor_parameters_checked() {
    let (mut w, gc_ty) = gc_world();
    let boxed = w.def(7, vec![10, 11], vec![]);
    let box_gc = w.adt(boxed, vec![gc_ty]);
    let decl = sig(vec![Param { span: sp(10), ty: gc_ty }, Param { span: sp(20), ty: box_gc }], gc_ty);
    let body = Body { nodes: vec![] };
    let d = check_function(&w, FnKind::ItemFn { name: "new_inherited".to_string() }, &decl, &body, &ExpnKind::Root);
    assert_eq!(
        d,
        vec![
            Diagnostic { span: sp(10), kind: LintKind::Signature },
            Diagnostic { span: sp(20), kind: LintKind::Signature },
        ]
    );
}

#[test]
fn box_binding_in_constructor_body() {
    let (mut w, gc_ty) = gc_world();
    let boxed = w.def(7, vec![10, 11], vec![]);
    let box_gc = w.adt(boxed, vec![gc_ty]);
    let unit = w.ty(TyKind::Tuple { elems: vec![] });
    let decl = sig(vec![], unit);
    let body = Body { nodes: vec![BodyNode::Binding { span: sp(40), ty: box_gc, mode: BindingMode::Unannotated }] };
    let d = check_function(&w, FnKind::Method { name: "new".to_string() }, &decl, &body, &ExpnKind::Root);
    assert!(d.is_empty());
    let d = check_function(&w, FnKind::Method { name: "build".to_string() }, &decl, &body, &ExpnKind::Root);
    assert_eq!(d, vec![Diagnostic { span: sp(40), kind: LintKind::Expression { ty: box_gc } }]);
}

#[test]
fn borrowed_bindings_never_reported() {
    let (mut w, gc_ty) = gc_world();
    let unit = w.ty(TyKind::Tuple { elems: vec![] });
    let decl = sig(vec![], unit);
    let body = Body {
        nodes: vec![
            BodyNode::Binding { span: sp(40), ty: gc_ty, mode: BindingMode::Ref },
            BodyNode::Binding { span: sp(50), ty: gc_ty, mode: BindingMode::RefMut },
        ],
    };
    for name in ["new", "run"] {
        let d = check_function(&w, FnKind::ItemFn { name: name.to_string() }, &decl, &body, &ExpnKind::Root);
        assert!(d.is_empty());
    }
}

#[test]
fn casts_and_owned_bindings_reported() {
    let (mut w, gc_ty) = gc_world();
    let unit = w.ty(TyKind::Tuple { elems: vec![] });
    let decl = sig(vec![], unit);
    let body = Body {
        nodes: vec![
            BodyNode::Cast { operand_span: sp(30), operand_ty: gc_ty },
            BodyNode::Assign,
            BodyNode::Call,
            BodyNode::Other,
            BodyNode::Binding { span: sp(40), ty: gc_ty, mode: BindingMode::Mutable },
            BodyNode::Cast { operand_span: sp(50), operand_ty: unit },
        ],
    };
    let d = check_function(&w, FnKind::ItemFn { name: "run".to_string() }, &decl, &body, &ExpnKind::Root);
    assert_eq!(
        d,
        vec![
            Diagnostic { span: sp(30), kind: LintKind::Expression { ty: gc_ty } },
            Diagnostic { span: sp(40), kind: LintKind::Expression { ty: gc_ty } },
        ]
    );
}

#[test]
fn derived_functions_skip_signature_only() {
    let (w, gc_ty) = gc_world();
    let decl = sig(vec![Param { span: sp(10), ty: gc_ty }], gc_ty);
    let body = Body { nodes: vec![BodyNode::Cast { operand_span: sp(30), operand_ty: gc_ty }] };
    let expn = ExpnKind::Macro { kind: MacroKind::Attr, name: "derive_JSTraceable".to_string() };
    let d = check_function(&w, FnKind::Method { name: "trace".to_string() }, &decl, &body, &expn);
    assert_eq!(d, vec![Diagnostic { span: sp(30), kind: LintKind::Expression { ty: gc_ty } }]);
    let d = check_function(&w, FnKind::Method { name: "trace".to_string() }, &decl, &body, &ExpnKind::Root);
    assert_eq!(d.len(), 3);
}

#[test]
fn closures_skipped() {
    let (w, gc_ty) = gc_world();
    let decl = sig(vec![Param { span: sp(10), ty: gc_ty }], gc_ty);
    let body = Body { nodes: vec![BodyNode::Cast { operand_span: sp(30), operand_ty: gc_ty }] };
    let d = check_function(&w, FnKind::Closure, &decl, &body, &ExpnKind::Root);
    assert!(d.is_empty());
}

#[test]
fn derive_expansion_detection() {
    let attr = |name: &str| ExpnKind::Macro { kind: MacroKind::Attr, name: name.to_string() };
    assert!(in_derive_expn(&attr("derive")));
    assert!(in_derive_expn(&attr("builtin_derive_x")));
    assert!(!in_derive_expn(&attr("deriv")));
    assert!(!in_derive_expn(&attr("dom_struct")));
    assert!(!in_derive_expn(&ExpnKind::Macro { kind: MacroKind::Bang, name: "derive".to_string() }));
    assert!(!in_derive_expn(&ExpnKind::Macro { kind: MacroKind::Derive, name: "derive".to_string() }));
    assert!(!in_derive_expn(&ExpnKind::Root));
    assert!(!in_derive_expn(&ExpnKind::Desugaring));
}

#[test]
fn constructor_names() {
    assert!(is_new_function_name(&"new".to_string()));
    assert!(is_new_function_name(&"new_".to_string()));
    assert!(is_new_function_name(&"new_inherited".to_string()));
    assert!(!is_new_function_name(&"newer".to_string()));
    assert!(!is_new_function_name(&"renew".to_string()));
    assert!(!is_new_function_name(&"ne".to_string()));
    assert!(!is_new_function_name(&"".to_string()));
    assert!(!is_new_function_name(&"New".to_string()));
}

#[test]
fn marker_attributes() {
    let sym = symbols();
    assert!(has_lint_attr(&sym, &vec![Attribute::DocComment, marker(s(4))], s(4)));
    assert!(!has_lint_attr(&sym, &vec![marker(s(2))], s(4)));
    assert!(!has_lint_attr(&sym, &vec![Attribute::Normal { path: vec![s(50), s(4)] }], s(4)));
    assert!(!has_lint_attr(&sym, &vec![Attribute::Normal { path: vec![s(1), s(4), s(4)] }], s(4)));
    assert!(!has_lint_attr(&sym, &vec![Attribute::Normal { path: vec![s(4)] }], s(4)));
    assert!(!has_lint_attr(&sym, &vec![], s(4)));
}

#[test]
fn def_paths() {
    let mut w = World::new();
    let rc = w.def(7, vec![8, 9], vec![]);
    assert!(w.cx.match_def_path(rc, &vec![s(7), s(8), s(9)]));
    assert!(!w.cx.match_def_path(rc, &vec![s(6), s(8), s(9)]));
    assert!(!w.cx.match_def_path(rc, &vec![s(7), s(8)]));
    assert!(!w.cx.match_def_path(rc, &vec![s(7), s(8), s(10)]));
    assert!(!w.cx.match_def_path(rc, &vec![]));
    let sym = symbols();
    assert!(w.cx.has_attr(&sym, rc, s(4)) == false);
}

#[test]
fn messages() {
    assert_eq!(
        LintKind::StructField.message(""),
        "Type must be rooted, use #[unrooted_must_root_lint::must_root] on the struct definition to propagate"
    );
    assert_eq!(
        LintKind::EnumField.message("x"),
        "Type must be rooted, use #[unrooted_must_root_lint::must_root] on the enum definition to propagate"
    );
    assert_eq!(LintKind::Signature.message("x"), "Type must be rooted");
    assert_eq!(
        LintKind::Expression { ty: TyId { index: 0 } }.message("Dom<Node>"),
        "Expression of type Dom<Node> must be rooted"
    );
}

#[test]
fn registrar_declares_denied_lint() {
    let mut reg = Registry { lints: vec![], late_passes: vec![] };
    plugin_registrar(&mut reg, symbols());
    assert_eq!(reg.lints.len(), 1);
    assert_eq!(reg.lints[0].name, "unrooted_must_root");
    assert_eq!(reg.lints[0].default_level, Level::Deny);
    assert_eq!(reg.lints[0].desc, "Warn and report usage of unrooted jsmanaged objects");
    assert_eq!(reg.late_passes.len(), 1);
    assert_eq!(reg.late_passes[0].symbols.must_root, s(4));
    assert_eq!(reg.late_passes[0].name(), "ServoUnrootedPass");
}

#[test]
fn visitor_nodes() {
    let (mut w, gc_ty) = gc_world();
    let boxed = w.def(7, vec![10, 11], vec![]);
    let box_gc = w.adt(boxed, vec![gc_ty]);
    let in_new = FnDefVisitor { symbols: symbols(), in_new_function: true };
    let outside = FnDefVisitor { symbols: symbols(), in_new_function: false };
    let cast = BodyNode::Cast { operand_span: sp(30), operand_ty: box_gc };
    let bind = BodyNode::Binding { span: sp(40), ty: box_gc, mode: BindingMode::Unannotated };
    let mut diags = Vec::new();
    in_new.visit_expr(&w.cx, &cast, &mut diags);
    in_new.visit_pat(&w.cx, &bind, &mut diags);
    assert!(diags.is_empty());
    outside.visit_pat(&w.cx, &cast, &mut diags);
    outside.visit_expr(&w.cx, &bind, &mut diags);
    assert!(diags.is_empty());
    outside.visit_expr(&w.cx, &cast, &mut diags);
    outside.visit_pat(&w.cx, &bind, &mut diags);
    assert_eq!(
        diags,
        vec![
            Diagnostic { span: sp(30), kind: LintKind::Expression { ty: box_gc } },
            Diagnostic { span: sp(40), kind: LintKind::Expression { ty: box_gc } },
        ]
    );
}
