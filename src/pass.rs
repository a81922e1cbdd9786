use vstd::prelude::*;
use vstd::string::StringExecFns;
use crate::predicate::{is_unrooted_ty, unrooted};
use crate::span::{ExpnKind, Span, in_derive_expn, is_constructor_name, is_derive_expn, is_new_function_name};
use crate::symbols::{Attribute, Symbols, has_lint_attr, has_marker};
use crate::ty::{TyCtxt, TyId};

verus! {

/// A field of a struct or of an enum variant.
#[derive(Clone, Copy, Debug)]
pub struct FieldDef {
    /// The whole field, name and type.
    pub span: Span,
    /// The field's type as written.
    pub ty_span: Span,
    /// The field's resolved type.
    pub ty: TyId,
}

/// The fields of an enum variant.
#[derive(Debug)]
pub enum VariantData {
    /// `V { a: A, b: B }`.
    Struct { fields: Vec<FieldDef> },
    /// `V(A, B)`.
    Tuple { fields: Vec<FieldDef> },
    /// `V`.
    Unit,
}

/// A variant of an enum.
#[derive(Debug)]
pub struct Variant {
    pub data: VariantData,
}

/// What kind of item a declaration is.
#[derive(Debug)]
pub enum ItemKind {
    Struct { fields: Vec<FieldDef> },
    Enum { variants: Vec<Variant> },
    /// Any other item: the declaration checks ignore it.
    Other,
}

/// A declaration, with the attributes written on it.
#[derive(Debug)]
pub struct Item {
    pub attrs: Vec<Attribute>,
    pub kind: ItemKind,
}

/// What a diagnostic reports.
#[derive(Clone, Copy, Debug, PartialEq, Eq, Structural)]
pub enum LintKind {
    /// A field of an unmarked struct holds an unrooted type: "Type must be
    /// rooted, use `#[unrooted_must_root_lint::must_root]` on the struct
    /// definition to propagate".
    StructField,
    /// A field of an unmarked enum holds an unrooted type: the same words,
    /// naming the enum definition.
    EnumField,
    /// A parameter or return type is unrooted: "Type must be rooted".
    Signature,
    /// A cast operand or an owned binding has the unrooted type `ty`:
    /// "Expression of type `ty` must be rooted".
    Expression { ty: TyId },
}

/// The text of a diagnostic of kind `kind`; `ty_text` is how the host
/// writes the type of an `Expression` finding.
pub open spec fn lint_message(kind: LintKind, ty_text: Seq<char>) -> Seq<char> {
    match kind {
        LintKind::StructField =>
            "Type must be rooted, use #[unrooted_must_root_lint::must_root] on the struct definition to propagate"@,
        LintKind::EnumField =>
            "Type must be rooted, use #[unrooted_must_root_lint::must_root] on the enum definition to propagate"@,
        LintKind::Signature => "Type must be rooted"@,
        LintKind::Expression { .. } => "Expression of type "@ + ty_text + " must be rooted"@,
    }
}

impl LintKind {
    /// The text of a diagnostic of this kind; `ty_text` is how the host
    /// writes the type of an `Expression` finding, and is ignored otherwise.
    pub fn message(&self, ty_text: &str) -> (r: String)
        ensures
            r@ == lint_message(*self, ty_text@),
    {
        match self {
            LintKind::StructField => String::from_str(
                "Type must be rooted, use #[unrooted_must_root_lint::must_root] on the struct definition to propagate",
            ),
            LintKind::EnumField => String::from_str(
                "Type must be rooted, use #[unrooted_must_root_lint::must_root] on the enum definition to propagate",
            ),
            LintKind::Signature => String::from_str("Type must be rooted"),
            LintKind::Expression { .. } => {
                let mut text = String::from_str("Expression of type ");
                text.append(ty_text);
                text.append(" must be rooted");
                text
            },
        }
    }
}

/// One finding, at a place in the source.
#[derive(Clone, Copy, Debug, PartialEq, Eq, Structural)]
pub struct Diagnostic {
    pub span: Span,
    pub kind: LintKind,
}

/// Where a field is reported: at the whole field, or, when `at_type`, at
/// its type.
pub open spec fn field_place(f: FieldDef, at_type: bool) -> Span {
    if at_type {
        f.ty_span
    } else {
        f.span
    }
}

/// The single diagnostic of a field, as a sequence.
pub open spec fn field_diagnostic(
    sym: Symbols,
    cx: TyCtxt,
    f: FieldDef,
    kind: LintKind,
    at_type: bool,
) -> Seq<Diagnostic> {
    if unrooted(sym, cx, f.ty, false) {
        seq![Diagnostic { span: field_place(f, at_type), kind }]
    } else {
        Seq::empty()
    }
}

/// One diagnostic of kind `kind` for each field of `fields` whose type is
/// unrooted outside a constructor, in order, located at the field or, when
/// `at_type`, at its type.
pub open spec fn field_diagnostics(
    sym: Symbols,
    cx: TyCtxt,
    fields: Seq<FieldDef>,
    kind: LintKind,
    at_type: bool,
) -> Seq<Diagnostic>
    decreases fields.len(),
{
    if fields.len() == 0 {
        Seq::empty()
    } else {
        field_diagnostics(sym, cx, fields.drop_last(), kind, at_type)
            + field_diagnostic(sym, cx, fields.last(), kind, at_type)
    }
}

/// The fields of the struct-style variants among `variants`, each checked
/// at the field.
pub open spec fn struct_variant_diagnostics(sym: Symbols, cx: TyCtxt, variants: Seq<Variant>) -> Seq<Diagnostic>
    decreases variants.len(),
{
    if variants.len() == 0 {
        Seq::empty()
    } else {
        struct_variant_diagnostics(sym, cx, variants.drop_last())
            + match variants.last().data {
                VariantData::Struct { fields } => field_diagnostics(sym, cx, fields@, LintKind::EnumField, false),
                _ => Seq::empty(),
            }
    }
}

/// What the item check reports: nothing for a declaration marked
/// `must_root`; else each unrooted field of a struct, and each unrooted
/// field of a struct-style variant of an enum.
pub open spec fn item_diagnostics(sym: Symbols, cx: TyCtxt, item: Item) -> Seq<Diagnostic> {
    if has_marker(sym, item.attrs@, sym.must_root) {
        Seq::empty()
    } else {
        match item.kind {
            ItemKind::Struct { fields } => field_diagnostics(sym, cx, fields@, LintKind::StructField, false),
            ItemKind::Enum { variants } => struct_variant_diagnostics(sym, cx, variants@),
            ItemKind::Other => Seq::empty(),
        }
    }
}

/// What the variant check reports for a variant of an enum with attributes
/// `parent_attrs`: nothing if the enum is marked `must_root` or the variant
/// is not tuple-style; else each unrooted field, located at its type.
pub open spec fn variant_diagnostics(
    sym: Symbols,
    cx: TyCtxt,
    parent_attrs: Seq<Attribute>,
    v: Variant,
) -> Seq<Diagnostic> {
    if has_marker(sym, parent_attrs, sym.must_root) {
        Seq::empty()
    } else {
        match v.data {
            VariantData::Tuple { fields } => field_diagnostics(sym, cx, fields@, LintKind::EnumField, true),
            _ => Seq::empty(),
        }
    }
}

/// The tuple-style variants among `variants` of an enum with attributes
/// `parent_attrs`, each checked by the variant check.
pub open spec fn tuple_variant_diagnostics(
    sym: Symbols,
    cx: TyCtxt,
    parent_attrs: Seq<Attribute>,
    variants: Seq<Variant>,
) -> Seq<Diagnostic>
    decreases variants.len(),
{
    if variants.len() == 0 {
        Seq::empty()
    } else {
        tuple_variant_diagnostics(sym, cx, parent_attrs, variants.drop_last())
            + variant_diagnostics(sym, cx, parent_attrs, variants.last())
    }
}

/// All that is reported of a declaration: the item check, then, for an
/// enum, the variant check of each variant.
pub open spec fn declaration_diagnostics(sym: Symbols, cx: TyCtxt, item: Item) -> Seq<Diagnostic> {
    item_diagnostics(sym, cx, item) + match item.kind {
        ItemKind::Enum { variants } => tuple_variant_diagnostics(sym, cx, item.attrs@, variants@),
        _ => Seq::empty(),
    }
}

/// Every field type of `fields` is a type of `cx`.
pub open spec fn fields_valid(cx: TyCtxt, fields: Seq<FieldDef>) -> bool {
    forall|i: int| 0 <= i < fields.len() ==> cx.valid_ty(#[trigger] fields[i].ty)
}

pub open spec fn variant_valid(cx: TyCtxt, v: Variant) -> bool {
    match v.data {
        VariantData::Struct { fields } => fields_valid(cx, fields@),
        VariantData::Tuple { fields } => fields_valid(cx, fields@),
        VariantData::Unit => true,
    }
}

/// Every type that `item` mentions is a type of `cx`.
pub open spec fn item_valid(cx: TyCtxt, item: Item) -> bool {
    match item.kind {
        ItemKind::Struct { fields } => fields_valid(cx, fields@),
        ItemKind::Enum { variants } => forall|i: int|
            0 <= i < variants@.len() ==> variant_valid(cx, #[trigger] variants@[i]),
        ItemKind::Other => true,
    }
}

/// A parameter of a function.
#[derive(Clone, Copy, Debug)]
pub struct Param {
    pub span: Span,
    pub ty: TyId,
}

/// A function's signature: its parameters and its return type.
#[derive(Debug)]
pub struct FnDecl {
    pub inputs: Vec<Param>,
    pub output: TyId,
    /// The return type as written, or where it would stand.
    pub output_span: Span,
}

/// What kind of function is checked.
#[derive(Debug)]
pub enum FnKind {
    /// A free function named `name`.
    ItemFn { name: String },
    /// A method named `name`.
    Method { name: String },
    /// A closure: it is checked as part of the function around it.
    Closure,
}

/// How a pattern binding holds the value it matches.
#[derive(Clone, Copy, Debug, PartialEq, Eq, Structural)]
pub enum BindingMode {
    /// `x`: moves or copies the value into a new slot.
    Unannotated,
    /// `mut x`: the same, in a mutable slot.
    Mutable,
    /// `ref x`: borrows the value.
    Ref,
    /// `ref mut x`: borrows the value mutably.
    RefMut,
}

/// A node of a function body that the walker looks at.
#[derive(Clone, Copy, Debug)]
pub enum BodyNode {
    /// The cast `operand as T`, whose operand stands at `operand_span`
    /// and has type `operand_ty`.
    Cast { operand_span: Span, operand_ty: TyId },
    /// A binding pattern of type `ty`.
    Binding { span: Span, ty: TyId, mode: BindingMode },
    /// An assignment, whose right-hand side is not checked.
    Assign,
    /// A call, whose arguments are not checked.
    Call,
    /// Any other expression or pattern.
    Other,
}

/// A function body: every expression and pattern of it, in the order the
/// walk meets them. The bodies of closures inside it are bodies of their
/// own.
#[derive(Debug)]
pub struct Body {
    pub nodes: Vec<BodyNode>,
}

/// The diagnostic of a cast, as a sequence: one if its operand's type is
/// unrooted. Other nodes have none here.
pub open spec fn cast_diagnostic(sym: Symbols, cx: TyCtxt, n: BodyNode, in_new: bool) -> Seq<Diagnostic> {
    match n {
        BodyNode::Cast { operand_span, operand_ty } => if unrooted(sym, cx, operand_ty, in_new) {
            seq![Diagnostic { span: operand_span, kind: LintKind::Expression { ty: operand_ty } }]
        } else {
            Seq::empty()
        },
        _ => Seq::empty(),
    }
}

/// The diagnostic of a binding, as a sequence: one if it moves or copies
/// its value and its type is unrooted. Other nodes have none here.
pub open spec fn binding_diagnostic(sym: Symbols, cx: TyCtxt, n: BodyNode, in_new: bool) -> Seq<Diagnostic> {
    match n {
        BodyNode::Binding { span, ty, mode } => if (mode == BindingMode::Unannotated || mode
            == BindingMode::Mutable) && unrooted(sym, cx, ty, in_new) {
            seq![Diagnostic { span, kind: LintKind::Expression { ty } }]
        } else {
            Seq::empty()
        },
        _ => Seq::empty(),
    }
}

/// The diagnostic of one node of a body, as a sequence.
pub open spec fn node_diagnostic(sym: Symbols, cx: TyCtxt, n: BodyNode, in_new: bool) -> Seq<Diagnostic> {
    cast_diagnostic(sym, cx, n, in_new) + binding_diagnostic(sym, cx, n, in_new)
}

/// What the body walk reports, in order: each cast whose operand's type is
/// unrooted, and each binding that takes its value by move or copy and
/// whose type is unrooted, both judged in the function's constructor
/// context `in_new`.
pub open spec fn body_diagnostics(sym: Symbols, cx: TyCtxt, nodes: Seq<BodyNode>, in_new: bool) -> Seq<Diagnostic>
    decreases nodes.len(),
{
    if nodes.len() == 0 {
        Seq::empty()
    } else {
        body_diagnostics(sym, cx, nodes.drop_last(), in_new) + node_diagnostic(sym, cx, nodes.last(), in_new)
    }
}

/// The parameters among `inputs` whose types are unrooted, each at the
/// parameter.
pub open spec fn param_diagnostics(sym: Symbols, cx: TyCtxt, inputs: Seq<Param>) -> Seq<Diagnostic>
    decreases inputs.len(),
{
    if inputs.len() == 0 {
        Seq::empty()
    } else {
        param_diagnostics(sym, cx, inputs.drop_last()) + if unrooted(sym, cx, inputs.last().ty, false) {
            seq![Diagnostic { span: inputs.last().span, kind: LintKind::Signature }]
        } else {
            Seq::empty()
        }
    }
}

/// What the signature check reports: the unrooted parameters and, outside
/// a constructor, an unrooted return type. The heap exemption of a
/// constructor never applies here.
pub open spec fn signature_diagnostics(sym: Symbols, cx: TyCtxt, decl: FnDecl, in_new: bool) -> Seq<Diagnostic> {
    param_diagnostics(sym, cx, decl.inputs@) + if !in_new && unrooted(sym, cx, decl.output, false) {
        seq![Diagnostic { span: decl.output_span, kind: LintKind::Signature }]
    } else {
        Seq::empty()
    }
}

/// The name of a function of this kind, if it has one.
pub open spec fn fn_name(kind: FnKind) -> Option<Seq<char>> {
    match kind {
        FnKind::ItemFn { name } => Some(name@),
        FnKind::Method { name } => Some(name@),
        FnKind::Closure => None,
    }
}

/// What the function check reports: nothing for a closure; else the
/// signature check, skipped where the function comes from a derive, then
/// the body walk, in the constructor context that the name gives.
pub open spec fn fn_diagnostics(
    sym: Symbols,
    cx: TyCtxt,
    kind: FnKind,
    decl: FnDecl,
    body: Body,
    expn: ExpnKind,
) -> Seq<Diagnostic> {
    match fn_name(kind) {
        None => Seq::empty(),
        Some(name) => {
            let in_new = is_constructor_name(name);
            (if is_derive_expn(expn) {
                Seq::empty()
            } else {
                signature_diagnostics(sym, cx, decl, in_new)
            }) + body_diagnostics(sym, cx, body.nodes@, in_new)
        },
    }
}

pub open spec fn node_valid(cx: TyCtxt, n: BodyNode) -> bool {
    match n {
        BodyNode::Cast { operand_ty, .. } => cx.valid_ty(operand_ty),
        BodyNode::Binding { ty, .. } => cx.valid_ty(ty),
        _ => true,
    }
}

/// Every type that a body mentions is a type of `cx`.
pub open spec fn body_valid(cx: TyCtxt, body: Body) -> bool {
    forall|i: int| 0 <= i < body.nodes@.len() ==> node_valid(cx, #[trigger] body.nodes@[i])
}

/// Every type that a signature mentions is a type of `cx`.
pub open spec fn decl_valid(cx: TyCtxt, decl: FnDecl) -> bool {
    cx.valid_ty(decl.output) && forall|i: int|
        0 <= i < decl.inputs@.len() ==> cx.valid_ty(#[trigger] decl.inputs@[i].ty)
}

/// The walker of a function body, with the constructor context of the
/// function it belongs to.
#[derive(Clone, Copy, Debug)]
pub struct FnDefVisitor {
    pub symbols: Symbols,
    pub in_new_function: bool,
}

impl FnDefVisitor {
    /// Reports a cast whose operand's type is unrooted, at the operand.
    /// Other expressions, assignments and calls among them, are not
    /// checked.
    pub fn visit_expr(&self, cx: &TyCtxt, node: &BodyNode, diags: &mut Vec<Diagnostic>)
        requires
            cx.wf(),
            node_valid(*cx, *node),
        ensures
            final(diags)@ == old(diags)@ + cast_diagnostic(self.symbols, *cx, *node, self.in_new_function),
    {
        match node {
            BodyNode::Cast { operand_span, operand_ty } => {
                if is_unrooted_ty(&self.symbols, cx, *operand_ty, self.in_new_function) {
                    diags.push(Diagnostic { span: *operand_span, kind: LintKind::Expression { ty: *operand_ty } });
                } else {
                    assert(diags@ =~= diags@ + Seq::<Diagnostic>::empty());
                }
            },
            _ => {
                assert(diags@ =~= diags@ + Seq::<Diagnostic>::empty());
            },
        }
    }

    /// Reports a binding that moves or copies its value into a new slot and
    /// whose type is unrooted, at the pattern. `ref` bindings borrow, and are
    /// never reported.
    pub fn visit_pat(&self, cx: &TyCtxt, node: &BodyNode, diags: &mut Vec<Diagnostic>)
        requires
            cx.wf(),
            node_valid(*cx, *node),
        ensures
            final(diags)@ == old(diags)@ + binding_diagnostic(self.symbols, *cx, *node, self.in_new_function),
    {
        match node {
            BodyNode::Binding { span, ty, mode } => {
                let moves = match mode {
                    BindingMode::Unannotated => true,
                    BindingMode::Mutable => true,
                    _ => false,
                };
                if moves && is_unrooted_ty(&self.symbols, cx, *ty, self.in_new_function) {
                    diags.push(Diagnostic { span: *span, kind: LintKind::Expression { ty: *ty } });
                } else {
                    assert(diags@ =~= diags@ + Seq::<Diagnostic>::empty());
                }
            },
            _ => {
                assert(diags@ =~= diags@ + Seq::<Diagnostic>::empty());
            },
        }
    }

    /// Walks every node of `body`.
    pub fn walk_body(&self, cx: &TyCtxt, body: &Body, diags: &mut Vec<Diagnostic>)
        requires
            cx.wf(),
            body_valid(*cx, *body),
        ensures
            final(diags)@ == old(diags)@ + body_diagnostics(self.symbols, *cx, body.nodes@, self.in_new_function),
    {
        let ghost start = diags@;
        let mut i: usize = 0;
        while i < body.nodes.len()
            invariant
                i <= body.nodes@.len(),
                cx.wf(),
                body_valid(*cx, *body),
                diags@ == start + body_diagnostics(self.symbols, *cx, body.nodes@.subrange(0, i as int), self.in_new_function),
            decreases body.nodes@.len() - i,
        {
            assert(body.nodes@.subrange(0, i as int + 1).drop_last() =~= body.nodes@.subrange(0, i as int));
            assert(node_valid(*cx, body.nodes@[i as int]));
            let node = &body.nodes[i];
            let ghost before = diags@;
            match node {
                BodyNode::Binding { .. } => self.visit_pat(cx, node, diags),
                _ => self.visit_expr(cx, node, diags),
            }
            assert(diags@ =~= before + node_diagnostic(self.symbols, *cx, *node, self.in_new_function));
            i += 1;
            assert(diags@ =~= start + body_diagnostics(self.symbols, *cx, body.nodes@.subrange(0, i as int), self.in_new_function));
        }
        assert(body.nodes@.subrange(0, i as int) =~= body.nodes@);
    }
}

/// The checker: built once per compilation with the interned names it
/// needs, then run by the host on each declaration and function.
#[derive(Clone, Copy, Debug)]
pub struct UnrootedPass {
    pub symbols: Symbols,
}

/// Appends the diagnostics of `fields` to `diags`.
fn check_fields(
    sym: &Symbols,
    cx: &TyCtxt,
    fields: &Vec<FieldDef>,
    kind: LintKind,
    at_type: bool,
    diags: &mut Vec<Diagnostic>,
)
    requires
        cx.wf(),
        fields_valid(*cx, fields@),
    ensures
        final(diags)@ == old(diags)@ + field_diagnostics(*sym, *cx, fields@, kind, at_type),
{
    let ghost start = diags@;
    let mut i: usize = 0;
    while i < fields.len()
        invariant
            i <= fields@.len(),
            cx.wf(),
            fields_valid(*cx, fields@),
            diags@ == start + field_diagnostics(*sym, *cx, fields@.subrange(0, i as int), kind, at_type),
        decreases fields@.len() - i,
    {
        let f = fields[i];
        assert(fields@.subrange(0, i as int + 1).drop_last() =~= fields@.subrange(0, i as int));
        assert(cx.valid_ty(fields@[i as int].ty));
        if is_unrooted_ty(sym, cx, f.ty, false) {
            let span = if at_type { f.ty_span } else { f.span };
            diags.push(Diagnostic { span, kind });
        }
        i += 1;
        assert(diags@ =~= start + field_diagnostics(*sym, *cx, fields@.subrange(0, i as int), kind, at_type));
    }
    assert(fields@.subrange(0, i as int) =~= fields@);
}

impl UnrootedPass {
    pub fn new(symbols: Symbols) -> (r: UnrootedPass)
        ensures
            r.symbols == symbols,
    {
        UnrootedPass { symbols }
    }

    /// The name under which the host lists this pass.
    pub fn name(&self) -> (r: String)
        ensures
            r@ == "ServoUnrootedPass"@,
    {
        String::from_str("ServoUnrootedPass")
    }

    /// Checks a declaration: unless it is marked `must_root`, every field of
    /// a struct, and every field of a struct-style variant of an enum, whose
    /// type is unrooted is reported at the field.
    pub fn check_item(&self, cx: &TyCtxt, item: &Item, diags: &mut Vec<Diagnostic>)
        requires
            cx.wf(),
            item_valid(*cx, *item),
        ensures
            final(diags)@ == old(diags)@ + item_diagnostics(self.symbols, *cx, *item),
    {
        let sym = &self.symbols;
        if has_lint_attr(sym, &item.attrs, sym.must_root) {
            assert(diags@ =~= diags@ + Seq::<Diagnostic>::empty());
            return;
        }
        match &item.kind {
            ItemKind::Struct { fields } => {
                check_fields(sym, cx, fields, LintKind::StructField, false, diags);
            },
            ItemKind::Enum { variants } => {
                let ghost start = diags@;
                let mut i: usize = 0;
                while i < variants.len()
                    invariant
                        i <= variants@.len(),
                        cx.wf(),
                        forall|k: int| 0 <= k < variants@.len() ==> variant_valid(*cx, #[trigger] variants@[k]),
                        diags@ == start + struct_variant_diagnostics(*sym, *cx, variants@.subrange(0, i as int)),
                    decreases variants@.len() - i,
                {
                    assert(variants@.subrange(0, i as int + 1).drop_last() =~= variants@.subrange(0, i as int));
                    assert(variant_valid(*cx, variants@[i as int]));
                    let ghost before = diags@;
                    match &variants[i].data {
                        VariantData::Struct { fields } => {
                            check_fields(sym, cx, fields, LintKind::EnumField, false, diags);
                        },
                        _ => {
                            assert(diags@ =~= before + Seq::<Diagnostic>::empty());
                        },
                    }
                    i += 1;
                    assert(diags@ =~= start + struct_variant_diagnostics(*sym, *cx, variants@.subrange(0, i as int)));
                }
                assert(variants@.subrange(0, i as int) =~= variants@);
            },
            ItemKind::Other => {
                assert(diags@ =~= diags@ + Seq::<Diagnostic>::empty());
            },
        }
    }

    /// Checks a variant of the enum `parent`: unless the enum is marked
    /// `must_root`, every field of a tuple-style variant whose type is
    /// unrooted is reported at the field's type. Struct-style variants are
    /// left to `check_item`.
    pub fn check_variant(&self, cx: &TyCtxt, parent: &Item, var: &Variant, diags: &mut Vec<Diagnostic>)
        requires
            cx.wf(),
            variant_valid(*cx, *var),
        ensures
            final(diags)@ == old(diags)@ + variant_diagnostics(self.symbols, *cx, parent.attrs@, *var),
    {
        let sym = &self.symbols;
        if has_lint_attr(sym, &parent.attrs, sym.must_root) {
            assert(diags@ =~= diags@ + Seq::<Diagnostic>::empty());
            return;
        }
        match &var.data {
            VariantData::Tuple { fields } => {
                check_fields(sym, cx, fields, LintKind::EnumField, true, diags);
            },
            _ => {
                assert(diags@ =~= diags@ + Seq::<Diagnostic>::empty());
            },
        }
    }
    /// Checks a whole declaration: the item check, then, for an enum, the
    /// variant check of each of its variants.
    pub fn check_declaration(&self, cx: &TyCtxt, item: &Item, diags: &mut Vec<Diagnostic>)
        requires
            cx.wf(),
            item_valid(*cx, *item),
        ensures
            final(diags)@ == old(diags)@ + declaration_diagnostics(self.symbols, *cx, *item),
    {
        let ghost start = diags@;
        self.check_item(cx, item, diags);
        let ghost mid = diags@;
        match &item.kind {
            ItemKind::Enum { variants } => {
                let mut i: usize = 0;
                while i < variants.len()
                    invariant
                        i <= variants@.len(),
                        cx.wf(),
                        item.kind == (ItemKind::Enum { variants: *variants }),
                        forall|k: int| 0 <= k < variants@.len() ==> variant_valid(*cx, #[trigger] variants@[k]),
                        diags@ == mid + tuple_variant_diagnostics(
                            self.symbols,
                            *cx,
                            item.attrs@,
                            variants@.subrange(0, i as int),
                        ),
                    decreases variants@.len() - i,
                {
                    assert(variants@.subrange(0, i as int + 1).drop_last() =~= variants@.subrange(0, i as int));
                    assert(variant_valid(*cx, variants@[i as int]));
                    self.check_variant(cx, item, &variants[i], diags);
                    i += 1;
                    assert(diags@ =~= mid + tuple_variant_diagnostics(
                        self.symbols,
                        *cx,
                        item.attrs@,
                        variants@.subrange(0, i as int),
                    ));
                }
                assert(variants@.subrange(0, i as int) =~= variants@);
            },
            _ => {},
        }
        assert(diags@ =~= old(diags)@ + declaration_diagnostics(self.symbols, *cx, *item));
    }

    /// Checks a function: its parameters and, unless it is a constructor
    /// (named `new` or `new_...`), its return type, where it was not
    /// produced by a derive; then walks its body in its constructor
    /// context. Closures are skipped: they are walked with the function
    /// around them.
    pub fn check_fn(
        &self,
        cx: &TyCtxt,
        kind: &FnKind,
        decl: &FnDecl,
        body: &Body,
        expn: &ExpnKind,
        diags: &mut Vec<Diagnostic>,
    )
        requires
            cx.wf(),
            decl_valid(*cx, *decl),
            body_valid(*cx, *body),
        ensures
            final(diags)@ == old(diags)@ + fn_diagnostics(self.symbols, *cx, *kind, *decl, *body, *expn),
    {
        let sym = &self.symbols;
        let in_new_function = match kind {
            FnKind::ItemFn { name } => is_new_function_name(name),
            FnKind::Method { name } => is_new_function_name(name),
            FnKind::Closure => {
                assert(diags@ =~= diags@ + Seq::<Diagnostic>::empty());
                return;
            },
        };
        let ghost start = diags@;
        if !in_derive_expn(expn) {
            let mut i: usize = 0;
            while i < decl.inputs.len()
                invariant
                    i <= decl.inputs@.len(),
                    cx.wf(),
                    decl_valid(*cx, *decl),
                    diags@ == start + param_diagnostics(*sym, *cx, decl.inputs@.subrange(0, i as int)),
                decreases decl.inputs@.len() - i,
            {
                assert(decl.inputs@.subrange(0, i as int + 1).drop_last() =~= decl.inputs@.subrange(0, i as int));
                assert(cx.valid_ty(decl.inputs@[i as int].ty));
                let arg = decl.inputs[i];
                if is_unrooted_ty(sym, cx, arg.ty, false) {
                    diags.push(Diagnostic { span: arg.span, kind: LintKind::Signature });
                }
                i += 1;
                assert(diags@ =~= start + param_diagnostics(*sym, *cx, decl.inputs@.subrange(0, i as int)));
            }
            assert(decl.inputs@.subrange(0, i as int) =~= decl.inputs@);
            if !in_new_function && is_unrooted_ty(sym, cx, decl.output, false) {
                diags.push(Diagnostic { span: decl.output_span, kind: LintKind::Signature });
            }
            assert(diags@ =~= start + signature_diagnostics(*sym, *cx, *decl, in_new_function));
        } else {
            assert(diags@ =~= start + Seq::<Diagnostic>::empty());
        }
        let ghost mid = diags@;
        let visitor = FnDefVisitor { symbols: self.symbols, in_new_function };
        visitor.walk_body(cx, body, diags);
        assert(diags@ =~= start + (mid.subrange(start.len() as int, mid.len() as int)
            + body_diagnostics(*sym, *cx, body.nodes@, in_new_function)));
        assert(diags@ =~= start + fn_diagnostics(self.symbols, *cx, *kind, *decl, *body, *expn));
    }
}

} // verus!
