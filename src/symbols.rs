use vstd::prelude::*;

verus! {

/// An interned identifier, as handed out by the host's symbol table.
#[derive(Clone, Copy, Debug, PartialEq, Eq, Structural)]
pub struct Symbol {
    pub index: u32,
}

/// The interned names that the checker compares against: the tool
/// namespace of its markers, the three markers, and the path segments of
/// the library types it recognizes by their canonical path.
#[derive(Clone, Copy, Debug)]
pub struct Symbols {
    pub unrooted_must_root_lint: Symbol,
    pub allow_unrooted_interior: Symbol,
    pub allow_unrooted_in_rc: Symbol,
    pub must_root: Symbol,
    pub core_crate: Symbol,
    pub std_crate: Symbol,
    pub alloc: Symbol,
    pub rc: Symbol,
    pub rc_type: Symbol,
    pub boxed: Symbol,
    pub box_type: Symbol,
    pub cell: Symbol,
    pub ref_type: Symbol,
    pub ref_mut_type: Symbol,
    pub slice: Symbol,
    pub iter_type: Symbol,
    pub iter_mut_type: Symbol,
    pub collections: Symbol,
    pub hash: Symbol,
    pub hash_map: Symbol,
    pub hash_set: Symbol,
    pub entry: Symbol,
    pub occupied_entry: Symbol,
    pub vacant_entry: Symbol,
}

/// An attribute attached to a declaration.
#[derive(Debug)]
pub enum Attribute {
    /// `#[a::b::c]`, given by the segments of its path.
    Normal { path: Vec<Symbol> },
    /// A doc comment, which never names a marker.
    DocComment,
}

/// `a` is the marker `#[tool::name]`.
pub open spec fn is_lint_attr(a: Attribute, tool: Symbol, name: Symbol) -> bool {
    match a {
        Attribute::Normal { path } => path@.len() == 2 && path@[0] == tool && path@[1] == name,
        Attribute::DocComment => false,
    }
}

/// Some attribute of `attrs` is the checker's marker `name`.
pub open spec fn has_marker(sym: Symbols, attrs: Seq<Attribute>, name: Symbol) -> bool {
    exists|i: int|
        0 <= i < attrs.len() && is_lint_attr(#[trigger] attrs[i], sym.unrooted_must_root_lint, name)
}

/// Tells whether one of `attrs` is `#[unrooted_must_root_lint::<name>]`.
pub fn has_lint_attr(sym: &Symbols, attrs: &Vec<Attribute>, name: Symbol) -> (r: bool)
    ensures
        r == has_marker(*sym, attrs@, name),
{
    let mut i: usize = 0;
    while i < attrs.len()
        invariant
            i <= attrs@.len(),
            forall|j: int|
                0 <= j < i ==> !is_lint_attr(#[trigger] attrs@[j], sym.unrooted_must_root_lint, name),
        decreases attrs@.len() - i,
    {
        match &attrs[i] {
            Attribute::Normal { path } => {
                if path.len() == 2 && path[0] == sym.unrooted_must_root_lint && path[1] == name {
                    return true;
                }
            },
            Attribute::DocComment => {},
        }
        i += 1;
    }
    false
}

} // verus!
