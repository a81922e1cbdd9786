use vstd::prelude::*;
use crate::symbols::{Attribute, Symbol, Symbols, has_marker, has_lint_attr};

verus! {

/// The identity of a struct or enum declaration: its index in the
/// context's declaration table.
#[derive(Clone, Copy, Debug, PartialEq, Eq, Structural)]
pub struct DefId {
    pub index: usize,
}

/// An interned type: its index in the context's type table.
#[derive(Clone, Copy, Debug, PartialEq, Eq, Structural)]
pub struct TyId {
    pub index: usize,
}

/// What the host knows of a struct or enum declaration.
#[derive(Debug)]
pub struct AdtDef {
    /// The name of the crate that defines it.
    pub krate: Symbol,
    /// Its path within that crate, one segment per module and the type's name.
    pub path: Vec<Symbol>,
    /// The attributes written on it.
    pub attrs: Vec<Attribute>,
}

/// The shape of a resolved type.
#[derive(Debug)]
pub enum TyKind {
    /// A struct or enum, with its generic arguments.
    Adt { def: DefId, args: Vec<TyId> },
    /// `&T` or `&mut T`.
    Ref { referent: TyId },
    /// `*const T` or `*mut T`.
    RawPtr { pointee: TyId },
    /// A function item or pointer type.
    FnPtr { inputs: Vec<TyId>, output: TyId },
    /// A tuple.
    Tuple { elems: Vec<TyId> },
    /// An array or a slice.
    Array { elem: TyId },
    /// A generic parameter.
    Param { index: u32 },
    /// A primitive: an integer, `bool`, `char`, `str`, a float.
    Scalar,
}

/// Every type of `s` was interned before the one at index `i`.
pub open spec fn all_before(s: Seq<TyId>, i: int) -> bool {
    forall|j: int| 0 <= j < s.len() ==> (#[trigger] s[j]).index < i
}

/// The host's tables of declarations and interned types. A type is
/// interned after the types it is built from, so its parts have lower
/// indices than itself.
#[derive(Debug)]
pub struct TyCtxt {
    pub defs: Vec<AdtDef>,
    pub types: Vec<TyKind>,
}

impl TyCtxt {
    pub open spec fn valid_ty(&self, t: TyId) -> bool {
        t.index < self.types@.len()
    }

    pub open spec fn valid_def(&self, d: DefId) -> bool {
        d.index < self.defs@.len()
    }

    pub open spec fn kind(&self, t: TyId) -> TyKind {
        self.types@[t.index as int]
    }

    pub open spec fn def(&self, d: DefId) -> AdtDef {
        self.defs@[d.index as int]
    }

    /// The type at index `i` refers only to known declarations and to
    /// types interned before it.
    pub open spec fn kind_wf(&self, i: int) -> bool {
        match self.types@[i] {
            TyKind::Adt { def, args } => self.valid_def(def) && all_before(args@, i),
            TyKind::Ref { referent } => referent.index < i,
            TyKind::RawPtr { pointee } => pointee.index < i,
            TyKind::FnPtr { inputs, output } => all_before(inputs@, i) && output.index < i,
            TyKind::Tuple { elems } => all_before(elems@, i),
            TyKind::Array { elem } => elem.index < i,
            TyKind::Param { .. } => true,
            TyKind::Scalar => true,
        }
    }

    pub open spec fn wf(&self) -> bool {
        forall|i: int| 0 <= i < self.types@.len() ==> #[trigger] self.kind_wf(i)
    }

    /// Declaration `d` carries the checker's marker `name`.
    pub open spec fn def_has_marker(&self, sym: Symbols, d: DefId, name: Symbol) -> bool {
        has_marker(sym, self.def(d).attrs@, name)
    }

    /// The canonical path of declaration `d`, its crate's name first, is `path`.
    pub open spec fn def_path_is(&self, d: DefId, path: Seq<Symbol>) -> bool {
        path.len() > 0 && self.def(d).krate == path[0] && self.def(d).path@ == path.drop_first()
    }

    /// Tells whether declaration `d` carries the checker's marker `name`.
    pub fn has_attr(&self, sym: &Symbols, d: DefId, name: Symbol) -> (r: bool)
        requires
            self.valid_def(d),
        ensures
            r == self.def_has_marker(*sym, d, name),
    {
        has_lint_attr(sym, &self.defs[d.index].attrs, name)
    }

    /// Tells whether the canonical path of declaration `d` is `path`, whose
    /// first segment names the crate.
    pub fn match_def_path(&self, d: DefId, path: &Vec<Symbol>) -> (r: bool)
        requires
            self.valid_def(d),
        ensures
            r == self.def_path_is(d, path@),
    {
        if path.len() == 0 {
            return false;
        }
        let def = &self.defs[d.index];
        if def.krate != path[0] {
            return false;
        }
        if def.path.len() != path.len() - 1 {
            assert(def.path@.len() != path@.drop_first().len());
            return false;
        }
        let mut i: usize = 0;
        while i < def.path.len()
            invariant
                i <= def.path@.len(),
                *def == self.def(d),
                def.krate == path@[0],
                def.path@.len() == path@.len() - 1,
                forall|j: int| 0 <= j < i ==> def.path@[j] == path@[j + 1],
            decreases def.path@.len() - i,
        {
            if def.path[i] != path[i + 1] {
                assert(path@.drop_first()[i as int] == path@[i + 1]);
                assert(def.path@ != path@.drop_first());
                return false;
            }
            i += 1;
        }
        assert(def.path@ =~= path@.drop_first());
        true
    }
}

} // verus!
