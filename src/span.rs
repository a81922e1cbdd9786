use vstd::prelude::*;
use vstd::utf8::encode_utf8;

verus! {

/// A region of source text, as byte offsets.
#[derive(Clone, Copy, Debug, PartialEq, Eq, Structural)]
pub struct Span {
    pub lo: u32,
    pub hi: u32,
}

/// The kind of a macro.
#[derive(Clone, Copy, Debug, PartialEq, Eq, Structural)]
pub enum MacroKind {
    /// `name!(..)`.
    Bang,
    /// `#[name]` on an item.
    Attr,
    /// `#[derive(Name)]`.
    Derive,
}

/// Where the code at a span came from: written by hand, or produced by an
/// expansion.
#[derive(Debug)]
pub enum ExpnKind {
    /// Written in the source.
    Root,
    /// Produced by the macro `name` of kind `kind`.
    Macro { kind: MacroKind, name: String },
    /// Produced by desugaring a construct of the language.
    Desugaring,
}

/// The UTF-8 bytes of `derive`.
pub open spec fn derive_bytes() -> Seq<u8> {
    seq![100u8, 101u8, 114u8, 105u8, 118u8, 101u8]
}

/// The UTF-8 bytes of `new`.
pub open spec fn new_bytes() -> Seq<u8> {
    seq![110u8, 101u8, 119u8]
}

/// The UTF-8 bytes of `new_`.
pub open spec fn new_prefix_bytes() -> Seq<u8> {
    seq![110u8, 101u8, 119u8, 95u8]
}

/// `needle` occurs in `hay` at offset `i`.
pub open spec fn occurs_at(hay: Seq<u8>, needle: Seq<u8>, i: int) -> bool {
    0 <= i && i + needle.len() <= hay.len() && hay.subrange(i, i + needle.len()) == needle
}

/// `needle` occurs somewhere in `hay`.
pub open spec fn contains_bytes(hay: Seq<u8>, needle: Seq<u8>) -> bool {
    exists|i: int| #[trigger] occurs_at(hay, needle, i)
}

/// The code comes from an attribute macro whose name contains `derive`.
pub open spec fn is_derive_expn(expn: ExpnKind) -> bool {
    match expn {
        ExpnKind::Macro { kind, name } => kind == MacroKind::Attr
            && contains_bytes(encode_utf8(name@), derive_bytes()),
        _ => false,
    }
}

/// A function of this name is a constructor: `new`, or a name that starts
/// with `new_`.
pub open spec fn is_constructor_name(name: Seq<char>) -> bool {
    let b = encode_utf8(name);
    b == new_bytes() || (b.len() >= 4 && b.subrange(0, 4) == new_prefix_bytes())
}

/// Tells whether `needle` occurs at offset `i` of `hay`.
fn bytes_occur_at(hay: &[u8], needle: &[u8], i: usize) -> (r: bool)
    requires
        i + needle@.len() <= hay@.len(),
    ensures
        r == occurs_at(hay@, needle@, i as int),
{
    let n = hay.len();
    let mut j: usize = 0;
    while j < needle.len()
        invariant
            n == hay@.len(),
            j <= needle@.len(),
            i + needle@.len() <= hay@.len(),
            forall|k: int| 0 <= k < j ==> hay@[i + k] == needle@[k],
        decreases needle@.len() - j,
    {
        if hay[i + j] != needle[j] {
            assert(hay@.subrange(i as int, i + needle@.len())[j as int] != needle@[j as int]);
            return false;
        }
        j += 1;
    }
    assert(hay@.subrange(i as int, i + needle@.len()) =~= needle@);
    true
}

/// Tells whether `needle` occurs somewhere in `hay`.
fn bytes_contain(hay: &[u8], needle: &[u8]) -> (r: bool)
    ensures
        r == contains_bytes(hay@, needle@),
{
    if needle.len() > hay.len() {
        assert forall|i: int| !#[trigger] occurs_at(hay@, needle@, i) by {}
        return false;
    }
    let last = hay.len() - needle.len();
    let mut i: usize = 0;
    while i <= last
        invariant
            last == hay@.len() - needle@.len(),
            forall|k: int| 0 <= k < i ==> !#[trigger] occurs_at(hay@, needle@, k),
        decreases last + 1 - i,
    {
        if bytes_occur_at(hay, needle, i) {
            return true;
        }
        if i == last {
            assert forall|k: int| !#[trigger] occurs_at(hay@, needle@, k) by {
                if 0 <= k && k < i {
                } else if k == i {
                } else {
                }
            }
            return false;
        }
        i += 1;
    }
    false
}

/// Tells whether code at a span of this origin was produced by a derive:
/// an attribute macro whose name contains `derive`.
pub fn in_derive_expn(expn: &ExpnKind) -> (r: bool)
    ensures
        r == is_derive_expn(*expn),
{
    match expn {
        ExpnKind::Macro { kind: MacroKind::Attr, name } => {
            let needle: Vec<u8> = vec![100u8, 101u8, 114u8, 105u8, 118u8, 101u8];
            assert(needle@ =~= derive_bytes());
            bytes_contain(name.as_str().as_bytes(), needle.as_slice())
        },
        _ => false,
    }
}

/// Tells whether a function of this name is a constructor: `new`, or a
/// name that starts with `new_`.
pub fn is_new_function_name(name: &String) -> (r: bool)
    ensures
        r == is_constructor_name(name@),
{
    let b = name.as_str().as_bytes();
    let whole: Vec<u8> = vec![110u8, 101u8, 119u8];
    let prefix: Vec<u8> = vec![110u8, 101u8, 119u8, 95u8];
    assert(whole@ =~= new_bytes());
    assert(prefix@ =~= new_prefix_bytes());
    let is_new = b.len() == 3 && bytes_occur_at(b, whole.as_slice(), 0);
    proof {
        if b@.len() == 3 {
            assert(b@.subrange(0, 3) =~= b@);
        }
    }
    let has_prefix = b.len() >= 4 && bytes_occur_at(b, prefix.as_slice(), 0);
    is_new || has_prefix
}

} // verus!
