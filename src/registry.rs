use vstd::prelude::*;
use vstd::string::StringExecFns;
use crate::pass::UnrootedPass;
use crate::symbols::Symbols;

verus! {

/// How severe a finding of a lint is, unless the code says otherwise.
#[derive(Clone, Copy, Debug, PartialEq, Eq, Structural)]
pub enum Level {
    Allow,
    Warn,
    /// The finding breaks the build.
    Deny,
}

/// A category of diagnostics, as the host registers it.
#[derive(Debug)]
pub struct Lint {
    /// The name that `#[allow(..)]` takes to silence it.
    pub name: String,
    pub default_level: Level,
    pub desc: String,
}

/// What the host learns when it loads the checker: the lints it declares
/// and the passes to run on every crate.
#[derive(Debug)]
pub struct Registry {
    pub lints: Vec<Lint>,
    pub late_passes: Vec<UnrootedPass>,
}

/// The checker's one lint: `unrooted_must_root`, denied by default.
pub open spec fn is_unrooted_must_root_lint(l: Lint) -> bool {
    &&& l.name@ == "unrooted_must_root"@
    &&& l.default_level == Level::Deny
    &&& l.desc@ == "Warn and report usage of unrooted jsmanaged objects"@
}

/// The declaration of the checker's lint.
pub fn unrooted_must_root() -> (r: Lint)
    ensures
        is_unrooted_must_root_lint(r),
{
    Lint {
        name: String::from_str("unrooted_must_root"),
        default_level: Level::Deny,
        desc: String::from_str("Warn and report usage of unrooted jsmanaged objects"),
    }
}

/// Registers the checker with the host: its lint, and one pass built from
/// the host's interned `symbols`.
pub fn plugin_registrar(reg: &mut Registry, symbols: Symbols)
    ensures
        final(reg).lints@.len() == old(reg).lints@.len() + 1,
        final(reg).lints@.drop_last() == old(reg).lints@,
        is_unrooted_must_root_lint(final(reg).lints@.last()),
        final(reg).late_passes@ == old(reg).late_passes@.push(UnrootedPass { symbols }),
{
    registrar(reg, symbols)
}

fn registrar(reg: &mut Registry, symbols: Symbols)
    ensures
        final(reg).lints@.len() == old(reg).lints@.len() + 1,
        final(reg).lints@.drop_last() == old(reg).lints@,
        is_unrooted_must_root_lint(final(reg).lints@.last()),
        final(reg).late_passes@ == old(reg).late_passes@.push(UnrootedPass { symbols }),
{
    reg.lints.push(unrooted_must_root());
    reg.late_passes.push(UnrootedPass::new(symbols));
    assert(reg.lints@.drop_last() =~= old(reg).lints@);
}

} // verus!
