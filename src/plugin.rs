//! The visitor contract shared by the emission backends, and the pass that
//! drives one declaration through extraction into a backend.
use vstd::prelude::*;
use crate::model::{extract, method_views, parse_target, MethodV, Method, RawDecl, Struct, Target, TargetV};
use crate::types::{GenError, GenErrorV};

verus! {

/// An emission backend: visited once per type declaration and once per
/// operation collection.
pub trait Plugin: Sized {
    /// How visiting the type named `t` changes the backend.
    spec fn struct_visited(before: Self, after: Self, t: Seq<char>) -> bool;

    /// How visiting the operations `ms` changes the backend.
    spec fn impl_visited(before: Self, after: Self, ms: Seq<MethodV>) -> bool;

    fn on_struct(&mut self, struct_target: &Struct)
        ensures
            Self::struct_visited(*old(self), *final(self), struct_target@),
    ;

    fn on_impl(&mut self, impl_target: &Vec<Method>)
        ensures
            Self::impl_visited(*old(self), *final(self), method_views(impl_target@)),
    ;
}

/// How visiting one extracted target changes a backend.
pub open spec fn target_visited<P: Plugin>(before: P, after: P, t: TargetV) -> bool {
    match t {
        TargetV::Struct(n) => P::struct_visited(before, after, n),
        TargetV::Impl(ms) => P::impl_visited(before, after, ms),
    }
}

/// What running one raw declaration into a backend does: a failure of
/// extraction leaves the backend as it was and is returned; a skipped shape
/// changes nothing; otherwise the backend visits the extracted target.
pub open spec fn exported<P: Plugin>(d: RawDecl, before: P, after: P, r: Result<(), GenErrorV>) -> bool {
    match extract(d) {
        Err(e) => r == Err::<(), GenErrorV>(e) && after == before,
        Ok(None) => r == Ok::<(), GenErrorV>(()) && after == before,
        Ok(Some(t)) => r == Ok::<(), GenErrorV>(()) && target_visited(before, after, t),
    }
}

pub open spec fn unit_result_view(r: Result<(), GenError>) -> Result<(), GenErrorV> {
    match r {
        Ok(_) => Ok(()),
        Err(e) => Err(e@),
    }
}

/// Hands one extracted target to a backend.
pub fn visit<P: Plugin>(plugin: &mut P, target: &Target)
    ensures
        target_visited(*old(plugin), *final(plugin), target@),
{
    match target {
        Target::Struct(s) => plugin.on_struct(s),
        Target::Impl(ms) => plugin.on_impl(ms),
    }
}

/// Extracts one raw declaration and hands the result to a backend; an
/// extraction failure aborts before the backend sees anything.
pub fn crt_export<P: Plugin>(decl: &RawDecl, plugin: &mut P) -> (r: Result<(), GenError>)
    ensures
        exported(*decl, *old(plugin), *final(plugin), unit_result_view(r)),
{
    match parse_target(decl) {
        Err(e) => Err(e),
        Ok(None) => Ok(()),
        Ok(Some(t)) => {
            visit(plugin, &t);
            Ok(())
        },
    }
}

} // verus!
