use vstd::prelude::*;
use crate::error::{Failure, ProviderFault};

verus! {

/// What a relationship access reports for a provider outcome: the provider's
/// value as it came, or its fault as an operation failure.
pub open spec fn resolved<T>(o: Result<T, ProviderFault>) -> Result<T, Failure> {
    match o {
        Ok(v) => Ok(v),
        Err(f) => Err(Failure::Operation(f)),
    }
}

/// Turns one provider outcome into what a relationship accessor reports.
pub fn resolve<T>(o: Result<T, ProviderFault>) -> (r: Result<T, Failure>)
    ensures
        r == resolved(o),
{
    match o {
        Ok(v) => Ok(v),
        Err(f) => Err(Failure::Operation(f)),
    }
}

/// A façade over one record handed out by the provider.
pub trait Wrapped: Sized {
    type Source;

    /// The provider record this façade wraps.
    spec fn source(&self) -> Self::Source;

    fn wrap(src: Self::Source) -> (r: Self)
        ensures
            r.source() == src,
    ;
}

/// `w` wraps the records of `v`, one for one and in the same order.
pub open spec fn wraps<F: Wrapped>(w: Seq<F>, v: Seq<F::Source>) -> bool {
    &&& w.len() == v.len()
    &&& forall|i: int| 0 <= i < w.len() ==> #[trigger] w[i].source() == v[i]
}

/// Wraps every record, keeping the provider's order: no sorting, no dedup.
pub fn wrap_all<F: Wrapped>(v: Vec<F::Source>) -> (r: Vec<F>)
    ensures
        wraps(r@, v@),
{
    let ghost all = v@;
    let mut rest = v;
    let mut out: Vec<F> = Vec::new();
    while rest.len() > 0
        invariant
            out.len() + rest.len() == all.len(),
            rest@ == all.subrange(out.len() as int, all.len() as int),
            forall|i: int| 0 <= i < out.len() ==> #[trigger] out[i].source() == all[i],
        decreases rest.len(),
    {
        let src = rest.remove(0);
        let item = F::wrap(src);
        out.push(item);
    }
    out
}

/// Wraps a record that may be absent; absence stays absence.
pub fn wrap_optional<F: Wrapped>(v: Option<F::Source>) -> (r: Option<F>)
    ensures
        r is None <==> v is None,
        v is Some ==> r->Some_0.source() == v->Some_0,
{
    match v {
        Some(src) => Some(F::wrap(src)),
        None => None,
    }
}

/// A to-many relationship: the related records in the provider's order, or an
/// operation failure carrying the provider's fault.
pub fn resolve_many<F: Wrapped>(o: Result<Vec<F::Source>, ProviderFault>) -> (r: Result<Vec<F>, Failure>)
    ensures
        match o {
            Ok(v) => r is Ok && wraps(r->Ok_0@, v@),
            Err(f) => r == Err::<Vec<F>, Failure>(Failure::Operation(f)),
        },
{
    match resolve(o) {
        Ok(v) => Ok(wrap_all(v)),
        Err(e) => Err(e),
    }
}

/// A to-one relationship that may be absent: absence is not a failure.
pub fn resolve_optional<F: Wrapped>(o: Result<Option<F::Source>, ProviderFault>) -> (r: Result<Option<F>, Failure>)
    ensures
        match o {
            Ok(None) => r == Ok::<Option<F>, Failure>(None),
            Ok(Some(s)) => r is Ok && r->Ok_0 is Some && r->Ok_0->Some_0.source() == s,
            Err(f) => r == Err::<Option<F>, Failure>(Failure::Operation(f)),
        },
{
    match resolve(o) {
        Ok(v) => Ok(wrap_optional(v)),
        Err(e) => Err(e),
    }
}

/// A to-one relationship that is always present.
pub fn resolve_one<F: Wrapped>(o: Result<F::Source, ProviderFault>) -> (r: Result<F, Failure>)
    ensures
        match o {
            Ok(s) => r is Ok && r->Ok_0.source() == s,
            Err(f) => r == Err::<F, Failure>(Failure::Operation(f)),
        },
{
    match resolve(o) {
        Ok(v) => Ok(F::wrap(v)),
        Err(e) => Err(e),
    }
}

/// Every provider failure met while resolving is reported as the uniform
/// operation failure with the same fault, never as a credential or token
/// failure; and every success is handed on unchanged.
pub proof fn lemma_resolution_is_uniform<T>(o: Result<T, ProviderFault>)
    ensures
        o is Ok ==> resolved(o) == Ok::<T, Failure>(o->Ok_0),
        o is Err ==> resolved(o) == Err::<T, Failure>(Failure::Operation(o->Err_0)),
        resolved(o) is Err ==> resolved(o)->Err_0 is Operation,
{
}

/// A relation the provider reports as absent resolves to absent, not to a failure.
pub proof fn lemma_absent_relation_is_not_failure<T>()
    ensures
        resolved(Ok::<Option<T>, ProviderFault>(None)) == Ok::<Option<T>, Failure>(None),
{
}

} // verus!
