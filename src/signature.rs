//! Rewriting one signature: every parameter typed `impl B` becomes a parameter
//! typed by a fresh generic parameter bounded by `B`.

use crate::model::{
    generics_view, params_view, BoundV, GenericParam, GenericV, Param, ParamV, Signature, SigV,
    Ty, TyV,
};
use crate::naming::{generic_name, synth_name};
use vstd::prelude::*;

verus! {

/// Whether a parameter is typed by an opaque `impl` type.
pub open spec fn is_opaque(p: ParamV) -> bool {
    p matches ParamV::Typed(_, TyV::Opaque(_))
}

/// The number of opaque-typed parameters in `ps`.
pub open spec fn opaque_count(ps: Seq<ParamV>) -> nat
    decreases ps.len(),
{
    if ps.len() == 0 {
        0
    } else {
        opaque_count(ps.drop_last()) + if is_opaque(ps.last()) { 1nat } else { 0nat }
    }
}

/// A parameter after the rewrite, where `k` opaque parameters precede it.
pub open spec fn rewrite_param(p: ParamV, k: nat) -> ParamV {
    match p {
        ParamV::Typed(pat, TyV::Opaque(_)) => ParamV::Typed(pat, TyV::Named(synth_name(k))),
        _ => p,
    }
}

/// The parameters `ps` after the rewrite.
pub open spec fn rewritten_params(ps: Seq<ParamV>) -> Seq<ParamV>
    decreases ps.len(),
{
    if ps.len() == 0 {
        Seq::empty()
    } else {
        rewritten_params(ps.drop_last()).push(
            rewrite_param(ps.last(), opaque_count(ps.drop_last())),
        )
    }
}

/// The generic parameters synthesized for the opaque parameters of `ps`, in
/// the order of those parameters.
pub open spec fn synthesized(ps: Seq<ParamV>) -> Seq<GenericV>
    decreases ps.len(),
{
    if ps.len() == 0 {
        Seq::empty()
    } else {
        let init = synthesized(ps.drop_last());
        match ps.last() {
            ParamV::Typed(_, TyV::Opaque(bounds)) => init.push(
                GenericV { name: synth_name(opaque_count(ps.drop_last())), bounds },
            ),
            _ => init,
        }
    }
}

/// A signature after the rewrite: its parameters rewritten, the synthesized
/// generic parameters after the declared ones, the return type as it was.
pub open spec fn rewrite_sig(s: SigV) -> SigV {
    SigV {
        generics: s.generics + synthesized(s.params),
        params: rewritten_params(s.params),
        output: s.output,
    }
}

proof fn lemma_opaque_count_bound(ps: Seq<ParamV>)
    ensures
        opaque_count(ps) <= ps.len(),
    decreases ps.len(),
{
    if ps.len() > 0 {
        lemma_opaque_count_bound(ps.drop_last());
    }
}

/// The binding of a parameter: its pattern, or the receiver as written.
pub open spec fn binding(p: ParamV) -> Seq<char> {
    match p {
        ParamV::Receiver(r) => r,
        ParamV::Typed(pat, _) => pat,
    }
}

proof fn lemma_rewritten_params_at(ps: Seq<ParamV>)
    ensures
        rewritten_params(ps).len() == ps.len(),
        forall|i: int|
            0 <= i < ps.len() ==> #[trigger] rewritten_params(ps)[i] == rewrite_param(
                ps[i],
                opaque_count(ps.take(i)),
            ),
    decreases ps.len(),
{
    if ps.len() > 0 {
        let init = ps.drop_last();
        lemma_rewritten_params_at(init);
        assert forall|i: int| 0 <= i < ps.len() implies #[trigger] rewritten_params(ps)[i]
            == rewrite_param(ps[i], opaque_count(ps.take(i))) by {
            if i < ps.len() - 1 {
                assert(init.take(i) =~= ps.take(i));
                assert(rewritten_params(init)[i] == rewrite_param(init[i], opaque_count(init.take(i))));
            } else {
                assert(ps.take(i) =~= init);
            }
        }
    }
}

proof fn lemma_synthesized_len(ps: Seq<ParamV>)
    ensures
        synthesized(ps).len() == opaque_count(ps),
    decreases ps.len(),
{
    if ps.len() > 0 {
        lemma_synthesized_len(ps.drop_last());
    }
}

proof fn lemma_synthesized_at(ps: Seq<ParamV>, i: int, bounds: Seq<BoundV>)
    requires
        0 <= i < ps.len(),
        ps[i] matches ParamV::Typed(_, TyV::Opaque(b)) && b == bounds,
    ensures
        opaque_count(ps.take(i)) < synthesized(ps).len(),
        synthesized(ps)[opaque_count(ps.take(i)) as int] == (GenericV {
            name: synth_name(opaque_count(ps.take(i))),
            bounds,
        }),
    decreases ps.len(),
{
    let init = ps.drop_last();
    lemma_synthesized_len(init);
    if i == ps.len() - 1 {
        assert(ps.take(i) =~= init);
    } else {
        lemma_synthesized_at(init, i, bounds);
        assert(init.take(i) =~= ps.take(i));
    }
}

proof fn lemma_no_opaque(ps: Seq<ParamV>)
    requires
        forall|i: int| 0 <= i < ps.len() ==> !is_opaque(#[trigger] ps[i]),
    ensures
        opaque_count(ps) == 0,
        rewritten_params(ps) == ps,
    decreases ps.len(),
{
    if ps.len() > 0 {
        let init = ps.drop_last();
        assert(forall|i: int| 0 <= i < init.len() ==> init[i] == ps[i]);
        lemma_no_opaque(init);
        assert(!is_opaque(ps[ps.len() - 1]));
        assert(init.push(ps.last()) =~= ps);
    }
}

/// The rewrite keeps the parameters in their order, each with its binding.
pub proof fn lemma_bindings_kept(s: SigV)
    ensures
        rewrite_sig(s).params.len() == s.params.len(),
        forall|i: int|
            0 <= i < s.params.len() ==> binding(#[trigger] rewrite_sig(s).params[i]) == binding(
                s.params[i],
            ),
{
    lemma_rewritten_params_at(s.params);
}

/// A parameter whose type is not opaque comes out of the rewrite exactly as it
/// went in.
pub proof fn lemma_non_opaque_kept(s: SigV)
    ensures
        forall|i: int|
            0 <= i < s.params.len() && !is_opaque(s.params[i]) ==> #[trigger] rewrite_sig(
                s,
            ).params[i] == s.params[i],
{
    lemma_rewritten_params_at(s.params);
}

/// The rewrite adds exactly one generic parameter for each opaque parameter.
pub proof fn lemma_generic_count(s: SigV)
    ensures
        rewrite_sig(s).generics.len() == s.generics.len() + opaque_count(s.params),
{
    lemma_synthesized_len(s.params);
}

/// The opaque parameter at position `i`, the `k`-th opaque one, is typed by
/// the generic parameter that the rewrite adds `k`-th; that generic parameter
/// has the bounds that the parameter had, element for element.
pub proof fn lemma_bounds_kept(s: SigV, i: int, bounds: Seq<BoundV>)
    requires
        0 <= i < s.params.len(),
        s.params[i] matches ParamV::Typed(_, TyV::Opaque(b)) && b == bounds,
    ensures
        ({
            let k = opaque_count(s.params.take(i));
            let g = rewrite_sig(s).generics[s.generics.len() + k as int];
            &&& s.generics.len() + k < rewrite_sig(s).generics.len()
            &&& g.name == synth_name(k)
            &&& g.bounds == bounds
            &&& rewrite_sig(s).params[i] == ParamV::Typed(binding(s.params[i]), TyV::Named(g.name))
        }),
{
    lemma_synthesized_at(s.params, i, bounds);
    lemma_rewritten_params_at(s.params);
}

/// A signature without opaque parameters, whatever its return type (an opaque
/// one included), comes out of the rewrite unchanged.
pub proof fn lemma_return_position_ignored(s: SigV)
    requires
        forall|i: int| 0 <= i < s.params.len() ==> !is_opaque(#[trigger] s.params[i]),
    ensures
        rewrite_sig(s) == s,
{
    lemma_no_opaque(s.params);
    lemma_synthesized_len(s.params);
    assert(s.generics + synthesized(s.params) =~= s.generics);
}

/// The declared generic parameters come first after the rewrite, unchanged
/// and in their order; the synthesized ones follow.
pub proof fn lemma_declared_generics_first(s: SigV)
    ensures
        rewrite_sig(s).generics.len() >= s.generics.len(),
        rewrite_sig(s).generics.take(s.generics.len() as int) == s.generics,
        rewrite_sig(s).generics.skip(s.generics.len() as int) == synthesized(s.params),
{
    assert(rewrite_sig(s).generics.take(s.generics.len() as int) =~= s.generics);
    assert(rewrite_sig(s).generics.skip(s.generics.len() as int) =~= synthesized(s.params));
}

/// Rewrites every opaque-typed parameter of `sig` into a parameter typed by a
/// new generic parameter, appended after the declared ones.
///
/// The `k`-th opaque parameter (counting from zero) gets the generic parameter
/// named by [`generic_name`]`(k)`, bounded by that parameter's bounds as they
/// were written. Other parameters, the declared generics and the return type
/// are left as they are. The synthesized names are not checked against the
/// names already in scope.
pub fn sig_into_generic(sig: Signature) -> (r: Signature)
    ensures
        r@ == rewrite_sig(sig@),
{
    let Signature { generics, params, output } = sig;
    let mut generics = generics;
    let ghost ps = params_view(params@);
    let len = params.len();
    let ghost n = len as nat;
    let mut new_params: Vec<Param> = Vec::new();
    let mut added: Vec<GenericParam> = Vec::new();
    let mut index: usize = 0;
    for p in it: params.into_iter()
        invariant
            it.seq() == params@,
            ps == params_view(params@),
            n == params@.len(),
            n <= usize::MAX,
            index == opaque_count(ps.take(it.index() as int)),
            params_view(new_params@) == rewritten_params(ps.take(it.index() as int)),
            generics_view(added@) == synthesized(ps.take(it.index() as int)),
    {
        let ghost i = it.index() as int;
        proof {
            assert(ps.take(i + 1).drop_last() =~= ps.take(i));
            assert(ps.take(i + 1).last() == p@);
            lemma_opaque_count_bound(ps.take(i));
        }
        match p {
            Param::Typed(pat, Ty::Opaque(bounds)) => {
                let name = generic_name(index);
                new_params.push(Param::Typed(pat, Ty::Named(name.clone())));
                added.push(GenericParam { name, bounds });
                index = index + 1;
            },
            other => {
                new_params.push(other);
            },
        }
        proof {
            assert(params_view(new_params@) =~= rewritten_params(ps.take(i + 1)));
            assert(generics_view(added@) =~= synthesized(ps.take(i + 1)));
        }
    }
    let ghost old_generics = generics@;
    generics.append(&mut added);
    proof {
        assert(ps.take(n as int) =~= ps);
        assert(generics_view(generics@) =~= generics_view(old_generics) + synthesized(ps));
    }
    Signature { generics, params: new_params, output }
}

} // verus!
