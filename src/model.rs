//! The syntax the rewrite works on, and its mathematical view.
//!
//! Types, bounds and names are kept as the source text that spells them; the
//! rewrite never looks inside that text.

use proc_macro2::Span;
use vstd::prelude::*;

verus! {

/// `proc_macro2::Span`, declared as an opaque type: the span of an item is
/// carried through unchanged to anchor a diagnostic, and nothing is assumed of it.
#[verifier::external_type_specification]
#[verifier::external_body]
pub struct ExSpan(Span);

/// One bound of a bound set, written verbatim.
#[derive(Clone, Debug, PartialEq, Eq)]
pub enum Bound {
    /// A trait bound such as `ToString` or `AsRef<str>`.
    Trait(String),
    /// A lifetime bound such as `'a`.
    Lifetime(String),
}

/// The type of a parameter.
#[derive(Clone, Debug, PartialEq, Eq)]
pub enum Ty {
    /// `impl B1 + B2 + ...`: some type, chosen by the caller, with these bounds.
    Opaque(Vec<Bound>),
    /// Any other type, written verbatim (concrete, generic, reference, ...).
    Named(String),
}

/// One parameter of a signature.
#[derive(Clone, Debug, PartialEq, Eq)]
pub enum Param {
    /// `self`, `&self`, `&mut self` and the like, written verbatim.
    Receiver(String),
    /// A typed parameter: its binding pattern and its type.
    Typed(String, Ty),
}

/// A generic parameter: a name with its bound set.
///
/// A declaration that is more than a bounded name (a `const` parameter, a
/// parameter with a default) is kept whole in `name`, with no bounds.
#[derive(Clone, Debug, PartialEq, Eq)]
pub struct GenericParam {
    pub name: String,
    pub bounds: Vec<Bound>,
}

/// The signature of a function-like item.
#[derive(Clone, Debug, PartialEq, Eq)]
pub struct Signature {
    /// The declared generic parameters, in order.
    pub generics: Vec<GenericParam>,
    /// The parameters, in order.
    pub params: Vec<Param>,
    /// The return type; `None` where none is written.
    pub output: Option<Ty>,
}

/// The view of a [`Bound`].
pub enum BoundV {
    Trait(Seq<char>),
    Lifetime(Seq<char>),
}

/// The view of a [`Ty`].
pub enum TyV {
    Opaque(Seq<BoundV>),
    Named(Seq<char>),
}

/// The view of a [`Param`].
pub enum ParamV {
    Receiver(Seq<char>),
    Typed(Seq<char>, TyV),
}

/// The view of a [`GenericParam`].
pub struct GenericV {
    pub name: Seq<char>,
    pub bounds: Seq<BoundV>,
}

/// The view of a [`Signature`].
pub struct SigV {
    pub generics: Seq<GenericV>,
    pub params: Seq<ParamV>,
    pub output: Option<TyV>,
}

impl View for Bound {
    type V = BoundV;

    open spec fn view(&self) -> BoundV {
        match self {
            Bound::Trait(t) => BoundV::Trait(t@),
            Bound::Lifetime(l) => BoundV::Lifetime(l@),
        }
    }
}

/// The views of a sequence of bounds.
pub open spec fn bounds_view(bs: Seq<Bound>) -> Seq<BoundV> {
    bs.map_values(|b: Bound| b@)
}

impl View for Ty {
    type V = TyV;

    open spec fn view(&self) -> TyV {
        match self {
            Ty::Opaque(bs) => TyV::Opaque(bounds_view(bs@)),
            Ty::Named(n) => TyV::Named(n@),
        }
    }
}

impl View for Param {
    type V = ParamV;

    open spec fn view(&self) -> ParamV {
        match self {
            Param::Receiver(r) => ParamV::Receiver(r@),
            Param::Typed(pat, ty) => ParamV::Typed(pat@, ty@),
        }
    }
}

/// The views of a sequence of parameters.
pub open spec fn params_view(ps: Seq<Param>) -> Seq<ParamV> {
    ps.map_values(|p: Param| p@)
}

impl View for GenericParam {
    type V = GenericV;

    open spec fn view(&self) -> GenericV {
        GenericV { name: self.name@, bounds: bounds_view(self.bounds@) }
    }
}

/// The views of a sequence of generic parameters.
pub open spec fn generics_view(gs: Seq<GenericParam>) -> Seq<GenericV> {
    gs.map_values(|g: GenericParam| g@)
}

/// The view of an optional type.
pub open spec fn output_view(o: Option<Ty>) -> Option<TyV> {
    match o {
        Some(t) => Some(t@),
        None => None,
    }
}

impl View for Signature {
    type V = SigV;

    open spec fn view(&self) -> SigV {
        SigV {
            generics: generics_view(self.generics@),
            params: params_view(self.params@),
            output: output_view(self.output),
        }
    }
}

} // verus!
