//! Dispatch over the shape of the annotated item.

use crate::model::{Signature, SigV};
use crate::signature::{rewrite_sig, sig_into_generic};
use proc_macro2::Span;
use vstd::prelude::*;
use vstd::string::StringExecFns;

verus! {

/// An item contained in a trait definition or a trait implementation.
#[derive(Clone, Debug, PartialEq, Eq)]
pub enum Member {
    /// A method, with or without a body: its signature is rewritten.
    Method(Signature),
    /// Any other contained item (an associated type or constant), verbatim.
    Other(String),
}

/// The item that the rewrite is applied to.
#[derive(Debug)]
pub enum Item {
    /// A bare function, by its signature.
    Function(Signature),
    /// A trait definition, by its contained items.
    Trait(Vec<Member>),
    /// A trait implementation, by its contained items.
    Impl(Vec<Member>),
    /// Any other item, by the span that it covers.
    Other(Span),
}

/// The error for an item that is not a function, a trait or an implementation.
#[derive(Debug)]
pub struct Diagnostic {
    /// What went wrong, for the user.
    pub message: String,
    /// Where: the span of the item.
    pub span: Span,
}

/// The view of a [`Member`].
pub enum MemberV {
    Method(SigV),
    Other(Seq<char>),
}

/// The view of an [`Item`].
pub enum ItemV {
    Function(SigV),
    Trait(Seq<MemberV>),
    Impl(Seq<MemberV>),
    Other(Span),
}

impl View for Member {
    type V = MemberV;

    open spec fn view(&self) -> MemberV {
        match self {
            Member::Method(s) => MemberV::Method(s@),
            Member::Other(t) => MemberV::Other(t@),
        }
    }
}

/// The views of a sequence of contained items.
pub open spec fn members_view(ms: Seq<Member>) -> Seq<MemberV> {
    ms.map_values(|m: Member| m@)
}

impl View for Item {
    type V = ItemV;

    open spec fn view(&self) -> ItemV {
        match self {
            Item::Function(s) => ItemV::Function(s@),
            Item::Trait(ms) => ItemV::Trait(members_view(ms@)),
            Item::Impl(ms) => ItemV::Impl(members_view(ms@)),
            Item::Other(span) => ItemV::Other(*span),
        }
    }
}

/// A contained item after the rewrite: a method has its signature rewritten,
/// anything else stays as it is.
pub open spec fn rewrite_member(m: MemberV) -> MemberV {
    match m {
        MemberV::Method(s) => MemberV::Method(rewrite_sig(s)),
        MemberV::Other(_) => m,
    }
}

/// Contained items after the rewrite, each on its own.
pub open spec fn rewrite_members(ms: Seq<MemberV>) -> Seq<MemberV> {
    ms.map_values(|m: MemberV| rewrite_member(m))
}

/// Whether the rewrite applies to an item of this shape.
pub open spec fn is_supported(i: ItemV) -> bool {
    !(i is Other)
}

/// A supported item after the rewrite.
pub open spec fn rewrite_item(i: ItemV) -> ItemV {
    match i {
        ItemV::Function(s) => ItemV::Function(rewrite_sig(s)),
        ItemV::Trait(ms) => ItemV::Trait(rewrite_members(ms)),
        ItemV::Impl(ms) => ItemV::Impl(rewrite_members(ms)),
        ItemV::Other(_) => i,
    }
}

/// The message of the diagnostic for an unsupported item.
pub open spec fn unsupported_message() -> Seq<char> {
    "RewriteImplTrait must be used on a Trait, Impl, or Fn definition."@
}

/// The contained items of an item of a supported shape with contained items.
pub open spec fn members_of(i: ItemV) -> Seq<MemberV> {
    match i {
        ItemV::Trait(ms) => ms,
        ItemV::Impl(ms) => ms,
        _ => Seq::empty(),
    }
}

/// In a trait definition or implementation, the rewrite keeps the shape and
/// the contained items in their order; it rewrites each method's signature on
/// its own, as a bare signature, and leaves every other contained item as it
/// is.
pub proof fn lemma_members_rewritten_each(i: ItemV)
    requires
        i is Trait || i is Impl,
    ensures
        rewrite_item(i) is Trait <==> i is Trait,
        rewrite_item(i) is Impl <==> i is Impl,
        members_of(rewrite_item(i)).len() == members_of(i).len(),
        forall|j: int|
            0 <= j < members_of(i).len() ==> (#[trigger] members_of(i)[j] matches MemberV::Method(
                s,
            ) ==> members_of(rewrite_item(i))[j] == MemberV::Method(rewrite_sig(s))),
        forall|j: int|
            0 <= j < members_of(i).len() ==> (#[trigger] members_of(i)[j] is Other
                ==> members_of(rewrite_item(i))[j] == members_of(i)[j]),
{
}

/// Rewrites the signature of every method among `items`; the other
/// contained items pass through.
fn members_into_generic(items: Vec<Member>) -> (r: Vec<Member>)
    ensures
        members_view(r@) == rewrite_members(members_view(items@)),
{
    let ghost ms = members_view(items@);
    let mut out: Vec<Member> = Vec::new();
    for m in it: items.into_iter()
        invariant
            it.seq() == items@,
            ms == members_view(items@),
            members_view(out@) == rewrite_members(ms.take(it.index() as int)),
    {
        let ghost i = it.index() as int;
        let ghost mv = m@;
        let ghost before = members_view(out@);
        match m {
            Member::Method(sig) => {
                out.push(Member::Method(sig_into_generic(sig)));
            },
            other => {
                out.push(other);
            },
        }
        proof {
            assert(ms.take(i + 1) =~= ms.take(i).push(mv));
            assert(members_view(out@) =~= before.push(rewrite_member(mv)));
            assert(members_view(out@) =~= rewrite_members(ms.take(i + 1)));
        }
    }
    proof {
        assert(ms.take(ms.len() as int) =~= ms);
    }
    out
}

/// Rewrites the methods of a trait definition, given by its contained items.
pub fn trait_into_generic(items: Vec<Member>) -> (r: Vec<Member>)
    ensures
        members_view(r@) == rewrite_members(members_view(items@)),
{
    members_into_generic(items)
}

/// Rewrites the methods of a trait implementation, given by its contained items.
pub fn trait_impl_into_generic(items: Vec<Member>) -> (r: Vec<Member>)
    ensures
        members_view(r@) == rewrite_members(members_view(items@)),
{
    members_into_generic(items)
}

/// Rewrites a bare function, given by its signature.
pub fn function_into_generic(function: Signature) -> (r: Signature)
    ensures
        r@ == rewrite_sig(function@),
{
    sig_into_generic(function)
}

/// Rewrites the `impl Trait` parameters of a function, or of every method of a
/// trait definition or trait implementation, into generic parameters.
///
/// Any other item is refused with a diagnostic at its span, and is not
/// rewritten.
pub fn into_generic(item: Item) -> (r: Result<Item, Diagnostic>)
    ensures
        is_supported(item@) ==> (r matches Ok(i) && i@ == rewrite_item(item@)),
        !is_supported(item@) ==> (r matches Err(d) && item@ == ItemV::Other(d.span)
            && d.message@ == unsupported_message()),
{
    match item {
        Item::Function(sig) => Ok(Item::Function(function_into_generic(sig))),
        Item::Trait(items) => Ok(Item::Trait(trait_into_generic(items))),
        Item::Impl(items) => Ok(Item::Impl(trait_impl_into_generic(items))),
        Item::Other(span) => Err(
            Diagnostic {
                message: String::from_str(
                    "RewriteImplTrait must be used on a Trait, Impl, or Fn definition.",
                ),
                span,
            },
        ),
    }
}

} // verus!
