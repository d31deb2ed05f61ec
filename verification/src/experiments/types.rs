//! What experiments are made of.
use vstd::prelude::*;

use crate::json::{JsonMap, Members};

verus! {

/// How far an experiment has come.
#[derive(Clone, Copy, Debug, PartialEq, Eq, Structural)]
pub enum ExperimentStatusType {
    CREATED,
    INPROGRESS,
    CONCLUDED,
}

/// Whether a variant leaves things as they are or tries something out.
#[derive(Clone, Copy, Debug, PartialEq, Eq, Structural)]
pub enum VariantType {
    CONTROL,
    EXPERIMENTAL,
}

/// A variant of an experiment.
#[derive(Debug)]
pub struct Variant {
    pub id: String,
    pub variant_type: VariantType,
    /// The context under which the variant applies, once it was created.
    pub context_id: Option<String>,
    /// The stored overrides of the variant, once they were created.
    pub override_id: Option<String>,
    /// The values that the variant sets.
    pub overrides: JsonMap,
}

/// What a variant says.
pub struct VariantView {
    pub id: Seq<char>,
    pub variant_type: VariantType,
    pub context_id: Option<Seq<char>>,
    pub override_id: Option<Seq<char>>,
    pub overrides: Members,
}

pub open spec fn optional_text(s: Option<String>) -> Option<Seq<char>> {
    match s {
        Some(text) => Some(text@),
        None => None,
    }
}

impl View for Variant {
    type V = VariantView;

    open spec fn view(&self) -> VariantView {
        VariantView {
            id: self.id@,
            variant_type: self.variant_type,
            context_id: optional_text(self.context_id),
            override_id: optional_text(self.override_id),
            overrides: self.overrides@,
        }
    }
}

/// What a list of variants says.
pub open spec fn variant_views(variants: Seq<Variant>) -> Seq<VariantView> {
    variants.map_values(|v: Variant| v@)
}

/// A context with the values that apply under it.
#[derive(Debug)]
pub struct ContextPutReq {
    pub context: JsonMap,
    pub overrides: JsonMap,
}

/// A change of the stored contexts.
#[derive(Debug)]
pub enum ContextAction {
    /// Store a context.
    PUT(ContextPutReq),
    /// Remove the context with this id.
    DELETE(String),
    /// Replace the context with this id.
    MOVE(String, ContextPutReq),
}

/// What a change of the stored contexts says.
pub enum ContextActionView {
    Put { context: Members, overrides: Members },
    Delete { id: Seq<char> },
    Move { id: Seq<char>, context: Members, overrides: Members },
}

impl View for ContextAction {
    type V = ContextActionView;

    open spec fn view(&self) -> ContextActionView {
        match self {
            ContextAction::PUT(req) => ContextActionView::Put {
                context: req.context@,
                overrides: req.overrides@,
            },
            ContextAction::DELETE(id) => ContextActionView::Delete { id: id@ },
            ContextAction::MOVE(id, req) => ContextActionView::Move {
                id: id@,
                context: req.context@,
                overrides: req.overrides@,
            },
        }
    }
}

/// What a list of changes says.
pub open spec fn action_views(actions: Seq<ContextAction>) -> Seq<ContextActionView> {
    actions.map_values(|a: ContextAction| a@)
}

/// What a query for one thing, or for some, came to.
pub enum Fetched<T> {
    Found(T),
    NotFound,
    Failed,
}

/// Where the changes of contexts are sent.
pub open spec fn bulk_operations_path(cac_host: Seq<char>) -> Seq<char> {
    cac_host + "/context/bulk-operations"@
}

/// Where the changes of contexts are sent.
pub fn bulk_operations_url(cac_host: String) -> (r: String)
    ensures
        r@ == bulk_operations_path(cac_host@),
{
    let mut url: String = cac_host;
    url.append("/context/bulk-operations");
    url
}

} // verus!
