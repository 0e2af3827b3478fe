//! The request model: the shape of one inbound job submission and its
//! validation from the optional fields of a decoded wire payload.

use vstd::prelude::*;
use crate::category::{Category, resolves};

verus! {

/// One validated job submission: the source media locator, an ordered
/// sequence of classification tags, and optional free-text guidance. An
/// absent prompt means "no prompt", not an empty string.
pub struct GenerationRequest {
    pub video_url: String,
    pub categories: Vec<Category>,
    pub user_prompt: Option<String>,
}

/// Why a wire payload was rejected before reaching the dispatcher.
#[derive(Clone, Copy, PartialEq, Eq, Structural, Debug)]
pub enum ValidationError {
    /// The payload carries no `videoUrl` field.
    MissingVideoUrl,
    /// The payload carries no `categories` sequence at all. (An empty
    /// sequence is accepted; only a missing one is rejected.)
    MissingCategories,
}

/// Each wire string in `raw` resolves, in order, to the category at the same
/// position of `cats`.
pub open spec fn categories_resolved(raw: Seq<String>, cats: Seq<Category>) -> bool {
    &&& cats.len() == raw.len()
    &&& forall|i: int| 0 <= i < raw.len() ==> resolves(raw[i]@, #[trigger] cats[i])
}

/// Builds a `GenerationRequest` from the fields of a decoded wire payload,
/// each `None` where the field was absent. The request is rejected exactly
/// when `videoUrl` or `categories` is missing; every category string is
/// accepted, resolving to a fixed category or to the open fallback.
pub fn validate_request(
    video_url: Option<String>,
    categories: Option<Vec<String>>,
    user_prompt: Option<String>,
) -> (r: Result<GenerationRequest, ValidationError>)
    ensures
        r is Ok <==> video_url is Some && categories is Some,
        r == Err::<GenerationRequest, ValidationError>(ValidationError::MissingVideoUrl)
            <==> video_url is None,
        r == Err::<GenerationRequest, ValidationError>(ValidationError::MissingCategories)
            <==> video_url is Some && categories is None,
        r matches Ok(req) ==> {
            &&& req.video_url@ == video_url.unwrap()@
            &&& categories_resolved(categories.unwrap()@, req.categories@)
            &&& user_prompt is None ==> req.user_prompt is None
            &&& user_prompt matches Some(p) ==>
                req.user_prompt matches Some(q) && q@ == p@
        },
{
    let url = match video_url {
        Some(u) => u,
        None => {
            return Err(ValidationError::MissingVideoUrl);
        },
    };
    let raw = match categories {
        Some(cs) => cs,
        None => {
            return Err(ValidationError::MissingCategories);
        },
    };
    let mut cats: Vec<Category> = Vec::new();
    let mut i: usize = 0;
    while i < raw.len()
        invariant
            i <= raw@.len(),
            cats@.len() == i,
            forall|j: int| 0 <= j < i ==> resolves(raw@[j]@, #[trigger] cats@[j]),
        decreases raw@.len() - i,
    {
        let c = crate::category::from_wire(raw[i].as_str());
        cats.push(c);
        i = i + 1;
    }
    Ok(GenerationRequest { video_url: url, categories: cats, user_prompt })
}

} // verus!
