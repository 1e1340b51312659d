//! The store's snapshot as JSON text. The encoder is the `serde_json` crate.

use crate::store::pair_views;
use vstd::prelude::*;

verus! {

/// The JSON text that `serde_json::to_string` writes for a list of pairs of
/// pattern text and owner id; `None` where it reports an error.
pub uninterp spec fn json_text(pairs: Seq<(Seq<char>, u64)>) -> Option<Seq<char>>;

/// Calls `serde_json::to_string` on the pairs. Trusted: the outcome depends on
/// the pairs alone. An error of the encoder comes back as `None`.
#[verifier::external_body]
pub(crate) fn to_json(pairs: &Vec<(String, u64)>) -> (res: Option<String>)
    ensures
        match res {
            Some(text) => json_text(pair_views(pairs@)) == Some(text@),
            None => json_text(pair_views(pairs@)) is None,
        },
{
    match serde_json::to_string(pairs) {
        Ok(text) => Some(text),
        Err(_) => None,
    }
}

} // verus!
