//! The Forgejo API's records, and lookups over them.

pub mod client;
pub mod errors;
pub mod models;

use vstd::prelude::*;

use crate::text::str_eq;
use models::Webhook;

verus! {

/// The ID of the first webhook delivering to `url`.
pub open spec fn webhook_id_for_url(hooks: Seq<Webhook>, url: Seq<char>) -> Option<u64>
    decreases hooks.len(),
{
    if hooks.len() == 0 {
        None
    } else if hooks[0].url@ == url {
        Some(hooks[0].id)
    } else {
        webhook_id_for_url(hooks.drop_first(), url)
    }
}

/// The ID of the first webhook delivering to `url`, if any.
pub fn find_webhook_by_url(hooks: &Vec<Webhook>, url: &str) -> (r: Option<u64>)
    ensures
        r == webhook_id_for_url(hooks@, url@),
{
    let mut i: usize = 0;
    assert(hooks@.skip(0) =~= hooks@);
    while i < hooks.len()
        invariant
            i <= hooks.len(),
            webhook_id_for_url(hooks@, url@) == webhook_id_for_url(hooks@.skip(i as int), url@),
        decreases hooks.len() - i,
    {
        assert(hooks@.skip(i as int)[0] == hooks@[i as int]);
        if str_eq(hooks[i].url.as_str(), url) {
            return Some(hooks[i].id);
        }
        assert(hooks@.skip(i as int).drop_first() =~= hooks@.skip(i + 1));
        i = i + 1;
    }
    None
}

} // verus!
