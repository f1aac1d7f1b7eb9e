//! The decisions of the two dynamic endpoints, as functions from plain
//! values to plain values: what a submission stores and answers, and what a
//! retrieval renders. The HTTP layer around them only parses the request and
//! sends the result.

use crate::pages::paste_page_spec;
use crate::pages::render_paste_page;
use crate::store::PasteStore;
use crate::store::lookup_spec;
use crate::token::generate_token;
use crate::token::is_valid_token;
use vstd::prelude::*;

verus! {

/// Why a submission failed. Either way the store is left unchanged.
#[derive(Clone, Copy, PartialEq, Eq, Structural, Debug)]
pub enum SubmitError {
    /// The randomness source failed, so no token could be drawn.
    RandomnessUnavailable,
    /// The drawn token collided with one already stored; a duplicate never
    /// overwrites.
    DuplicateToken,
}

/// Handle a form submission: draw a fresh token and store the content under
/// it. On success the token comes back, for the caller to redirect to its
/// retrieval URL. A failure leaves the store unchanged and names its cause:
/// either the randomness source failed, or the drawn token — a valid token —
/// was already stored, so on a store holding no valid token the submission
/// can only fail for want of randomness.
pub fn submit_paste(store: &mut PasteStore, content: String) -> (r: Result<String, SubmitError>)
    requires
        old(store).wf(),
    ensures
        final(store).wf(),
        match r {
            Ok(t) => is_valid_token(t@) && !old(store)@.dom().contains(t@) && final(store)@
                == old(store)@.insert(t@, content@),
            Err(e) => final(store)@ == old(store)@ && match e {
                SubmitError::RandomnessUnavailable => true,
                SubmitError::DuplicateToken => exists|t: Seq<char>|
                    is_valid_token(t) && old(store)@.dom().contains(t),
            },
        },
{
    let token = match generate_token() {
        Ok(t) => t,
        Err(_) => {
            return Err(SubmitError::RandomnessUnavailable);
        },
    };
    match store.insert(token.clone(), content) {
        Ok(_) => Ok(token),
        Err(_) => {
            proof {
                assert(is_valid_token(token@) && old(store)@.dom().contains(token@));
            }
            Err(SubmitError::DuplicateToken)
        },
    }
}

/// Handle a retrieval: render the HTML page embedding the content stored
/// under `token`, with the not-found sentinel standing in for an absent
/// paste. A miss is not a fault: the page comes back on the normal path.
pub fn paste_page(store: &PasteStore, token: &String) -> (page: String)
    requires
        store.wf(),
    ensures
        page@ == paste_page_spec(lookup_spec(store@, token@)),
{
    let content = store.lookup(token);
    render_paste_page(&content)
}

/// Law: two successful submissions yield distinct tokens. A submission only
/// succeeds with a token absent from the store, and the first success put its
/// own token there; so the second token differs from the first, whatever the
/// two contents were.
pub proof fn lemma_successive_tokens_distinct(
    m: Map<Seq<char>, Seq<char>>,
    t1: Seq<char>,
    c1: Seq<char>,
    t2: Seq<char>,
)
    requires
        !m.insert(t1, c1).dom().contains(t2),
    ensures
        t2 != t1,
{
}

} // verus!
