use vstd::prelude::*;

verus! {

/// What a handler answers with: a status code and a JSON body (empty for
/// the bodiless 204 answers).  The surrounding server sends it verbatim.
#[derive(Debug)]
pub struct Response {
    pub status: u16,
    pub body: String,
}

} // verus!
