//! What the button of a request shows.

use crate::request_manager::request::RequestImpl;
use vstd::prelude::*;

verus! {

/// A request and whether it is switched on. The request is borrowed: the
/// button lives no longer than the state that holds the request.
pub struct RequestButton<'a> {
    pub request: &'a RequestImpl,
    pub is_toggled: bool,
}

} // verus!
