//! The command line with which a client request is sent through `curl`.

use crate::request_manager::request::{request_type_text, Request, RequestImpl};
use crate::text::concat2;
use vstd::prelude::*;

verus! {

/// Sends client requests through `curl`.
pub struct CurlClient;

/// The arguments for a request: `-X`, the method, the URL, then `-H <header>`
/// for each header, in order.
pub open spec fn curl_arguments(
    method: Seq<char>,
    url: Seq<char>,
    headers: Seq<Seq<char>>,
) -> Seq<Seq<char>> {
    seq!["-X"@, method, url] + Seq::new(headers.len(), |i: int| "-H "@ + headers[i])
}

impl CurlClient {
    /// The arguments with which `curl` sends the request.
    pub fn arguments(request: &RequestImpl) -> (r: Vec<String>)
        ensures
            r.deep_view() == curl_arguments(
                request_type_text(request@.method),
                request@.url,
                request@.headers,
            ),
    {
        let headers = request.get_headers();
        let mut out: Vec<String> = Vec::new();
        out.push(String::from_str("-X"));
        out.push(String::from_str(request.get_method().name()));
        out.push(request.get_url());
        let mut i: usize = 0;
        while i < headers.len()
            invariant
                i <= headers.len(),
                out@.len() == 3 + i,
                out@[0]@ == "-X"@,
                out@[1]@ == request_type_text(request@.method),
                out@[2]@ == request@.url,
                forall|j: int| 0 <= j < i ==> out@[3 + j]@ == "-H "@ + headers@[j]@,
            decreases headers.len() - i,
        {
            out.push(concat2("-H ", headers[i].as_str()));
            i = i + 1;
        }
        out
    }
}

} // verus!
