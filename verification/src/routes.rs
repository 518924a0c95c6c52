//! The decided responses of the two asset routes, and the shared per-run
//! context the handlers read.

use vstd::prelude::*;
use vstd::string::StringExecFns;

use crate::json::json_of_outcome;
use crate::json::render_outcome;
use crate::media::content_type_for_name;
use crate::media::content_type_of_name;
use crate::upload::UploadOutcome;

verus! {

/// Shared per-run context handed by reference to every request handler:
/// read-only for the run's whole duration. In the embedding, the handle that
/// notifies the host travels beside it; the core reads only plain values.
#[derive(Clone)]
pub struct ServerState {
    /// The flat directory uploaded assets are written to.
    pub upload_dir: String,
    /// The externally visible base URL of this run.
    pub server_url: String,
}

impl ServerState {
    /// The literal path `upload_directory/name` of a stored asset: the name
    /// is joined as-is, with no sanitization beyond what the routing layer
    /// guarantees for a path segment.
    pub fn asset_path(&self, name: &str) -> (r: String)
        ensures
            r@ == self.upload_dir@ + "/"@ + name@,
    {
        let mut s = self.upload_dir.clone();
        s.append("/");
        s.append(name);
        s
    }
}

/// A decided HTTP response: status code, content type and body bytes. The
/// embedding turns it into a transport response unchanged.
pub struct HttpResponse {
    /// The status code.
    pub status: u16,
    /// The `Content-Type` header value; empty when none is owed.
    pub content_type: String,
    /// The raw body bytes.
    pub body: Vec<u8>,
}

/// The status reported for an upload outcome: success unless nothing was
/// saved and at least one part failed. Partial success still reports
/// success — only the JSON body carries the detail.
pub open spec fn upload_status(saved: u32, n_errors: nat) -> u16 {
    if n_errors == 0 {
        200
    } else if saved > 0 {
        200
    } else {
        400
    }
}

/// The response closing an upload request: the outcome's status and its
/// JSON rendering.
pub fn upload_response(outcome: &UploadOutcome) -> (r: HttpResponse)
    ensures
        r.status == upload_status(outcome.saved, outcome.errors@.len()),
        r.content_type@ == "application/json"@,
        r.body@ == json_of_outcome(outcome.saved as nat, outcome.errors.deep_view()),
{
    let status: u16 = if outcome.errors.len() == 0 {
        200
    } else if outcome.saved > 0 {
        200
    } else {
        400
    };
    HttpResponse {
        status,
        content_type: "application/json".to_owned(),
        body: render_outcome(outcome.saved, &outcome.errors),
    }
}

/// The response for retrieving a stored asset by name, given what reading
/// `upload_directory/name` yielded. A failed read of any kind — absent or
/// unreadable alike — is not found, never a server error; a successful read
/// is served back unchanged, byte for byte, under the content type inferred
/// from the name's extension.
pub fn serve_image(name: &str, read: Option<Vec<u8>>) -> (r: HttpResponse)
    ensures
        match read {
            None => r.status == 404 && r.body@.len() == 0 && r.content_type@.len() == 0,
            Some(b) => r.status == 200 && r.content_type@ == content_type_of_name(name@)
                && r.body@ == b@,
        },
{
    match read {
        None => HttpResponse { status: 404, content_type: String::new(), body: Vec::new() },
        Some(b) => HttpResponse {
            status: 200,
            content_type: content_type_for_name(name).to_owned(),
            body: b,
        },
    }
}

} // verus!
