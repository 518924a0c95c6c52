//! The upload ingestion pipeline: validation and planning of multipart
//! parts, and the aggregate outcome of one request.
//!
//! A request's parts are processed one at a time, in stream order. For each
//! part the embedding reads the raw values off the wire and hands them in as
//! an [`UploadPart`]; [`plan_part`] decides everything about it — refusal
//! text, or the name, bytes and host notice of a save — and the embedding
//! carries the single file write out, folding the result back into the
//! [`UploadOutcome`].

use base64::Engine;
use vstd::prelude::*;
use vstd::string::StringExecFns;

use crate::media::extension_for;
use crate::media::extension_for_type;
use crate::media::is_image_content_type;
use crate::media::is_image_type;

verus! {

/// Per-file size cap, in bytes: 20 MB.
pub const MAX_FILE_SIZE: usize = 20 * 1024 * 1024;

/// One part of a multipart upload request, as read off the stream: its
/// declared media type, if any, and its payload — or, when the stream was
/// malformed, the reader's failure text.
pub struct UploadPart {
    /// The media type the part declares, absent when it declares none.
    pub content_type: Option<String>,
    /// The part's bytes, or the failure text from reading them.
    pub data: Result<Vec<u8>, String>,
}

/// The media type a part is treated under: the declared one, or the generic
/// binary type when it declares none.
pub open spec fn effective_type(part: UploadPart) -> Seq<char> {
    match part.content_type {
        Some(ct) => ct@,
        None => "application/octet-stream"@,
    }
}

/// The payload of a part whose bytes were read.
pub open spec fn part_bytes(part: UploadPart) -> Seq<u8> {
    match part.data {
        Ok(d) => d@,
        Err(_) => Seq::empty(),
    }
}

/// Why a part is refused, if it is: a non-image media type, a failed read of
/// its bytes, or a payload over the size cap — checked in that order. `None`
/// means the part is accepted.
pub open spec fn reject_reason(part: UploadPart) -> Option<Seq<char>> {
    let ct = effective_type(part);
    if !is_image_type(ct) {
        Some("Rejected non-image file (type: "@ + ct + ")"@)
    } else {
        match part.data {
            Err(e) => Some("Failed to read file: "@ + e@),
            Ok(d) => if d@.len() > MAX_FILE_SIZE {
                Some("File exceeds 20MB limit"@)
            } else {
                None
            },
        }
    }
}

/// What the standard base64 encoding of a byte string reads as.
pub uninterp spec fn base64_of(bytes: Seq<u8>) -> Seq<char>;

/// Relies on `base64::Engine::encode` with the standard padded engine
/// (`base64::engine::general_purpose::STANDARD`): the encoding is a function
/// of the input bytes alone, four characters for every three bytes begun.
#[verifier::external_body]
fn base64_encode(data: &Vec<u8>) -> (r: String)
    requires
        data@.len() * 4 <= usize::MAX,
    ensures
        r@ == base64_of(data@),
        r@.len() == 4 * ((data@.len() + 2) / 3),
{
    base64::engine::general_purpose::STANDARD.encode(data)
}

/// The alphabet generated identifiers are drawn from: lowercase hexadecimal
/// digits and the hyphen. In particular, never a dot and never a slash.
pub open spec fn is_id_char(c: char) -> bool {
    ('0' <= c && c <= '9') || ('a' <= c && c <= 'f') || c == '-'
}

/// The shape of every generated identifier: 36 characters, each drawn from
/// the identifier alphabet.
pub open spec fn is_generated_id(s: Seq<char>) -> bool {
    s.len() == 36 && (forall|i: int| 0 <= i < 36 ==> is_id_char(#[trigger] s[i]))
}

/// Relies on `uuid::Uuid::new_v4` and its `Display` form: a fresh random
/// version-4 UUID, rendered as 32 lowercase hexadecimal digits in five
/// hyphen-separated groups, 36 characters in all. The value is random, so
/// nothing beyond that shape is promised, and no two calls are related.
#[verifier::external_body]
fn fresh_id() -> (r: String)
    ensures
        is_generated_id(r@),
{
    uuid::Uuid::new_v4().to_string()
}

/// The stored name built from a generated identifier and an extension.
pub open spec fn stored_name(id: Seq<char>, ext: Seq<char>) -> Seq<char> {
    id + "."@ + ext
}

/// The self-describing inline payload delivered to the host for a saved
/// image: `data:<media type>;base64,<encoded bytes>`, chosen so the host's
/// rendering layer needs no follow-up fetch.
pub open spec fn inline_payload(ct: Seq<char>, data: Seq<u8>) -> Seq<char> {
    "data:"@ + ct + ";base64,"@ + base64_of(data)
}

/// Everything decided for one accepted part under the generated identifier
/// `id`: the name to write under, the exact bytes to write, and the notice
/// owed to the host once the write has completed.
pub open spec fn accepted_plan(
    part: UploadPart,
    id: Seq<char>,
    name: Seq<char>,
    data: Seq<u8>,
    notice: Seq<char>,
) -> bool {
    let ct = effective_type(part);
    &&& name == stored_name(id, extension_for_type(ct))
    &&& data == part_bytes(part)
    &&& notice == inline_payload(ct, data)
}

/// What the pipeline does with one part.
pub enum PartPlan {
    /// The part is refused: the text joins the outcome's error list, nothing
    /// is written, and processing continues with the next part.
    Reject { error: String },
    /// The part is accepted: `data` is to be written under `name` in the
    /// upload directory and, only once that write has succeeded, the host is
    /// to be notified with `notice`.
    Save { name: String, data: Vec<u8>, notice: String },
}

/// Validates one part and plans its persistence. A refused part carries
/// exactly the refusal text of [`reject_reason`]; an accepted part carries a
/// freshly generated name, its payload unchanged byte for byte, and the
/// inline notice for the host.
pub fn plan_part(part: UploadPart) -> (p: PartPlan)
    ensures
        match reject_reason(part) {
            Some(m) => p matches PartPlan::Reject { error } && error@ == m,
            None => p matches PartPlan::Save { name, data, notice } && exists|id: Seq<char>|
                #[trigger] is_generated_id(id) && accepted_plan(part, id, name@, data@, notice@),
        },
{
    let UploadPart { content_type, data } = part;
    let ct: String = match content_type {
        Some(s) => s,
        None => "application/octet-stream".to_owned(),
    };
    if !is_image_content_type(ct.as_str()) {
        let mut error = "Rejected non-image file (type: ".to_owned();
        error.append(ct.as_str());
        error.append(")");
        return PartPlan::Reject { error };
    }
    let data = match data {
        Ok(d) => d,
        Err(e) => {
            let mut error = "Failed to read file: ".to_owned();
            error.append(e.as_str());
            return PartPlan::Reject { error };
        },
    };
    if data.len() > MAX_FILE_SIZE {
        return PartPlan::Reject { error: "File exceeds 20MB limit".to_owned() };
    }
    let id = fresh_id();
    let ghost gid = id@;
    let ext = extension_for(ct.as_str());
    let mut name = id;
    name.append(".");
    name.append(ext);
    let encoded = base64_encode(&data);
    let mut notice = "data:".to_owned();
    notice.append(ct.as_str());
    notice.append(";base64,");
    notice.append(encoded.as_str());
    let ghost gname = name@;
    let ghost gdata = data@;
    let ghost gnotice = notice@;
    let p = PartPlan::Save { name, data, notice };
    proof {
        assert(is_generated_id(gid) && accepted_plan(part, gid, gname, gdata, gnotice));
    }
    p
}

/// The aggregate result of one upload request: how many parts were
/// persisted, and the per-part failure texts in stream order. Transient —
/// it lives for one request and is rendered into the response body.
pub struct UploadOutcome {
    /// How many parts have been persisted so far.
    pub saved: u32,
    /// The failure texts of the parts that were not, in stream order.
    pub errors: Vec<String>,
}

impl UploadOutcome {
    /// The empty outcome a request starts from. A request with no parts at
    /// all ends here: zero saved, zero errors, a success response.
    pub fn new() -> (r: Self)
        ensures
            r.saved == 0,
            r.errors@.len() == 0,
    {
        UploadOutcome { saved: 0, errors: Vec::new() }
    }

    /// Appends one per-part failure text; the saved count is untouched.
    pub fn record_error(&mut self, error: String)
        ensures
            final(self).saved == old(self).saved,
            final(self).errors@ == old(self).errors@.push(error),
    {
        self.errors.push(error);
    }

    /// Counts one more part as persisted; the error list is untouched.
    pub fn record_saved(&mut self)
        requires
            old(self).saved < u32::MAX,
        ensures
            final(self).saved == old(self).saved + 1,
            final(self).errors@ == old(self).errors@,
    {
        self.saved = self.saved + 1;
    }
}

/// Distinct generated identifiers yield distinct stored names, whatever the
/// two extensions: names can collide only where identifiers do. (That the
/// identifiers themselves never collide is the generator's probabilistic
/// guarantee, not a provable one.)
pub proof fn lemma_distinct_ids_distinct_names(
    id1: Seq<char>,
    id2: Seq<char>,
    ext1: Seq<char>,
    ext2: Seq<char>,
)
    requires
        is_generated_id(id1),
        is_generated_id(id2),
        id1 != id2,
    ensures
        stored_name(id1, ext1) != stored_name(id2, ext2),
{
    if forall|i: int| 0 <= i < 36 ==> id1[i] == id2[i] {
        assert(id1 =~= id2);
    }
    let i = choose|i: int| 0 <= i < 36 && id1[i] != id2[i];
    if stored_name(id1, ext1) == stored_name(id2, ext2) {
        assert(stored_name(id1, ext1)[i] == stored_name(id2, ext2)[i]);
        assert(stored_name(id1, ext1)[i] == id1[i]);
        assert(stored_name(id2, ext2)[i] == id2[i]);
    }
}

/// A stored name carries exactly the extension it was built with: the
/// identifier holds no dot, so the name's final dot is the one between the
/// two, and retrieval recovers the extension unchanged.
pub proof fn lemma_stored_name_extension(id: Seq<char>, ext: Seq<char>)
    requires
        is_generated_id(id),
        crate::media::dot_free(ext),
    ensures
        crate::media::extension_of(stored_name(id, ext)) == Some(ext),
{
    reveal_strlit(".");
    let name = stored_name(id, ext);
    assert(name.len() == 37 + ext.len());
    assert(name[36] == '.');
    assert(forall|j: int| 36 < j < name.len() ==> name[j] == ext[j - 37] && #[trigger] name[j]
        != '.');
    crate::media::lemma_extension_after_dot(name, 36);
    assert(name.subrange(37, name.len() as int) =~= ext);
}

/// A name planned for a saved part is served back under the content type the
/// retrieval table gives for the part's recorded extension: for a recognized
/// image type, the declared type itself; for any other, generic binary.
pub proof fn lemma_saved_name_served_type(id: Seq<char>, ct: Seq<char>)
    requires
        is_generated_id(id),
    ensures
        crate::media::content_type_of_name(stored_name(id, extension_for_type(ct)))
            == crate::media::content_type_for_extension(extension_for_type(ct)),
        crate::media::is_mapped_image_type(ct) ==> crate::media::content_type_of_name(
            stored_name(id, extension_for_type(ct)),
        ) == ct,
{
    crate::media::lemma_extension_for_type_dot_free(ct);
    lemma_stored_name_extension(id, extension_for_type(ct));
    crate::media::lemma_media_type_round_trip(ct);
}

/// The failure text recorded when writing a planned file fails; the write
/// failure spoils that part alone, never the request.
pub fn write_failure_message(name: &str, detail: &str) -> (r: String)
    ensures
        r@ == "Failed to save "@ + name@ + ": "@ + detail@,
{
    let mut s = "Failed to save ".to_owned();
    s.append(name);
    s.append(": ");
    s.append(detail);
    s
}

} // verus!

