//! Media types, file extensions, and the fixed tables relating them.

use vstd::prelude::*;
use vstd::string::StrSliceExecFns;

verus! {

/// Character-for-character equality of two strings.
pub fn str_eq(a: &str, b: &str) -> (r: bool)
    ensures
        r == (a@ == b@),
{
    let na = a.unicode_len();
    let nb = b.unicode_len();
    if na != nb {
        return false;
    }
    let mut i: usize = 0;
    while i < na
        invariant
            na == a@.len(),
            na == b@.len(),
            i <= na,
            forall|j: int| 0 <= j < i ==> a@[j] == b@[j],
        decreases na - i,
    {
        if a.get_char(i) != b.get_char(i) {
            return false;
        }
        i += 1;
    }
    proof {
        assert(a@ =~= b@);
    }
    true
}

/// A media type is an image type exactly when it begins with `image/`.
pub open spec fn is_image_type(ct: Seq<char>) -> bool {
    "image/"@.is_prefix_of(ct)
}

/// Whether the declared media type begins with the image prefix.
pub fn is_image_content_type(ct: &str) -> (r: bool)
    ensures
        r == is_image_type(ct@),
{
    proof {
        reveal_strlit("image/");
    }
    let n = ct.unicode_len();
    if n < 6 {
        return false;
    }
    let r = ct.get_char(0) == 'i' && ct.get_char(1) == 'm' && ct.get_char(2) == 'a'
        && ct.get_char(3) == 'g' && ct.get_char(4) == 'e' && ct.get_char(5) == '/';
    proof {
        if r {
            assert("image/"@ =~= ct@.subrange(0, 6));
        } else if is_image_type(ct@) {
            assert(forall|k: int| 0 <= k < 6 ==> ct@.subrange(0, 6)[k] == ct@[k]);
            assert(false);
        }
    }
    r
}

/// The canonical file extension recorded for an image media type: the fixed
/// ingestion table, with `bin` for an image type the table does not map.
pub open spec fn extension_for_type(ct: Seq<char>) -> Seq<char> {
    if ct == "image/jpeg"@ {
        "jpg"@
    } else if ct == "image/png"@ {
        "png"@
    } else if ct == "image/gif"@ {
        "gif"@
    } else if ct == "image/webp"@ {
        "webp"@
    } else if ct == "image/svg+xml"@ {
        "svg"@
    } else if ct == "image/bmp"@ {
        "bmp"@
    } else if ct == "image/heic"@ {
        "heic"@
    } else if ct == "image/heif"@ {
        "heif"@
    } else {
        "bin"@
    }
}

/// Maps an image media type to its canonical file extension.
pub fn extension_for(ct: &str) -> (r: &'static str)
    ensures
        r@ == extension_for_type(ct@),
{
    if str_eq(ct, "image/jpeg") {
        "jpg"
    } else if str_eq(ct, "image/png") {
        "png"
    } else if str_eq(ct, "image/gif") {
        "gif"
    } else if str_eq(ct, "image/webp") {
        "webp"
    } else if str_eq(ct, "image/svg+xml") {
        "svg"
    } else if str_eq(ct, "image/bmp") {
        "bmp"
    } else if str_eq(ct, "image/heic") {
        "heic"
    } else if str_eq(ct, "image/heif") {
        "heif"
    } else {
        "bin"
    }
}

/// The content type served for a stored file's extension: the ingestion
/// table read backwards, with the `jpeg` spelling admitted beside `jpg`,
/// and the generic binary type for anything unrecognized.
pub open spec fn content_type_for_extension(ext: Seq<char>) -> Seq<char> {
    if ext == "jpg"@ || ext == "jpeg"@ {
        "image/jpeg"@
    } else if ext == "png"@ {
        "image/png"@
    } else if ext == "gif"@ {
        "image/gif"@
    } else if ext == "webp"@ {
        "image/webp"@
    } else if ext == "svg"@ {
        "image/svg+xml"@
    } else if ext == "bmp"@ {
        "image/bmp"@
    } else if ext == "heic"@ {
        "image/heic"@
    } else if ext == "heif"@ {
        "image/heif"@
    } else {
        "application/octet-stream"@
    }
}

/// Maps a stored file's extension to the content type it is served under.
pub fn content_type_for(ext: &str) -> (r: &'static str)
    ensures
        r@ == content_type_for_extension(ext@),
{
    if str_eq(ext, "jpg") || str_eq(ext, "jpeg") {
        "image/jpeg"
    } else if str_eq(ext, "png") {
        "image/png"
    } else if str_eq(ext, "gif") {
        "image/gif"
    } else if str_eq(ext, "webp") {
        "image/webp"
    } else if str_eq(ext, "svg") {
        "image/svg+xml"
    } else if str_eq(ext, "bmp") {
        "image/bmp"
    } else if str_eq(ext, "heic") {
        "image/heic"
    } else if str_eq(ext, "heif") {
        "image/heif"
    } else {
        "application/octet-stream"
    }
}

/// The extension of a stored name: what follows the final dot, provided that
/// dot is neither absent nor the leading character.
pub open spec fn extension_of(name: Seq<char>) -> Option<Seq<char>>
    decreases name.len(),
{
    if name.len() == 0 {
        None
    } else if name.last() == '.' {
        if name.len() >= 2 {
            Some(Seq::empty())
        } else {
            None
        }
    } else {
        match extension_of(name.drop_last()) {
            Some(e) => Some(e.push(name.last())),
            None => None,
        }
    }
}

/// A name whose final dot stands at position `p`, later than the leading
/// character, has exactly the characters after that dot as its extension.
pub proof fn lemma_extension_after_dot(name: Seq<char>, p: int)
    requires
        0 < p < name.len(),
        name[p] == '.',
        forall|j: int| p < j < name.len() ==> name[j] != '.',
    ensures
        extension_of(name) == Some(name.subrange(p + 1, name.len() as int)),
    decreases name.len() - p,
{
    if p == name.len() - 1 {
        assert(name.subrange(p + 1, name.len() as int) =~= Seq::empty());
    } else {
        lemma_extension_after_dot(name.drop_last(), p);
        assert(name.subrange(p + 1, name.len() as int) =~= name.drop_last().subrange(
            p + 1,
            name.len() - 1,
        ).push(name.last()));
    }
}

/// A name with no dot past its leading character has no extension.
pub proof fn lemma_extension_absent(name: Seq<char>)
    requires
        forall|j: int| 1 <= j < name.len() ==> name[j] != '.',
    ensures
        extension_of(name) is None,
    decreases name.len(),
{
    if name.len() > 0 && name.last() != '.' {
        lemma_extension_absent(name.drop_last());
    }
}

/// Free of dots: no character of the string is a dot.
pub open spec fn dot_free(s: Seq<char>) -> bool {
    forall|i: int| 0 <= i < s.len() ==> s[i] != '.'
}

/// Every extension the ingestion table yields is free of dots (so a stored
/// name `<id>.<ext>` has its final dot in front of exactly that extension).
pub proof fn lemma_extension_for_type_dot_free(ct: Seq<char>)
    ensures
        dot_free(extension_for_type(ct)),
{
    reveal_strlit("jpg");
    reveal_strlit("png");
    reveal_strlit("gif");
    reveal_strlit("webp");
    reveal_strlit("svg");
    reveal_strlit("bmp");
    reveal_strlit("heic");
    reveal_strlit("heif");
    reveal_strlit("bin");
}

/// The image media types the ingestion table maps to an extension of their
/// own; any other image type is accepted but recorded under `bin`.
pub open spec fn is_mapped_image_type(ct: Seq<char>) -> bool {
    ||| ct == "image/jpeg"@
    ||| ct == "image/png"@
    ||| ct == "image/gif"@
    ||| ct == "image/webp"@
    ||| ct == "image/svg+xml"@
    ||| ct == "image/bmp"@
    ||| ct == "image/heic"@
    ||| ct == "image/heif"@
}

/// Media types survive the round trip through the two tables: a part saved
/// under a recognized image type is served back under that same type, and
/// one saved under any other type is served as generic binary.
pub proof fn lemma_media_type_round_trip(ct: Seq<char>)
    ensures
        is_mapped_image_type(ct) ==> content_type_for_extension(extension_for_type(ct)) == ct,
        !is_mapped_image_type(ct) ==> content_type_for_extension(extension_for_type(ct))
            == "application/octet-stream"@,
{
    reveal_strlit("jpg");
    reveal_strlit("jpeg");
    reveal_strlit("png");
    reveal_strlit("gif");
    reveal_strlit("webp");
    reveal_strlit("svg");
    reveal_strlit("bmp");
    reveal_strlit("heic");
    reveal_strlit("heif");
    reveal_strlit("bin");
    reveal_strlit("image/jpeg");
    reveal_strlit("image/png");
    reveal_strlit("image/gif");
    reveal_strlit("image/webp");
    reveal_strlit("image/svg+xml");
    reveal_strlit("image/bmp");
    reveal_strlit("image/heic");
    reveal_strlit("image/heif");
    assert(("jpg"@).len() == 3 && ("jpg"@)[0] == 'j' && ("jpg"@)[1] == 'p' && ("jpg"@)[2] == 'g');
    assert(("jpeg"@).len() == 4 && ("jpeg"@)[0] == 'j');
    assert(("png"@).len() == 3 && ("png"@)[0] == 'p' && ("png"@)[1] == 'n' && ("png"@)[2] == 'g');
    assert(("gif"@).len() == 3 && ("gif"@)[0] == 'g' && ("gif"@)[1] == 'i' && ("gif"@)[2] == 'f');
    assert(("webp"@).len() == 4 && ("webp"@)[0] == 'w');
    assert(("svg"@).len() == 3 && ("svg"@)[0] == 's' && ("svg"@)[1] == 'v' && ("svg"@)[2] == 'g');
    assert(("bmp"@).len() == 3 && ("bmp"@)[0] == 'b' && ("bmp"@)[1] == 'm' && ("bmp"@)[2] == 'p');
    assert(("heic"@).len() == 4 && ("heic"@)[0] == 'h' && ("heic"@)[3] == 'c');
    assert(("heif"@).len() == 4 && ("heif"@)[0] == 'h' && ("heif"@)[3] == 'f');
    assert(("bin"@).len() == 3 && ("bin"@)[0] == 'b' && ("bin"@)[1] == 'i' && ("bin"@)[2] == 'n');
    assert(("image/jpeg"@).len() == 10 && ("image/jpeg"@)[6] == 'j');
    assert(("image/png"@).len() == 9 && ("image/png"@)[6] == 'p');
    assert(("image/gif"@).len() == 9 && ("image/gif"@)[6] == 'g');
    assert(("image/webp"@).len() == 10 && ("image/webp"@)[6] == 'w');
    assert(("image/svg+xml"@).len() == 13 && ("image/svg+xml"@)[6] == 's');
    assert(("image/bmp"@).len() == 9 && ("image/bmp"@)[6] == 'b');
    assert(("image/heic"@).len() == 10 && ("image/heic"@)[6] == 'h' && ("image/heic"@)[9] == 'c');
    assert(("image/heif"@).len() == 10 && ("image/heif"@)[6] == 'h' && ("image/heif"@)[9] == 'f');
}

/// The content type a stored name is served under, inferred from its
/// extension, defaulting to generic binary when there is none.
pub open spec fn content_type_of_name(name: Seq<char>) -> Seq<char> {
    match extension_of(name) {
        Some(e) => content_type_for_extension(e),
        None => "application/octet-stream"@,
    }
}

/// Infers the served content type from a stored name.
pub fn content_type_for_name(name: &str) -> (r: &'static str)
    ensures
        r@ == content_type_of_name(name@),
{
    let n = name.unicode_len();
    let mut j: usize = n;
    while j > 0
        invariant
            n == name@.len(),
            j <= n,
            forall|k: int| j <= k < n ==> name@[k] != '.',
        decreases j,
    {
        if name.get_char(j - 1) == '.' {
            if j - 1 == 0 {
                proof {
                    lemma_extension_absent(name@);
                }
                return "application/octet-stream";
            }
            let ext = name.substring_char(j, n);
            proof {
                lemma_extension_after_dot(name@, j - 1);
            }
            return content_type_for(ext);
        }
        j -= 1;
    }
    proof {
        lemma_extension_absent(name@);
    }
    "application/octet-stream"
}

} // verus!
