//! The content type of an image asset: what content sniffing finds in its bytes,
//! else a guess from the suffix of its id.
use vstd::prelude::*;
use vstd::string::StrSliceExecFns;

verus! {

/// Whether `s` ends with `suffix`.
pub open spec fn has_suffix(s: Seq<char>, suffix: Seq<char>) -> bool {
    &&& suffix.len() <= s.len()
    &&& s.subrange(s.len() - suffix.len(), s.len() as int) == suffix
}

/// The MIME type that content sniffing reports for `content`, if it recognises it.
pub uninterp spec fn sniffed_mime(content: Seq<u8>) -> Option<Seq<char>>;

/// The content type an asset gets when sniffing gave `sniffed`: the sniffed type
/// when there is one, else the vector-image type for an id ending in `.svg`, else
/// the generic raster-image type.
pub open spec fn fallback_mime(sniffed: Option<Seq<char>>, id: Seq<char>) -> Seq<char> {
    match sniffed {
        Some(m) => m,
        None => if has_suffix(id, ".svg"@) {
            "image/svg+xml"@
        } else {
            "image/jpeg"@
        },
    }
}

/// The content type of an asset with this id and these bytes.
pub open spec fn asset_mime(id: Seq<char>, content: Seq<u8>) -> Seq<char> {
    fallback_mime(sniffed_mime(content), id)
}

/// The view of an optional string.
pub open spec fn opt_view(s: Option<String>) -> Option<Seq<char>> {
    match s {
        Some(t) => Some(t@),
        None => None,
    }
}

/// Relies on `infer::get` with `infer::Type::mime_type`: the MIME type of the
/// first matcher that accepts the bytes; the matchers are fixed, so the result
/// depends on the bytes alone.
#[verifier::external_body]
fn sniff(content: &[u8]) -> (r: Option<String>)
    ensures
        opt_view(r) == sniffed_mime(content@),
{
    infer::get(content).map(|t| t.mime_type().to_string())
}

/// Whether `s` ends with `suffix`, compared character by character.
pub fn ends_with(s: &str, suffix: &str) -> (r: bool)
    ensures
        r == has_suffix(s@, suffix@),
{
    let n = s.unicode_len();
    let m = suffix.unicode_len();
    if m > n {
        return false;
    }
    let off = n - m;
    let mut i: usize = 0;
    while i < m
        invariant
            n == s@.len(),
            m == suffix@.len(),
            off + m == n,
            i <= m,
            forall|j: int| 0 <= j < i ==> s@[off + j] == suffix@[j],
        decreases m - i,
    {
        if s.get_char(off + i) != suffix.get_char(i) {
            assert(s@.subrange(off as int, n as int)[i as int] != suffix@[i as int]);
            return false;
        }
        i = i + 1;
    }
    assert(s@.subrange(off as int, n as int) =~= suffix@);
    true
}

/// The content type for an asset once sniffing has given `sniffed`: sniffing
/// first, then the `.svg` suffix of `id`, then the raster default.
pub fn mime_from_sniff(sniffed: Option<String>, id: &str) -> (r: String)
    ensures
        r@ == fallback_mime(opt_view(sniffed), id@),
{
    match sniffed {
        Some(m) => m,
        None => {
            let svg = ends_with(id, ".svg");
            if svg {
                "image/svg+xml".to_owned()
            } else {
                "image/jpeg".to_owned()
            }
        },
    }
}

/// The content type of an image asset: sniffed from `content`, with the
/// suffix of `id` as the fallback.
pub fn asset_content_type(id: &str, content: &Vec<u8>) -> (r: String)
    ensures
        r@ == asset_mime(id@, content@),
{
    let sniffed = sniff(content.as_slice());
    mime_from_sniff(sniffed, id)
}

} // verus!
