//! Routing a request path: the well-known paths are checked first, in a fixed
//! order, and every other path goes to resolution.
use vstd::prelude::*;
use vstd::string::StrSliceExecFns;
use crate::content_type::ends_with;
use crate::response::{
    Response, ResponseView, text, empty, text_response, empty_response, STATUS_OK,
    STATUS_NOT_FOUND,
};

verus! {

/// Where a request goes.
pub enum Target {
    /// The icon, served from the working directory.
    Favicon,
    /// The package descriptor, read from the package root.
    PackageDescriptor,
    /// A path for the resolver.
    Resolve(String),
}

pub enum TargetView {
    Favicon,
    PackageDescriptor,
    Resolve(Seq<char>),
}

impl View for Target {
    type V = TargetView;

    open spec fn view(&self) -> TargetView {
        match self {
            Target::Favicon => TargetView::Favicon,
            Target::PackageDescriptor => TargetView::PackageDescriptor,
            Target::Resolve(p) => TargetView::Resolve(p@),
        }
    }
}

pub open spec fn favicon_path() -> Seq<char> {
    "favicon.ico"@
}

pub open spec fn descriptor_path() -> Seq<char> {
    "FPM.ftd"@
}

/// The path the package index is resolved under.
pub open spec fn root_path() -> Seq<char> {
    "/"@
}

/// The path handed to the resolver: the empty path stands for the index.
pub open spec fn resolver_path(path: Seq<char>) -> Seq<char> {
    if path.len() == 0 {
        root_path()
    } else {
        path
    }
}

/// Where a request path goes: the icon first, then the descriptor, then resolution.
pub open spec fn target_of(path: Seq<char>) -> TargetView {
    if path == favicon_path() {
        TargetView::Favicon
    } else if path == descriptor_path() {
        TargetView::PackageDescriptor
    } else {
        TargetView::Resolve(resolver_path(path))
    }
}

/// Whether two texts are the same.
pub fn same_text(a: &str, b: &str) -> (r: bool)
    ensures
        r == (a@ == b@),
{
    if a.unicode_len() != b.unicode_len() {
        return false;
    }
    let r = ends_with(a, b);
    assert(a@.subrange(0, a@.len() as int) =~= a@);
    r
}

/// Routes a request path.
pub fn classify(path: &str) -> (r: Target)
    ensures
        r@ == target_of(path@),
{
    if same_text(path, "favicon.ico") {
        Target::Favicon
    } else if same_text(path, "FPM.ftd") {
        Target::PackageDescriptor
    } else if path.unicode_len() == 0 {
        Target::Resolve("/".to_owned())
    } else {
        Target::Resolve(path.to_owned())
    }
}

/// The content type the package descriptor is served with.
pub open spec fn octet_stream() -> Seq<char> {
    "application/octet-stream"@
}

/// The response to reading the package descriptor: its exact bytes as opaque
/// binary, or not-found with the read error's text.
pub open spec fn descriptor_response(read: Result<Seq<u8>, Seq<char>>) -> ResponseView {
    match read {
        Ok(b) => ResponseView { status: STATUS_OK, content_type: Some(octet_stream()), body: b },
        Err(e) => text_response(STATUS_NOT_FOUND, e),
    }
}

/// Shapes the result of reading the package descriptor.
pub fn shape_descriptor(read: Result<Vec<u8>, String>) -> (r: Response)
    ensures
        r@ == descriptor_response(
            match read {
                Ok(b) => Ok(b@),
                Err(e) => Err(e@),
            },
        ),
{
    match read {
        Ok(b) => Response {
            status: STATUS_OK,
            content_type: Some("application/octet-stream".to_owned()),
            body: b,
        },
        Err(e) => text(STATUS_NOT_FOUND, e.as_str()),
    }
}

/// A static file that is not there: not-found with an empty body.
pub fn static_miss() -> (r: Response)
    ensures
        r@ == empty_response(STATUS_NOT_FOUND),
{
    empty(STATUS_NOT_FOUND)
}

/// The empty path is routed exactly as the root path is: to the resolver,
/// under the root path.
pub proof fn lemma_empty_path_is_root()
    ensures
        target_of(Seq::empty()) == target_of(root_path()),
        target_of(Seq::empty()) == TargetView::Resolve(root_path()),
{
    reveal_strlit("/");
    reveal_strlit("favicon.ico");
    reveal_strlit("FPM.ftd");
    assert(root_path().len() == 1);
    assert(favicon_path().len() == 11);
    assert(descriptor_path().len() == 7);
}

/// The icon path goes to the static file responder, and a missing file there
/// is not-found with an empty body.
pub proof fn lemma_favicon_route()
    ensures
        target_of(favicon_path()) == TargetView::Favicon,
        empty_response(STATUS_NOT_FOUND).status == STATUS_NOT_FOUND,
        empty_response(STATUS_NOT_FOUND).body.len() == 0,
{
}

/// The descriptor path is read from the package root: an unreadable file is
/// not-found with the error text as its body; a readable one is success,
/// opaque binary, with its exact bytes.
pub proof fn lemma_descriptor_route(read: Result<Seq<u8>, Seq<char>>)
    ensures
        target_of(descriptor_path()) == TargetView::PackageDescriptor,
        read matches Err(e) ==> descriptor_response(read) == text_response(STATUS_NOT_FOUND, e),
        read matches Ok(b) ==> descriptor_response(read) == (ResponseView {
            status: STATUS_OK,
            content_type: Some(octet_stream()),
            body: b,
        }),
{
    reveal_strlit("favicon.ico");
    reveal_strlit("FPM.ftd");
    assert(favicon_path().len() == 11);
    assert(descriptor_path().len() == 7);
}

} // verus!
