//! Resolving a request path to a resource, and shaping a resource into a
//! response. The package's file registry and the document renderer are
//! collaborators: their results are handed in as plain values.
use vstd::prelude::*;
use crate::content_type::{asset_content_type, asset_mime, has_suffix, sniffed_mime};
use crate::response::{
    Response, ResponseView, text, empty, text_response, empty_response, STATUS_OK,
    STATUS_INTERNAL_ERROR, STATUS_NOT_FOUND,
};

verus! {

/// The kind tag the file registry gives a file.
#[derive(Clone, Copy, Debug, PartialEq, Eq, Structural)]
pub enum FileKind {
    Document,
    Image,
    Other,
}

/// A file as the registry returns it for a logical path.
pub struct RegistryFile {
    pub kind: FileKind,
    pub id: String,
    pub content: Vec<u8>,
}

pub struct FileView {
    pub kind: FileKind,
    pub id: Seq<char>,
    pub content: Seq<u8>,
}

impl View for RegistryFile {
    type V = FileView;

    open spec fn view(&self) -> FileView {
        FileView { kind: self.kind, id: self.id@, content: self.content@ }
    }
}

/// What a request path resolves to. Each variant carries the id it was found
/// under; that id is the current document handed to the renderer.
pub enum Resource {
    Document { id: String },
    Asset { id: String, content: Vec<u8> },
    Unsupported { id: String },
}

pub enum ResourceView {
    Document { id: Seq<char> },
    Asset { id: Seq<char>, content: Seq<u8> },
    Unsupported { id: Seq<char> },
}

impl View for Resource {
    type V = ResourceView;

    open spec fn view(&self) -> ResourceView {
        match self {
            Resource::Document { id } => ResourceView::Document { id: id@ },
            Resource::Asset { id, content } => ResourceView::Asset { id: id@, content: content@ },
            Resource::Unsupported { id } => ResourceView::Unsupported { id: id@ },
        }
    }
}

/// Why a path did not resolve, in words.
pub struct ResolutionError {
    pub message: String,
}

/// The resource a registry file stands for, by its kind.
pub open spec fn resource_of(f: FileView) -> ResourceView {
    match f.kind {
        FileKind::Document => ResourceView::Document { id: f.id },
        FileKind::Image => ResourceView::Asset { id: f.id, content: f.content },
        FileKind::Other => ResourceView::Unsupported { id: f.id },
    }
}

/// The id of a resolved resource.
pub open spec fn resource_id(r: ResourceView) -> Seq<char> {
    match r {
        ResourceView::Document { id } => id,
        ResourceView::Asset { id, .. } => id,
        ResourceView::Unsupported { id } => id,
    }
}

/// Resolves the registry's answer for a path: a failed lookup becomes a
/// resolution error with its cause; a found file becomes the resource of its kind.
pub fn resolve(lookup: Result<RegistryFile, String>) -> (r: Result<Resource, ResolutionError>)
    ensures
        match lookup {
            Ok(f) => r matches Ok(res) && res@ == resource_of(f@),
            Err(e) => r matches Err(err) && err.message@ == e@,
        },
{
    match lookup {
        Ok(f) => match f.kind {
            FileKind::Document => Ok(Resource::Document { id: f.id }),
            FileKind::Image => Ok(Resource::Asset { id: f.id, content: f.content }),
            FileKind::Other => Ok(Resource::Unsupported { id: f.id }),
        },
        Err(e) => Err(ResolutionError { message: e }),
    }
}

impl Resource {
    /// The id this resource was resolved under: the current document.
    pub fn id(&self) -> (r: &String)
        ensures
            r@ == resource_id(self@),
    {
        match self {
            Resource::Document { id } => id,
            Resource::Asset { id, .. } => id,
            Resource::Unsupported { id } => id,
        }
    }
}

/// The response to an image asset: success, its sniffed or guessed content
/// type, and its bytes.
pub open spec fn asset_response(id: Seq<char>, content: Seq<u8>) -> ResponseView {
    ResponseView { status: STATUS_OK, content_type: Some(asset_mime(id, content)), body: content }
}

/// The response to a document once the renderer has answered: its bytes on
/// success, else an internal error with the renderer's error text.
pub open spec fn rendered_response(rendered: Result<Seq<u8>, Seq<char>>) -> ResponseView {
    match rendered {
        Ok(b) => ResponseView { status: STATUS_OK, content_type: None, body: b },
        Err(e) => text_response(STATUS_INTERNAL_ERROR, e),
    }
}

/// What comes after resolution: a response, or a document to render.
pub enum Next {
    Respond(Response),
    Render { id: String },
}

pub enum Outcome {
    Respond(ResponseView),
    Render { id: Seq<char> },
}

impl View for Next {
    type V = Outcome;

    open spec fn view(&self) -> Outcome {
        match self {
            Next::Respond(r) => Outcome::Respond(r@),
            Next::Render { id } => Outcome::Render { id: id@ },
        }
    }
}

/// How a resource is shaped: a document goes to the renderer with its id;
/// an asset is served with its content type; anything else is an internal
/// error with an empty body.
pub open spec fn shaped(r: ResourceView) -> Outcome {
    match r {
        ResourceView::Document { id } => Outcome::Render { id },
        ResourceView::Asset { id, content } => Outcome::Respond(asset_response(id, content)),
        ResourceView::Unsupported { .. } => Outcome::Respond(empty_response(STATUS_INTERNAL_ERROR)),
    }
}

/// What follows the registry's answer for a path: an unresolved path is an
/// internal error carrying the cause, never a not-found.
pub open spec fn lookup_outcome(lookup: Result<FileView, Seq<char>>) -> Outcome {
    match lookup {
        Ok(f) => shaped(resource_of(f)),
        Err(e) => Outcome::Respond(text_response(STATUS_INTERNAL_ERROR, e)),
    }
}

/// The view of a registry answer.
pub open spec fn lookup_view(lookup: Result<RegistryFile, String>) -> Result<FileView, Seq<char>> {
    match lookup {
        Ok(f) => Ok(f@),
        Err(e) => Err(e@),
    }
}

/// The view of a renderer answer.
pub open spec fn rendered_view(rendered: Result<Vec<u8>, String>) -> Result<Seq<u8>, Seq<char>> {
    match rendered {
        Ok(b) => Ok(b@),
        Err(e) => Err(e@),
    }
}

/// Shapes a resolved resource.
pub fn shape(resource: Resource) -> (r: Next)
    ensures
        r@ == shaped(resource@),
{
    match resource {
        Resource::Document { id } => Next::Render { id },
        Resource::Asset { id, content } => {
            let ct = asset_content_type(id.as_str(), &content);
            Next::Respond(Response { status: STATUS_OK, content_type: Some(ct), body: content })
        },
        Resource::Unsupported { .. } => Next::Respond(empty(STATUS_INTERNAL_ERROR)),
    }
}

/// Shapes the renderer's answer for a document.
pub fn shape_rendered(rendered: Result<Vec<u8>, String>) -> (r: Response)
    ensures
        r@ == rendered_response(rendered_view(rendered)),
{
    match rendered {
        Ok(b) => Response { status: STATUS_OK, content_type: None, body: b },
        Err(e) => text(STATUS_INTERNAL_ERROR, e.as_str()),
    }
}

/// Resolves the registry's answer for a path and shapes the result.
pub fn after_lookup(lookup: Result<RegistryFile, String>) -> (r: Next)
    ensures
        r@ == lookup_outcome(lookup_view(lookup)),
{
    match resolve(lookup) {
        Ok(res) => shape(res),
        Err(err) => Next::Respond(text(STATUS_INTERNAL_ERROR, err.message.as_str())),
    }
}

/// A resolvable document goes to the renderer under its own id; the
/// response is then success with the rendered bytes, or an internal error
/// whose body is the renderer's error text.
pub proof fn lemma_document_rendering(f: FileView, rendered: Result<Seq<u8>, Seq<char>>)
    requires
        f.kind == FileKind::Document,
    ensures
        lookup_outcome(Ok(f)) == (Outcome::Render { id: f.id }),
        rendered matches Ok(b) ==> rendered_response(rendered).status == STATUS_OK
            && rendered_response(rendered).body == b
            && (b.len() > 0 ==> rendered_response(rendered).body.len() > 0),
        rendered matches Err(e) ==> rendered_response(rendered) == text_response(
            STATUS_INTERNAL_ERROR,
            e,
        ),
{
}

/// An image whose bytes are recognised is served with the recognised type,
/// whatever its id ends with.
pub proof fn lemma_sniffed_type_first(f: FileView, m: Seq<char>)
    requires
        f.kind == FileKind::Image,
        sniffed_mime(f.content) == Some(m),
    ensures
        lookup_outcome(Ok(f)) == Outcome::Respond(
            ResponseView { status: STATUS_OK, content_type: Some(m), body: f.content },
        ),
{
}

/// An image whose bytes are not recognised is served as a vector image when
/// its id ends in `.svg`, and as a raster image otherwise.
pub proof fn lemma_unsniffed_fallback(f: FileView)
    requires
        f.kind == FileKind::Image,
        sniffed_mime(f.content) is None,
    ensures
        lookup_outcome(Ok(f)) == Outcome::Respond(
            ResponseView {
                status: STATUS_OK,
                content_type: Some(
                    if has_suffix(f.id, ".svg"@) {
                        "image/svg+xml"@
                    } else {
                        "image/jpeg"@
                    },
                ),
                body: f.content,
            },
        ),
{
}

/// A path the registry cannot find gives an internal error with the cause as
/// its body, never a not-found.
pub proof fn lemma_unresolved_is_internal_error(e: Seq<char>)
    ensures
        lookup_outcome(Err(e)) == Outcome::Respond(text_response(STATUS_INTERNAL_ERROR, e)),
        STATUS_INTERNAL_ERROR != STATUS_NOT_FOUND,
{
}

} // verus!
