use vstd::prelude::*;
use crate::dto::{CreateCanvasRequest, GetCanvasesRequest, UpdateCanvasRequest};
use crate::errors::{CanvasRepositoryError, CanvasServiceError};
use crate::graph::{topics_outside, TopicGraph};
use crate::model::{fresh_id, Canvas};
use crate::node_service::{byte_len, MAX_NAME_LEN};
use crate::text::{blank, is_blank};

verus! {

/// A new canvas needs a name that is neither blank nor over the limit, and
/// an author.
pub fn validate_create_request(request: &CreateCanvasRequest) -> (r: Result<(), CanvasServiceError>)
    ensures
        r is Ok <==> !blank(request.name@) && byte_len(request.name@) <= MAX_NAME_LEN
            && !blank(request.author_id@),
        r matches Err(e) ==> e is ValidationError,
{
    if is_blank(&request.name) {
        return Err(CanvasServiceError::ValidationError(String::from_str("Canvas name cannot be empty")));
    }
    if request.name.as_str().as_bytes().len() > MAX_NAME_LEN {
        return Err(CanvasServiceError::ValidationError(String::from_str("Canvas name cannot exceed 100 characters")));
    }
    if is_blank(&request.author_id) {
        return Err(CanvasServiceError::ValidationError(String::from_str("Author ID cannot be empty")));
    }
    Ok(())
}

/// A new name, when given, is neither blank nor over the limit.
pub fn validate_update_request(request: &UpdateCanvasRequest) -> (r: Result<(), CanvasServiceError>)
    ensures
        r is Ok <==> (request.name matches Some(n) ==> !blank(n@) && byte_len(n@) <= MAX_NAME_LEN),
        r matches Err(e) ==> e is ValidationError,
{
    if let Some(name) = &request.name {
        if is_blank(name) {
            return Err(CanvasServiceError::ValidationError(String::from_str("Canvas name cannot be empty")));
        }
        if name.as_str().as_bytes().len() > MAX_NAME_LEN {
            return Err(CanvasServiceError::ValidationError(String::from_str("Canvas name cannot exceed 100 characters")));
        }
    }
    Ok(())
}

/// An id must not be blank.
pub fn validate_id(id: &String) -> (r: Result<(), CanvasServiceError>)
    ensures
        r is Ok <==> !blank(id@),
        r matches Err(e) ==> e is ValidationError,
{
    if is_blank(id) {
        return Err(CanvasServiceError::ValidationError(String::from_str("ID cannot be empty")));
    }
    Ok(())
}

/// A listing names its author, at most 100 items per page and no negative
/// offset.
pub fn validate_get_canvases_request(request: &GetCanvasesRequest) -> (r: Result<(), CanvasServiceError>)
    ensures
        r is Ok <==> !blank(request.author_id@) && (request.limit matches Some(l) ==> 0 < l
            <= 100) && (request.offset matches Some(o) ==> o >= 0),
        r matches Err(e) ==> e is ValidationError,
{
    match validate_id(&request.author_id) {
        Ok(()) => {},
        Err(e) => return Err(e),
    }
    if let Some(limit) = request.limit {
        if limit <= 0 {
            return Err(CanvasServiceError::ValidationError(String::from_str("Limit must be greater than 0")));
        }
        if limit > 100 {
            return Err(CanvasServiceError::ValidationError(String::from_str("Limit cannot exceed 100")));
        }
    }
    if let Some(offset) = request.offset {
        if offset < 0 {
            return Err(CanvasServiceError::ValidationError(String::from_str("Offset cannot be negative")));
        }
    }
    Ok(())
}

/// The service-level form of a canvas store failure.
pub fn map_repository_error(e: CanvasRepositoryError) -> (r: CanvasServiceError)
    ensures
        e matches CanvasRepositoryError::DatabaseError(m) ==> r == CanvasServiceError::DatabaseError(m),
        e matches CanvasRepositoryError::InvalidData(m) ==> r == CanvasServiceError::DatabaseError(m),
        e is NotFound ==> r is NotFound,
{
    match e {
        CanvasRepositoryError::DatabaseError(m) => CanvasServiceError::DatabaseError(m),
        CanvasRepositoryError::NotFound => CanvasServiceError::NotFound,
        CanvasRepositoryError::InvalidData(m) => CanvasServiceError::DatabaseError(m),
    }
}

/// A request for a new canvas that validation accepts.
pub open spec fn valid_create(request: CreateCanvasRequest) -> bool {
    !blank(request.name@) && byte_len(request.name@) <= MAX_NAME_LEN && !blank(request.author_id@)
}

/// What a created canvas holds; a missing instruction is empty text.
pub open spec fn canvas_from(c: Canvas, request: CreateCanvasRequest) -> bool {
    c.name == request.name && c.author_id == request.author_id && c.system_instruction@
        == match request.system_instruction {
        Some(s) => s@,
        None => Seq::empty(),
    }
}

/// Creates a canvas under the id `id` once the request is valid; it fails
/// only when the request is invalid or the id is in use.
pub fn create_canvas_with_id(graph: &mut TopicGraph, request: CreateCanvasRequest, id: String) -> (r: Result<
    Canvas,
    CanvasServiceError,
>)
    requires
        old(graph).wf(),
    ensures
        final(graph).wf(),
        final(graph).topics@ == old(graph).topics@,
        final(graph).relationships@ == old(graph).relationships@,
        !valid_create(request) ==> (r matches Err(CanvasServiceError::ValidationError(_))),
        valid_create(request) ==> (r is Ok <==> !old(graph).has_canvas(id@)),
        valid_create(request) && r is Err ==> (r matches Err(CanvasServiceError::DatabaseError(_))),
        r is Err ==> final(graph).canvases@ == old(graph).canvases@,
        r matches Ok(c) ==> canvas_from(c, request) && c.id == id && final(graph).canvases@ == old(
            graph,
        ).canvases@.push(c),
{
    match validate_create_request(&request) {
        Ok(()) => {},
        Err(e) => return Err(e),
    }
    let canvas = Canvas {
        id,
        author_id: request.author_id,
        name: request.name,
        system_instruction: match request.system_instruction {
            Some(s) => s,
            None => String::new(),
        },
    };
    let out = canvas.copied();
    match graph.add_canvas(canvas) {
        Ok(()) => Ok(out),
        Err(e) => Err(map_repository_error(e)),
    }
}

/// Creates a canvas under a fresh random id once the request is valid; a
/// missing instruction is stored as empty text.
pub fn create_canvas(graph: &mut TopicGraph, request: CreateCanvasRequest) -> (r: Result<Canvas, CanvasServiceError>)
    requires
        old(graph).wf(),
    ensures
        final(graph).wf(),
        final(graph).topics@ == old(graph).topics@,
        final(graph).relationships@ == old(graph).relationships@,
        !valid_create(request) ==> (r matches Err(CanvasServiceError::ValidationError(_))),
        valid_create(request) ==> r is Ok || (r matches Err(CanvasServiceError::DatabaseError(_))),
        r is Err ==> final(graph).canvases@ == old(graph).canvases@,
        r matches Ok(c) ==> canvas_from(c, request) && final(graph).canvases@ == old(graph).canvases@.push(c),
{
    create_canvas_with_id(graph, request, fresh_id())
}

/// Updates a canvas once the request is valid.
pub fn update_canvas(graph: &mut TopicGraph, id: &String, request: UpdateCanvasRequest) -> (r: Result<Canvas, CanvasServiceError>)
    requires
        old(graph).wf(),
    ensures
        final(graph).wf(),
        final(graph).topics@ == old(graph).topics@,
        final(graph).relationships@ == old(graph).relationships@,
        blank(id@) ==> (r matches Err(CanvasServiceError::ValidationError(_)))
            && final(graph).canvases@ == old(graph).canvases@,
        !blank(id@) && !(request.name matches Some(n) ==> !blank(n@) && byte_len(n@)
            <= MAX_NAME_LEN) ==> (r matches Err(CanvasServiceError::ValidationError(_)))
            && final(graph).canvases@ == old(graph).canvases@,
        !blank(id@) && (request.name matches Some(n) ==> !blank(n@) && byte_len(n@)
            <= MAX_NAME_LEN) && !old(graph).has_canvas(id@) ==> r == Err::<Canvas, CanvasServiceError>(
            CanvasServiceError::NotFound,
        ),
        !blank(id@) && (request.name matches Some(n) ==> !blank(n@) && byte_len(n@)
            <= MAX_NAME_LEN) && old(graph).has_canvas(id@) ==> (r matches Ok(c) && {
            let was = old(graph).canvas(id@);
            &&& c.id == was.id
            &&& c.author_id == was.author_id
            &&& c.name == match request.name {
                Some(n) => n,
                None => was.name,
            }
            &&& c.system_instruction == match request.system_instruction {
                Some(s) => s,
                None => was.system_instruction,
            }
            &&& final(graph).canvases@ == old(graph).canvases@.update(old(graph).canvas_index(id@), c)
        }),
{
    match validate_id(id) {
        Ok(()) => {},
        Err(e) => return Err(e),
    }
    match validate_update_request(&request) {
        Ok(()) => {},
        Err(e) => return Err(e),
    }
    match graph.update_canvas(id, request) {
        Ok(c) => Ok(c),
        Err(e) => Err(map_repository_error(e)),
    }
}

/// Deletes a canvas with everything in it.
pub fn delete_canvas(graph: &mut TopicGraph, id: &String) -> (r: Result<(), CanvasServiceError>)
    requires
        old(graph).wf(),
    ensures
        final(graph).wf(),
        blank(id@) ==> (r matches Err(CanvasServiceError::ValidationError(_)))
            && *final(graph) == *old(graph),
        !blank(id@) && !old(graph).has_canvas(id@) ==> r == Err::<(), CanvasServiceError>(
            CanvasServiceError::NotFound,
        ),
        r is Ok ==> !blank(id@) && old(graph).has_canvas(id@) && !final(graph).has_canvas(id@),
        !blank(id@) && old(graph).has_canvas(id@) ==> r is Ok && final(graph).topics@
            == topics_outside(old(graph).topics@, id@) && final(graph).relationships@ == old(
            graph,
        ).edges_clear_of_canvas(old(graph).relationships@, id@),
{
    match validate_id(id) {
        Ok(()) => {},
        Err(e) => return Err(e),
    }
    let r = graph.delete_canvas(id);
    proof {
        if r is Ok {
            let g = *graph;
            if g.has_canvas(id@) {
                let i = choose|i: int| 0 <= i < g.canvases@.len() && g.canvases@[i].id@ == id@;
                let k = old(graph).canvas_index(id@);
                assert(old(graph).canvases@[k].id@ == id@);
                let j = if i < k { i } else { i + 1 };
                assert(g.canvases@[i] == old(graph).canvases@[j]);
            }
        }
    }
    match r {
        Ok(()) => Ok(()),
        Err(e) => Err(map_repository_error(e)),
    }
}

} // verus!
