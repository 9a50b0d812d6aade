//! The pipeline of one URL as a state machine. Each stage names the work the
//! caller must do next (fetch, look up, resize, store); the caller performs
//! it and hands the outcome to the matching transition, until `Done`.
use vstd::prelude::*;
use crate::download::{
    DownloadError, DownloadFault, DownloadOptions, ResponseHead, head_verdict, parsed_url_of,
    too_large, url_acceptable, validate_response_header, validate_url,
};
use crate::handler::{HandlerError, HandlerFault};
use crate::storage::{ImageHandle, StorageError, StorageFault, StorageLayout, ThumbnailStorage, content_path};
use crate::thumbnail::{Picture, ThumbnailError, ThumbnailFault};

verus! {

/// Where one URL's pipeline stands, and what the caller must do next.
pub enum Stage {
    /// Send a HEAD request for the URL and report the response head.
    FetchHead,
    /// Send a GET request for the URL and report the body.
    FetchBody,
    /// Report whether a file stands at this storage-relative path.
    Lookup(String),
    /// Make the thumbnail of the body, off the request path, and report it.
    Resize(ImageHandle),
    /// Store the picture under the handle's path and report the result.
    Store(ImageHandle, Picture),
    /// Finished: the stored path, or why this URL failed.
    Done(Result<String, HandlerError>),
}

/// The mathematical value of a `Stage`.
pub enum StageView {
    FetchHead,
    FetchBody,
    Lookup(Seq<char>),
    Resize((Seq<char>, bool)),
    Store((Seq<char>, bool), (u32, u32)),
    Done(Result<Seq<char>, HandlerFault>),
}

impl View for Stage {
    type V = StageView;

    open spec fn view(&self) -> StageView {
        match self {
            Stage::FetchHead => StageView::FetchHead,
            Stage::FetchBody => StageView::FetchBody,
            Stage::Lookup(p) => StageView::Lookup(p@),
            Stage::Resize(h) => StageView::Resize(h@),
            Stage::Store(h, p) => StageView::Store(h@, p@),
            Stage::Done(Ok(p)) => StageView::Done(Ok(p@)),
            Stage::Done(Err(e)) => StageView::Done(Err(e@)),
        }
    }
}

/// How a request for the body went wrong.
#[derive(Debug)]
pub enum FetchFailure {
    /// The request could not be sent or answered (DNS, connect, timeout).
    Send(String),
    /// The body could not be read to its end.
    Read(String),
}

/// The mathematical value of a `FetchFailure`.
pub enum FetchFault {
    Send(Seq<char>),
    Read(Seq<char>),
}

impl View for FetchFailure {
    type V = FetchFault;

    open spec fn view(&self) -> FetchFault {
        match self {
            FetchFailure::Send(d) => FetchFault::Send(d@),
            FetchFailure::Read(d) => FetchFault::Read(d@),
        }
    }
}

/// A finished stage that failed with a download error.
pub open spec fn download_failed(f: DownloadFault) -> StageView {
    StageView::Done(Err(HandlerFault::DownloadError(f)))
}

/// The first stage of `url`.
pub fn start(url: &str) -> (r: Stage)
    ensures
        r@ is FetchHead <==> (parsed_url_of(url@) is Some && url_acceptable(parsed_url_of(url@)->0)),
        !(r@ is FetchHead) ==> r@ is Done && r@->Done_0 is Err && r@->Done_0->Err_0 is DownloadError
            && r@->Done_0->Err_0->DownloadError_0 is UrsParseError
            && r@->Done_0->Err_0->DownloadError_0->UrsParseError_url == url@,
{
    match validate_url(url) {
        Ok(()) => Stage::FetchHead,
        Err(e) => Stage::Done(Err(HandlerError::DownloadError(e))),
    }
}

/// The stage after the HEAD request for `url`: `head` is the response head, or
/// the text of the transport failure.
pub open spec fn head_transition(url: Seq<char>, head: Result<ResponseHead, Seq<char>>, opt: DownloadOptions) -> StageView {
    match head {
        Err(desc) => download_failed(DownloadFault::FailedGetImage { url, desc }),
        Ok(h) => match head_verdict(h, opt) {
            Ok(_) => StageView::FetchBody,
            Err(f) => download_failed(f),
        },
    }
}

/// Moves on from the HEAD request: the body is fetched only where the head
/// passes the options.
pub fn after_head(url: &str, head: Result<ResponseHead, String>, options: &DownloadOptions) -> (r: Stage)
    ensures
        r@ == head_transition(
            url@,
            match head {
                Ok(h) => Ok(h),
                Err(d) => Err(d@),
            },
            *options,
        ),
{
    match head {
        Err(desc) => Stage::Done(
            Err(HandlerError::DownloadError(DownloadError::FailedGetImage { url: url.to_string(), desc })),
        ),
        Ok(h) => match validate_response_header(&h, options) {
            Ok(()) => Stage::FetchBody,
            Err(e) => Stage::Done(Err(HandlerError::DownloadError(e))),
        },
    }
}

/// The stage after the GET request for `url`.
pub open spec fn body_transition(url: Seq<char>, layout: StorageLayout, body: Result<Seq<u8>, FetchFault>) -> StageView {
    match body {
        Ok(bytes) => StageView::Lookup(content_path(layout.width, layout.height, layout.ext, bytes)),
        Err(FetchFault::Send(desc)) => download_failed(DownloadFault::FailedGetImage { url, desc }),
        Err(FetchFault::Read(desc)) => download_failed(DownloadFault::FailedParsePayload { url, desc }),
    }
}

/// Moves on from the GET request: the body's content address is looked up.
pub fn after_body(url: &str, storage: &ThumbnailStorage, body: &Result<Vec<u8>, FetchFailure>) -> (r: Stage)
    ensures
        r@ == body_transition(
            url@,
            storage@,
            match body {
                Ok(b) => Ok(b@),
                Err(f) => Err(f@),
            },
        ),
{
    match body {
        Ok(bytes) => Stage::Lookup(storage.relative_path(bytes.as_slice())),
        Err(FetchFailure::Send(desc)) => Stage::Done(
            Err(
                HandlerError::DownloadError(
                    DownloadError::FailedGetImage { url: url.to_string(), desc: desc.clone() },
                ),
            ),
        ),
        Err(FetchFailure::Read(desc)) => Stage::Done(
            Err(
                HandlerError::DownloadError(
                    DownloadError::FailedParsePayload { url: url.to_string(), desc: desc.clone() },
                ),
            ),
        ),
    }
}

/// The stage after looking up the content address of `bytes`: a stored
/// thumbnail finishes the pipeline at once; otherwise it is made.
pub open spec fn lookup_transition(layout: StorageLayout, bytes: Seq<u8>, stored: bool) -> StageView {
    let path = content_path(layout.width, layout.height, layout.ext, bytes);
    if stored {
        StageView::Done(Ok(path))
    } else {
        StageView::Resize((path, false))
    }
}

/// Moves on from the lookup of the body's content address.
pub fn after_lookup(storage: &ThumbnailStorage, bytes: &[u8], stored: bool) -> (r: Stage)
    ensures
        r@ == lookup_transition(storage@, bytes@, stored),
{
    let handle = storage.get_image_handle(bytes, stored);
    if handle.already_exists() {
        Stage::Done(Ok(handle.path()))
    } else {
        Stage::Resize(handle)
    }
}

/// The stage after the thumbnail was made (`None`: the work was cancelled).
pub open spec fn resize_transition(handle: (Seq<char>, bool), made: Option<Result<(u32, u32), ThumbnailFault>>) -> StageView {
    match made {
        None => StageView::Done(
            Err(HandlerFault::BlockingCancelled("make thumbnail operation cancelled"@)),
        ),
        Some(Err(e)) => StageView::Done(Err(HandlerFault::ThumbnailError(e))),
        Some(Ok(dims)) => StageView::Store(handle, dims),
    }
}

/// Moves on once the thumbnail was made, failed, or was cancelled.
pub fn after_resize(handle: ImageHandle, made: Option<Result<Picture, ThumbnailError>>) -> (r: Stage)
    ensures
        r@ == resize_transition(
            handle@,
            match made {
                None => None,
                Some(Ok(p)) => Some(Ok(p@)),
                Some(Err(e)) => Some(Err(e@)),
            },
        ),
{
    match made {
        None => Stage::Done(
            Err(HandlerError::BlockingCancelled(String::from_str("make thumbnail operation cancelled"))),
        ),
        Some(Err(e)) => Stage::Done(Err(HandlerError::ThumbnailError(e))),
        Some(Ok(p)) => Stage::Store(handle, p),
    }
}

/// The stage after the thumbnail was stored (`None`: the work was cancelled;
/// `Err`: the text of the write failure).
pub open spec fn store_transition(handle: (Seq<char>, bool), stored: Option<Result<(), Seq<char>>>) -> StageView {
    match stored {
        None => StageView::Done(
            Err(HandlerFault::BlockingCancelled("thumbnail store operation cancelled"@)),
        ),
        Some(Err(d)) => StageView::Done(Err(HandlerFault::StorageError(StorageFault::FailedStore(d)))),
        Some(Ok(())) => StageView::Done(Ok(handle.0)),
    }
}

/// Moves on once the thumbnail was stored, failed to be, or was cancelled.
pub fn after_store(handle: &ImageHandle, stored: Option<Result<(), String>>) -> (r: Stage)
    ensures
        r@ == store_transition(
            handle@,
            match stored {
                None => None,
                Some(Ok(())) => Some(Ok(())),
                Some(Err(d)) => Some(Err(d@)),
            },
        ),
{
    match stored {
        None => Stage::Done(
            Err(HandlerError::BlockingCancelled(String::from_str("thumbnail store operation cancelled"))),
        ),
        Some(Err(d)) => Stage::Done(Err(HandlerError::StorageError(StorageError::FailedStore(d)))),
        Some(Ok(())) => Stage::Done(Ok(handle.path())),
    }
}

/// Byte-identical bodies share one content address, and once a thumbnail
/// stands there the pipeline finishes at the lookup with that path, without
/// a resize stage.
pub proof fn lemma_identical_content_hits_cache(layout: StorageLayout, first: Seq<u8>, second: Seq<u8>)
    requires
        first == second,
    ensures
        lookup_transition(layout, first, false) == StageView::Resize(
            (content_path(layout.width, layout.height, layout.ext, second), false),
        ),
        lookup_transition(layout, second, true) == StageView::Done(
            Ok::<Seq<char>, HandlerFault>(content_path(layout.width, layout.height, layout.ext, first)),
        ),
{
}

/// A response declaring a length above the configured maximum ends the
/// pipeline with a size error, so its body is never fetched or decoded.
pub proof fn lemma_oversized_body_never_fetched(url: Seq<char>, head: ResponseHead, opt: DownloadOptions)
    requires
        head.status == 200,
        too_large(opt, head.content_length),
    ensures
        head_transition(url, Ok(head), opt) == download_failed(
            DownloadFault::ContentLenghtError {
                url: head.url@,
                actual_content_length: head.content_length->0,
                max_content_length: opt.max_content_length->0,
            },
        ),
{
}

/// With content-type enforcement on, a response whose content type does not
/// start with `image/` (or has none) ends the pipeline with a content-type
/// error.
pub proof fn lemma_wrong_content_type_rejected(url: Seq<char>, head: ResponseHead, opt: DownloadOptions)
    requires
        head.status == 200,
        !too_large(opt, head.content_length),
        opt.check_mime_type,
        !(head.content_type is Some && head.content_type->0@.len() >= 6
            && head.content_type->0@.subrange(0, 6) == "image/"@),
    ensures
        head_transition(url, Ok(head), opt) is Done,
        head_transition(url, Ok(head), opt)->Done_0->Err_0->DownloadError_0 is InvalidContentType,
{
    reveal_strlit("image/");
}

} // verus!
