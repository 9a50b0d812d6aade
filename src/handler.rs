//! Request orchestration: request-level validation, the per-URL pipeline as a
//! state machine driven by the caller's I/O, and aggregation of the per-URL
//! outcomes into one response.
use vstd::prelude::*;
use crate::text::{decimal, push_decimal};
use crate::download::{DownloadError, DownloadFault, download_message};
use crate::storage::{StorageError, StorageFault, storage_message};
use crate::thumbnail::{ThumbnailError, ThumbnailFault, thumbnail_message};

verus! {

/// The request-level limits.
#[derive(Debug, Clone, Copy)]
pub struct HandlerOptions {
    /// Largest number of distinct URLs in one request.
    pub max_url_in_single_req: u64,
}

/// A batch of image URLs, as sent by a client.
#[derive(Debug, Clone)]
pub struct ThumbnailRequest {
    pub urls: Vec<String>,
}

/// Why a request, or one URL of it, failed.
#[derive(Debug)]
pub enum HandlerError {
    EmptyError,
    EmptyURLArray,
    TooManyURL(u64),
    DownloadError(DownloadError),
    BlockingCancelled(String),
    ThumbnailError(ThumbnailError),
    StorageError(StorageError),
}

/// The mathematical value of a `HandlerError`.
pub enum HandlerFault {
    EmptyError,
    EmptyURLArray,
    TooManyURL(u64),
    DownloadError(DownloadFault),
    BlockingCancelled(Seq<char>),
    ThumbnailError(ThumbnailFault),
    StorageError(StorageFault),
}

impl View for HandlerError {
    type V = HandlerFault;

    open spec fn view(&self) -> HandlerFault {
        match self {
            HandlerError::EmptyError => HandlerFault::EmptyError,
            HandlerError::EmptyURLArray => HandlerFault::EmptyURLArray,
            HandlerError::TooManyURL(n) => HandlerFault::TooManyURL(*n),
            HandlerError::DownloadError(e) => HandlerFault::DownloadError(e@),
            HandlerError::BlockingCancelled(d) => HandlerFault::BlockingCancelled(d@),
            HandlerError::ThumbnailError(e) => HandlerFault::ThumbnailError(e@),
            HandlerError::StorageError(e) => HandlerFault::StorageError(e@),
        }
    }
}

/// The human-readable text of a failure.
pub open spec fn handler_message(f: HandlerFault) -> Seq<char> {
    match f {
        HandlerFault::EmptyError => "not reachable error"@,
        HandlerFault::EmptyURLArray => "Request contains empty url array"@,
        HandlerFault::TooManyURL(n) => "Request contains more than "@ + decimal(n as nat)
            + " unique urls"@,
        HandlerFault::DownloadError(e) => "Could not download image: "@ + download_message(e),
        HandlerFault::BlockingCancelled(d) => "Operation cancelled: "@ + d,
        HandlerFault::ThumbnailError(e) => "Thumbnail ceation error: "@ + thumbnail_message(e),
        HandlerFault::StorageError(e) => "Storage error: "@ + storage_message(e),
    }
}

/// Whether a failure rejects the request as the client's fault.
pub open spec fn is_client_fault(f: HandlerFault) -> bool {
    f is EmptyURLArray || f is TooManyURL
}

impl HandlerError {
    /// The human-readable text of this failure.
    pub fn message(&self) -> (r: String)
        ensures
            r@ == handler_message(self@),
    {
        match self {
            HandlerError::EmptyError => String::from_str("not reachable error"),
            HandlerError::EmptyURLArray => String::from_str("Request contains empty url array"),
            HandlerError::TooManyURL(n) => {
                let mut r = String::from_str("Request contains more than ");
                push_decimal(&mut r, *n);
                r.append(" unique urls");
                r
            },
            HandlerError::DownloadError(e) => {
                let mut r = String::from_str("Could not download image: ");
                let m = e.message();
                r.append(m.as_str());
                r
            },
            HandlerError::BlockingCancelled(d) => {
                let mut r = String::from_str("Operation cancelled: ");
                r.append(d.as_str());
                r
            },
            HandlerError::ThumbnailError(e) => {
                let mut r = String::from_str("Thumbnail ceation error: ");
                let m = e.message();
                r.append(m.as_str());
                r
            },
            HandlerError::StorageError(e) => {
                let mut r = String::from_str("Storage error: ");
                let m = e.message();
                r.append(m.as_str());
                r
            },
        }
    }

    /// The HTTP status of the response that reports this failure: 400 for a
    /// rejected request, 500 otherwise.
    pub fn error_response(&self) -> (r: u16)
        ensures
            r == (if is_client_fault(self@) {
                400u16
            } else {
                500u16
            }),
    {
        match self {
            HandlerError::EmptyURLArray | HandlerError::TooManyURL(_) => 400,
            _ => 500,
        }
    }
}

/// The texts of a sequence of strings.
pub open spec fn url_views(urls: Seq<String>) -> Seq<Seq<char>> {
    urls.map_values(|u: String| u@)
}

/// The verdict on a request: rejected when empty or when it names more
/// distinct URLs than allowed; else the set of its distinct URLs.
pub open spec fn request_verdict(urls: Seq<Seq<char>>, max: u64) -> Result<Set<Seq<char>>, HandlerFault> {
    if urls.len() == 0 {
        Err(HandlerFault::EmptyURLArray)
    } else if urls.to_set().len() > max {
        Err(HandlerFault::TooManyURL(max))
    } else {
        Ok(urls.to_set())
    }
}

fn contains_url(urls: &Vec<String>, url: &String) -> (r: bool)
    ensures
        r == url_views(urls@).contains(url@),
{
    let mut i: usize = 0;
    while i < urls.len()
        invariant
            i <= urls@.len(),
            forall|j: int| 0 <= j < i ==> urls@[j]@ != url@,
        decreases urls@.len() - i,
    {
        if urls[i] == *url {
            assert(url_views(urls@)[i as int] == url@);
            return true;
        }
        i = i + 1;
    }
    assert(!url_views(urls@).contains(url@));
    false
}

/// Checks a request before any pipeline starts and collapses its URLs to
/// distinct ones, in order of first appearance.
pub fn validate_request(urls: &Vec<String>, handler_options: &HandlerOptions) -> (r: Result<
    Vec<String>,
    HandlerError,
>)
    ensures
        match r {
            Ok(unique) => request_verdict(url_views(urls@), handler_options.max_url_in_single_req)
                == Ok::<Set<Seq<char>>, HandlerFault>(url_views(unique@).to_set()) && url_views(
                unique@,
            ).no_duplicates(),
            Err(e) => request_verdict(url_views(urls@), handler_options.max_url_in_single_req)
                == Err::<Set<Seq<char>>, HandlerFault>(e@),
        },
{
    if urls.len() < 1 {
        return Err(HandlerError::EmptyURLArray);
    }
    let mut unique: Vec<String> = Vec::new();
    let mut i: usize = 0;
    while i < urls.len()
        invariant
            i <= urls@.len(),
            url_views(unique@).no_duplicates(),
            url_views(unique@).to_set() == url_views(urls@.subrange(0, i as int)).to_set(),
        decreases urls@.len() - i,
    {
        let u = &urls[i];
        let ghost before = unique@;
        if !contains_url(&unique, u) {
            unique.push(u.clone());
            proof {
                assert(url_views(unique@) =~= url_views(before).push(u@));
                url_views(before).lemma_push_to_set_commute(u@);
            }
        } else {
            proof {
                assert(url_views(before).to_set().insert(u@) =~= url_views(before).to_set());
            }
        }
        proof {
            assert(url_views(urls@.subrange(0, i + 1)) =~= url_views(urls@.subrange(0, i as int)).push(
                u@,
            ));
            url_views(urls@.subrange(0, i as int)).lemma_push_to_set_commute(u@);
        }
        i = i + 1;
    }
    proof {
        assert(urls@.subrange(0, urls@.len() as int) =~= urls@);
        url_views(unique@).unique_seq_to_set();
    }
    if unique.len() as u64 > handler_options.max_url_in_single_req {
        return Err(HandlerError::TooManyURL(handler_options.max_url_in_single_req));
    }
    Ok(unique)
}

/// The answer to a request: for each distinct URL either the public URL of
/// its thumbnail or the reason it failed.
#[derive(Debug, Clone)]
pub struct ThumbnailResponse {
    /// Pairs of requested URL and public thumbnail URL.
    pub success: Vec<(String, String)>,
    /// Pairs of requested URL and failure reason.
    pub failed: Vec<(String, String)>,
}

/// The texts of a sequence of string pairs.
pub open spec fn pairs_view(v: Seq<(String, String)>) -> Seq<(Seq<char>, Seq<char>)> {
    v.map_values(|p: (String, String)| (p.0@, p.1@))
}

/// The first components of a sequence of pairs.
pub open spec fn keys(v: Seq<(Seq<char>, Seq<char>)>) -> Seq<Seq<char>> {
    v.map_values(|p: (Seq<char>, Seq<char>)| p.0)
}

/// What one URL contributes to the response: `Ok` with its public URL, or
/// `Err` with the reason text. A stored thumbnail whose public URL could not
/// be resolved counts as an internal failure.
pub open spec fn entry_verdict(result: Result<Seq<char>, HandlerFault>, public_url: Option<Seq<char>>) -> Result<Seq<char>, Seq<char>> {
    match result {
        Ok(_) => match public_url {
            Some(u) => Ok(u),
            None => Err("Internal server error"@),
        },
        Err(f) => Err(handler_message(f)),
    }
}

/// The verdicts of all URLs, position by position.
pub open spec fn verdicts(results: Seq<Result<String, HandlerError>>, public_urls: Seq<Option<String>>) -> Seq<Result<Seq<char>, Seq<char>>> {
    Seq::new(
        results.len(),
        |i: int|
            entry_verdict(
                match results[i] {
                    Ok(p) => Ok(p@),
                    Err(e) => Err(e@),
                },
                match public_urls[i] {
                    Some(u) => Some(u@),
                    None => None,
                },
            ),
    )
}

/// The success entries among the first `n` URLs, in order.
pub open spec fn success_upto(urls: Seq<Seq<char>>, v: Seq<Result<Seq<char>, Seq<char>>>, n: nat) -> Seq<(Seq<char>, Seq<char>)>
    decreases n,
{
    if n == 0 {
        Seq::empty()
    } else {
        let prev = success_upto(urls, v, (n - 1) as nat);
        match v[n - 1] {
            Ok(u) => prev.push((urls[n - 1], u)),
            Err(_) => prev,
        }
    }
}

/// The failure entries among the first `n` URLs, in order.
pub open spec fn failed_upto(urls: Seq<Seq<char>>, v: Seq<Result<Seq<char>, Seq<char>>>, n: nat) -> Seq<(Seq<char>, Seq<char>)>
    decreases n,
{
    if n == 0 {
        Seq::empty()
    } else {
        let prev = failed_upto(urls, v, (n - 1) as nat);
        match v[n - 1] {
            Ok(_) => prev,
            Err(d) => prev.push((urls[n - 1], d)),
        }
    }
}

/// Gathers the outcome of each URL into the response. `results[i]` is the
/// outcome of `urls[i]`'s pipeline, and `public_urls[i]` the public URL of
/// its stored path where the caller could resolve one.
pub fn build_response(
    urls: &Vec<String>,
    results: &Vec<Result<String, HandlerError>>,
    public_urls: &Vec<Option<String>>,
) -> (r: ThumbnailResponse)
    requires
        results@.len() == urls@.len(),
        public_urls@.len() == urls@.len(),
    ensures
        pairs_view(r.success@) == success_upto(
            url_views(urls@),
            verdicts(results@, public_urls@),
            urls@.len(),
        ),
        pairs_view(r.failed@) == failed_upto(
            url_views(urls@),
            verdicts(results@, public_urls@),
            urls@.len(),
        ),
{
    let ghost v = verdicts(results@, public_urls@);
    let ghost uv = url_views(urls@);
    let mut success: Vec<(String, String)> = Vec::new();
    let mut failed: Vec<(String, String)> = Vec::new();
    let mut i: usize = 0;
    while i < urls.len()
        invariant
            i <= urls@.len(),
            results@.len() == urls@.len(),
            public_urls@.len() == urls@.len(),
            v == verdicts(results@, public_urls@),
            uv == url_views(urls@),
            pairs_view(success@) == success_upto(uv, v, i as nat),
            pairs_view(failed@) == failed_upto(uv, v, i as nat),
        decreases urls@.len() - i,
    {
        let key = urls[i].clone();
        match &results[i] {
            Ok(_) => match &public_urls[i] {
                Some(u) => {
                    let ghost before = success@;
                    success.push((key, u.clone()));
                    proof {
                        assert(pairs_view(success@) =~= pairs_view(before).push((uv[i as int], u@)));
                    }
                },
                None => {
                    let ghost before = failed@;
                    proof {
                        reveal_strlit("Internal server error");
                    }
                    failed.push((key, String::from_str("Internal server error")));
                    proof {
                        assert(pairs_view(failed@) =~= pairs_view(before).push(
                            (uv[i as int], "Internal server error"@),
                        ));
                    }
                },
            },
            Err(e) => {
                let ghost before = failed@;
                let m = e.message();
                failed.push((key, m));
                proof {
                    assert(pairs_view(failed@) =~= pairs_view(before).push((uv[i as int], m@)));
                }
            },
        }
        i = i + 1;
    }
    ThumbnailResponse { success, failed }
}

proof fn lemma_entries_upto(urls: Seq<Seq<char>>, v: Seq<Result<Seq<char>, Seq<char>>>, n: nat)
    requires
        urls.no_duplicates(),
        v.len() == urls.len(),
        n <= urls.len(),
    ensures
        forall|i: int|
            0 <= i < n ==> (keys(success_upto(urls, v, n)).contains(urls[i]) <==> v[i] is Ok),
        forall|i: int|
            0 <= i < n ==> (keys(failed_upto(urls, v, n)).contains(urls[i]) <==> v[i] is Err),
        forall|j: int|
            0 <= j < keys(success_upto(urls, v, n)).len() ==> urls.subrange(0, n as int).contains(
                #[trigger] keys(success_upto(urls, v, n))[j],
            ),
        forall|j: int|
            0 <= j < keys(failed_upto(urls, v, n)).len() ==> urls.subrange(0, n as int).contains(
                #[trigger] keys(failed_upto(urls, v, n))[j],
            ),
        keys(success_upto(urls, v, n)).no_duplicates(),
        keys(failed_upto(urls, v, n)).no_duplicates(),
    decreases n,
{
    if n > 0 {
        let m = (n - 1) as nat;
        lemma_entries_upto(urls, v, m);
        let ps = success_upto(urls, v, m);
        let pf = failed_upto(urls, v, m);
        let x = urls[m as int];
        assert(!urls.subrange(0, m as int).contains(x));
        assert forall|j: int| 0 <= j < keys(ps).len() implies keys(ps)[j] != x by {
            assert(urls.subrange(0, m as int).contains(keys(ps)[j]));
        }
        assert forall|j: int| 0 <= j < keys(pf).len() implies keys(pf)[j] != x by {
            assert(urls.subrange(0, m as int).contains(keys(pf)[j]));
        }
        assert(!keys(ps).contains(x));
        assert(!keys(pf).contains(x));
        assert forall|y: Seq<char>| urls.subrange(0, m as int).contains(y) implies urls.subrange(
            0,
            n as int,
        ).contains(y) by {
            let k = choose|k: int| 0 <= k < m && urls.subrange(0, m as int)[k] == y;
            assert(urls.subrange(0, n as int)[k] == y);
        }
        assert(urls.subrange(0, n as int)[m as int] == x);
        match v[m as int] {
            Ok(u) => {
                assert(keys(success_upto(urls, v, n)) =~= keys(ps).push(x));
                assert(failed_upto(urls, v, n) == pf);
            },
            Err(d) => {
                assert(keys(failed_upto(urls, v, n)) =~= keys(pf).push(x));
                assert(success_upto(urls, v, n) == ps);
            },
        }
        assert forall|i: int| 0 <= i < n implies (keys(success_upto(urls, v, n)).contains(urls[i])
            <==> v[i] is Ok) && (keys(failed_upto(urls, v, n)).contains(urls[i]) <==> v[i] is Err) by {
            if i < m {
                assert(urls[i] != x);
                if v[m as int] is Ok {
                    vstd::seq_lib::lemma_seq_contains_after_push(keys(ps), x, urls[i]);
                } else {
                    vstd::seq_lib::lemma_seq_contains_after_push(keys(pf), x, urls[i]);
                }
            } else {
                if v[m as int] is Ok {
                    assert(keys(success_upto(urls, v, n))[keys(ps).len() as int] == x);
                } else {
                    assert(keys(failed_upto(urls, v, n))[keys(pf).len() as int] == x);
                }
            }
        }
    }
}

/// Every URL of an accepted request is answered exactly once: it stands in
/// exactly one of the two parts of the response, and no URL stands twice in
/// either part, whatever the outcomes of the pipelines.
pub proof fn lemma_every_url_answered_once(
    input: Seq<Seq<char>>,
    max: u64,
    unique: Seq<Seq<char>>,
    v: Seq<Result<Seq<char>, Seq<char>>>,
)
    requires
        request_verdict(input, max) == Ok::<Set<Seq<char>>, HandlerFault>(unique.to_set()),
        unique.no_duplicates(),
        v.len() == unique.len(),
    ensures
        forall|k: int|
            0 <= k < input.len() ==> (keys(success_upto(unique, v, unique.len())).contains(input[k])
                != keys(failed_upto(unique, v, unique.len())).contains(input[k])),
        forall|x: Seq<char>|
            keys(success_upto(unique, v, unique.len())).contains(x) || keys(
                failed_upto(unique, v, unique.len()),
            ).contains(x) ==> input.contains(x),
        keys(success_upto(unique, v, unique.len())).no_duplicates(),
        keys(failed_upto(unique, v, unique.len())).no_duplicates(),
{
    lemma_entries_upto(unique, v, unique.len());
    assert(unique.subrange(0, unique.len() as int) =~= unique);
    assert forall|k: int| 0 <= k < input.len() implies (keys(
        success_upto(unique, v, unique.len()),
    ).contains(input[k]) != keys(failed_upto(unique, v, unique.len())).contains(input[k])) by {
        assert(input.to_set().contains(input[k]));
        assert(unique.to_set().contains(input[k]));
        let i = choose|i: int| 0 <= i < unique.len() && unique[i] == input[k];
    }
    assert forall|x: Seq<char>|
        keys(success_upto(unique, v, unique.len())).contains(x) || keys(
            failed_upto(unique, v, unique.len()),
        ).contains(x) implies input.contains(x) by {
        assert(unique.contains(x));
        assert(unique.to_set().contains(x));
        assert(input.to_set().contains(x));
    }
}

/// An empty request is rejected as such, before any pipeline.
pub proof fn lemma_empty_request_rejected(max: u64)
    ensures
        request_verdict(Seq::empty(), max) == Err::<Set<Seq<char>>, HandlerFault>(
            HandlerFault::EmptyURLArray,
        ),
{
}

/// A request naming more distinct URLs than allowed is rejected before any
/// pipeline, and the reason names the limit.
pub proof fn lemma_too_many_urls_rejected(urls: Seq<Seq<char>>, max: u64)
    requires
        urls.to_set().len() > max,
    ensures
        request_verdict(urls, max) == Err::<Set<Seq<char>>, HandlerFault>(
            HandlerFault::TooManyURL(max),
        ),
        handler_message(HandlerFault::TooManyURL(max)) == "Request contains more than "@ + decimal(
            max as nat,
        ) + " unique urls"@,
{
    if urls.len() == 0 {
        assert(urls.to_set() =~= Set::empty());
    }
}

} // verus!
