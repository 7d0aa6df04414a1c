//! The image coordinator's decisions: model and size mapping, the backend
//! request, the job updates of each outcome, the response bodies, and what a
//! webhook delivery leads to.

use vstd::prelude::*;
use base64::Engine;
use crate::text::{text_eq, concat};
use crate::job::{ImageJob, ImageJobStatus, JobUpdate};
use crate::rendezvous::{ImageTaskResult, TaskRegistry, Delivery, copy_texts};

verus! {

/// An OpenAI-shaped image generation request, with its defaults applied.
#[derive(Debug)]
pub struct OpenAIImageRequest {
    pub prompt: String,
    pub n: u32,
    pub size: String,
    pub response_format: String,
    pub model: Option<String>,
    pub callback_url: Option<String>,
    pub user: Option<String>,
}

/// One generated image as the client receives it.
#[derive(Debug)]
pub struct ImageData {
    pub url: Option<String>,
    pub b64_json: Option<String>,
    pub ipfs_url: Option<String>,
}

/// The body of a successful image generation response.
#[derive(Debug)]
pub struct OpenAIImageResponse {
    pub created: u64,
    pub data: Vec<ImageData>,
}

/// What the image backend posts to the webhook.
#[derive(Debug)]
pub struct ReplicateWebhookPayload {
    pub id: String,
    pub status: String,
    pub output: Option<Vec<String>>,
}

/// The generation parameters sent to the image backend.
#[derive(Debug)]
pub struct ReplicateInput {
    pub raw: bool,
    pub prompt: String,
    pub aspect_ratio: String,
    pub output_format: String,
    pub safety_tolerance: u32,
}

/// The request sent to the image backend's predictions endpoint.
#[derive(Debug)]
pub struct ReplicateRequest {
    pub input: ReplicateInput,
    pub webhook: String,
}

/// The body of the timeout-continuation response (HTTP 408).
#[derive(Debug)]
pub struct TimeoutError {
    pub message: String,
    pub kind: String,
    pub task_id: String,
}

/// What the webhook handler does with a delivery.
#[derive(Debug)]
pub enum WebhookPlan {
    /// The job succeeded: pin these result URLs, then complete the job.
    Pin(Vec<String>),
    /// The job failed: record this update and publish nothing.
    Fail(JobUpdate),
}

/// The text form of a 128-bit id, as the uuid crate prints it.
pub uninterp spec fn uuid_text(id: u128) -> Seq<char>;

/// The id that a text denotes, as the uuid crate parses it.
pub uninterp spec fn uuid_parsed(s: Seq<char>) -> Option<u128>;

/// The standard padded base64 text of some bytes.
pub uninterp spec fn base64_of(b: Seq<u8>) -> Seq<char>;

/// Relies on `uuid::Uuid::from_u128` and the `Display` of `Uuid`: the
/// hyphenated lower-case form, 36 characters long.
#[verifier::external_body]
pub(crate) fn id_text(id: u128) -> (r: String)
    ensures
        r@ == uuid_text(id),
        r@.len() == 36,
{
    uuid::Uuid::from_u128(id).to_string()
}

/// Relies on `uuid::Uuid::parse_str` and `Uuid::as_u128`: the id of a text
/// in one of the forms the crate accepts, `None` for any other text.
#[verifier::external_body]
pub(crate) fn parse_id(s: &str) -> (r: Option<u128>)
    ensures
        r == uuid_parsed(s@),
{
    match uuid::Uuid::parse_str(s) {
        Ok(u) => Some(u.as_u128()),
        Err(_) => None,
    }
}

/// Relies on base64's `STANDARD` engine `encode`: padded standard base64,
/// four characters for each started group of three bytes. The length bound
/// keeps the crate's output-size computation from overflowing.
#[verifier::external_body]
pub(crate) fn encode_base64(b: &Vec<u8>) -> (r: String)
    requires
        b@.len() < usize::MAX / 2,
    ensures
        r@ == base64_of(b@),
        r@.len() == 4 * ((b@.len() + 2) / 3),
{
    base64::engine::general_purpose::STANDARD.encode(b)
}

pub open spec fn view_opt(s: Option<String>) -> Option<Seq<char>> {
    match s {
        Some(t) => Some(t@),
        None => None,
    }
}

/// The backend model for an OpenAI-style alias.
pub open spec fn model_for_alias(alias: Option<Seq<char>>) -> Seq<char> {
    match alias {
        Some(a) => if a == "dall-e-3-pro"@ {
            "black-forest-labs/flux-1.1-pro"@
        } else if a == "dall-e-3-pro-ultra"@ {
            "black-forest-labs/flux-1.1-pro-ultra"@
        } else if a == "dall-e-3-schnell"@ {
            "black-forest-labs/flux-1.1-schnell"@
        } else {
            "black-forest-labs/flux-1.1-dev"@
        },
        None => "black-forest-labs/flux-1.1-dev"@,
    }
}

/// The backend aspect ratio for a requested `WxH` size.
pub open spec fn aspect_for_size(size: Seq<char>) -> Seq<char> {
    if size == "1024x1024"@ {
        "1:1"@
    } else if size == "1024x1792"@ {
        "9:16"@
    } else if size == "1792x1024"@ {
        "16:9"@
    } else {
        "3:2"@
    }
}

/// The default number of images.
pub fn default_n() -> (r: u32)
    ensures
        r == 1,
{
    1
}

/// The default size.
pub fn default_size() -> (r: String)
    ensures
        r@ == "1024x1024"@,
{
    "1024x1024".to_owned()
}

/// The default response format.
pub fn default_response_format() -> (r: String)
    ensures
        r@ == "url"@,
{
    "url".to_owned()
}

/// Maps an OpenAI-style model alias to the backend model.
pub fn determine_replicate_model(model: Option<String>) -> (r: &'static str)
    ensures
        r@ == model_for_alias(view_opt(model)),
{
    match model {
        Some(m) => {
            if text_eq(m.as_str(), "dall-e-3-pro") {
                "black-forest-labs/flux-1.1-pro"
            } else if text_eq(m.as_str(), "dall-e-3-pro-ultra") {
                "black-forest-labs/flux-1.1-pro-ultra"
            } else if text_eq(m.as_str(), "dall-e-3-schnell") {
                "black-forest-labs/flux-1.1-schnell"
            } else {
                "black-forest-labs/flux-1.1-dev"
            }
        },
        None => "black-forest-labs/flux-1.1-dev",
    }
}

/// Maps a requested size to the backend aspect ratio.
pub fn convert_size_to_aspect_ratio(size: &str) -> (r: String)
    ensures
        r@ == aspect_for_size(size@),
{
    if text_eq(size, "1024x1024") {
        "1:1".to_owned()
    } else if text_eq(size, "1024x1792") {
        "9:16".to_owned()
    } else if text_eq(size, "1792x1024") {
        "16:9".to_owned()
    } else {
        "3:2".to_owned()
    }
}

/// Every alias, and no alias, maps to one of the four backend models; any
/// alias outside the table maps to the `dev` model.
pub proof fn lemma_model_mapping_total(alias: Option<Seq<char>>)
    ensures
        model_for_alias(alias) == "black-forest-labs/flux-1.1-pro"@
            || model_for_alias(alias) == "black-forest-labs/flux-1.1-pro-ultra"@
            || model_for_alias(alias) == "black-forest-labs/flux-1.1-schnell"@
            || model_for_alias(alias) == "black-forest-labs/flux-1.1-dev"@,
        alias != Some("dall-e-3-pro"@) && alias != Some("dall-e-3-pro-ultra"@) && alias != Some(
            "dall-e-3-schnell"@,
        ) ==> model_for_alias(alias) == "black-forest-labs/flux-1.1-dev"@,
{
}

/// Every size maps to one of the four aspect ratios; any size outside the
/// table maps to `3:2`.
pub proof fn lemma_size_mapping_total(size: Seq<char>)
    ensures
        aspect_for_size(size) == "1:1"@ || aspect_for_size(size) == "9:16"@ || aspect_for_size(size)
            == "16:9"@ || aspect_for_size(size) == "3:2"@,
        size != "1024x1024"@ && size != "1024x1792"@ && size != "1792x1024"@ ==> aspect_for_size(
            size,
        ) == "3:2"@,
{
}

/// The webhook address the backend calls back for job `id`.
pub open spec fn webhook_url_for(public_url: Seq<char>, id: u128) -> Seq<char> {
    public_url + "/v1/webhook/replicate/"@ + uuid_text(id)
}

/// The backend's predictions endpoint for a model.
pub open spec fn predictions_url_for(model: Seq<char>) -> Seq<char> {
    "https://api.replicate.com/v1/models/"@ + model + "/predictions"@
}

/// The error recorded for a job whose backend run did not succeed.
pub open spec fn failure_text(status: Seq<char>) -> Seq<char> {
    "backend job failed with status: "@ + status
}

/// The content-addressed URL of a content hash.
pub open spec fn content_url_for(hash: Seq<char>) -> Seq<char> {
    "cid://"@ + hash
}

/// The first row stored for a request: `Processing`, with the backend model
/// resolved from the request's alias.
pub fn job_for_request(id: u128, now: i64, request: &OpenAIImageRequest) -> (r: ImageJob)
    ensures
        r.id == id,
        r.created_at == now,
        r.updated_at == now,
        r.status == ImageJobStatus::Processing,
        r.prompt == request.prompt,
        r.model@ == model_for_alias(view_opt(request.model)),
        r.size == request.size,
        r.urls is None,
        r.ipfs_urls is None,
        r.user_id == request.user,
        r.callback_url == request.callback_url,
        r.error is None,
        crate::job::consistent(r),
{
    let alias = match &request.model {
        Some(m) => Some(m.clone()),
        None => None,
    };
    let model = determine_replicate_model(alias);
    ImageJob::new_processing(
        id,
        now,
        request.prompt.clone(),
        model.to_owned(),
        request.size.clone(),
        match &request.user {
            Some(u) => Some(u.clone()),
            None => None,
        },
        match &request.callback_url {
            Some(c) => Some(c.clone()),
            None => None,
        },
    )
}

/// The webhook address for job `id` under the gateway's public base URL.
pub fn webhook_url(public_url: &str, id: u128) -> (r: String)
    ensures
        r@ == webhook_url_for(public_url@, id),
{
    let head = concat(public_url, "/v1/webhook/replicate/");
    let tail = id_text(id);
    concat(head.as_str(), tail.as_str())
}

/// The predictions endpoint for the model that the request's alias selects.
pub fn predictions_url(request: &OpenAIImageRequest) -> (r: String)
    ensures
        r@ == predictions_url_for(model_for_alias(view_opt(request.model))),
{
    let alias = match &request.model {
        Some(m) => Some(m.clone()),
        None => None,
    };
    let model = determine_replicate_model(alias);
    let head = concat("https://api.replicate.com/v1/models/", model);
    concat(head.as_str(), "/predictions")
}

/// The backend request for job `id`: the prompt, the aspect ratio of the
/// requested size, PNG output, safety tolerance 2, `raw` off, and the job's
/// webhook address.
pub fn replicate_request_for(request: &OpenAIImageRequest, public_url: &str, id: u128) -> (r:
    ReplicateRequest)
    ensures
        r.input.raw == false,
        r.input.prompt == request.prompt,
        r.input.aspect_ratio@ == aspect_for_size(request.size@),
        r.input.output_format@ == "png"@,
        r.input.safety_tolerance == 2,
        r.webhook@ == webhook_url_for(public_url@, id),
{
    ReplicateRequest {
        input: ReplicateInput {
            raw: false,
            prompt: request.prompt.clone(),
            aspect_ratio: convert_size_to_aspect_ratio(request.size.as_str()),
            output_format: "png".to_owned(),
            safety_tolerance: 2,
        },
        webhook: webhook_url(public_url, id),
    }
}

/// The update recorded when the backend could not be reached: `Failed`,
/// with the transport's description as the error.
pub fn backend_failure_update(detail: String) -> (r: JobUpdate)
    ensures
        r == (JobUpdate { status: ImageJobStatus::Failed, urls: None, ipfs_urls: None, error: Some(detail) }),
{
    JobUpdate { status: ImageJobStatus::Failed, urls: None, ipfs_urls: None, error: Some(detail) }
}

/// The update recorded when a result arrived: `Completed`, with both URL lists.
pub fn completed_update(result: &ImageTaskResult) -> (r: JobUpdate)
    ensures
        r.status == ImageJobStatus::Completed,
        r.urls is Some && r.urls->0@ == result.urls@,
        r.ipfs_urls is Some && r.ipfs_urls->0@ == result.ipfs_urls@,
        r.error is None,
{
    JobUpdate {
        status: ImageJobStatus::Completed,
        urls: Some(copy_texts(&result.urls)),
        ipfs_urls: Some(copy_texts(&result.ipfs_urls)),
        error: None,
    }
}

/// The update recorded when the wait timed out: status stays `Processing`,
/// only `updated_at` moves.
pub fn timeout_update() -> (r: JobUpdate)
    ensures
        r == (JobUpdate { status: ImageJobStatus::Processing, urls: None, ipfs_urls: None, error: None }),
{
    JobUpdate { status: ImageJobStatus::Processing, urls: None, ipfs_urls: None, error: None }
}

/// The timeout-continuation body for job `id`.
pub fn timeout_error(id: u128) -> (r: TimeoutError)
    ensures
        r.message@ == "Request timeout. The image generation is still processing and will be sent to the callback URL when complete."@,
        r.kind@ == "timeout"@,
        r.task_id@ == uuid_text(id),
{
    TimeoutError {
        message: "Request timeout. The image generation is still processing and will be sent to the callback URL when complete.".to_owned(),
        kind: "timeout".to_owned(),
        task_id: id_text(id),
    }
}

/// Whether the client asked for base64-encoded image bytes.
pub fn wants_base64(response_format: &str) -> (r: bool)
    ensures
        r == (response_format@ == "b64_json"@),
{
    text_eq(response_format, "b64_json")
}

/// The `url` form of a result: one item per position, carrying the result
/// URL and the content-addressed URL of that position.
pub fn convert_to_url_response(result: ImageTaskResult) -> (r: Vec<ImageData>)
    ensures
        r@.len() == (if result.urls@.len() <= result.ipfs_urls@.len() {
            result.urls@.len()
        } else {
            result.ipfs_urls@.len()
        }),
        forall|i: int|
            0 <= i < r@.len() ==> {
                &&& #[trigger] r@[i].url == Some(result.urls@[i])
                &&& r@[i].ipfs_url == Some(result.ipfs_urls@[i])
                &&& r@[i].b64_json is None
            },
{
    let n = if result.urls.len() <= result.ipfs_urls.len() {
        result.urls.len()
    } else {
        result.ipfs_urls.len()
    };
    let mut out: Vec<ImageData> = Vec::new();
    let mut i: usize = 0;
    while i < n
        invariant
            n <= result.urls@.len(),
            n <= result.ipfs_urls@.len(),
            i <= n,
            out@.len() == i,
            forall|k: int|
                0 <= k < i ==> {
                    &&& #[trigger] out@[k].url == Some(result.urls@[k])
                    &&& out@[k].ipfs_url == Some(result.ipfs_urls@[k])
                    &&& out@[k].b64_json is None
                },
        decreases n - i,
    {
        out.push(
            ImageData {
                url: Some(result.urls[i].clone()),
                b64_json: None,
                ipfs_url: Some(result.ipfs_urls[i].clone()),
            },
        );
        i = i + 1;
    }
    out
}

/// The `b64_json` form of a result, from the fetched bytes of each image in
/// order: one item per image carrying only its base64 text.
pub fn convert_to_base64_response(images: &Vec<Vec<u8>>) -> (r: Vec<ImageData>)
    requires
        forall|i: int| 0 <= i < images@.len() ==> (#[trigger] images@[i])@.len() < usize::MAX / 2,
    ensures
        r@.len() == images@.len(),
        forall|i: int|
            0 <= i < r@.len() ==> {
                &&& #[trigger] r@[i].b64_json is Some
                &&& r@[i].b64_json->0@ == base64_of(images@[i]@)
                &&& r@[i].url is None
                &&& r@[i].ipfs_url is None
            },
{
    let mut out: Vec<ImageData> = Vec::new();
    let mut i: usize = 0;
    while i < images.len()
        invariant
            i <= images@.len(),
            out@.len() == i,
            forall|k: int| 0 <= k < images@.len() ==> (#[trigger] images@[k])@.len() < usize::MAX / 2,
            forall|k: int|
                0 <= k < i ==> {
                    &&& #[trigger] out@[k].b64_json is Some
                    &&& out@[k].b64_json->0@ == base64_of(images@[k]@)
                    &&& out@[k].url is None
                    &&& out@[k].ipfs_url is None
                },
        decreases images@.len() - i,
    {
        let text = encode_base64(&images[i]);
        out.push(ImageData { url: None, b64_json: Some(text), ipfs_url: None });
        i = i + 1;
    }
    out
}

/// The content-addressed URL of one content hash.
pub fn content_url(hash: &str) -> (r: String)
    ensures
        r@ == content_url_for(hash@),
{
    concat("cid://", hash)
}

/// The content-addressed URLs of the hashes the content store returned for
/// the pinned URLs, position by position.
pub fn content_urls(hashes: &Vec<String>) -> (r: Vec<String>)
    ensures
        r@.len() == hashes@.len(),
        forall|i: int| 0 <= i < r@.len() ==> (#[trigger] r@[i])@ == content_url_for(hashes@[i]@),
{
    let mut out: Vec<String> = Vec::new();
    let mut i: usize = 0;
    while i < hashes.len()
        invariant
            i <= hashes@.len(),
            out@.len() == i,
            forall|k: int| 0 <= k < i ==> (#[trigger] out@[k])@ == content_url_for(hashes@[k]@),
        decreases hashes@.len() - i,
    {
        out.push(content_url(hashes[i].as_str()));
        i = i + 1;
    }
    out
}

/// What a webhook delivery leads to: a succeeded run with a non-empty output
/// is pinned; anything else fails the job with its status in the error.
pub fn webhook_plan(payload: &ReplicateWebhookPayload) -> (r: WebhookPlan)
    ensures
        ({
            let ok = payload.status@ == "succeeded"@ && payload.output is Some
                && payload.output->0@.len() > 0;
            &&& ok ==> (r is Pin && r->Pin_0@ == payload.output->0@)
            &&& !ok ==> (r is Fail && r->Fail_0.status == ImageJobStatus::Failed
                && r->Fail_0.urls is None && r->Fail_0.ipfs_urls is None
                && r->Fail_0.error is Some
                && r->Fail_0.error->0@ == failure_text(payload.status@))
        }),
{
    if text_eq(payload.status.as_str(), "succeeded") {
        match &payload.output {
            Some(urls) => {
                if urls.len() > 0 {
                    return WebhookPlan::Pin(copy_texts(urls));
                }
            },
            None => {},
        }
    }
    let message = concat("backend job failed with status: ", payload.status.as_str());
    WebhookPlan::Fail(
        JobUpdate { status: ImageJobStatus::Failed, urls: None, ipfs_urls: None, error: Some(message) },
    )
}

/// The result published once the output URLs are pinned: the output URLs
/// and the content-addressed URLs of the returned hashes.
pub fn pinned_result(urls: Vec<String>, hashes: &Vec<String>) -> (r: ImageTaskResult)
    ensures
        r.urls@ == urls@,
        r.ipfs_urls@.len() == hashes@.len(),
        forall|i: int|
            0 <= i < hashes@.len() ==> (#[trigger] r.ipfs_urls@[i])@ == content_url_for(hashes@[i]@),
{
    ImageTaskResult { urls, ipfs_urls: content_urls(hashes) }
}

/// The update recorded when pinning failed: `Failed`, with the reason.
pub fn upload_failure_update(detail: &str) -> (r: JobUpdate)
    ensures
        r.status == ImageJobStatus::Failed,
        r.urls is None,
        r.ipfs_urls is None,
        r.error is Some && r.error->0@ == "content upload failed: "@ + detail@,
{
    JobUpdate {
        status: ImageJobStatus::Failed,
        urls: None,
        ipfs_urls: None,
        error: Some(concat("content upload failed: ", detail)),
    }
}

/// The content store's `add` endpoint under its base URL.
pub fn content_store_add_url(base: &str) -> (r: String)
    ensures
        r@ == base@ + "/api/v0/add"@,
{
    concat(base, "/api/v0/add")
}

/// Pinning a list of URLs to the content store, one URL at a time and in
/// order: the hash recorded at each step belongs to the URL handed out by
/// [`PinProgress::next_url`] just before.
pub struct PinProgress {
    urls: Vec<String>,
    hashes: Vec<String>,
}

impl PinProgress {
    /// The URLs to pin.
    pub closed spec fn urls(&self) -> Seq<String> {
        self.urls@
    }

    /// The hashes recorded so far; the `i`-th belongs to the `i`-th URL.
    pub closed spec fn hashes(&self) -> Seq<String> {
        self.hashes@
    }

    pub open spec fn wf(&self) -> bool {
        self.hashes().len() <= self.urls().len()
    }

    pub fn new(urls: Vec<String>) -> (r: PinProgress)
        ensures
            r.wf(),
            r.urls() == urls@,
            r.hashes() == Seq::<String>::empty(),
    {
        PinProgress { urls, hashes: Vec::new() }
    }

    /// The next URL to fetch and pin, or `None` once every URL has a hash.
    pub fn next_url(&self) -> (r: Option<String>)
        requires
            self.wf(),
        ensures
            r is Some <==> self.hashes().len() < self.urls().len(),
            r is Some ==> r->0 == self.urls()[self.hashes().len() as int],
    {
        if self.hashes.len() < self.urls.len() {
            Some(self.urls[self.hashes.len()].clone())
        } else {
            None
        }
    }

    /// Records the content hash of the URL that [`PinProgress::next_url`]
    /// handed out.
    pub fn record(&mut self, hash: String)
        requires
            old(self).wf(),
            old(self).hashes().len() < old(self).urls().len(),
        ensures
            final(self).wf(),
            final(self).urls() == old(self).urls(),
            final(self).hashes() == old(self).hashes().push(hash),
    {
        self.hashes.push(hash);
    }

    /// The result once every URL is pinned: the URLs and, at each position,
    /// the content-addressed URL of that URL's hash. `None` while URLs are
    /// left.
    pub fn finish(self) -> (r: Option<ImageTaskResult>)
        requires
            self.wf(),
        ensures
            r is Some <==> self.hashes().len() == self.urls().len(),
            r is Some ==> {
                let res = r->0;
                &&& res.urls@ == self.urls()
                &&& res.ipfs_urls@.len() == self.urls().len()
                &&& forall|i: int|
                    0 <= i < self.urls().len() ==> (#[trigger] res.ipfs_urls@[i])@ == content_url_for(
                        self.hashes()[i]@,
                    )
            },
    {
        if self.hashes.len() == self.urls.len() {
            let PinProgress { urls, hashes } = self;
            Some(pinned_result(urls, &hashes))
        } else {
            None
        }
    }
}

/// The job id of a webhook path segment; `None` (a bad request) when the
/// segment is not a valid id.
pub fn webhook_job_id(segment: &str) -> (r: Option<u128>)
    ensures
        r == uuid_parsed(segment@),
{
    parse_id(segment)
}

/// The text form of a job id, as used in the rendezvous and the responses.
pub fn job_id_text(id: u128) -> (r: String)
    ensures
        r@ == uuid_text(id),
        r@.len() == 36,
{
    id_text(id)
}

/// How the create request is answered once its wait has ended.
#[derive(Debug)]
pub enum WaitOutcome {
    /// Fetch the bytes behind these URLs, in order, and answer with their
    /// base64 form ([`convert_to_base64_response`]).
    FetchAndEncode(Vec<String>),
    /// Answer with these items.
    Images(Vec<ImageData>),
    /// Answer with the timeout-continuation body.
    TimedOut(TimeoutError),
}

/// The answer and the job update for the end of a create request's wait:
/// a result completes the job and is answered in the requested format; no
/// result keeps the job `Processing` and answers with the continuation body.
pub fn after_wait(id: u128, result: Option<ImageTaskResult>, response_format: &str) -> (r: (
    WaitOutcome,
    JobUpdate,
))
    ensures
        result is None ==> {
            &&& r.0 is TimedOut
            &&& r.0->TimedOut_0.kind@ == "timeout"@
            &&& r.0->TimedOut_0.task_id@ == uuid_text(id)
            &&& r.1 == (JobUpdate {
                status: ImageJobStatus::Processing,
                urls: None,
                ipfs_urls: None,
                error: None,
            })
        },
        result is Some ==> {
            let res = result->0;
            &&& r.1.status == ImageJobStatus::Completed
            &&& r.1.urls is Some && r.1.urls->0@ == res.urls@
            &&& r.1.ipfs_urls is Some && r.1.ipfs_urls->0@ == res.ipfs_urls@
            &&& r.1.error is None
            &&& response_format@ == "b64_json"@ ==> (r.0 is FetchAndEncode
                && r.0->FetchAndEncode_0@ == res.urls@)
            &&& response_format@ != "b64_json"@ ==> {
                &&& r.0 is Images
                &&& r.0->Images_0@.len() == (if res.urls@.len() <= res.ipfs_urls@.len() {
                    res.urls@.len()
                } else {
                    res.ipfs_urls@.len()
                })
                &&& forall|i: int|
                    0 <= i < r.0->Images_0@.len() ==> {
                        &&& #[trigger] r.0->Images_0@[i].url == Some(res.urls@[i])
                        &&& r.0->Images_0@[i].ipfs_url == Some(res.ipfs_urls@[i])
                        &&& r.0->Images_0@[i].b64_json is None
                    }
            }
        },
{
    match result {
        None => (WaitOutcome::TimedOut(timeout_error(id)), timeout_update()),
        Some(res) => {
            let update = completed_update(&res);
            if wants_base64(response_format) {
                (WaitOutcome::FetchAndEncode(copy_texts(&res.urls)), update)
            } else {
                (WaitOutcome::Images(convert_to_url_response(res)), update)
            }
        },
    }
}

/// What remains of a webhook delivery once its output was pinned (or not):
/// the job update to record, and the results to post to a callback address.
#[derive(Debug)]
pub struct WebhookFinish {
    pub update: JobUpdate,
    pub callback: Option<(String, Vec<ImageData>)>,
}

/// Completes a webhook delivery after pinning.
///
/// A pinning failure fails the job and leaves the registry alone. A pinned
/// result completes the job and is delivered through the registry: to the
/// waiter while it still waits, otherwise (the wait has ended) to the
/// callback address registered for the job, if any, as `url` items.
pub fn after_pinning(registry: &mut TaskRegistry, id: u128, pinned: Result<ImageTaskResult, String>) -> (r:
    WebhookFinish)
    requires
        old(registry).wf(),
    ensures
        final(registry).wf(),
        pinned is Err ==> {
            &&& final(registry).tasks() == old(registry).tasks()
            &&& final(registry).published() == old(registry).published()
            &&& r.update.status == ImageJobStatus::Failed
            &&& r.update.urls is None
            &&& r.update.error is Some
            &&& r.update.error->0@ == "content upload failed: "@ + pinned->Err_0@
            &&& r.callback is None
        },
        pinned is Ok ==> {
            let res = pinned->Ok_0;
            let old_tasks = old(registry).tasks();
            &&& r.update.status == ImageJobStatus::Completed
            &&& r.update.urls is Some && r.update.urls->0@ == res.urls@
            &&& r.update.ipfs_urls is Some && r.update.ipfs_urls->0@ == res.ipfs_urls@
            &&& r.update.error is None
            &&& !old_tasks.contains_key(id) ==> {
                &&& r.callback is None
                &&& final(registry).tasks() == old_tasks
            }
            &&& old_tasks.contains_key(id) && !old_tasks[id].detached ==> {
                &&& r.callback is None
                &&& final(registry).tasks().contains_key(id)
                &&& final(registry).tasks()[id].result is Some
            }
            &&& old_tasks.contains_key(id) && old_tasks[id].detached ==> {
                &&& final(registry).tasks() == old_tasks.remove(id)
                &&& final(registry).published() == old(registry).published().insert((id, res@))
                &&& (r.callback is Some <==> old_tasks[id].callback_url is Some)
                &&& r.callback is Some ==> {
                    let (url, data) = r.callback->0;
                    &&& Some(url) == old_tasks[id].callback_url
                    &&& data@.len() == (if res.urls@.len() <= res.ipfs_urls@.len() {
                        res.urls@.len()
                    } else {
                        res.ipfs_urls@.len()
                    })
                    &&& forall|i: int|
                        0 <= i < data@.len() ==> {
                            &&& #[trigger] data@[i].url == Some(res.urls@[i])
                            &&& data@[i].ipfs_url == Some(res.ipfs_urls@[i])
                            &&& data@[i].b64_json is None
                        }
                }
            }
        },
{
    match pinned {
        Err(reason) => WebhookFinish { update: upload_failure_update(reason.as_str()), callback: None },
        Ok(res) => {
            let update = completed_update(&res);
            let data = convert_to_url_response(res.duplicate());
            let delivery = registry.deliver_result(id, res);
            let callback = match delivery {
                Delivery::ToCallback(Some(url)) => Some((url, data)),
                _ => None,
            };
            WebhookFinish { update, callback }
        },
    }
}

/// The answer to a create request.
#[derive(Debug)]
pub enum CreateReply {
    /// 200, with these items.
    Images(Vec<ImageData>),
    /// 408, with the timeout-continuation body.
    TimedOut(TimeoutError),
    /// 500, with a description.
    InternalError(String),
    /// 502, with the backend failure.
    BadGateway(String),
}

/// What the create handler does next.
#[derive(Debug)]
pub enum CreateAction {
    /// Insert this row; report [`CreateEvent::Stored`].
    StoreJob(ImageJob),
    /// Register a rendezvous for the job with this callback address, then
    /// post `body` to `endpoint`; report [`CreateEvent::Sent`].
    CallBackend { callback_url: Option<String>, endpoint: String, body: ReplicateRequest },
    /// Wait up to `seconds` for the job's result; report [`CreateEvent::Waited`].
    Wait { seconds: u64 },
    /// Fetch the bytes behind these URLs, in order; report [`CreateEvent::Fetched`].
    Fetch(Vec<String>),
    /// Record `update` (if any), drop the rendezvous when `prune`, answer `reply`.
    Finish { update: Option<JobUpdate>, prune: bool, reply: CreateReply },
}

/// What the create handler reports after performing an action.
#[derive(Debug)]
pub enum CreateEvent {
    Stored(Result<(), String>),
    Sent(Result<(), String>),
    Waited(Option<ImageTaskResult>),
    Fetched(Result<Vec<Vec<u8>>, String>),
}

/// Where a create request stands.
#[derive(Debug, Clone, Copy, PartialEq, Eq, Structural)]
pub enum CreatePhase {
    Storing,
    Calling,
    Waiting,
    Fetching,
    Done,
}

/// How long a create request waits for its result, in seconds.
pub const WAIT_SECONDS: u64 = 30;

/// The state of one create request between its steps.
#[derive(Debug)]
pub struct CreateFlow {
    pub id: u128,
    pub request: OpenAIImageRequest,
    pub public_url: String,
    pub phase: CreatePhase,
    /// The completion to record once fetched bytes are encoded.
    pub pending: Option<JobUpdate>,
}

/// Whether the bytes of every image are small enough to encode.
fn encodable(images: &Vec<Vec<u8>>) -> (r: bool)
    ensures
        r == forall|i: int| 0 <= i < images@.len() ==> (#[trigger] images@[i])@.len() < usize::MAX / 2,
{
    let mut i: usize = 0;
    while i < images.len()
        invariant
            i <= images@.len(),
            forall|k: int| 0 <= k < i ==> (#[trigger] images@[k])@.len() < usize::MAX / 2,
        decreases images@.len() - i,
    {
        if images[i].len() >= usize::MAX / 2 {
            return false;
        }
        i = i + 1;
    }
    true
}

/// A finishing action with no update and no pruning.
pub open spec fn is_plain_failure(a: CreateAction) -> bool {
    a is Finish && a->Finish_update is None && !a->Finish_prune && a->Finish_reply is InternalError
}

impl CreateFlow {
    /// Starts a create request for job `id` at time `now`: the first action
    /// stores the job's first row.
    pub fn start(id: u128, now: i64, request: OpenAIImageRequest, public_url: String) -> (r: (
        CreateFlow,
        CreateAction,
    ))
        ensures
            r.0.id == id,
            r.0.request == request,
            r.0.public_url == public_url,
            r.0.phase == CreatePhase::Storing,
            r.0.pending is None,
            r.1 is StoreJob,
            r.1->StoreJob_0.id == id,
            r.1->StoreJob_0.created_at == now,
            r.1->StoreJob_0.status == ImageJobStatus::Processing,
            r.1->StoreJob_0.prompt == request.prompt,
            r.1->StoreJob_0.model@ == model_for_alias(view_opt(request.model)),
            r.1->StoreJob_0.size == request.size,
            r.1->StoreJob_0.user_id == request.user,
            r.1->StoreJob_0.callback_url == request.callback_url,
            crate::job::consistent(r.1->StoreJob_0),
    {
        let job = job_for_request(id, now, &request);
        (CreateFlow { id, request, public_url, phase: CreatePhase::Storing, pending: None }, CreateAction::StoreJob(job))
    }

    /// The next action after `event`.
    ///
    /// A stored row leads to the backend call (a storage failure answers 500
    /// before any backend call); a sent request leads to the wait (a backend
    /// failure fails the job, prunes the rendezvous and answers 502); the
    /// end of the wait is answered as [`after_wait`] decides, fetching the
    /// bytes first for the base64 form (a fetch failure answers 500). An
    /// event that does not fit the current phase answers 500.
    pub fn step(&mut self, event: CreateEvent) -> (r: CreateAction)
        ensures
            final(self).id == old(self).id,
            final(self).request == old(self).request,
            final(self).public_url == old(self).public_url,
            ({
                let req = old(self).request;
                let id = old(self).id;
                match (old(self).phase, event) {
                    (CreatePhase::Storing, CreateEvent::Stored(Ok(()))) => {
                        &&& final(self).phase == CreatePhase::Calling
                        &&& r is CallBackend
                        &&& r->CallBackend_callback_url == req.callback_url
                        &&& r->CallBackend_endpoint@ == predictions_url_for(model_for_alias(view_opt(req.model)))
                        &&& r->CallBackend_body.input.prompt == req.prompt
                        &&& r->CallBackend_body.input.aspect_ratio@ == aspect_for_size(req.size@)
                        &&& r->CallBackend_body.input.output_format@ == "png"@
                        &&& r->CallBackend_body.input.safety_tolerance == 2
                        &&& !r->CallBackend_body.input.raw
                        &&& r->CallBackend_body.webhook@ == webhook_url_for(old(self).public_url@, id)
                    },
                    (CreatePhase::Storing, CreateEvent::Stored(Err(e))) => {
                        &&& final(self).phase == CreatePhase::Done
                        &&& is_plain_failure(r)
                        &&& r->Finish_reply->InternalError_0 == e
                    },
                    (CreatePhase::Calling, CreateEvent::Sent(Ok(()))) => {
                        &&& final(self).phase == CreatePhase::Waiting
                        &&& r == CreateAction::Wait { seconds: WAIT_SECONDS }
                    },
                    (CreatePhase::Calling, CreateEvent::Sent(Err(e))) => {
                        &&& final(self).phase == CreatePhase::Done
                        &&& r is Finish
                        &&& r->Finish_prune
                        &&& r->Finish_update == Some(JobUpdate {
                            status: ImageJobStatus::Failed,
                            urls: None,
                            ipfs_urls: None,
                            error: Some(e),
                        })
                        &&& r->Finish_reply is BadGateway
                        &&& r->Finish_reply->BadGateway_0 == e
                    },
                    (CreatePhase::Waiting, CreateEvent::Waited(None)) => {
                        &&& final(self).phase == CreatePhase::Done
                        &&& r is Finish
                        &&& !r->Finish_prune
                        &&& r->Finish_update == Some(JobUpdate {
                            status: ImageJobStatus::Processing,
                            urls: None,
                            ipfs_urls: None,
                            error: None,
                        })
                        &&& r->Finish_reply is TimedOut
                        &&& r->Finish_reply->TimedOut_0.kind@ == "timeout"@
                        &&& r->Finish_reply->TimedOut_0.task_id@ == uuid_text(id)
                    },
                    (CreatePhase::Waiting, CreateEvent::Waited(Some(res))) => {
                        &&& req.response_format@ == "b64_json"@ ==> {
                            &&& final(self).phase == CreatePhase::Fetching
                            &&& r is Fetch
                            &&& r->Fetch_0@ == res.urls@
                            &&& final(self).pending is Some
                            &&& final(self).pending->0.status == ImageJobStatus::Completed
                            &&& final(self).pending->0.urls is Some
                            &&& final(self).pending->0.urls->0@ == res.urls@
                            &&& final(self).pending->0.ipfs_urls is Some
                            &&& final(self).pending->0.ipfs_urls->0@ == res.ipfs_urls@
                            &&& final(self).pending->0.error is None
                        }
                        &&& req.response_format@ != "b64_json"@ ==> {
                            &&& final(self).phase == CreatePhase::Done
                            &&& r is Finish
                            &&& !r->Finish_prune
                            &&& r->Finish_update is Some
                            &&& r->Finish_update->0.status == ImageJobStatus::Completed
                            &&& r->Finish_update->0.urls is Some
                            &&& r->Finish_update->0.urls->0@ == res.urls@
                            &&& r->Finish_update->0.ipfs_urls is Some
                            &&& r->Finish_update->0.ipfs_urls->0@ == res.ipfs_urls@
                            &&& r->Finish_reply is Images
                            &&& forall|i: int|
                                0 <= i < r->Finish_reply->Images_0@.len() ==> {
                                    &&& #[trigger] r->Finish_reply->Images_0@[i].url == Some(res.urls@[i])
                                    &&& r->Finish_reply->Images_0@[i].ipfs_url == Some(res.ipfs_urls@[i])
                                }
                        }
                    },
                    (CreatePhase::Fetching, CreateEvent::Fetched(Ok(images))) => {
                        &&& final(self).phase == CreatePhase::Done
                        &&& !(forall|i: int|
                            0 <= i < images@.len() ==> (#[trigger] images@[i])@.len() < usize::MAX / 2)
                            ==> is_plain_failure(r)
                        &&& (forall|i: int|
                            0 <= i < images@.len() ==> (#[trigger] images@[i])@.len() < usize::MAX / 2) ==> {
                            &&& r is Finish
                            &&& !r->Finish_prune
                            &&& r->Finish_update == old(self).pending
                            &&& r->Finish_reply is Images
                            &&& r->Finish_reply->Images_0@.len() == images@.len()
                            &&& forall|i: int|
                                0 <= i < images@.len() ==> {
                                    &&& (#[trigger] r->Finish_reply->Images_0@[i]).b64_json is Some
                                    &&& r->Finish_reply->Images_0@[i].b64_json->0@ == base64_of(images@[i]@)
                                    &&& r->Finish_reply->Images_0@[i].url is None
                                    &&& r->Finish_reply->Images_0@[i].ipfs_url is None
                                }
                        }
                    },
                    (CreatePhase::Fetching, CreateEvent::Fetched(Err(e))) => {
                        &&& final(self).phase == CreatePhase::Done
                        &&& is_plain_failure(r)
                        &&& r->Finish_reply->InternalError_0 == e
                    },
                    _ => {
                        &&& final(self).phase == CreatePhase::Done
                        &&& is_plain_failure(r)
                    },
                }
            }),
    {
        let phase = self.phase;
        self.phase = CreatePhase::Done;
        match phase {
            CreatePhase::Storing => match event {
                CreateEvent::Stored(Ok(())) => {
                    self.phase = CreatePhase::Calling;
                    CreateAction::CallBackend {
                        callback_url: match &self.request.callback_url {
                            Some(c) => Some(c.clone()),
                            None => None,
                        },
                        endpoint: predictions_url(&self.request),
                        body: replicate_request_for(&self.request, self.public_url.as_str(), self.id),
                    }
                },
                CreateEvent::Stored(Err(e)) => {
                    CreateAction::Finish { update: None, prune: false, reply: CreateReply::InternalError(e) }
                },
                _ => out_of_order(),
            },
            CreatePhase::Calling => match event {
                CreateEvent::Sent(Ok(())) => {
                    self.phase = CreatePhase::Waiting;
                    CreateAction::Wait { seconds: WAIT_SECONDS }
                },
                CreateEvent::Sent(Err(e)) => {
                    let detail = e.clone();
                    CreateAction::Finish {
                        update: Some(backend_failure_update(e)),
                        prune: true,
                        reply: CreateReply::BadGateway(detail),
                    }
                },
                _ => out_of_order(),
            },
            CreatePhase::Waiting => match event {
                CreateEvent::Waited(result) => {
                    let (outcome, update) = after_wait(
                        self.id,
                        result,
                        self.request.response_format.as_str(),
                    );
                    match outcome {
                        WaitOutcome::FetchAndEncode(urls) => {
                            self.phase = CreatePhase::Fetching;
                            self.pending = Some(update);
                            CreateAction::Fetch(urls)
                        },
                        WaitOutcome::Images(data) => CreateAction::Finish {
                            update: Some(update),
                            prune: false,
                            reply: CreateReply::Images(data),
                        },
                        WaitOutcome::TimedOut(body) => CreateAction::Finish {
                            update: Some(update),
                            prune: false,
                            reply: CreateReply::TimedOut(body),
                        },
                    }
                },
                _ => out_of_order(),
            },
            CreatePhase::Fetching => match event {
                CreateEvent::Fetched(Ok(images)) => {
                    if encodable(&images) {
                        let update = self.pending.take();
                        CreateAction::Finish {
                            update,
                            prune: false,
                            reply: CreateReply::Images(convert_to_base64_response(&images)),
                        }
                    } else {
                        CreateAction::Finish {
                            update: None,
                            prune: false,
                            reply: CreateReply::InternalError("image too large to encode".to_owned()),
                        }
                    }
                },
                CreateEvent::Fetched(Err(e)) => {
                    CreateAction::Finish { update: None, prune: false, reply: CreateReply::InternalError(e) }
                },
                _ => out_of_order(),
            },
            CreatePhase::Done => out_of_order(),
        }
    }
}

/// The answer to an event that does not fit the phase.
fn out_of_order() -> (r: CreateAction)
    ensures
        is_plain_failure(r),
{
    CreateAction::Finish {
        update: None,
        prune: false,
        reply: CreateReply::InternalError("event out of order".to_owned()),
    }
}

} // verus!
