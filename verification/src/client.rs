//! Translation requests and responses, batches and their progress, and
//! what is made of an AI provider's reply.
use vstd::prelude::*;
use crate::model::{EntryKey, KeyView, opt_view, strs_view, copy_opt, copy_strings};
use crate::settings::{AiError, ai_error_message, ProviderProfile, ProviderType, TranslationPreferences};
use crate::po_text::{char_len_utf8, char_utf8_len, utf8_len};
use crate::text::{
    chars_of, decimal, decimal_string, has_prefix, occurs_at_exec, slice_chars, starts_with, string_of, trim,
    trim_chars,
};

verus! {

/// How many entries one batch call translates at most.
pub const BATCH_CHUNK_SIZE: usize = 50;

/// A provider together with its API key, ready to be called.
#[derive(Debug, Clone)]
pub struct ResolvedProviderProfile {
    /// The provider's id (the 128 bits of its UUID).
    pub id: u128,
    pub name: String,
    pub provider_type: ProviderType,
    /// The API base URL, as a serialized URL.
    pub base_url: String,
    pub model: String,
    pub api_key: String,
}

impl From<(ProviderProfile, String)> for ResolvedProviderProfile {
    fn from(parts: (ProviderProfile, String)) -> (r: ResolvedProviderProfile) {
        let (provider, api_key) = parts;
        ResolvedProviderProfile {
            id: provider.id,
            name: provider.name,
            provider_type: provider.provider_type,
            base_url: provider.base_url,
            model: provider.model,
            api_key,
        }
    }
}

impl vstd::std_specs::convert::FromSpecImpl<(ProviderProfile, String)> for ResolvedProviderProfile {
    open spec fn obeys_from_spec() -> bool {
        true
    }

    open spec fn from_spec(v: (ProviderProfile, String)) -> ResolvedProviderProfile {
        resolved(v.0, v.1)
    }
}

/// A provider together with its API key.
pub open spec fn resolved(provider: ProviderProfile, api_key: String) -> ResolvedProviderProfile {
    ResolvedProviderProfile {
        id: provider.id,
        name: provider.name,
        provider_type: provider.provider_type,
        base_url: provider.base_url,
        model: provider.model,
        api_key,
    }
}

/// What is sent to translate one entry.
#[derive(Debug, Clone)]
pub struct TranslationRequest {
    pub key: EntryKey,
    pub target_locale: String,
    pub msgid: String,
    pub msgid_plural: Option<String>,
    pub msgctxt: Option<String>,
    pub comments: Vec<String>,
    pub references: Vec<String>,
}

/// A request as plain values.
pub struct RequestModel {
    pub key: KeyView,
    pub target_locale: Seq<char>,
    pub msgid: Seq<char>,
    pub msgid_plural: Option<Seq<char>>,
    pub msgctxt: Option<Seq<char>>,
    pub comments: Seq<Seq<char>>,
    pub references: Seq<Seq<char>>,
}

impl View for TranslationRequest {
    type V = RequestModel;

    open spec fn view(&self) -> RequestModel {
        RequestModel {
            key: self.key@,
            target_locale: self.target_locale@,
            msgid: self.msgid@,
            msgid_plural: opt_view(self.msgid_plural),
            msgctxt: opt_view(self.msgctxt),
            comments: strs_view(self.comments@),
            references: strs_view(self.references@),
        }
    }
}

impl TranslationRequest {
    /// A copy of the request.
    pub fn duplicate(&self) -> (r: TranslationRequest)
        ensures
            r@ == self@,
    {
        let comments = copy_strings(&self.comments);
        let references = copy_strings(&self.references);
        TranslationRequest {
            key: self.key.duplicate(),
            target_locale: self.target_locale.clone(),
            msgid: self.msgid.clone(),
            msgid_plural: copy_opt(&self.msgid_plural),
            msgctxt: copy_opt(&self.msgctxt),
            comments,
            references,
        }
    }
}

/// Which provider and model produced a translation, and the raw reply.
#[derive(Debug, Clone)]
pub struct TranslationMetadata {
    pub provider_name: String,
    pub model: String,
    pub raw_response: String,
}

/// Metadata as plain values: (provider name, model, raw response).
pub type MetadataView = (Seq<char>, Seq<char>, Seq<char>);

impl View for TranslationMetadata {
    type V = MetadataView;

    open spec fn view(&self) -> MetadataView {
        (self.provider_name@, self.model@, self.raw_response@)
    }
}

impl TranslationMetadata {
    /// A copy of the metadata.
    pub fn duplicate(&self) -> (r: TranslationMetadata)
        ensures
            r@ == self@,
    {
        TranslationMetadata {
            provider_name: self.provider_name.clone(),
            model: self.model.clone(),
            raw_response: self.raw_response.clone(),
        }
    }
}

/// A translation proposed by a provider.
#[derive(Debug, Clone)]
pub struct TranslationResponse {
    pub singular: String,
    pub plurals: Vec<String>,
    pub metadata: TranslationMetadata,
}

/// A response as plain values: (singular, plurals, metadata).
pub type ResponseView = (Seq<char>, Seq<Seq<char>>, MetadataView);

impl View for TranslationResponse {
    type V = ResponseView;

    open spec fn view(&self) -> ResponseView {
        (self.singular@, strs_view(self.plurals@), self.metadata@)
    }
}

/// One entry of a batch.
#[derive(Debug, Clone)]
pub struct BatchItem {
    pub request: TranslationRequest,
}

/// What became of one entry of a batch: a translation or an error message.
#[derive(Debug)]
pub struct BatchItemResult {
    pub key: EntryKey,
    pub result: Result<TranslationResponse, String>,
}

/// The outcome of one entry as plain values.
pub open spec fn outcome_view(r: Result<TranslationResponse, String>) -> Result<ResponseView, Seq<char>> {
    match r {
        Ok(t) => Ok(t@),
        Err(e) => Err(e@),
    }
}

/// What a running batch reports.
#[derive(Debug)]
pub enum BatchProgressEvent {
    Started { total: usize },
    Item { completed: usize, total: usize, item: BatchItemResult },
    Finished { completed: usize, total: usize },
}

/// One translation of a batch reply, as the provider wrote it.
#[derive(Debug, Clone)]
pub struct BatchEntryEnvelope {
    pub id: Option<String>,
    pub singular: Option<String>,
    pub plurals: Option<Vec<String>>,
}

/// The plurals of an envelope as plain values.
pub open spec fn opt_strs_view(o: Option<Vec<String>>) -> Option<Seq<Seq<char>>> {
    match o {
        Some(v) => Some(strs_view(v@)),
        None => None,
    }
}

/// The text of an optional string, empty when absent (`unwrap_or_default`).
pub open spec fn or_empty(o: Option<Seq<char>>) -> Seq<char> {
    match o {
        Some(s) => s,
        None => Seq::empty(),
    }
}

/// The texts of optional strings, none when absent (`unwrap_or_default`).
pub open spec fn or_none(o: Option<Seq<Seq<char>>>) -> Seq<Seq<char>> {
    match o {
        Some(s) => s,
        None => Seq::empty(),
    }
}

/// The response made of a reply's singular and plurals.
pub open spec fn envelope_response(
    singular: Option<Seq<char>>,
    plurals: Option<Seq<Seq<char>>>,
    metadata: MetadataView,
) -> ResponseView {
    (or_empty(singular), or_none(plurals), metadata)
}

fn unwrap_text(o: &Option<String>) -> (r: String)
    ensures
        r@ == or_empty(opt_view(*o)),
{
    match o {
        Some(s) => s.clone(),
        None => String::new(),
    }
}

fn unwrap_texts(o: &Option<Vec<String>>) -> (r: Vec<String>)
    ensures
        strs_view(r@) == or_none(opt_strs_view(*o)),
{
    match o {
        Some(v) => copy_strings(v),
        None => {
            let r: Vec<String> = Vec::new();
            assert(strs_view(r@) =~= Seq::<Seq<char>>::empty());
            r
        },
    }
}

/// The response made of a reply's singular and plurals; absent parts are
/// empty.
pub fn response_from_envelope(
    singular: Option<String>,
    plurals: Option<Vec<String>>,
    metadata: TranslationMetadata,
) -> (r: TranslationResponse)
    ensures
        r@ == envelope_response(opt_view(singular), opt_strs_view(plurals), metadata@),
{
    TranslationResponse { singular: unwrap_text(&singular), plurals: unwrap_texts(&plurals), metadata }
}

/// The position of the first envelope from `from` on whose id is `id`.
pub open spec fn first_with_id(entries: Seq<BatchEntryEnvelope>, id: Seq<char>, from: int) -> Option<int>
    decreases entries.len() - from,
{
    if from < 0 || from >= entries.len() {
        None
    } else if opt_view(entries[from].id) == Some(id) {
        Some(from)
    } else {
        first_with_id(entries, id, from + 1)
    }
}

/// The envelope that answers the `i`-th request of a batch: the first whose
/// id is `i + 1`, else the `i`-th one.
pub open spec fn envelope_for(entries: Seq<BatchEntryEnvelope>, i: int) -> Option<BatchEntryEnvelope> {
    match first_with_id(entries, decimal((i + 1) as nat), 0) {
        Some(j) => Some(entries[j]),
        None => if 0 <= i < entries.len() { Some(entries[i]) } else { None },
    }
}

/// What becomes of the `i`-th request of a batch whose reply is `entries`.
pub open spec fn batch_outcome(entries: Seq<BatchEntryEnvelope>, i: int, metadata: MetadataView) -> Result<ResponseView, Seq<char>> {
    match envelope_for(entries, i) {
        Some(e) => Ok(envelope_response(opt_view(e.singular), opt_strs_view(e.plurals), metadata)),
        None => Err("model skipped entry "@ + decimal((i + 1) as nat)),
    }
}

fn find_envelope(entries: &Vec<BatchEntryEnvelope>, id: &String) -> (r: Option<usize>)
    ensures
        r matches Some(j) ==> j < entries@.len() && first_with_id(entries@, id@, 0) == Some(j as int),
        r is None ==> first_with_id(entries@, id@, 0) is None,
{
    let mut j: usize = 0;
    while j < entries.len()
        invariant
            j <= entries@.len(),
            first_with_id(entries@, id@, 0) == first_with_id(entries@, id@, j as int),
        decreases entries.len() - j,
    {
        let hit = match &entries[j].id {
            Some(s) => crate::text::str_eq(s.as_str(), id.as_str()),
            None => false,
        };
        if hit {
            return Some(j);
        }
        j = j + 1;
    }
    None
}

/// Pairs each requested key with the answer a batch reply holds for it: the
/// envelope whose id is the key's position counted from 1, else the
/// envelope at the key's position, else an error naming the skipped entry.
pub fn map_batch_results(
    keys: &[EntryKey],
    entries: Vec<BatchEntryEnvelope>,
    metadata: TranslationMetadata,
) -> (r: Vec<(EntryKey, Result<TranslationResponse, String>)>)
    ensures
        r@.len() == keys@.len(),
        forall|i: int| 0 <= i < keys@.len() ==> {
            &&& (#[trigger] r@[i]).0@ == keys@[i]@
            &&& outcome_view(r@[i].1) == batch_outcome(entries@, i, metadata@)
        },
{
    let mut results: Vec<(EntryKey, Result<TranslationResponse, String>)> = Vec::new();
    let mut i: usize = 0;
    while i < keys.len()
        invariant
            i <= keys@.len(),
            results@.len() == i,
            forall|k: int| 0 <= k < i ==> {
                &&& (#[trigger] results@[k]).0@ == keys@[k]@
                &&& outcome_view(results@[k].1) == batch_outcome(entries@, k, metadata@)
            },
        decreases keys.len() - i,
    {
        let n: u64 = (i + 1) as u64;
        let id_str = decimal_string(n);
        let found = find_envelope(&entries, &id_str);
        let pick: Option<usize> = match found {
            Some(j) => Some(j),
            None => if i < entries.len() { Some(i) } else { None },
        };
        assert(id_str@ == decimal((i + 1) as nat));
        let result = match pick {
            Some(j) => {
                let e = &entries[j];
                assert(envelope_for(entries@, i as int) == Some(*e));
                Ok(response_from_envelope(copy_opt(&e.singular), copy_texts(&e.plurals), metadata.duplicate()))
            },
            None => {
                assert(envelope_for(entries@, i as int) is None);
                Err(String::from_str("model skipped entry ").concat(decimal_string(n).as_str()))
            },
        };
        assert(n as nat == (i + 1) as nat);
        assert(outcome_view(result) == batch_outcome(entries@, i as int, metadata@));
        let ghost prev = results@;
        results.push((keys[i].duplicate(), result));
        assert(forall|k: int| 0 <= k < i ==> results@[k] == prev[k]);
        i = i + 1;
    }
    results
}

fn copy_texts(o: &Option<Vec<String>>) -> (r: Option<Vec<String>>)
    ensures
        opt_strs_view(r) == opt_strs_view(*o),
{
    match o {
        Some(v) => Some(copy_strings(v)),
        None => None,
    }
}

/// Every requested key paired with the same error message.
pub fn failed_batch_results(keys: &[EntryKey], message: &str) -> (r: Vec<(EntryKey, Result<TranslationResponse, String>)>)
    ensures
        r@.len() == keys@.len(),
        forall|i: int| 0 <= i < keys@.len() ==> {
            &&& (#[trigger] r@[i]).0@ == keys@[i]@
            &&& outcome_view(r@[i].1) == Err::<ResponseView, Seq<char>>(message@)
        },
{
    let mut results: Vec<(EntryKey, Result<TranslationResponse, String>)> = Vec::new();
    let mut i: usize = 0;
    while i < keys.len()
        invariant
            i <= keys@.len(),
            results@.len() == i,
            forall|k: int| 0 <= k < i ==> {
                &&& (#[trigger] results@[k]).0@ == keys@[k]@
                &&& outcome_view(results@[k].1) == Err::<ResponseView, Seq<char>>(message@)
            },
        decreases keys.len() - i,
    {
        results.push((keys[i].duplicate(), Err(message.to_string())));
        i = i + 1;
    }
    results
}

/// The requests of a sequence of batch items, as plain values.
pub open spec fn items_view(v: Seq<BatchItem>) -> Seq<RequestModel> {
    v.map_values(|b: BatchItem| b.request@)
}

/// Requests as plain values.
pub open spec fn requests_view(v: Seq<TranslationRequest>) -> Seq<RequestModel> {
    v.map_values(|r: TranslationRequest| r@)
}

/// The `k`-th chunk of a batch: the requests from `k * BATCH_CHUNK_SIZE` on,
/// at most `BATCH_CHUNK_SIZE` of them.
pub open spec fn chunk_of(s: Seq<RequestModel>, k: int) -> Seq<RequestModel> {
    let lo = k * BATCH_CHUNK_SIZE;
    let hi = if lo + BATCH_CHUNK_SIZE < s.len() { lo + BATCH_CHUNK_SIZE } else { s.len() as int };
    s.subrange(lo, hi)
}

/// The requests of a batch in chunks of `BATCH_CHUNK_SIZE`, in order; only
/// the last chunk may be shorter.
pub fn chunk_requests(items: &Vec<BatchItem>) -> (r: Vec<Vec<TranslationRequest>>)
    ensures
        r@.len() * BATCH_CHUNK_SIZE >= items@.len(),
        r@.len() == 0 || (r@.len() - 1) * BATCH_CHUNK_SIZE < items@.len(),
        forall|k: int| 0 <= k < r@.len() ==> requests_view((#[trigger] r@[k])@) == chunk_of(items_view(items@), k),
{
    let ghost all = items_view(items@);
    let mut r: Vec<Vec<TranslationRequest>> = Vec::new();
    let mut start: usize = 0;
    while start < items.len()
        invariant
            all == items_view(items@),
            start <= items@.len(),
            start == r@.len() * BATCH_CHUNK_SIZE || (start == items@.len() && r@.len() * BATCH_CHUNK_SIZE >= start),
            r@.len() == 0 || (r@.len() - 1) * BATCH_CHUNK_SIZE < items@.len(),
            forall|k: int| 0 <= k < r@.len() ==> requests_view((#[trigger] r@[k])@) == chunk_of(all, k),
        decreases items.len() - start,
    {
        let end: usize = if items.len() - start > BATCH_CHUNK_SIZE { start + BATCH_CHUNK_SIZE } else { items.len() };
        let mut chunk: Vec<TranslationRequest> = Vec::new();
        let mut j: usize = start;
        while j < end
            invariant
                all == items_view(items@),
                start <= j <= end <= items@.len(),
                requests_view(chunk@) == all.subrange(start as int, j as int),
            decreases end - j,
        {
            let req = items[j].request.duplicate();
            let ghost prev = chunk@;
            chunk.push(req);
            assert(requests_view(chunk@) =~= requests_view(prev).push(req@));
            assert(all.subrange(start as int, j + 1) =~= all.subrange(start as int, j as int).push(all[j as int]));
            j = j + 1;
        }
        assert(start == r@.len() * BATCH_CHUNK_SIZE);
        assert(requests_view(chunk@) == chunk_of(all, r@.len() as int));
        let ghost prev_r = r@;
        r.push(chunk);
        assert(forall|k: int| 0 <= k < prev_r.len() ==> r@[k] == prev_r[k]);
        start = end;
    }
    r
}

/// How many chunks run at once: the preference, at least one, four when
/// unset.
pub fn batch_concurrency(preferences: &TranslationPreferences) -> (r: usize)
    ensures
        r == match preferences.batch_concurrency {
            Some(n) => if n == 0 { 1 } else { n },
            None => 4,
        },
{
    match preferences.batch_concurrency {
        Some(n) => if n == 0 { 1 } else { n },
        None => 4,
    }
}

/// The request timeout in seconds: the preference, sixty when unset.
pub fn request_timeout_secs(preferences: &TranslationPreferences) -> (r: u64)
    ensures
        r == match preferences.timeout_secs {
            Some(n) => n,
            None => 60,
        },
{
    match preferences.timeout_secs {
        Some(n) => n,
        None => 60,
    }
}

/// Counts the entries of a running batch.
#[derive(Debug, Clone, Copy)]
pub struct BatchProgress {
    pub completed: usize,
    pub total: usize,
}

impl BatchProgress {
    /// A batch of `total` entries starts: nothing is completed yet.
    pub fn start(total: usize) -> (r: (BatchProgress, BatchProgressEvent))
        ensures
            r.0.completed == 0,
            r.0.total == total,
            r.1 matches BatchProgressEvent::Started { total: t } && t == total,
    {
        (BatchProgress { completed: 0, total }, BatchProgressEvent::Started { total })
    }

    /// One more entry is done; the event carries its outcome and the counts.
    pub fn record(&mut self, key: EntryKey, result: Result<TranslationResponse, String>) -> (e: BatchProgressEvent)
        requires
            old(self).completed < usize::MAX,
        ensures
            final(self).completed == old(self).completed + 1,
            final(self).total == old(self).total,
            e matches BatchProgressEvent::Item { completed, total, item }
                && completed == final(self).completed && total == final(self).total
                && item.key@ == key@ && outcome_view(item.result) == outcome_view(result),
    {
        self.completed = self.completed + 1;
        BatchProgressEvent::Item {
            completed: self.completed,
            total: self.total,
            item: BatchItemResult { key, result },
        }
    }

    /// The batch is over.
    pub fn finish(&self) -> (e: BatchProgressEvent)
        ensures
            e matches BatchProgressEvent::Finished { completed, total } && completed == self.completed
                && total == self.total,
    {
        BatchProgressEvent::Finished { completed: self.completed, total: self.total }
    }
}

/// What one batch call gives for each of its requests: the reply's
/// translations, matched by id or position, or the call's error for every
/// request.
pub fn batch_results(
    requests: &[TranslationRequest],
    provider_name: &str,
    outcome: Result<(Vec<BatchEntryEnvelope>, String, String), AiError>,
) -> (r: Vec<(EntryKey, Result<TranslationResponse, String>)>)
    ensures
        r@.len() == requests@.len(),
        forall|i: int| 0 <= i < requests@.len() ==> (#[trigger] r@[i]).0@ == requests@[i].key@,
        forall|i: int| 0 <= i < requests@.len() ==> outcome_view((#[trigger] r@[i]).1) == match outcome {
            Ok((entries, raw, model)) => batch_outcome(entries@, i, (provider_name@, model@, raw@)),
            Err(e) => Err(ai_error_message(e)),
        },
{
    let mut keys: Vec<EntryKey> = Vec::new();
    let mut i: usize = 0;
    while i < requests.len()
        invariant
            i <= requests@.len(),
            keys@.len() == i,
            forall|k: int| 0 <= k < i ==> (#[trigger] keys@[k])@ == requests@[k].key@,
        decreases requests.len() - i,
    {
        keys.push(requests[i].key.duplicate());
        i = i + 1;
    }
    match outcome {
        Ok((entries, raw_response, model)) => {
            let metadata = TranslationMetadata {
                provider_name: provider_name.to_string(),
                model,
                raw_response,
            };
            map_batch_results(keys.as_slice(), entries, metadata)
        },
        Err(error) => {
            let message = error.message();
            failed_batch_results(keys.as_slice(), message.as_str())
        },
    }
}

/// What `Url::join` gives for the URL serialized as `base` and a relative
/// reference: the joined URL's serialization, or `None` when either is
/// refused.
pub uninterp spec fn url_join(base: Seq<char>, path: Seq<char>) -> Option<Seq<char>>;

/// Joins a relative reference onto a base URL (`url::Url::join` on the
/// parsed base). The contract claims that success and the result are the
/// named function of the two texts; the error message is not described.
#[verifier::external_body]
pub(crate) fn join_url(base: &str, path: &str) -> (r: Result<String, String>)
    ensures
        r is Ok == url_join(base@, path@) is Some,
        r matches Ok(u) ==> url_join(base@, path@) == Some(u@),
{
    url::Url::parse(base).and_then(|u| u.join(path)).map(|u| u.to_string()).map_err(|e| e.to_string())
}

/// The API path that a translation is posted to.
pub open spec fn endpoint_path(t: ProviderType) -> Seq<char> {
    match t {
        ProviderType::Anthropic => "messages"@,
        _ => "chat/completions"@,
    }
}

/// The URL that translations are posted to: the endpoint path joined onto
/// the provider's base URL.
pub fn provider_endpoint(provider: &ResolvedProviderProfile) -> (r: Result<String, AiError>)
    ensures
        r is Ok == url_join(provider.base_url@, endpoint_path(provider.provider_type)) is Some,
        r matches Ok(u) ==> url_join(provider.base_url@, endpoint_path(provider.provider_type)) == Some(u@),
        r matches Err(e) ==> e is InvalidUrl,
{
    let path = match provider.provider_type {
        ProviderType::Anthropic => "messages",
        _ => "chat/completions",
    };
    match join_url(provider.base_url.as_str(), path) {
        Ok(u) => Ok(u),
        Err(m) => Err(AiError::InvalidUrl(m)),
    }
}

/// What a JSON text's top-level `"model"` string is: `None` when the text
/// is not JSON, is not an object, or has no string `"model"` field.
pub uninterp spec fn json_model_field(body: Seq<char>) -> Option<Seq<char>>;

/// Reads the top-level `"model"` string of a JSON text
/// (`serde_json::from_str::<Value>`, then `get("model")` and `as_str`).
/// The contract claims that the result is the named function of the text.
#[verifier::external_body]
fn model_field(body: &str) -> (r: Option<String>)
    ensures
        opt_view(r) == json_model_field(body@),
{
    serde_json::from_str::<serde_json::Value>(body).ok().and_then(|v| v.get("model")?.as_str().map(String::from))
}

/// The model named in a reply, or the configured one when the reply names
/// none.
pub fn extract_model(body: &str, fallback: &str) -> (r: String)
    ensures
        r@ == match json_model_field(body@) {
            Some(m) => m,
            None => fallback@,
        },
{
    match model_field(body) {
        Some(m) => m,
        None => fallback.to_string(),
    }
}

/// The position of the first content block of type `text`.
pub open spec fn first_text_block(blocks: Seq<(String, Option<String>)>, from: int) -> Option<int>
    decreases blocks.len() - from,
{
    if from < 0 || from >= blocks.len() {
        None
    } else if blocks[from].0@ == "text"@ {
        Some(from)
    } else {
        first_text_block(blocks, from + 1)
    }
}

/// The text of an Anthropic reply from its parsed content blocks (type and
/// text of each), or the parse error: the first block of type `text` must
/// carry a text.
pub fn anthropic_text(parsed: Result<Vec<(String, Option<String>)>, String>) -> (r: Result<String, AiError>)
    ensures
        match parsed {
            Err(m) => r matches Err(AiError::InvalidResponse(e)) && e@ == m@,
            Ok(blocks) => match first_text_block(blocks@, 0) {
                Some(j) => match blocks@[j].1 {
                    Some(t) => r matches Ok(s) && s@ == t@,
                    None => r matches Err(AiError::InvalidResponse(e)) && e@ == "no text content block"@,
                },
                None => r matches Err(AiError::InvalidResponse(e)) && e@ == "no text content block"@,
            },
        },
{
    let blocks = match parsed {
        Err(m) => return Err(AiError::InvalidResponse(m)),
        Ok(b) => b,
    };
    let mut j: usize = 0;
    while j < blocks.len()
        invariant
            j <= blocks@.len(),
            parsed matches Ok(b) && b == blocks,
            first_text_block(blocks@, 0) == first_text_block(blocks@, j as int),
        decreases blocks.len() - j,
    {
        if crate::text::str_eq(blocks[j].0.as_str(), "text") {
            return match &blocks[j].1 {
                Some(t) => Ok(t.clone()),
                None => Err(AiError::InvalidResponse(String::from_str("no text content block"))),
            };
        }
        j = j + 1;
    }
    Err(AiError::InvalidResponse(String::from_str("no text content block")))
}

/// The content and model of a chat-completion reply from its parsed model
/// field and choice contents, or the parse error: the first choice's
/// content, and the reply's model or else the configured one.
pub fn chat_completion_content(parsed: Result<(Option<String>, Vec<String>), String>, fallback_model: &str) -> (r: Result<(String, String), AiError>)
    ensures
        match parsed {
            Err(m) => r matches Err(AiError::InvalidResponse(e)) && e@ == m@,
            Ok((model, choices)) => if choices@.len() == 0 {
                r matches Err(AiError::InvalidResponse(e)) && e@ == "missing choices"@
            } else {
                r matches Ok((c, m)) && c@ == choices@[0]@ && m@ == match model {
                    Some(x) => x@,
                    None => fallback_model@,
                }
            },
        },
{
    match parsed {
        Err(m) => Err(AiError::InvalidResponse(m)),
        Ok((model, choices)) => {
            if choices.len() == 0 {
                return Err(AiError::InvalidResponse(String::from_str("missing choices")));
            }
            let content = choices[0].clone();
            let m = match model {
                Some(x) => x,
                None => fallback_model.to_string(),
            };
            Ok((content, m))
        },
    }
}

/// Whether `s` ends with `p`.
pub open spec fn has_suffix(s: Seq<char>, p: Seq<char>) -> bool {
    p.len() <= s.len() && s.skip(s.len() - p.len()) == p
}

/// `s` without every leading copy of `p` (`str::trim_start_matches`).
pub open spec fn strip_prefix_all(s: Seq<char>, p: Seq<char>) -> Seq<char>
    decreases s.len(),
{
    if p.len() > 0 && has_prefix(s, p) {
        strip_prefix_all(s.skip(p.len() as int), p)
    } else {
        s
    }
}

/// `s` without every trailing copy of `p` (`str::trim_end_matches`).
pub open spec fn strip_suffix_all(s: Seq<char>, p: Seq<char>) -> Seq<char>
    decreases s.len(),
{
    if p.len() > 0 && has_suffix(s, p) {
        strip_suffix_all(s.take(s.len() - p.len()), p)
    } else {
        s
    }
}

/// The JSON text of a batch reply: the trimmed content, and when it opens
/// a Markdown code fence, the text inside the fence, trimmed.
pub open spec fn batch_json(content: Seq<char>) -> Seq<char> {
    let t = trim(content);
    if has_prefix(t, "```"@) {
        trim(strip_suffix_all(strip_prefix_all(strip_prefix_all(t, "```json"@), "```"@), "```"@))
    } else {
        t
    }
}

fn strip_prefix_chars(cs: Vec<char>, p: &Vec<char>) -> (r: Vec<char>)
    ensures
        r@ == strip_prefix_all(cs@, p@),
{
    let mut cur = cs;
    while p.len() > 0 && starts_with(&cur, p)
        invariant
            strip_prefix_all(cur@, p@) == strip_prefix_all(cs@, p@),
        decreases cur@.len(),
    {
        cur = slice_chars(&cur, p.len(), cur.len());
    }
    cur
}

fn strip_suffix_chars(cs: Vec<char>, p: &Vec<char>) -> (r: Vec<char>)
    ensures
        r@ == strip_suffix_all(cs@, p@),
{
    let mut cur = cs;
    while p.len() > 0 && p.len() <= cur.len() && occurs_at_exec(&cur, p, cur.len() - p.len())
        invariant
            strip_suffix_all(cur@, p@) == strip_suffix_all(cs@, p@),
        decreases cur@.len(),
    {
        assert(cur@.subrange(cur@.len() - p@.len(), cur@.len() as int) =~= cur@.skip(cur@.len() - p@.len()));
        cur = slice_chars(&cur, 0, cur.len() - p.len());
    }
    proof {
        if p@.len() > 0 && p@.len() <= cur@.len() {
            assert(cur@.subrange(cur@.len() - p@.len(), cur@.len() as int) =~= cur@.skip(cur@.len() - p@.len()));
        }
    }
    cur
}

/// The JSON text of a batch reply, without a surrounding code fence.
pub fn batch_json_text(content: &str) -> (r: String)
    ensures
        r@ == batch_json(content@),
{
    let t = trim_chars(&chars_of(content));
    let fence = chars_of("```");
    if starts_with(&t, &fence) {
        let a = strip_prefix_chars(t, &chars_of("```json"));
        let b = strip_prefix_chars(a, &fence);
        let c = strip_suffix_chars(b, &fence);
        let d = trim_chars(&c);
        string_of(&d, 0, d.len())
    } else {
        string_of(&t, 0, t.len())
    }
}

/// The position of the first `c` in `s` from `from` on.
pub open spec fn first_index_of(s: Seq<char>, c: char, from: int) -> Option<int>
    decreases s.len() - from,
{
    if from < 0 || from >= s.len() {
        None
    } else if s[from] == c {
        Some(from)
    } else {
        first_index_of(s, c, from + 1)
    }
}

/// The position of the last `c` in `s` before `upto`.
pub open spec fn last_index_of(s: Seq<char>, c: char, upto: int) -> Option<int>
    decreases upto,
{
    if upto <= 0 || upto > s.len() {
        None
    } else if s[upto - 1] == c {
        Some(upto - 1)
    } else {
        last_index_of(s, c, upto - 1)
    }
}

/// Whether the first `[` of `s` stands more than one place after its last
/// `]`, so that the text between them cannot be sliced.
pub open spec fn brackets_crossed(s: Seq<char>) -> bool {
    match (first_index_of(s, '[', 0), last_index_of(s, ']', s.len() as int)) {
        (Some(a), Some(b)) => a > b + 1,
        _ => false,
    }
}

/// The text from the first `[` through the last `]`, when both occur.
pub open spec fn bracketed(s: Seq<char>) -> Option<Seq<char>> {
    match (first_index_of(s, '[', 0), last_index_of(s, ']', s.len() as int)) {
        (Some(a), Some(b)) => Some(s.subrange(a, b + 1)),
        _ => None,
    }
}

/// The text from the first `[` through the last `]` of a reply, where a
/// JSON array may stand among other words.
pub fn bracketed_text(json: &str) -> (r: Option<String>)
    requires
        !brackets_crossed(json@),
    ensures
        opt_view(r) == bracketed(json@),
{
    let cs = chars_of(json);
    let mut a: usize = 0;
    while a < cs.len() && cs[a] != '['
        invariant
            cs@ == json@,
            a <= cs@.len(),
            first_index_of(cs@, '[', 0) == first_index_of(cs@, '[', a as int),
        decreases cs.len() - a,
    {
        a = a + 1;
    }
    if a == cs.len() {
        return None;
    }
    let mut b: usize = cs.len();
    while b > 0 && cs[b - 1] != ']'
        invariant
            cs@ == json@,
            b <= cs@.len(),
            last_index_of(cs@, ']', cs@.len() as int) == last_index_of(cs@, ']', b as int),
        decreases b,
    {
        b = b - 1;
    }
    if b == 0 {
        return None;
    }
    Some(string_of(&cs, a, b))
}

/// The number of leading characters of `s` that fit in `limit` UTF-8
/// bytes.
pub open spec fn fitting_prefix_len(s: Seq<char>, limit: nat, k: int) -> int
    decreases k,
{
    if k <= 0 {
        0
    } else if utf8_len(s.take(k)) <= limit {
        k
    } else {
        fitting_prefix_len(s, limit, k - 1)
    }
}

/// The error for a batch reply that no reading understood; it quotes the
/// reply's first 500 bytes.
pub open spec fn batch_parse_error(json: Seq<char>) -> Seq<char> {
    "Could not parse batch response. Raw content (first 500 chars): "@
        + json.take(fitting_prefix_len(json, 500, json.len() as int))
}

/// Whether the first 500 bytes of `s` end on a character boundary (or `s`
/// is shorter), so that they can be sliced.
pub open spec fn cut_at_boundary(s: Seq<char>) -> bool {
    utf8_len(s) <= 500 || utf8_len(s.take(fitting_prefix_len(s, 500, s.len() as int))) == 500
}

proof fn lemma_utf8_take_step(s: Seq<char>, i: int)
    requires
        0 <= i < s.len(),
    ensures
        utf8_len(s.take(i + 1)) == utf8_len(s.take(i)) + char_utf8_len(s[i]),
{
    assert(s.take(i + 1).drop_last() =~= s.take(i));
}

proof fn lemma_utf8_take_mono(s: Seq<char>, i: int, k: int)
    requires
        0 <= i <= k <= s.len(),
    ensures
        utf8_len(s.take(i)) <= utf8_len(s.take(k)),
    decreases k - i,
{
    if i < k {
        lemma_utf8_take_step(s, k - 1);
        lemma_utf8_take_mono(s, i, k - 1);
    }
}

proof fn lemma_fitting_prefix(s: Seq<char>, limit: nat, i: int, k: int)
    requires
        0 <= i <= k <= s.len(),
        utf8_len(s.take(i)) <= limit,
        i == s.len() || utf8_len(s.take(i + 1)) > limit,
    ensures
        fitting_prefix_len(s, limit, k) == i,
    decreases k - i,
{
    if i < k {
        lemma_utf8_take_mono(s, i + 1, k);
        lemma_fitting_prefix(s, limit, i, k - 1);
    }
}

/// The error for a batch reply that no reading understood.
pub fn batch_parse_failure(json: &str) -> (r: AiError)
    requires
        cut_at_boundary(json@),
    ensures
        r matches AiError::InvalidResponse(m) && m@ == batch_parse_error(json@),
{
    let cs = chars_of(json);
    let mut i: usize = 0;
    let mut bytes: usize = 0;
    while i < cs.len() && bytes + char_len_utf8(cs[i]) <= 500
        invariant
            cs@ == json@,
            i <= cs@.len(),
            bytes == utf8_len(cs@.take(i as int)),
            bytes <= 500,
        decreases cs.len() - i,
    {
        proof {
            lemma_utf8_take_step(cs@, i as int);
        }
        bytes = bytes + char_len_utf8(cs[i]);
        i = i + 1;
    }
    proof {
        if i < cs@.len() {
            lemma_utf8_take_step(cs@, i as int);
        }
        lemma_fitting_prefix(cs@, 500, i as int, cs@.len() as int);
    }
    AiError::InvalidResponse(
        String::from_str("Could not parse batch response. Raw content (first 500 chars): ").concat(
            string_of(&cs, 0, i).as_str(),
        ),
    )
}

/// The entries of a batch reply from the readings tried in turn: the text
/// as an array of entries, an array held in a field of a JSON object, the
/// object as one entry, the bracketed part as an array; the first that
/// succeeded wins, and when none did, the reply is refused.
pub fn select_batch_entries(
    as_array: Option<Vec<BatchEntryEnvelope>>,
    in_field: Option<Vec<BatchEntryEnvelope>>,
    as_single: Option<BatchEntryEnvelope>,
    in_brackets: Option<Vec<BatchEntryEnvelope>>,
    json: &str,
) -> (r: Result<Vec<BatchEntryEnvelope>, AiError>)
    requires
        as_array is None && in_field is None && as_single is None && in_brackets is None ==> cut_at_boundary(json@),
    ensures
        match (as_array, in_field, as_single, in_brackets) {
            (Some(v), _, _, _) => r == Ok::<Vec<BatchEntryEnvelope>, AiError>(v),
            (None, Some(v), _, _) => r == Ok::<Vec<BatchEntryEnvelope>, AiError>(v),
            (None, None, Some(e), _) => r matches Ok(v) && v@ == seq![e],
            (None, None, None, Some(v)) => r == Ok::<Vec<BatchEntryEnvelope>, AiError>(v),
            (None, None, None, None) => r matches Err(AiError::InvalidResponse(m)) && m@ == batch_parse_error(json@),
        },
{
    if let Some(v) = as_array {
        return Ok(v);
    }
    if let Some(v) = in_field {
        return Ok(v);
    }
    if let Some(e) = as_single {
        let mut v = Vec::new();
        v.push(e);
        return Ok(v);
    }
    if let Some(v) = in_brackets {
        return Ok(v);
    }
    Err(batch_parse_failure(json))
}

} // verus!
