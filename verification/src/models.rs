//! The AI models a provider offers, and which of them the editor lists.
use vstd::prelude::*;
use crate::text::{chars_of, contains, contains_seq};
use crate::order::{pairs_of, sort_by_key, sort_pairs_by_key};
use crate::client::{join_url, url_join};
use crate::settings::{AiError, ProviderType, parse_url, provider_base_url, url_parse};

verus! {

/// A model: its id and the name to show.
#[derive(Debug, Clone)]
pub struct ModelInfo {
    pub id: String,
    pub display_name: String,
}

/// How a model is shown: the id alone when the display name is empty or
/// equal to it, else `name (id)`.
pub open spec fn model_text(id: Seq<char>, display_name: Seq<char>) -> Seq<char> {
    if display_name.len() == 0 || display_name == id {
        id
    } else {
        display_name + " ("@ + id + ")"@
    }
}

impl ModelInfo {
    /// A copy of the model.
    pub fn duplicate(&self) -> (r: ModelInfo)
        ensures
            r == *self,
    {
        ModelInfo { id: self.id.clone(), display_name: self.display_name.clone() }
    }

    /// The text shown for the model (its `Display`).
    pub fn display_text(&self) -> (r: String)
        ensures
            r@ == model_text(self.id@, self.display_name@),
    {
        if self.display_name.as_str().is_empty() || self.display_name == self.id {
            self.id.clone()
        } else {
            self.display_name.clone().concat(" (").concat(self.id.as_str()).concat(")")
        }
    }
}

/// What `str::to_lowercase` gives for a text.
pub uninterp spec fn lowercase(s: Seq<char>) -> Seq<char>;

/// The text in lower case (`str::to_lowercase`, Unicode case mapping). The
/// contract claims only that the result is the named function of the text.
#[verifier::external_body]
fn to_lowercase(s: &str) -> (r: String)
    ensures
        r@ == lowercase(s@),
{
    s.to_lowercase()
}

/// Whether a model id belongs to a listed family: Sonnet, Opus, GLM, Gemini
/// Pro, Kimi or DeepSeek (matched in lower case).
pub open spec fn allowed_model(id: Seq<char>) -> bool {
    let l = lowercase(id);
    ||| contains_seq(l, "sonnet"@)
    ||| contains_seq(l, "opus"@)
    ||| contains_seq(l, "glm"@)
    ||| contains_seq(l, "gemini"@) && contains_seq(l, "pro"@)
    ||| contains_seq(l, "kimi"@)
    ||| contains_seq(l, "deepseek"@)
}

/// Whether a model id belongs to a listed family.
pub fn is_allowed_model(model_id: &str) -> (r: bool)
    ensures
        r == allowed_model(model_id@),
{
    let lower = to_lowercase(model_id);
    let l = chars_of(lower.as_str());
    contains(&l, &chars_of("sonnet")) || contains(&l, &chars_of("opus")) || contains(&l, &chars_of("glm"))
        || (contains(&l, &chars_of("gemini")) && contains(&l, &chars_of("pro")))
        || contains(&l, &chars_of("kimi")) || contains(&l, &chars_of("deepseek"))
}

/// A model as listed by a provider: its id and optional name.
pub open spec fn listed(v: Seq<(String, Option<String>)>) -> Seq<(Seq<char>, Seq<char>)>
    decreases v.len(),
{
    if v.len() == 0 {
        Seq::empty()
    } else {
        let rest = listed(v.drop_last());
        let id = v.last().0@;
        let name = match v.last().1 {
            Some(n) => n@,
            None => id,
        };
        if allowed_model(id) { rest.push((id, name)) } else { rest }
    }
}

/// The models to offer from what a provider lists: each model's name
/// defaults to its id, models outside the listed families are dropped, and
/// the rest are sorted by id.
pub fn select_models(raw: Vec<(String, Option<String>)>) -> (r: Vec<ModelInfo>)
    ensures
        r@.map_values(|m: ModelInfo| (m.id@, m.display_name@)) == sort_by_key(listed(raw@)),
{
    let mut kept: Vec<(String, String)> = Vec::new();
    let mut i: usize = 0;
    while i < raw.len()
        invariant
            i <= raw@.len(),
            pairs_of(kept@) == listed(raw@.take(i as int)),
        decreases raw.len() - i,
    {
        assert(raw@.take(i + 1).drop_last() =~= raw@.take(i as int));
        assert(raw@.take(i + 1).last() == raw@[i as int]);
        let id = raw[i].0.clone();
        let name = match &raw[i].1 {
            Some(n) => n.clone(),
            None => id.clone(),
        };
        if is_allowed_model(id.as_str()) {
            let ghost prev = kept@;
            kept.push((id, name));
            assert(pairs_of(kept@) =~= pairs_of(prev).push((kept@.last().0@, kept@.last().1@)));
        }
        i = i + 1;
    }
    assert(raw@.take(raw@.len() as int) =~= raw@);
    let sorted = sort_pairs_by_key(kept);
    let mut r: Vec<ModelInfo> = Vec::new();
    let mut j: usize = 0;
    while j < sorted.len()
        invariant
            j <= sorted@.len(),
            r@.map_values(|m: ModelInfo| (m.id@, m.display_name@)) == pairs_of(sorted@).take(j as int),
        decreases sorted.len() - j,
    {
        let m = ModelInfo { id: sorted[j].0.clone(), display_name: sorted[j].1.clone() };
        assert(m.id@ == sorted@[j as int].0@ && m.display_name@ == sorted@[j as int].1@);
        let ghost prev = r@;
        r.push(m);
        assert(pairs_of(sorted@)[j as int] == (sorted@[j as int].0@, sorted@[j as int].1@));
        assert(r@.map_values(|m: ModelInfo| (m.id@, m.display_name@)) =~= prev.map_values(|m: ModelInfo| (m.id@, m.display_name@)).push((m.id@, m.display_name@)));
        assert(r@.map_values(|m: ModelInfo| (m.id@, m.display_name@)) =~= pairs_of(sorted@).take(j + 1));
        j = j + 1;
    }
    assert(pairs_of(sorted@).take(sorted@.len() as int) =~= pairs_of(sorted@));
    r
}

/// The path, relative to a provider type's base URL, that lists its models.
pub open spec fn models_path(t: ProviderType) -> Seq<char> {
    match t {
        ProviderType::Anthropic => "models?limit=100"@,
        _ => "models"@,
    }
}

/// The URL that lists a provider type's models: the models path joined onto
/// its parsed base URL; a base URL or join refused is `InvalidUrl`.
pub fn models_endpoint(provider_type: ProviderType) -> (r: Result<String, AiError>)
    ensures
        match url_parse(provider_base_url(provider_type)) {
            None => r matches Err(e) && e is InvalidUrl,
            Some(base) => match url_join(base, models_path(provider_type)) {
                Some(u) => r matches Ok(s) && s@ == u,
                None => r matches Err(e) && e is InvalidUrl,
            },
        },
{
    let base = match parse_url(provider_type.base_url()) {
        Ok(b) => b,
        Err(m) => return Err(AiError::InvalidUrl(m)),
    };
    let path = match provider_type {
        ProviderType::Anthropic => "models?limit=100",
        _ => "models",
    };
    match join_url(base.as_str(), path) {
        Ok(u) => Ok(u),
        Err(m) => Err(AiError::InvalidUrl(m)),
    }
}

} // verus!
