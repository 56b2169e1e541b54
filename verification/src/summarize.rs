//! The summarizer call, planned.
//!
//! When AI rewriting is enabled the raw description goes to a local
//! text-generation endpoint, wrapped in a fixed categorization prompt. The
//! endpoint's address, the model name and the full prompt are all fixed
//! here; the binary only posts them and hands the answer back. The sampling
//! temperatures, being floating point, stay with the binary.

use vstd::prelude::*;
use crate::numbers::{dec_spec, to_decimal};
use crate::settings::OllamaSettings;

verus! {

/// The fixed instructions the raw description is appended to.
pub open spec fn prompt_prefix() -> Seq<char> {
    "You are a technical writer tasked with creating organized and concise release notes. Categorize the following comma separated list of commit titles followed by their commit ids into markdown formatted subheadings.  The heading cateogries are new features, bug fixes, infrastructure, and docs.  If a category has no content, exclude it from the output. Do not format or alter the commit messages in any other way. Do not wrap the body of your result in markdown syntax highlighting ticks.\n\n"@
}

/// The summarizer endpoint's address: plain HTTP against a host, port and
/// path.
pub open spec fn summarize_url_spec(domain: Seq<char>, port: int, endpoint: Seq<char>) -> Seq<
    char,
> {
    "http://"@ + domain + ":"@ + dec_spec(port) + endpoint
}

/// Everything one summarization call needs, fixed before anything is sent.
#[derive(Debug, Clone)]
pub struct SummarizeRequest {
    pub url: String,
    pub model: String,
    pub prompt: String,
    pub seed: u64,
}

/// Builds the full prompt: the fixed instructions, then the raw description.
pub fn build_prompt(text: &str) -> (r: String)
    ensures
        r@ == prompt_prefix() + text@,
{
    let mut s = String::from_str(
        "You are a technical writer tasked with creating organized and concise release notes. Categorize the following comma separated list of commit titles followed by their commit ids into markdown formatted subheadings.  The heading cateogries are new features, bug fixes, infrastructure, and docs.  If a category has no content, exclude it from the output. Do not format or alter the commit messages in any other way. Do not wrap the body of your result in markdown syntax highlighting ticks.\n\n",
    );
    s.append(text);
    s
}

/// Builds the endpoint address from the configured host, port and path.
pub fn build_summarize_url(ollama: &OllamaSettings) -> (r: String)
    ensures
        r@ == summarize_url_spec(ollama.domain@, ollama.port as int, ollama.endpoint@),
{
    let mut s = String::from_str("http://");
    s.append(ollama.domain.as_str());
    s.append(":");
    let port = to_decimal(ollama.port as u64);
    s.append(port.as_str());
    s.append(ollama.endpoint.as_str());
    proof {
        assert(s@ =~= summarize_url_spec(ollama.domain@, ollama.port as int, ollama.endpoint@));
    }
    s
}

/// What a finished summarization request looks like, given the endpoint
/// settings and the raw description.
pub open spec fn summarize_request_spec(
    o: OllamaSettings,
    description: Seq<char>,
    r: SummarizeRequest,
) -> bool {
    &&& r.url@ == summarize_url_spec(o.domain@, o.port as int, o.endpoint@)
    &&& r.model@ == o.model@
    &&& r.prompt@ == prompt_prefix() + description
    &&& r.seed == o.seed
}

/// Plans the one summarization call of a run: address, model, prompt, seed.
pub fn build_summarize_request(ollama: &OllamaSettings, description: &str) -> (r: SummarizeRequest)
    ensures
        summarize_request_spec(*ollama, description@, r),
{
    SummarizeRequest {
        url: build_summarize_url(ollama),
        model: clone_model(&ollama.model),
        prompt: build_prompt(description),
        seed: ollama.seed,
    }
}

/// A copy of the configured model name.
fn clone_model(s: &String) -> (r: String)
    ensures
        r@ == s@,
{
    s.clone()
}

} // verus!
