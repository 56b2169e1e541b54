//! The validated configuration the pipeline runs against.
//!
//! The binary loads and stores these settings on disk; the library only ever
//! sees the finished values. Sampling parameters of the summarizer that the
//! library never reads (temperature, top-p) live with the binary.

use vstd::prelude::*;

verus! {

/// Behaviour switches of one run.
#[derive(Debug, Clone)]
pub struct ShipitSettings {
    pub agent: String,
    pub ai: bool,
    pub commits: String,
    pub dryrun: bool,
}

impl Default for ShipitSettings {
    /// The stock configuration: summarize with ollama, AI off, no dry run.
    fn default() -> (r: Self)
        ensures
            r.agent@ == "ollama"@,
            r.ai == false,
            r.commits@ == "custom"@,
            r.dryrun == false,
    {
        ShipitSettings {
            agent: String::from_str("ollama"),
            ai: false,
            commits: String::from_str("custom"),
            dryrun: false,
        }
    }
}

/// Where and what to ask for a summary.
#[derive(Debug, Clone)]
pub struct OllamaSettings {
    pub model: String,
    pub domain: String,
    pub port: u16,
    pub endpoint: String,
    pub seed: u64,
}

impl Default for OllamaSettings {
    /// The stock summarizer endpoint: a local ollama instance.
    fn default() -> (r: Self)
        ensures
            r.model@ == "qwen2.5-coder:7b"@,
            r.domain@ == "localhost"@,
            r.port == 11434,
            r.endpoint@ == "/api/generate"@,
            r.seed == 43,
    {
        OllamaSettings {
            model: String::from_str("qwen2.5-coder:7b"),
            domain: String::from_str("localhost"),
            port: 11434,
            endpoint: String::from_str("/api/generate"),
            seed: 43,
        }
    }
}

/// GitLab access: the instance's domain and an optional credential.
/// The platform counts as configured exactly when `token` is present.
#[derive(Debug, Clone)]
pub struct GitlabSettings {
    pub domain: String,
    pub token: Option<String>,
}

impl Default for GitlabSettings {
    /// The stock GitLab instance, with no credential configured.
    fn default() -> (r: Self)
        ensures
            r.domain@ == "gitlab.com"@,
            r.token is None,
    {
        GitlabSettings { domain: String::from_str("gitlab.com"), token: None }
    }
}

/// GitHub access: the instance's domain and an optional credential.
/// The platform counts as configured exactly when `token` is present.
#[derive(Debug, Clone)]
pub struct GithubSettings {
    pub domain: String,
    pub token: Option<String>,
}

impl Default for GithubSettings {
    /// The stock GitHub instance, with no credential configured.
    fn default() -> (r: Self)
        ensures
            r.domain@ == "github.com"@,
            r.token is None,
    {
        GithubSettings { domain: String::from_str("github.com"), token: None }
    }
}

/// Everything one run is configured with.
#[derive(Debug, Clone)]
pub struct Settings {
    pub shipit: ShipitSettings,
    pub ollama: OllamaSettings,
    pub github: GithubSettings,
    pub gitlab: GitlabSettings,
}

impl Default for Settings {
    /// The stock configuration of every component.
    fn default() -> (r: Self)
        ensures
            r.shipit.ai == false,
            r.shipit.dryrun == false,
            r.github.token is None,
            r.gitlab.token is None,
    {
        Settings {
            shipit: ShipitSettings::default(),
            ollama: OllamaSettings::default(),
            github: GithubSettings::default(),
            gitlab: GitlabSettings::default(),
        }
    }
}

} // verus!
