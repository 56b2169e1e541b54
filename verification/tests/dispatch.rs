use shipit::error::ShipItError;
use shipit::platform::{
    build_dispatch,
    finish_dispatch,
    make_title,
    parse_github_identifier,
    select_platform,
    DispatchPlan,
    Platform,
};
use shipit::settings::Settings;

fn settings_with(github: Option<&str>, gitlab: Option<&str>) -> Settings {
    let mut settings = Settings::default();
    settings.github.token = github.map(|t| t.to_string());
    settings.gitlab.token = gitlab.map(|t| t.to_string());
    settings
}

#[test]
fn github_selected_when_both_configured() {
    let settings = settings_with(Some("gh-token"), Some("gl-token"));
    assert_eq!(select_platform(&settings).unwrap(), Platform::GitHub);
}

#[test]
fn gitlab_selected_when_only_gitlab_configured() {
    let settings = settings_with(None, Some("gl-token"));
    assert_eq!(select_platform(&settings).unwrap(), Platform::GitLab);
}

#[test]
fn no_platform_configured_is_an_error() {
    let settings = settings_with(None, None);
    assert_eq!(select_platform(&settings).unwrap_err(), ShipItError::NoPlatformConfigured);
}

#[test]
fn github_identifier_splits_owner_and_repo() {
    let (owner, repo) = parse_github_identifier("octocat/hello-world").unwrap();
    assert_eq!(owner, "octocat");
    assert_eq!(repo, "hello-world");
}

#[test]
fn github_identifier_rejects_malformed_forms() {
    assert!(parse_github_identifier("abc").is_none());
    assert!(parse_github_identifier("a/b/c").is_none());
    assert!(parse_github_identifier("/repo").is_none());
    assert!(parse_github_identifier("owner/").is_none());
    assert!(parse_github_identifier("").is_none());
}

#[test]
fn title_is_source_to_target() {
    assert_eq!(make_title("feature", "main"), "feature to main");
}

#[test]
fn github_dispatch_carries_every_field() {
    let settings = settings_with(Some("gh-token"), Some("gl-token"));
    let plan = build_dispatch(
        &settings,
        "octocat/hello-world",
        "feature",
        "main",
        "the description".to_string(),
    )
    .unwrap();
    match plan {
        DispatchPlan::GitHub { domain, base_uri, token, owner, repo, title, body, head, base } => {
            assert_eq!(domain, "github.com");
            assert!(base_uri.is_none());
            assert_eq!(token, "gh-token");
            assert_eq!(owner, "octocat");
            assert_eq!(repo, "hello-world");
            assert_eq!(title, "feature to main");
            assert_eq!(body, "the description");
            assert_eq!(head, "feature");
            assert_eq!(base, "main");
        },
        DispatchPlan::GitLab { .. } => panic!("GitHub takes priority"),
    }
}

#[test]
fn self_hosted_github_gets_a_derived_base_uri() {
    let mut settings = settings_with(Some("gh-token"), None);
    settings.github.domain = "ghe.example".to_string();
    let plan = build_dispatch(&settings, "octocat/hello-world", "feature", "main", "d".to_string())
        .unwrap();
    match plan {
        DispatchPlan::GitHub { domain, base_uri, .. } => {
            assert_eq!(domain, "ghe.example");
            assert_eq!(base_uri.unwrap(), "https://ghe.example/api/v3/");
        },
        DispatchPlan::GitLab { .. } => panic!("GitHub is configured"),
    }
}

#[test]
fn github_dispatch_rejects_bad_identifier() {
    let settings = settings_with(Some("gh-token"), None);
    let r = build_dispatch(&settings, "abc", "feature", "main", "d".to_string());
    assert_eq!(r.unwrap_err(), ShipItError::InvalidIdentifierFormat);
}

#[test]
fn gitlab_dispatch_carries_every_field() {
    let settings = settings_with(None, Some("gl-token"));
    let plan = build_dispatch(&settings, "12345", "feature", "main", "the description".to_string())
        .unwrap();
    match plan {
        DispatchPlan::GitLab {
            domain,
            token,
            project_id,
            title,
            description,
            source_branch,
            target_branch,
            remove_source_branch,
        } => {
            assert_eq!(domain, "gitlab.com");
            assert_eq!(token, "gl-token");
            assert_eq!(project_id, 12345);
            assert_eq!(title, "feature to main");
            assert_eq!(description, "the description");
            assert_eq!(source_branch, "feature");
            assert_eq!(target_branch, "main");
            assert!(remove_source_branch);
        },
        DispatchPlan::GitHub { .. } => panic!("no GitHub credential is configured"),
    }
}

#[test]
fn gitlab_dispatch_rejects_non_numeric_identifier() {
    let settings = settings_with(None, Some("gl-token"));
    let r = build_dispatch(&settings, "12a", "feature", "main", "d".to_string());
    assert_eq!(r.unwrap_err(), ShipItError::InvalidIdentifierFormat);
}

#[test]
fn dispatch_url_is_passed_through() {
    let r = finish_dispatch(Some("https://gitlab.com/x/y/-/merge_requests/1".to_string()));
    assert_eq!(r.unwrap(), "https://gitlab.com/x/y/-/merge_requests/1");
}

#[test]
fn missing_dispatch_url_is_a_platform_error() {
    assert_eq!(finish_dispatch(None).unwrap_err(), ShipItError::PlatformAPIError);
}
