//! The platform dispatcher's decisions.
//!
//! One run creates exactly one remote request. Which platform receives it is
//! an explicit ordered policy over the configured credentials; the
//! operator-supplied identifier is then parsed into that platform's shape,
//! and every field of the outgoing request is fixed here, as a plan the
//! binary only has to send.

use vstd::prelude::*;
use crate::error::ShipItError;
use crate::numbers::{all_digits, digits_value, parse_u64};
use crate::settings::Settings;

verus! {

/// The hosting platforms a request can go to.
#[derive(Debug, Clone, Copy, PartialEq, Eq, Structural)]
pub enum Platform {
    GitHub,
    GitLab,
}

/// The selection policy, explicit and ordered: GitHub whenever its
/// credential is configured, else GitLab, else nobody to dispatch to.
pub fn select_platform(settings: &Settings) -> (r: Result<Platform, ShipItError>)
    ensures
        settings.github.token is Some ==> r == Ok::<Platform, ShipItError>(Platform::GitHub),
        settings.github.token is None && settings.gitlab.token is Some ==> r == Ok::<
            Platform,
            ShipItError,
        >(Platform::GitLab),
        settings.github.token is None && settings.gitlab.token is None ==> r == Err::<
            Platform,
            ShipItError,
        >(ShipItError::NoPlatformConfigured),
{
    if settings.github.token.is_some() {
        Ok(Platform::GitHub)
    } else if settings.gitlab.token.is_some() {
        Ok(Platform::GitLab)
    } else {
        Err(ShipItError::NoPlatformConfigured)
    }
}

/// How many slashes `s` holds.
pub open spec fn slash_count(s: Seq<char>) -> nat
    decreases s.len(),
{
    if s.len() == 0 {
        0
    } else {
        slash_count(s.drop_last()) + (if s.last() == '/' {
            1nat
        } else {
            0nat
        })
    }
}

/// Position `k` splits `s` as `owner/repo`: the sole slash, with text on
/// both sides.
pub open spec fn splits_github(s: Seq<char>, k: int) -> bool {
    &&& 0 < k
    &&& k + 1 < s.len()
    &&& s[k] == '/'
    &&& forall|j: int| 0 <= j < s.len() && j != k ==> s[j] != '/'
}

/// Is `s` a well-formed GitHub identifier, `owner/repo` with exactly one
/// slash and nonempty halves?
pub open spec fn valid_github_identifier(s: Seq<char>) -> bool {
    exists|k: int| splits_github(s, k)
}

/// A slash at `j` makes the count positive.
proof fn lemma_slash_count_pos(s: Seq<char>, j: int)
    requires
        0 <= j < s.len(),
        s[j] == '/',
    ensures
        slash_count(s) >= 1,
    decreases s.len(),
{
    if j == s.len() - 1 {
    } else {
        assert(s.drop_last()[j] == s[j]);
        lemma_slash_count_pos(s.drop_last(), j);
    }
}

/// Two slashes make the count at least two.
proof fn lemma_slash_count_two(s: Seq<char>, j: int, k: int)
    requires
        0 <= j < k < s.len(),
        s[j] == '/',
        s[k] == '/',
    ensures
        slash_count(s) >= 2,
    decreases s.len(),
{
    if k == s.len() - 1 {
        assert(s.drop_last()[j] == s[j]);
        lemma_slash_count_pos(s.drop_last(), j);
    } else {
        assert(s.drop_last()[j] == s[j]);
        assert(s.drop_last()[k] == s[k]);
        lemma_slash_count_two(s.drop_last(), j, k);
    }
}

/// With no slash anywhere the count is zero.
proof fn lemma_no_slash_count_zero(s: Seq<char>)
    requires
        forall|j: int| 0 <= j < s.len() ==> s[j] != '/',
    ensures
        slash_count(s) == 0,
    decreases s.len(),
{
    if s.len() > 0 {
        assert forall|j: int| 0 <= j < s.drop_last().len() implies s.drop_last()[j] != '/' by {
            assert(s.drop_last()[j] == s[j]);
        }
        lemma_no_slash_count_zero(s.drop_last());
    }
}

/// A sole slash makes the count exactly one.
proof fn lemma_count_split(s: Seq<char>, k: int)
    requires
        0 <= k < s.len(),
        s[k] == '/',
        forall|j: int| 0 <= j < s.len() && j != k ==> s[j] != '/',
    ensures
        slash_count(s) == 1,
    decreases s.len(),
{
    if k == s.len() - 1 {
        assert forall|j: int| 0 <= j < s.drop_last().len() implies s.drop_last()[j] != '/' by {
            assert(s.drop_last()[j] == s[j]);
        }
        lemma_no_slash_count_zero(s.drop_last());
    } else {
        assert forall|j: int|
            0 <= j < s.drop_last().len() && j != k implies s.drop_last()[j] != '/' by {
            assert(s.drop_last()[j] == s[j]);
        }
        assert(s.drop_last()[k] == s[k]);
        lemma_count_split(s.drop_last(), k);
        assert(s.last() != '/');
    }
}

/// A count of one means: the one slash seen is the only one.
proof fn lemma_single_slash(s: Seq<char>, k: int)
    requires
        0 <= k < s.len(),
        s[k] == '/',
        slash_count(s) == 1,
    ensures
        forall|j: int| 0 <= j < s.len() && j != k ==> s[j] != '/',
{
    assert forall|j: int| 0 <= j < s.len() && j != k implies s[j] != '/' by {
        if s[j] == '/' {
            if j < k {
                lemma_slash_count_two(s, j, k);
            } else {
                lemma_slash_count_two(s, k, j);
            }
        }
    }
}

/// Parses a GitHub identifier into its owner and repository halves.
/// Succeeds exactly on `owner/repo`: one slash, text on both sides.
pub fn parse_github_identifier(s: &str) -> (r: Option<(String, String)>)
    ensures
        r is Some <==> valid_github_identifier(s@),
        r matches Some((owner, repo)) ==> {
            &&& splits_github(s@, owner@.len() as int)
            &&& owner@ == s@.subrange(0, owner@.len() as int)
            &&& repo@ == s@.subrange(owner@.len() as int + 1, s@.len() as int)
        },
{
    let n = s.unicode_len();
    let mut slashes: usize = 0;
    let mut first_pos: usize = 0;
    let mut i: usize = 0;
    while i < n
        invariant
            i <= n,
            n == s@.len(),
            slashes == slash_count(s@.take(i as int)),
            slashes > 0 ==> first_pos < i && s@[first_pos as int] == '/',
            slashes <= i,
        decreases n - i,
    {
        proof {
            assert(s@.take(i as int + 1).drop_last() =~= s@.take(i as int));
            assert(s@.take(i as int + 1).last() == s@[i as int]);
        }
        let c = s.get_char(i);
        if c == '/' {
            if slashes == 0 {
                first_pos = i;
            }
            slashes = slashes + 1;
        }
        i = i + 1;
    }
    proof {
        assert(s@.take(n as int) =~= s@);
    }
    if slashes == 1 && first_pos > 0 && first_pos + 1 < n {
        proof {
            lemma_single_slash(s@, first_pos as int);
            assert(splits_github(s@, first_pos as int));
        }
        let owner = s.substring_char(0, first_pos).to_owned();
        let repo = s.substring_char(first_pos + 1, n).to_owned();
        assert(owner@.len() == first_pos as int);
        Some((owner, repo))
    } else {
        proof {
            if valid_github_identifier(s@) {
                let k = choose|k: int| splits_github(s@, k);
                lemma_count_split(s@, k);
                // So the scan saw exactly one slash, at the split position —
                // and that position was rejected, against the split's shape.
                assert(slashes == 1);
                assert(s@[first_pos as int] == '/');
                assert(first_pos as int == k);
                assert(false);
            }
        }
        None
    }
}

/// Is `s` a well-formed GitLab identifier: an unsigned numeric project id?
pub open spec fn valid_gitlab_identifier(s: Seq<char>) -> bool {
    s.len() > 0 && all_digits(s) && digits_value(s) <= u64::MAX
}

/// The title every request carries: `"{source} to {target}"`.
pub open spec fn title_spec(source: Seq<char>, target: Seq<char>) -> Seq<char> {
    source + " to "@ + target
}

/// Builds the request title from the two branch names.
pub fn make_title(source: &str, target: &str) -> (r: String)
    ensures
        r@ == title_spec(source@, target@),
{
    let mut s = source.to_owned();
    s.append(" to ");
    s.append(target);
    proof {
        assert(s@ =~= title_spec(source@, target@));
    }
    s
}

/// Everything one request-creation call needs, fixed before anything is
/// sent: the platform's coordinates, the parsed identifier, and the texts.
#[derive(Debug, Clone)]
pub enum DispatchPlan {
    GitHub {
        domain: String,
        base_uri: Option<String>,
        token: String,
        owner: String,
        repo: String,
        title: String,
        body: String,
        head: String,
        base: String,
    },
    GitLab {
        domain: String,
        token: String,
        project_id: u64,
        title: String,
        description: String,
        source_branch: String,
        target_branch: String,
        remove_source_branch: bool,
    },
}

/// What a finished dispatch plan looks like: the platform chosen by the
/// credential policy, the identifier parsed into that platform's shape, and
/// every field of the outgoing call fixed — or the error naming what was
/// missing or malformed.
pub open spec fn dispatch_plan_spec(
    settings: Settings,
    identifier: Seq<char>,
    source: Seq<char>,
    target: Seq<char>,
    description: Seq<char>,
    r: Result<DispatchPlan, ShipItError>,
) -> bool {
    &&& (settings.github.token matches Some(tok) ==> {
        if valid_github_identifier(identifier) {
            r matches Ok(p) && (p matches DispatchPlan::GitHub {
                domain,
                base_uri,
                token,
                owner,
                repo,
                title,
                body,
                head,
                base,
            } && {
                &&& domain@ == settings.github.domain@
                &&& (domain@ == "github.com"@ ==> base_uri is None)
                &&& (domain@ != "github.com"@ ==> (base_uri matches Some(u) && u@ == "https://"@
                    + domain@ + "/api/v3/"@))
                &&& token@ == tok@
                &&& splits_github(identifier, owner@.len() as int)
                &&& owner@ == identifier.subrange(0, owner@.len() as int)
                &&& repo@ == identifier.subrange(owner@.len() as int + 1, identifier.len() as int)
                &&& title@ == title_spec(source, target)
                &&& body@ == description
                &&& head@ == source
                &&& base@ == target
            })
        } else {
            r == Err::<DispatchPlan, ShipItError>(ShipItError::InvalidIdentifierFormat)
        }
    })
    &&& (settings.github.token is None ==> (settings.gitlab.token matches Some(tok) ==> {
        if valid_gitlab_identifier(identifier) {
            r matches Ok(p) && (p matches DispatchPlan::GitLab {
                domain,
                token,
                project_id,
                title,
                description: desc,
                source_branch,
                target_branch,
                remove_source_branch,
            } && {
                &&& domain@ == settings.gitlab.domain@
                &&& token@ == tok@
                &&& project_id == digits_value(identifier)
                &&& title@ == title_spec(source, target)
                &&& desc@ == description
                &&& source_branch@ == source
                &&& target_branch@ == target
                &&& remove_source_branch == true
            })
        } else {
            r == Err::<DispatchPlan, ShipItError>(ShipItError::InvalidIdentifierFormat)
        }
    }))
    &&& (settings.github.token is None && settings.gitlab.token is None ==> r == Err::<
        DispatchPlan,
        ShipItError,
    >(ShipItError::NoPlatformConfigured))
}

/// Plans the one request this run creates: selects the platform by the
/// credential policy, parses the identifier into that platform's shape, and
/// fixes every field of the outgoing call.
pub fn build_dispatch(
    settings: &Settings,
    identifier: &str,
    source: &str,
    target: &str,
    description: String,
) -> (r: Result<DispatchPlan, ShipItError>)
    ensures
        dispatch_plan_spec(*settings, identifier@, source@, target@, description@, r),
{
    let platform = match select_platform(settings) {
        Ok(p) => p,
        Err(e) => {
            return Err(e);
        },
    };
    match platform {
        Platform::GitHub => {
            match parse_github_identifier(identifier) {
                Some((owner, repo)) => Ok(
                    DispatchPlan::GitHub {
                        domain: clone_string(&settings.github.domain),
                        base_uri: github_base_uri(&settings.github.domain),
                        token: clone_token(&settings.github.token),
                        owner,
                        repo,
                        title: make_title(source, target),
                        body: description,
                        head: source.to_owned(),
                        base: target.to_owned(),
                    },
                ),
                None => Err(ShipItError::InvalidIdentifierFormat),
            }
        },
        Platform::GitLab => {
            match parse_u64(identifier) {
                Some(project_id) => Ok(
                    DispatchPlan::GitLab {
                        domain: clone_string(&settings.gitlab.domain),
                        token: clone_token(&settings.gitlab.token),
                        project_id,
                        title: make_title(source, target),
                        description,
                        source_branch: source.to_owned(),
                        target_branch: target.to_owned(),
                        remove_source_branch: true,
                    },
                ),
                None => Err(ShipItError::InvalidIdentifierFormat),
            }
        },
    }
}

/// The base API address for a GitHub instance: the stock host uses the
/// builtin default; a self-hosted instance is reached under `/api/v3/` on
/// its own domain.
fn github_base_uri(domain: &String) -> (r: Option<String>)
    ensures
        domain@ == "github.com"@ ==> r is None,
        domain@ != "github.com"@ ==> (r matches Some(u) && u@ == "https://"@ + domain@
            + "/api/v3/"@),
{
    let stock = String::from_str("github.com");
    if *domain == stock {
        None
    } else {
        let mut s = String::from_str("https://");
        s.append(domain.as_str());
        s.append("/api/v3/");
        proof {
            assert(s@ =~= "https://"@ + domain@ + "/api/v3/"@);
        }
        Some(s)
    }
}

/// A copy of a string, by value.
fn clone_string(s: &String) -> (r: String)
    ensures
        r@ == s@,
{
    s.clone()
}

/// The credential's text, where one is present.
fn clone_token(t: &Option<String>) -> (r: String)
    requires
        t is Some,
    ensures
        t matches Some(s) ==> r@ == s@,
{
    match t {
        Some(s) => s.clone(),
        None => String::new(),
    }
}

/// Decides the pipeline's outcome from what the platform answered: the
/// created request's URL, or a failure when the response carried none.
pub fn finish_dispatch(url: Option<String>) -> (r: Result<String, ShipItError>)
    ensures
        url matches Some(u) ==> r == Ok::<String, ShipItError>(u),
        url is None ==> r == Err::<String, ShipItError>(ShipItError::PlatformAPIError),
{
    match url {
        Some(u) => Ok(u),
        None => Err(ShipItError::PlatformAPIError),
    }
}

} // verus!
