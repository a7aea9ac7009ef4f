//! Resolution of the latest release: the cache first, then the release API,
//! then the public release page. The host performs each fetch that an action
//! asks for and hands the outcome back.
use vstd::prelude::*;
use vstd::string::*;
use crate::cache::{ReleaseCache, stores, CACHE_WINDOW_MS, LATEST_RELEASE_KEY};
use crate::release::{GitHubRelease, extract_version_from_html, scraped_tag};
use crate::text::{decimal, push_decimal};

verus! {

/// Why a resolution strategy, or the whole resolution, failed.
#[derive(Debug, Clone)]
pub enum ResolveError {
    /// The API refused with no requests left in the rate-limit window.
    RateLimited,
    /// A non-success status, with the response body.
    StrategyFailed(u16, String),
    /// The request could not be made or its answer could not be read.
    RequestFailed(String),
    /// The release page answered with a non-success status.
    PageFailed(u16),
    /// The release page links no release tag.
    NoVersionInPage,
    /// Neither strategy produced a release.
    AllSourcesFailed,
}

/// The next step of a resolution.
#[derive(Debug, Clone)]
pub enum ResolveAction {
    /// The latest release is known.
    Resolved(GitHubRelease),
    /// Ask the release API for the latest release.
    FetchPrimary,
    /// Fetch the public release page.
    FetchSecondary,
    /// Resolution is over, without a release.
    Failed(ResolveError),
}

/// The text shown for an error.
pub open spec fn error_text(e: ResolveError) -> Seq<char> {
    match e {
        ResolveError::RateLimited => "GitHub API rate limit exceeded"@,
        ResolveError::StrategyFailed(status, body) => "GitHub API error: "@ + decimal(
            status as nat,
        ) + " - "@ + body@,
        ResolveError::RequestFailed(m) => m@,
        ResolveError::PageFailed(status) => "Failed to fetch releases page: "@ + decimal(
            status as nat,
        ),
        ResolveError::NoVersionInPage => "Could not extract version from releases page"@,
        ResolveError::AllSourcesFailed =>
            "All update check methods failed. This could be due to network issues or GitHub API rate limits. Please try again later."@,
    }
}

/// A 2xx status.
pub open spec fn is_success(status: u16) -> bool {
    200 <= status < 300
}

impl ResolveError {
    /// The text shown for this error.
    pub fn message(&self) -> (r: String)
        ensures
            r@ == error_text(*self),
    {
        match self {
            ResolveError::RateLimited => String::from_str("GitHub API rate limit exceeded"),
            ResolveError::StrategyFailed(status, body) => {
                let mut s = String::from_str("GitHub API error: ");
                push_decimal(&mut s, *status as u64);
                s.append(" - ");
                s.append(body.as_str());
                s
            },
            ResolveError::RequestFailed(m) => m.clone(),
            ResolveError::PageFailed(status) => {
                let mut s = String::from_str("Failed to fetch releases page: ");
                push_decimal(&mut s, *status as u64);
                s
            },
            ResolveError::NoVersionInPage => String::from_str(
                "Could not extract version from releases page",
            ),
            ResolveError::AllSourcesFailed => String::from_str(
                "All update check methods failed. This could be due to network issues or GitHub API rate limits. Please try again later.",
            ),
        }
    }
}

/// A 403 whose rate-limit-remaining header reads `0`.
pub open spec fn is_rate_limited(status: u16, rate_limit_remaining: Option<&str>) -> bool {
    status == 403 && match rate_limit_remaining {
        Some(h) => h@ == "0"@,
        None => false,
    }
}

/// Judges the status of an answer: success for a 2xx status; rate limiting
/// for a 403 whose rate-limit-remaining header reads `0`; otherwise a
/// strategy failure carrying the status and the body.
pub fn check_response(status: u16, rate_limit_remaining: Option<&str>, body: &str) -> (r: Result<
    (),
    ResolveError,
>)
    ensures
        is_success(status) ==> r is Ok,
        !is_success(status) && is_rate_limited(status, rate_limit_remaining) ==> r matches Err(
            ResolveError::RateLimited,
        ),
        !is_success(status) && !is_rate_limited(status, rate_limit_remaining) ==> (r matches Err(
            ResolveError::StrategyFailed(s, b),
        ) && s == status && b@ == body@),
{
    proof {
        reveal_strlit("0");
    }
    if 200 <= status && status < 300 {
        return Ok(());
    }
    if status == 403 {
        if let Some(h) = rate_limit_remaining {
            if h.unicode_len() == 1 && h.get_char(0) == '0' {
                assert(h@ =~= "0"@);
                return Err(ResolveError::RateLimited);
            }
        }
    }
    Err(ResolveError::StrategyFailed(status, body.to_string()))
}

/// The cache key of the latest release.
pub open spec fn latest_key() -> Seq<char> {
    LATEST_RELEASE_KEY@
}

/// Judges the status of the release page: success for a 2xx status, else a
/// page failure carrying the status.
pub fn check_page(status: u16) -> (r: Result<(), ResolveError>)
    ensures
        is_success(status) ==> r is Ok,
        !is_success(status) ==> (r matches Err(ResolveError::PageFailed(s)) && s == status),
{
    if 200 <= status && status < 300 {
        Ok(())
    } else {
        Err(ResolveError::PageFailed(status))
    }
}

/// The first step at `now`: a release cached less than ten minutes before is
/// reused, else the release API is asked.
pub open spec fn begin_action(cache: ReleaseCache, now: int) -> ResolveAction {
    match cache.fresh_at(latest_key(), now) {
        Some(r) => ResolveAction::Resolved(r),
        None => ResolveAction::FetchPrimary,
    }
}

/// The step after the release API answered.
pub open spec fn primary_action(outcome: Result<GitHubRelease, ResolveError>) -> ResolveAction {
    match outcome {
        Ok(r) => ResolveAction::Resolved(r),
        Err(_) => ResolveAction::FetchSecondary,
    }
}

/// `after` is the cache after the release API answered at `now`, starting
/// from `before`: a release it gave is stored under the latest-release key, a
/// failure leaves the cache as it was.
pub open spec fn primary_cache(
    after: ReleaseCache,
    before: ReleaseCache,
    outcome: Result<GitHubRelease, ResolveError>,
    now: i64,
) -> bool {
    match outcome {
        Ok(r) => stores(after, before, latest_key(), r, now),
        Err(_) => after == before,
    }
}

/// `r` is what the release page yields after it was fetched with `page`: the
/// record made from the tag it links, a report that it links none, or the
/// failure of the fetch itself.
pub open spec fn page_release(page: Result<String, ResolveError>, r: Result<
    GitHubRelease,
    ResolveError,
>) -> bool {
    match page {
        Ok(html) => match scraped_tag(html@) {
            Some(t) => r matches Ok(rec) && rec.is_scraped_from(t),
            None => r matches Err(ResolveError::NoVersionInPage),
        },
        Err(e) => r == Err::<GitHubRelease, ResolveError>(e),
    }
}

/// The step after the release page strategy ended: its release, or the
/// final failure.
pub open spec fn secondary_action(outcome: Result<GitHubRelease, ResolveError>) -> ResolveAction {
    match outcome {
        Ok(r) => ResolveAction::Resolved(r),
        Err(_) => ResolveAction::Failed(ResolveError::AllSourcesFailed),
    }
}

/// The first step of a resolution at `now`.
pub fn begin(cache: &ReleaseCache, now: i64) -> (r: ResolveAction)
    ensures
        r == begin_action(*cache, now as int),
{
    match cache.fresh_release(LATEST_RELEASE_KEY, now) {
        Some(rel) => ResolveAction::Resolved(rel),
        None => ResolveAction::FetchPrimary,
    }
}

/// The step after the release API answered at `now`; a release it gave is
/// cached.
pub fn after_primary(
    cache: &mut ReleaseCache,
    outcome: Result<GitHubRelease, ResolveError>,
    now: i64,
) -> (r: ResolveAction)
    ensures
        r == primary_action(outcome),
        primary_cache(*final(cache), *old(cache), outcome, now),
        old(cache).wf() ==> final(cache).wf(),
{
    match outcome {
        Ok(rel) => {
            let kept = rel.duplicate();
            cache.put(LATEST_RELEASE_KEY, rel, now);
            ResolveAction::Resolved(kept)
        },
        Err(_) => ResolveAction::FetchSecondary,
    }
}

/// The release the fetched page yields: the record for the tag it links
/// first, or why there is none.
pub fn scrape_release(page: Result<String, ResolveError>) -> (r: Result<GitHubRelease, ResolveError>)
    ensures
        page_release(page, r),
{
    match page {
        Ok(html) => match extract_version_from_html(html.as_str()) {
            Some(tag) => Ok(GitHubRelease::from_scraped_tag(tag.as_str())),
            None => Err(ResolveError::NoVersionInPage),
        },
        Err(e) => Err(e),
    }
}

/// The step after the release page strategy ended. Its release is not
/// cached.
pub fn after_secondary(outcome: Result<GitHubRelease, ResolveError>) -> (r: ResolveAction)
    ensures
        r == secondary_action(outcome),
{
    match outcome {
        Ok(rel) => ResolveAction::Resolved(rel),
        Err(_) => ResolveAction::Failed(ResolveError::AllSourcesFailed),
    }
}

/// A release that the API gave at `t` is reused, with no fetch, by a
/// resolution begun less than ten minutes later; one begun ten minutes or
/// more later asks the API again.
pub proof fn cache_round_trip(
    before: ReleaseCache,
    after: ReleaseCache,
    release: GitHubRelease,
    t: i64,
    later: int,
)
    requires
        primary_cache(after, before, Ok(release), t),
        t <= later,
    ensures
        later - t < CACHE_WINDOW_MS ==> begin_action(after, later) == ResolveAction::Resolved(
            release,
        ),
        later - t >= CACHE_WINDOW_MS ==> begin_action(after, later) == ResolveAction::FetchPrimary,
{
    assert(after.entry(latest_key()) == Some(
        crate::cache::CacheEntry { release, cached_at: t },
    ));
}

/// Whatever made the release API fail, rate limiting included, the release
/// page is fetched next with the cache untouched, and after that fetch the
/// resolution is over: it neither fetches again nor asks the API.
pub proof fn fallback_chain(
    before: ReleaseCache,
    after: ReleaseCache,
    e: ResolveError,
    now: i64,
    page: Result<GitHubRelease, ResolveError>,
)
    requires
        primary_cache(after, before, Err(e), now),
    ensures
        primary_action(Err(e)) == ResolveAction::FetchSecondary,
        after == before,
        secondary_action(page) is Resolved || secondary_action(page) matches ResolveAction::Failed(
            ResolveError::AllSourcesFailed,
        ),
{
}

} // verus!
