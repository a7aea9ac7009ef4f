use mirror_update::cache::{ReleaseCache, CACHE_WINDOW_MS, LATEST_RELEASE_KEY};
use mirror_update::release::{extract_version_from_html, normalize_tag, GitHubRelease};
use mirror_update::resolver::{
    after_primary, after_secondary, begin, check_page, check_response, scrape_release, ResolveAction,
    ResolveError,
};
use mirror_update::update::{
    after_probe, check_download_status, check_downloaded, check_error, check_for_updates, detect_platform,
    file_name_from_url, finish_update, greet, install_started_message, launch_result,
    plan_download, platform_download_url, trigger_step, update_dir_name, update_found_message,
    DownloadPlan, TriggerStep, UpdateError, VersionInfo,
};
use mirror_update::version::{compare_versions, decide_newer};

const MINUTE_MS: i64 = 60_000;

fn release(tag: &str) -> GitHubRelease {
    GitHubRelease {
        tag_name: tag.to_string(),
        html_url: format!("https://github.com/Godi13/mirror/releases/tag/{}", tag),
        name: format!("Mirror {}", tag),
        body: "notes".to_string(),
    }
}

fn resolved_tag(a: &ResolveAction) -> Option<String> {
    match a {
        ResolveAction::Resolved(r) => Some(r.tag_name.clone()),
        _ => None,
    }
}

#[test]
fn semver_ordering_examples() {
    assert!(compare_versions("0.1.0", "0.1.1"));
    assert!(!compare_versions("0.2.0", "0.1.9"));
    assert!(!compare_versions("1.0.0", "1.0.0"));
    assert!(compare_versions("1.0.0-alpha", "1.0.0"));
    assert!(!compare_versions("1.0.0", "1.0.0-alpha"));
    assert!(compare_versions("9.0.0", "10.0.0"));
}

#[test]
fn text_fallback_examples() {
    assert!(compare_versions("abc", "abd"));
    assert!(!compare_versions("abd", "abc"));
    assert!(!compare_versions("abc", "abc"));
    assert!(!compare_versions("9", "10"));
    assert!(compare_versions("1.0", "1.0.1"));
    assert!(compare_versions("", "a"));
    assert!(!compare_versions("a", ""));
}

#[test]
fn decide_newer_uses_given_semver_verdict() {
    assert!(decide_newer("9", "10", Some(true)));
    assert!(!decide_newer("abc", "abd", Some(false)));
    assert!(!decide_newer("9", "10", None));
    assert!(decide_newer("abc", "abd", None));
    assert!(decide_newer("ab", "abc", None));
}

#[test]
fn tag_normalization() {
    assert_eq!(normalize_tag("v1.2.3"), "1.2.3");
    assert_eq!(normalize_tag("1.2.3"), "1.2.3");
    assert_eq!(normalize_tag("vv1.2.3"), "v1.2.3");
    assert_eq!(normalize_tag(""), "");
    assert_eq!(release("v0.3.0").version(), "0.3.0");
}

#[test]
fn html_tag_extraction() {
    let html = r#"<a href="/x"></a><a href="/Godi13/mirror/releases/tag/v0.1.5">v0.1.5</a>"#;
    assert_eq!(extract_version_from_html(html), Some("v0.1.5".to_string()));
    let two = r#"/Godi13/mirror/releases/tag/v2" and /Godi13/mirror/releases/tag/v1""#;
    assert_eq!(extract_version_from_html(two), Some("v2".to_string()));
    assert_eq!(extract_version_from_html(r#"/Godi13/mirror/releases/tag/""#), None);
    assert_eq!(extract_version_from_html("/Godi13/mirror/releases/tag/v1"), None);
    assert_eq!(extract_version_from_html("nothing here"), None);
    assert_eq!(extract_version_from_html(""), None);
}

#[test]
fn cache_round_trip_scenario() {
    let t: i64 = 1_700_000_000_000;
    let mut cache = ReleaseCache::new();
    assert!(matches!(begin(&cache, t), ResolveAction::FetchPrimary));
    let a = after_primary(&mut cache, Ok(release("v0.2.0")), t);
    assert_eq!(resolved_tag(&a), Some("v0.2.0".to_string()));
    let (fetched, at) = cache.get(LATEST_RELEASE_KEY).unwrap();
    assert_eq!(fetched.tag_name, "v0.2.0");
    assert_eq!(at, t);
    let again = begin(&cache, t + 9 * MINUTE_MS);
    match again {
        ResolveAction::Resolved(r) => {
            assert_eq!(r.tag_name, "v0.2.0");
            assert_eq!(r.html_url, "https://github.com/Godi13/mirror/releases/tag/v0.2.0");
            assert_eq!(r.name, "Mirror v0.2.0");
            assert_eq!(r.body, "notes");
        }
        _ => panic!("expected the cached release"),
    }
    assert!(matches!(begin(&cache, t + 11 * MINUTE_MS), ResolveAction::FetchPrimary));
    assert!(matches!(begin(&cache, t + CACHE_WINDOW_MS), ResolveAction::FetchPrimary));
    assert!(matches!(begin(&cache, t + CACHE_WINDOW_MS - 1), ResolveAction::Resolved(_)));
}

#[test]
fn stale_entry_is_replaced() {
    let mut cache = ReleaseCache::new();
    cache.put(LATEST_RELEASE_KEY, release("v0.1.0"), 0);
    assert!(cache.fresh_release(LATEST_RELEASE_KEY, CACHE_WINDOW_MS).is_none());
    assert_eq!(cache.fresh_release(LATEST_RELEASE_KEY, 1).unwrap().tag_name, "v0.1.0");
    let _ = after_primary(&mut cache, Ok(release("v0.4.0")), CACHE_WINDOW_MS);
    let fresh = cache.fresh_release(LATEST_RELEASE_KEY, CACHE_WINDOW_MS + 1);
    assert_eq!(fresh.unwrap().tag_name, "v0.4.0");
    assert_eq!(cache.entries.len(), 1);
}

#[test]
fn keys_are_independent() {
    let mut cache = ReleaseCache::new();
    cache.put("a", release("v1.0.0"), 10);
    cache.put("b", release("v2.0.0"), 20);
    cache.put("a", release("v3.0.0"), 30);
    assert_eq!(cache.entries.len(), 2);
    assert_ne!(cache.entries[0].0, cache.entries[1].0);
    let (a, at_a) = cache.get("a").unwrap();
    assert_eq!((a.tag_name.as_str(), at_a), ("v3.0.0", 30));
    let (b, at_b) = cache.get("b").unwrap();
    assert_eq!((b.tag_name.as_str(), at_b), ("v2.0.0", 20));
    assert!(cache.get("c").is_none());
    assert!(cache.get(LATEST_RELEASE_KEY).is_none());
    assert!(matches!(begin(&cache, 30), ResolveAction::FetchPrimary));
}

#[test]
fn rate_limit_falls_back_to_page_once() {
    let mut cache = ReleaseCache::new();
    let verdict = check_response(403, Some("0"), "limit");
    assert!(matches!(verdict, Err(ResolveError::RateLimited)));
    let next = after_primary(&mut cache, Err(ResolveError::RateLimited), 5);
    assert!(matches!(next, ResolveAction::FetchSecondary));
    assert!(cache.get(LATEST_RELEASE_KEY).is_none());
    let page = r#"<a href="/Godi13/mirror/releases/tag/v0.9.1">"#.to_string();
    match after_secondary(scrape_release(Ok(page))) {
        ResolveAction::Resolved(r) => {
            assert_eq!(r.tag_name, "v0.9.1");
            assert_eq!(r.html_url, "https://github.com/Godi13/mirror/releases/tag/v0.9.1");
            assert_eq!(r.name, "Mirror v0.9.1");
            assert_eq!(r.body, "Retrieved from releases page");
        }
        _ => panic!("expected a scraped release"),
    }
    assert!(cache.get(LATEST_RELEASE_KEY).is_none());
    let fetch_failed = scrape_release(Err(ResolveError::PageFailed(500)));
    assert!(matches!(fetch_failed, Err(ResolveError::PageFailed(500))));
    let failed = after_secondary(fetch_failed);
    match failed {
        ResolveAction::Failed(e) => assert_eq!(
            e.message(),
            "All update check methods failed. This could be due to network issues or GitHub API rate limits. Please try again later."
        ),
        _ => panic!("expected the final failure"),
    }
    assert!(matches!(
        after_secondary(scrape_release(Ok("no tag".to_string()))),
        ResolveAction::Failed(ResolveError::AllSourcesFailed)
    ));
}

#[test]
fn page_without_tag_is_reported() {
    match scrape_release(Ok("<html>no release links</html>".to_string())) {
        Err(e) => {
            assert!(matches!(e, ResolveError::NoVersionInPage));
            assert_eq!(e.message(), "Could not extract version from releases page");
        }
        Ok(_) => panic!("expected the missing-tag failure"),
    }
}

#[test]
fn response_status_verdicts() {
    assert!(check_response(200, None, "").is_ok());
    assert!(check_response(204, Some("0"), "").is_ok());
    match check_response(403, Some("7"), "forbidden") {
        Err(ResolveError::StrategyFailed(s, b)) => {
            assert_eq!(s, 403);
            assert_eq!(b, "forbidden");
        }
        _ => panic!("expected a strategy failure"),
    }
    match check_response(404, Some("0"), "Not Found") {
        Err(e) => assert_eq!(e.message(), "GitHub API error: 404 - Not Found"),
        Ok(()) => panic!("expected a failure"),
    }
    assert!(matches!(check_response(403, None, ""), Err(ResolveError::StrategyFailed(403, _))));
}

#[test]
fn resolve_error_messages() {
    assert_eq!(ResolveError::RateLimited.message(), "GitHub API rate limit exceeded");
    assert_eq!(ResolveError::RequestFailed("timed out".to_string()).message(), "timed out");
    assert_eq!(
        ResolveError::StrategyFailed(0, "x".to_string()).message(),
        "GitHub API error: 0 - x"
    );
    assert_eq!(
        check_error(&ResolveError::RateLimited),
        "Failed to fetch latest release: GitHub API rate limit exceeded"
    );
}

#[test]
fn page_status_verdicts() {
    assert!(check_page(200).is_ok());
    match check_page(404) {
        Err(e) => assert_eq!(e.message(), "Failed to fetch releases page: 404"),
        Ok(()) => panic!("expected a page failure"),
    }
}

#[test]
fn build_metadata_is_ignored() {
    assert!(!compare_versions("1.0.0+build.1", "1.0.0+build.2"));
    assert!(!compare_versions("1.0.0+build.2", "1.0.0+build.1"));
    assert!(compare_versions("1.0.0+zzz", "1.0.1+aaa"));
    assert!(compare_versions("1.0.0-beta.2", "1.0.0-beta.11"));
}

#[test]
fn end_to_end_manual_link() {
    let rel = release("v0.2.0");
    let info = check_for_updates("0.1.0", &rel);
    assert_eq!(info.current, "0.1.0");
    assert_eq!(info.latest, "0.2.0");
    assert!(info.has_update);
    let page = "https://github.com/Godi13/mirror/releases/tag/v0.2.0".to_string();
    assert_eq!(info.download_url, Some(page.clone()));
    assert!(matches!(trigger_step(&Ok(info.clone())), TriggerStep::Install));
    let plan = plan_download(&info, "x86_64").unwrap();
    let (url, platform) = match plan {
        DownloadPlan::Probe(u, p) => (u, p),
        DownloadPlan::Direct(_) => panic!("expected a probe"),
    };
    assert_eq!(
        url,
        "https://github.com/Godi13/mirror/releases/download/0.2.0/mirror_0.1.0_x64.dmg"
    );
    assert_eq!(platform, "x64");
    let install = after_probe(url, platform, 404).map(|_| install_started_message());
    let outcome = finish_update(&info, install).unwrap();
    assert_eq!(
        outcome,
        "发现新版本！当前版本: 0.1.0, 最新版本: 0.2.0\n自动安装失败: 找不到平台 x64 的安装包\n请手动下载安装: https://github.com/Godi13/mirror/releases/tag/v0.2.0"
    );
    assert!(outcome.contains(&page));
}

#[test]
fn repeated_check_within_window_is_identical() {
    let t: i64 = 50_000;
    let mut cache = ReleaseCache::new();
    let _ = after_primary(&mut cache, Ok(release("v0.2.0")), t);
    let decide = |now: i64| match begin(&cache, now) {
        ResolveAction::Resolved(r) => check_for_updates("0.1.0", &r),
        _ => panic!("expected the cached release"),
    };
    let a = decide(t + MINUTE_MS);
    let b = decide(t + 2 * MINUTE_MS);
    assert_eq!(a.current, b.current);
    assert_eq!(a.latest, b.latest);
    assert_eq!(a.has_update, b.has_update);
    assert_eq!(a.download_url, b.download_url);
}

#[test]
fn no_update_paths() {
    let info = check_for_updates("0.2.0", &release("v0.2.0"));
    assert!(!info.has_update);
    assert_eq!(info.download_url, None);
    match trigger_step(&Ok(info)) {
        TriggerStep::Done(Ok(m)) => assert_eq!(m, "当前已是最新版本"),
        _ => panic!("expected the up-to-date message"),
    }
    match trigger_step(&Err("boom".to_string())) {
        TriggerStep::Done(Err(m)) => assert_eq!(m, "检查更新失败: boom"),
        _ => panic!("expected the check failure"),
    }
}

fn info_with(url: Option<&str>) -> VersionInfo {
    VersionInfo {
        current: "0.1.0".to_string(),
        latest: "0.2.0".to_string(),
        has_update: true,
        download_url: url.map(|u| u.to_string()),
    }
}

#[test]
fn download_plans() {
    assert!(matches!(plan_download(&info_with(None), "x86_64"), Err(UpdateError::NoDownloadUrl)));
    match plan_download(&info_with(Some("https://cdn.example/a/b.dmg")), "aarch64") {
        Ok(DownloadPlan::Direct(u)) => assert_eq!(u, "https://cdn.example/a/b.dmg"),
        _ => panic!("expected a direct download"),
    }
    match plan_download(&info_with(Some("https://github.com/o/r/releases/tag/v0.2.0")), "aarch64") {
        Ok(DownloadPlan::Probe(u, p)) => {
            assert_eq!(
                u,
                "https://github.com/Godi13/mirror/releases/download/0.2.0/mirror_0.1.0_aarch64.dmg"
            );
            assert_eq!(p, "aarch64");
        }
        _ => panic!("expected a probe"),
    }
    assert_eq!(after_probe("u".to_string(), "x64".to_string(), 200).unwrap(), "u");
}

#[test]
fn platform_names() {
    assert_eq!(detect_platform("aarch64"), "aarch64");
    assert_eq!(detect_platform("x86_64"), "x64");
    assert_eq!(detect_platform("riscv64"), "x64");
    assert_eq!(
        platform_download_url("1.2.3", "x64"),
        "https://github.com/Godi13/mirror/releases/download/1.2.3/mirror_0.1.0_x64.dmg"
    );
}

#[test]
fn file_names_and_dirs() {
    assert_eq!(
        file_name_from_url("https://github.com/Godi13/mirror/releases/download/0.2.0/mirror_0.1.0_x64.dmg"),
        "mirror_0.1.0_x64.dmg"
    );
    assert_eq!(file_name_from_url("https://example.com/dir/"), "update.dmg");
    assert_eq!(file_name_from_url("plain"), "plain");
    assert_eq!(file_name_from_url(""), "update.dmg");
    assert_eq!(update_dir_name("0.2.0"), "update_0.2.0");
}

#[test]
fn update_error_messages() {
    assert_eq!(UpdateError::NoDownloadUrl.message(), "没有找到下载URL");
    assert_eq!(UpdateError::PlatformUnsupported("x64".to_string()).message(), "找不到平台 x64 的安装包");
    assert_eq!(UpdateError::DownloadFailed(404).message(), "下载失败: HTTP 404");
    assert_eq!(UpdateError::DownloadFailed(7).message(), "下载失败: HTTP 7");
    assert_eq!(UpdateError::DownloadFailed(65535).message(), "下载失败: HTTP 65535");
    assert_eq!(UpdateError::FileWriteFailed("disk full".to_string()).message(), "disk full");
    assert_eq!(UpdateError::InstallLaunchFailed("bad".to_string()).message(), "启动安装程序失败: bad");
    assert_eq!(UpdateError::InstallUnsupportedPlatform.message(), "当前平台不支持自动安装");
    assert_eq!(UpdateError::RequestFailed("reset".to_string()).message(), "reset");
}

#[test]
fn status_and_launch_checks() {
    assert!(check_download_status(200).is_ok());
    assert!(matches!(check_download_status(500), Err(UpdateError::DownloadFailed(500))));
    assert!(launch_result(true, String::new()).is_ok());
    assert!(check_downloaded(true).is_ok());
    match check_downloaded(false) {
        Err(e) => assert_eq!(e.message(), "下载文件不存在"),
        Ok(()) => panic!("expected the missing-file failure"),
    }
    match launch_result(false, "no handler".to_string()) {
        Err(e) => assert_eq!(e.message(), "启动安装程序失败: no handler"),
        Ok(()) => panic!("expected a launch failure"),
    }
}

#[test]
fn finish_update_paths() {
    let info = info_with(None);
    assert_eq!(update_found_message(&info), "发现新版本！当前版本: 0.1.0, 最新版本: 0.2.0");
    assert_eq!(
        finish_update(&info, Ok(install_started_message())).unwrap(),
        "发现新版本！当前版本: 0.1.0, 最新版本: 0.2.0\n更新下载完成！安装程序已启动，请按照提示完成安装。"
    );
    assert_eq!(
        finish_update(&info, Err(UpdateError::NoDownloadUrl)).unwrap_err(),
        "更新失败: 没有找到下载URL"
    );
}

#[test]
fn greeting() {
    assert_eq!(greet("Ada"), "Hello, Ada! You've been greeted from Rust!");
}
