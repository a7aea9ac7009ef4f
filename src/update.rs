//! Update decisions: whether a release is newer than the running version, and
//! the steps and messages of the download-and-install sequence.
use vstd::prelude::*;
use vstd::string::*;
use crate::cache::{ReleaseCache, is_fresh};
use crate::release::{GitHubRelease, normalized_tag};
use crate::resolver::{ResolveAction, ResolveError, begin_action, error_text, is_success, latest_key};
use crate::text::{chars_of, contains, decimal, find_in, lemma_find_from, push_decimal};
use crate::version::{compare_versions, is_newer};

verus! {

/// What a check for updates reports.
#[derive(Debug, Clone)]
pub struct VersionInfo {
    pub current: String,
    pub latest: String,
    pub has_update: bool,
    pub download_url: Option<String>,
}

/// The version the application was built as.
#[derive(Debug)]
pub struct AppVersion {
    pub version: String,
}

/// Why an update could not be downloaded or installed.
#[derive(Debug, Clone)]
pub enum UpdateError {
    /// The check reported no address to download from.
    NoDownloadUrl,
    /// No installer is published for this platform.
    PlatformUnsupported(String),
    /// The download answered with a non-success status.
    DownloadFailed(u16),
    /// The downloaded file could not be written.
    FileWriteFailed(String),
    /// The downloaded file is missing after it was written.
    DownloadMissing,
    /// The installer could not be started; the text it printed.
    InstallLaunchFailed(String),
    /// This platform has no installer launcher.
    InstallUnsupportedPlatform,
    /// The request could not be made or its answer could not be read.
    RequestFailed(String),
}

/// The text shown for an update error.
pub open spec fn update_error_text(e: UpdateError) -> Seq<char> {
    match e {
        UpdateError::NoDownloadUrl => "没有找到下载URL"@,
        UpdateError::PlatformUnsupported(p) => "找不到平台 "@ + p@ + " 的安装包"@,
        UpdateError::DownloadFailed(s) => "下载失败: HTTP "@ + decimal(s as nat),
        UpdateError::FileWriteFailed(m) => m@,
        UpdateError::DownloadMissing => "下载文件不存在"@,
        UpdateError::InstallLaunchFailed(e) => "启动安装程序失败: "@ + e@,
        UpdateError::InstallUnsupportedPlatform => "当前平台不支持自动安装"@,
        UpdateError::RequestFailed(m) => m@,
    }
}

impl UpdateError {
    /// The text shown for this error.
    pub fn message(&self) -> (r: String)
        ensures
            r@ == update_error_text(*self),
    {
        match self {
            UpdateError::NoDownloadUrl => String::from_str("没有找到下载URL"),
            UpdateError::PlatformUnsupported(p) => String::from_str("找不到平台 ").concat(
                p.as_str(),
            ).concat(" 的安装包"),
            UpdateError::DownloadFailed(s) => {
                let mut m = String::from_str("下载失败: HTTP ");
                push_decimal(&mut m, *s as u64);
                m
            },
            UpdateError::FileWriteFailed(m) => m.clone(),
            UpdateError::DownloadMissing => String::from_str("下载文件不存在"),
            UpdateError::InstallLaunchFailed(e) => String::from_str("启动安装程序失败: ").concat(
                e.as_str(),
            ),
            UpdateError::InstallUnsupportedPlatform => String::from_str("当前平台不支持自动安装"),
            UpdateError::RequestFailed(m) => m.clone(),
        }
    }
}

/// `info` is the report on `release` for the running version `current`.
pub open spec fn is_decision(info: VersionInfo, current: Seq<char>, release: GitHubRelease) -> bool {
    let latest = normalized_tag(release.tag_name@);
    &&& info.current@ == current
    &&& info.latest@ == latest
    &&& info.has_update == is_newer(current, latest)
    &&& info.download_url == if info.has_update {
        Some(release.html_url)
    } else {
        None
    }
}

/// The report as plain values.
pub open spec fn decision_view(info: VersionInfo) -> (Seq<char>, Seq<char>, bool, Option<Seq<char>>) {
    (
        info.current@,
        info.latest@,
        info.has_update,
        match info.download_url {
            Some(u) => Some(u@),
            None => None,
        },
    )
}

/// The report on `release` for the running version `current`: the release's
/// version is its tag without a leading `v`, an update is available when
/// that version is newer, and only then is the release page offered.
pub fn check_for_updates(current: &str, release: &GitHubRelease) -> (r: VersionInfo)
    ensures
        is_decision(r, current@, *release),
{
    let latest = release.version();
    let has_update = compare_versions(current, latest.as_str());
    VersionInfo {
        current: current.to_string(),
        latest,
        has_update,
        download_url: if has_update {
            Some(release.html_url.clone())
        } else {
            None
        },
    }
}

/// The error text of a check whose resolution failed.
pub fn check_error(e: &ResolveError) -> (r: String)
    ensures
        r@ == "Failed to fetch latest release: "@ + error_text(*e),
{
    String::from_str("Failed to fetch latest release: ").concat(e.message().as_str())
}

/// The release a resolution step carries, if it is one.
pub open spec fn resolved_release(a: ResolveAction) -> GitHubRelease {
    a->Resolved_0
}

/// Two checks while the cached release is fresh, with the cache unchanged,
/// resolve the same release and report identically.
pub proof fn repeated_check_identical(
    cache: ReleaseCache,
    current: Seq<char>,
    t1: int,
    t2: int,
    first: VersionInfo,
    second: VersionInfo,
)
    requires
        cache.entry(latest_key()) is Some,
        is_fresh(cache.entry(latest_key())->0.cached_at as int, t1),
        is_fresh(cache.entry(latest_key())->0.cached_at as int, t2),
        is_decision(first, current, resolved_release(begin_action(cache, t1))),
        is_decision(second, current, resolved_release(begin_action(cache, t2))),
    ensures
        begin_action(cache, t1) is Resolved,
        begin_action(cache, t1) == begin_action(cache, t2),
        decision_view(first) == decision_view(second),
{
}

/// What the check tells the trigger to do next.
#[derive(Debug)]
pub enum TriggerStep {
    /// The trigger is over with this result.
    Done(Result<String, String>),
    /// A newer release was found: download and install it.
    Install,
}

/// The step after a check: a failed check and an up-to-date application end
/// the trigger; an available update goes on to the install.
pub fn trigger_step(check: &Result<VersionInfo, String>) -> (r: TriggerStep)
    ensures
        match check {
            Err(e) => r matches TriggerStep::Done(Err(m)) && m@ == "检查更新失败: "@ + e@,
            Ok(info) => if info.has_update {
                r is Install
            } else {
                r matches TriggerStep::Done(Ok(m)) && m@ == "当前已是最新版本"@
            },
        },
{
    match check {
        Err(e) => TriggerStep::Done(Err(String::from_str("检查更新失败: ").concat(e.as_str()))),
        Ok(info) => if info.has_update {
            TriggerStep::Install
        } else {
            TriggerStep::Done(Ok(String::from_str("当前已是最新版本")))
        },
    }
}

/// The platform name used in installer file names for a CPU architecture.
pub open spec fn platform_of(arch: Seq<char>) -> Seq<char> {
    if arch == "aarch64"@ {
        "aarch64"@
    } else {
        "x64"@
    }
}

/// The platform name for the CPU architecture the host runs on: `aarch64`
/// for 64-bit ARM, `x64` otherwise.
pub fn detect_platform(arch: &str) -> (r: String)
    ensures
        r@ == platform_of(arch@),
{
    if String::from_str(arch) == String::from_str("aarch64") {
        String::from_str("aarch64")
    } else {
        String::from_str("x64")
    }
}

/// The address of the installer of `version` for `platform`.
pub open spec fn platform_url(version: Seq<char>, platform: Seq<char>) -> Seq<char> {
    "https://github.com/Godi13/mirror/releases/download/"@ + version + "/"@ + if platform
        == "aarch64"@ {
        "mirror_0.1.0_aarch64.dmg"@
    } else {
        "mirror_0.1.0_x64.dmg"@
    }
}

/// Builds the address of the installer of `version` for `platform`.
pub fn platform_download_url(version: &str, platform: &str) -> (r: String)
    ensures
        r@ == platform_url(version@, platform@),
{
    let file = if String::from_str(platform) == String::from_str("aarch64") {
        "mirror_0.1.0_aarch64.dmg"
    } else {
        "mirror_0.1.0_x64.dmg"
    };
    String::from_str("https://github.com/Godi13/mirror/releases/download/").concat(version).concat(
        "/",
    ).concat(file)
}

/// Where the installer comes from.
#[derive(Debug)]
pub enum DownloadPlan {
    /// Download from this address as it is.
    Direct(String),
    /// Probe this installer address for `platform` before downloading.
    Probe(String, String),
}

/// The marker of a release page address.
pub open spec fn release_page_marker() -> Seq<char> {
    "/releases/tag/"@
}

/// Decides where to download from: no address is an error; a release page
/// address is replaced by the installer address for the host's platform,
/// which is probed first; any other address is used as it is.
pub fn plan_download(info: &VersionInfo, arch: &str) -> (r: Result<DownloadPlan, UpdateError>)
    ensures
        match info.download_url {
            None => r matches Err(UpdateError::NoDownloadUrl),
            Some(u) => if contains(u@, release_page_marker()) {
                r matches Ok(DownloadPlan::Probe(url, p)) && p@ == platform_of(arch@) && url@
                    == platform_url(info.latest@, platform_of(arch@))
            } else {
                r matches Ok(DownloadPlan::Direct(url)) && url@ == u@
            },
        },
{
    match &info.download_url {
        None => Err(UpdateError::NoDownloadUrl),
        Some(u) => {
            let h = chars_of(u.as_str());
            let m = chars_of("/releases/tag/");
            let found = find_in(&h, &m, 0);
            proof {
                lemma_find_from(h@, m@, 0);
            }
            if found.is_some() {
                let platform = detect_platform(arch);
                let url = platform_download_url(info.latest.as_str(), platform.as_str());
                Ok(DownloadPlan::Probe(url, platform))
            } else {
                Ok(DownloadPlan::Direct(u.clone()))
            }
        },
    }
}

/// The address to download from after the probe of `url` answered with
/// `status`: the address on success, else an error naming the platform.
pub fn after_probe(url: String, platform: String, status: u16) -> (r: Result<String, UpdateError>)
    ensures
        is_success(status) ==> r == Ok::<String, UpdateError>(url),
        !is_success(status) ==> r == Err::<String, UpdateError>(
            UpdateError::PlatformUnsupported(platform),
        ),
{
    if 200 <= status && status < 300 {
        Ok(url)
    } else {
        Err(UpdateError::PlatformUnsupported(platform))
    }
}

/// The name of the temporary directory that receives the installer of
/// `latest`.
pub fn update_dir_name(latest: &str) -> (r: String)
    ensures
        r@ == "update_"@ + latest@,
{
    String::from_str("update_").concat(latest)
}

/// The position just after the last `/` of `u`, or 0 when it has none.
pub open spec fn last_segment_start(u: Seq<char>) -> int
    decreases u.len(),
{
    if u.len() == 0 {
        0
    } else if u.last() == '/' {
        u.len() as int
    } else {
        last_segment_start(u.drop_last())
    }
}

/// The local file name for a download address: its last path segment, or
/// `update.dmg` where that segment is empty.
pub open spec fn file_name_of(u: Seq<char>) -> Seq<char> {
    let seg = u.skip(last_segment_start(u));
    if seg.len() == 0 {
        "update.dmg"@
    } else {
        seg
    }
}

proof fn lemma_last_segment_start_bounds(u: Seq<char>)
    ensures
        0 <= last_segment_start(u) <= u.len(),
    decreases u.len(),
{
    if u.len() > 0 && u.last() != '/' {
        lemma_last_segment_start_bounds(u.drop_last());
    }
}

/// The local file name for a download address.
pub fn file_name_from_url(url: &str) -> (r: String)
    ensures
        r@ == file_name_of(url@),
{
    let u = chars_of(url);
    let mut i: usize = u.len();
    assert(u@.take(i as int) =~= u@);
    while i > 0 && u[i - 1] != '/'
        invariant
            i <= u.len(),
            last_segment_start(u@) == last_segment_start(u@.take(i as int)),
        decreases i,
    {
        assert(u@.take(i as int).drop_last() =~= u@.take(i - 1));
        i = i - 1;
    }
    proof {
        if i > 0 {
            assert(u@.take(i as int).last() == '/');
        } else {
            assert(u@.take(0) =~= Seq::<char>::empty());
        }
        lemma_last_segment_start_bounds(u@);
    }
    if i == u.len() {
        assert(u@.skip(i as int) =~= Seq::<char>::empty());
        String::from_str("update.dmg")
    } else {
        String::from_str(url.substring_char(i, u.len()))
    }
}

/// Judges the status of the download.
pub fn check_download_status(status: u16) -> (r: Result<(), UpdateError>)
    ensures
        is_success(status) ==> r is Ok,
        !is_success(status) ==> (r matches Err(UpdateError::DownloadFailed(s)) && s == status),
{
    if 200 <= status && status < 300 {
        Ok(())
    } else {
        Err(UpdateError::DownloadFailed(status))
    }
}

/// Judges whether the downloaded file is on disk after it was written.
pub fn check_downloaded(exists: bool) -> (r: Result<(), UpdateError>)
    ensures
        exists ==> r is Ok,
        !exists ==> r matches Err(UpdateError::DownloadMissing),
{
    if exists {
        Ok(())
    } else {
        Err(UpdateError::DownloadMissing)
    }
}

/// The outcome of launching the installer: success when it started, else
/// the text it printed.
pub fn launch_result(started: bool, stderr: String) -> (r: Result<(), UpdateError>)
    ensures
        started ==> r is Ok,
        !started ==> r == Err::<(), UpdateError>(UpdateError::InstallLaunchFailed(stderr)),
{
    if started {
        Ok(())
    } else {
        Err(UpdateError::InstallLaunchFailed(stderr))
    }
}

/// The message once the installer was launched.
pub fn install_started_message() -> (r: String)
    ensures
        r@ == "更新下载完成！安装程序已启动，请按照提示完成安装。"@,
{
    String::from_str("更新下载完成！安装程序已启动，请按照提示完成安装。")
}

/// The line that announces an update.
pub open spec fn found_text(info: VersionInfo) -> Seq<char> {
    "发现新版本！当前版本: "@ + info.current@ + ", 最新版本: "@ + info.latest@
}

/// The line that announces an update.
pub fn update_found_message(info: &VersionInfo) -> (r: String)
    ensures
        r@ == found_text(*info),
{
    String::from_str("发现新版本！当前版本: ").concat(info.current.as_str()).concat(
        ", 最新版本: ",
    ).concat(info.latest.as_str())
}

/// The result of the trigger once the install sequence ended: on success the
/// announcement and the install message; on failure, where a release page is
/// known, still a success that gives the failure and the page for a manual
/// download; with no page, the failure as an error.
pub fn finish_update(info: &VersionInfo, install: Result<String, UpdateError>) -> (r: Result<
    String,
    String,
>)
    ensures
        match install {
            Ok(m) => r matches Ok(s) && s@ == found_text(*info) + "\n"@ + m@,
            Err(e) => match info.download_url {
                Some(u) => r matches Ok(s) && s@ == found_text(*info) + "\n自动安装失败: "@
                    + update_error_text(e) + "\n请手动下载安装: "@ + u@,
                None => r matches Err(s) && s@ == "更新失败: "@ + update_error_text(e),
            },
        },
{
    let found = update_found_message(info);
    match install {
        Ok(m) => Ok(found.concat("\n").concat(m.as_str())),
        Err(e) => match &info.download_url {
            Some(u) => Ok(
                found.concat("\n自动安装失败: ").concat(e.message().as_str()).concat(
                    "\n请手动下载安装: ",
                ).concat(u.as_str()),
            ),
            None => Err(String::from_str("更新失败: ").concat(e.message().as_str())),
        },
    }
}

/// The greeting for `name`.
pub fn greet(name: &str) -> (r: String)
    ensures
        r@ == "Hello, "@ + name@ + "! You've been greeted from Rust!"@,
{
    String::from_str("Hello, ").concat(name).concat("! You've been greeted from Rust!")
}

} // verus!
