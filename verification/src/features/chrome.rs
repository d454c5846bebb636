//! Getting a browser: the flags it is started with, the choice between a
//! remote browser and a local one, and the life of the session.

use crate::configuration::{duration_from_millis, duration_of_millis, Configuration};
use crate::features::chrome_common::Viewport;
use crate::page::{ErrorKind, Outcome, PageRecord};
use crate::text::{join, joined, replace_all, replaced, texts};
use vstd::prelude::*;
use vstd::string::*;

verus! {

/// Which of the fixed flag tables a build uses, and what else is decided
/// once for the whole build.
#[derive(Debug, Clone, Copy, PartialEq, Eq, Structural)]
pub struct LaunchProfile {
    /// The browser shows a window.
    pub headed: bool,
    /// The newer of the two windowless modes is asked for.
    pub headless_new: bool,
    /// The machine is short of resources.
    pub constrained: bool,
    /// The browser should be hard to tell from a person's.
    pub stealth: bool,
    /// Requests can be intercepted.
    pub intercept: bool,
}

/// The flag for the windowless mode.
pub const HEADLESS_FLAG: &'static str = "--headless";

/// The flag for the newer windowless mode.
pub const HEADLESS_NEW_FLAG: &'static str = "--headless=new";

/// What stands between a scheme and a host in a link.
pub const SCHEME_MARK: &'static str = "://";

/// What a scheme mark is rewritten to in a flag.
pub const SCHEME_MARK_REPLACEMENT: &'static str = "=";

/// The start of the flag that names the proxies.
pub const PROXY_FLAG_HEAD: &'static str = "--proxy-server=\"";

/// The end of the flag that names the proxies.
pub const PROXY_FLAG_TAIL: &'static str = "\"";

/// What stands between two proxies in the flag that names them.
pub const PROXY_SEPARATOR: &'static str = ";";

/// The launch flags of the plain profile, behind the flag for the window mode.
pub const PLAIN_FLAGS: [&'static str; 59] = [
    "--no-sandbox",
    "--no-first-run",
    "--hide-scrollbars",
    "--allow-running-insecure-content",
    "--autoplay-policy=user-gesture-required",
    "--ignore-certificate-errors",
    "--no-default-browser-check",
    "--no-zygote",
    "--disable-setuid-sandbox",
    "--disable-dev-shm-usage",
    "--disable-threaded-scrolling",
    "--disable-demo-mode",
    "--disable-dinosaur-easter-egg",
    "--disable-fetching-hints-at-navigation-start",
    "--disable-site-isolation-trials",
    "--disable-web-security",
    "--disable-threaded-animation",
    "--disable-sync",
    "--disable-print-preview",
    "--disable-partial-raster",
    "--disable-in-process-stack-traces",
    "--disable-v8-idle-tasks",
    "--disable-low-res-tiling",
    "--disable-speech-api",
    "--disable-smooth-scrolling",
    "--disable-default-apps",
    "--disable-prompt-on-repost",
    "--disable-domain-reliability",
    "--disable-component-update",
    "--disable-background-timer-throttling",
    "--disable-breakpad",
    "--disable-software-rasterizer",
    "--disable-extensions",
    "--disable-popup-blocking",
    "--disable-hang-monitor",
    "--disable-image-animation-resync",
    "--disable-client-side-phishing-detection",
    "--disable-component-extensions-with-background-pages",
    "--disable-ipc-flooding-protection",
    "--disable-background-networking",
    "--disable-renderer-backgrounding",
    "--disable-field-trial-config",
    "--disable-back-forward-cache",
    "--disable-backgrounding-occluded-windows",
    "--force-fieldtrials=*BackgroundTracing/default/",
    "--log-level=3",
    "--enable-logging=stderr",
    "--enable-features=SharedArrayBuffer,NetworkService,NetworkServiceInProcess",
    "--metrics-recording-only",
    "--use-mock-keychain",
    "--force-color-profile=srgb",
    "--mute-audio",
    "--no-service-autorun",
    "--password-store=basic",
    "--export-tagged-pdf",
    "--no-pings",
    "--use-gl=swiftshader",
    "--window-size=1920,1080",
    "--disable-features=InterestFeedContentSuggestions,PrivacySandboxSettings4,AutofillServerCommunication,CalculateNativeWinOcclusion,OptimizationHints,AudioServiceOutOfProcess,IsolateOrigins,site-per-process,ImprovedCookieControls,LazyFrameLoading,GlobalMediaControls,DestroyProfileOnBrowserClose,MediaRouter,DialMediaRouteProvider,AcceptCHFrame,AutoExpandDetailsElement,CertificateTransparencyComponentUpdater,AvoidUnnecessaryBeforeUnloadCheckSync,Translate",
];

/// The launch flags of the profile for machines short of resources, behind the
/// flag for the window mode.
pub const CONSTRAINED_FLAGS: [&'static str; 62] = [
    "--no-sandbox",
    "--no-first-run",
    "--hide-scrollbars",
    "--allow-running-insecure-content",
    "--autoplay-policy=user-gesture-required",
    "--ignore-certificate-errors",
    "--no-default-browser-check",
    "--no-zygote",
    "--in-process-gpu",
    "--disable-gpu",
    "--disable-gpu-sandbox",
    "--disable-setuid-sandbox",
    "--disable-dev-shm-usage",
    "--disable-threaded-scrolling",
    "--disable-demo-mode",
    "--disable-dinosaur-easter-egg",
    "--disable-fetching-hints-at-navigation-start",
    "--disable-site-isolation-trials",
    "--disable-web-security",
    "--disable-threaded-animation",
    "--disable-sync",
    "--disable-print-preview",
    "--disable-partial-raster",
    "--disable-in-process-stack-traces",
    "--disable-v8-idle-tasks",
    "--disable-low-res-tiling",
    "--disable-speech-api",
    "--disable-smooth-scrolling",
    "--disable-default-apps",
    "--disable-prompt-on-repost",
    "--disable-domain-reliability",
    "--disable-component-update",
    "--disable-background-timer-throttling",
    "--disable-breakpad",
    "--disable-software-rasterizer",
    "--disable-extensions",
    "--disable-popup-blocking",
    "--disable-hang-monitor",
    "--disable-image-animation-resync",
    "--disable-client-side-phishing-detection",
    "--disable-component-extensions-with-background-pages",
    "--disable-ipc-flooding-protection",
    "--disable-background-networking",
    "--disable-renderer-backgrounding",
    "--disable-field-trial-config",
    "--disable-back-forward-cache",
    "--disable-backgrounding-occluded-windows",
    "--force-fieldtrials=*BackgroundTracing/default/",
    "--log-level=3",
    "--enable-logging=stderr",
    "--enable-features=SharedArrayBuffer,NetworkService,NetworkServiceInProcess",
    "--metrics-recording-only",
    "--use-mock-keychain",
    "--force-color-profile=srgb",
    "--mute-audio",
    "--no-service-autorun",
    "--password-store=basic",
    "--export-tagged-pdf",
    "--no-pings",
    "--use-gl=swiftshader",
    "--window-size=1920,1080",
    "--disable-features=InterestFeedContentSuggestions,PrivacySandboxSettings4,AutofillServerCommunication,CalculateNativeWinOcclusion,OptimizationHints,AudioServiceOutOfProcess,IsolateOrigins,site-per-process,ImprovedCookieControls,LazyFrameLoading,GlobalMediaControls,DestroyProfileOnBrowserClose,MediaRouter,DialMediaRouteProvider,AcceptCHFrame,AutoExpandDetailsElement,CertificateTransparencyComponentUpdater,AvoidUnnecessaryBeforeUnloadCheckSync,Translate",
];

/// The launch flags of the profile that is hard to tell from a person's
/// browser, behind the flag for the window mode.
pub const STEALTH_FLAGS: [&'static str; 23] = [
    "--disable-extensions",
    "--disable-component-extensions-with-background-pages",
    "--disable-background-networking",
    "--disable-component-update",
    "--disable-client-side-phishing-detection",
    "--disable-sync",
    "--disable-dev-shm-usage",
    "--metrics-recording-only",
    "--disable-default-apps",
    "--mute-audio",
    "--no-default-browser-check",
    "--no-first-run",
    "--disable-backgrounding-occluded-windows",
    "--disable-renderer-backgrounding",
    "--disable-background-timer-throttling",
    "--disable-ipc-flooding-protection",
    "--password-store=basic",
    "--use-mock-keychain",
    "--force-fieldtrials=*BackgroundTracing/default/",
    "--disable-hang-monitor",
    "--disable-prompt-on-repost",
    "--disable-domain-reliability",
    "--disable-features=InterestFeedContentSuggestions,PrivacySandboxSettings4,AutofillServerCommunication,CalculateNativeWinOcclusion,OptimizationHints,AudioServiceOutOfProcess,IsolateOrigins,site-per-process,ImprovedCookieControls,LazyFrameLoading,GlobalMediaControls,DestroyProfileOnBrowserClose,MediaRouter,DialMediaRouteProvider,AcceptCHFrame,AutoExpandDetailsElement,CertificateTransparencyComponentUpdater,AvoidUnnecessaryBeforeUnloadCheckSync,Translate",
];

/// The launch flags of the profile that is hard to tell from a person's
/// browser, for machines short of resources, behind the flag for the window
/// mode.
pub const STEALTH_CONSTRAINED_FLAGS: [&'static str; 26] = [
    "--disable-extensions",
    "--disable-component-extensions-with-background-pages",
    "--disable-background-networking",
    "--disable-component-update",
    "--disable-client-side-phishing-detection",
    "--disable-sync",
    "--metrics-recording-only",
    "--disable-default-apps",
    "--mute-audio",
    "--no-default-browser-check",
    "--no-first-run",
    "--disable-gpu",
    "--disable-gpu-sandbox",
    "--disable-setuid-sandbox",
    "--disable-dev-shm-usage",
    "--disable-backgrounding-occluded-windows",
    "--disable-renderer-backgrounding",
    "--disable-background-timer-throttling",
    "--disable-ipc-flooding-protection",
    "--password-store=basic",
    "--use-mock-keychain",
    "--force-fieldtrials=*BackgroundTracing/default/",
    "--disable-hang-monitor",
    "--disable-prompt-on-repost",
    "--disable-domain-reliability",
    "--disable-features=InterestFeedContentSuggestions,PrivacySandboxSettings4,AutofillServerCommunication,CalculateNativeWinOcclusion,OptimizationHints,AudioServiceOutOfProcess,IsolateOrigins,site-per-process,ImprovedCookieControls,LazyFrameLoading,GlobalMediaControls,DestroyProfileOnBrowserClose,MediaRouter,DialMediaRouteProvider,AcceptCHFrame,AutoExpandDetailsElement,CertificateTransparencyComponentUpdater,AvoidUnnecessaryBeforeUnloadCheckSync,Translate",
];

impl LaunchProfile {
    /// The flag for the window mode: a profile has exactly one.
    pub open spec fn mode_flag(self) -> Seq<char> {
        if self.headless_new {
            HEADLESS_NEW_FLAG@
        } else {
            HEADLESS_FLAG@
        }
    }

    /// The table of the profile: exactly one of the four.
    pub open spec fn table(self) -> Seq<&'static str> {
        if self.stealth {
            if self.constrained {
                STEALTH_CONSTRAINED_FLAGS@
            } else {
                STEALTH_FLAGS@
            }
        } else {
            if self.constrained {
                CONSTRAINED_FLAGS@
            } else {
                PLAIN_FLAGS@
            }
        }
    }

    /// The flags of the profile: the flag for the window mode, then the
    /// table.
    pub open spec fn flags(self) -> Seq<Seq<char>> {
        seq![self.mode_flag()] + self.table().map_values(|flag: &'static str| flag@)
    }

    /// The flags of the profile.
    pub fn chrome_args(&self) -> (r: Vec<&'static str>)
        ensures
            r@.map_values(|flag: &'static str| flag@) == self.flags(),
    {
        let table: &[&'static str] = if self.stealth {
            if self.constrained {
                STEALTH_CONSTRAINED_FLAGS.as_slice()
            } else {
                STEALTH_FLAGS.as_slice()
            }
        } else {
            if self.constrained {
                CONSTRAINED_FLAGS.as_slice()
            } else {
                PLAIN_FLAGS.as_slice()
            }
        };
        assert(table@ == self.table());
        let mut args: Vec<&'static str> = Vec::new();
        args.push(if self.headless_new {
            HEADLESS_NEW_FLAG
        } else {
            HEADLESS_FLAG
        });
        let mut i: usize = 0;
        while i < table.len()
            invariant
                i <= table@.len(),
                args@.len() == i + 1,
                args@[0]@ == self.mode_flag(),
                forall|j: int| 0 <= j < i ==> (#[trigger] args@[j + 1])@ == table@[j]@,
            decreases table@.len() - i,
        {
            args.push(table[i]);
            i += 1;
        }
        proof {
            let got = args@.map_values(|flag: &'static str| flag@);
            let rest = table@.map_values(|flag: &'static str| flag@);
            let want = seq![self.mode_flag()] + rest;
            assert(got.len() == want.len());
            assert forall|k: int| 0 <= k < got.len() implies got[k] == want[k] by {
                if k > 0 {
                    assert(args@[(k - 1) + 1]@ == table@[k - 1]@);
                    assert(want[k] == rest[k - 1]);
                }
            }
            assert(got =~= want);
        }
        args
    }
}

/// The flag that names the proxies: all of them in one flag, with `;`
/// between each two, in double quotes.
pub open spec fn proxy_flag(proxies: Seq<Seq<char>>) -> Seq<char> {
    PROXY_FLAG_HEAD@ + joined(proxies, PROXY_SEPARATOR@) + PROXY_FLAG_TAIL@
}

/// A flag as it is handed to a browser that is started with rewritten flags:
/// `://` becomes `=`, and for a browser with a window the flag `--headless`
/// becomes the empty flag.
pub open spec fn rewritten_flag(headed: bool, flag: Seq<char>) -> Seq<char> {
    if headed && flag == HEADLESS_FLAG@ {
        Seq::empty()
    } else {
        replaced(flag, SCHEME_MARK@, SCHEME_MARK_REPLACEMENT@)
    }
}

/// The flags that the browser is started with. Without a window and without
/// proxies they are the flags of the profile as they stand. Otherwise every
/// flag is rewritten, and where proxies are given the flag that names them
/// comes last.
pub open spec fn launch_flags(profile: LaunchProfile, proxies: Option<Seq<Seq<char>>>) -> Seq<
    Seq<char>,
> {
    let rewritten = profile.flags().map_values(|flag: Seq<char>| rewritten_flag(profile.headed, flag));
    match proxies {
        Some(list) => rewritten.push(proxy_flag(list)),
        None => if profile.headed {
            rewritten
        } else {
            profile.flags()
        },
    }
}

/// The time allowed for one request: the time that is set, and no time at
/// all where none is set.
pub open spec fn request_time(request_timeout: Option<Box<core::time::Duration>>) -> core::time::Duration {
    match request_timeout {
        Some(timeout) => *timeout,
        None => duration_of_millis(0),
    }
}

fn request_time_of(request_timeout: &Option<Box<core::time::Duration>>) -> (r: core::time::Duration)
    ensures
        r == request_time(*request_timeout),
{
    match request_timeout {
        Some(timeout) => **timeout,
        None => duration_from_millis(0),
    }
}

/// How a local browser is started.
#[derive(Debug, PartialEq, Eq)]
pub struct BrowserSettings {
    /// The browser shows a window.
    pub with_head: bool,
    /// The browser runs in its sandbox.
    pub sandbox: bool,
    /// The time allowed for one request.
    pub request_timeout: core::time::Duration,
    /// Whether responses are cached.
    pub cache_enabled: bool,
    /// Whether requests are intercepted.
    pub request_intercept: bool,
    /// The flags to start the browser with, in place of its own defaults.
    pub args: Vec<String>,
    /// The browser program to start, where one is named; else the one that
    /// is found on the machine.
    pub executable: Option<String>,
    /// The screen that pages are laid out for.
    pub viewport: Option<Viewport>,
}

/// Rewrites one flag for the start of a browser.
pub fn rewrite_flag(headed: bool, flag: &str) -> (r: String)
    ensures
        r@ == rewritten_flag(headed, flag@),
{
    proof {
        reveal_strlit("://");
    }
    let given = String::from_str(flag);
    let headless = String::from_str(HEADLESS_FLAG);
    if headed && given == headless {
        String::new()
    } else {
        replace_all(flag, SCHEME_MARK, SCHEME_MARK_REPLACEMENT)
    }
}

/// Rewrites the flags of a profile for the start of a browser.
fn rewrite_flags(headed: bool, flags: &Vec<&'static str>) -> (r: Vec<String>)
    ensures
        texts(r@) == flags@.map_values(|flag: &'static str| flag@).map_values(
            |flag: Seq<char>| rewritten_flag(headed, flag),
        ),
{
    let mut out: Vec<String> = Vec::new();
    let mut i: usize = 0;
    while i < flags.len()
        invariant
            i <= flags@.len(),
            out@.len() == i,
            forall|j: int| 0 <= j < i ==> (#[trigger] out@[j])@ == rewritten_flag(headed, flags@[j]@),
        decreases flags@.len() - i,
    {
        out.push(rewrite_flag(headed, flags[i]));
        i += 1;
    }
    assert(texts(out@) =~= flags@.map_values(|flag: &'static str| flag@).map_values(
        |flag: Seq<char>| rewritten_flag(headed, flag),
    ));
    out
}

/// Copies the flags of a profile as they stand.
fn copy_flags(flags: &Vec<&'static str>) -> (r: Vec<String>)
    ensures
        texts(r@) == flags@.map_values(|flag: &'static str| flag@),
{
    let mut out: Vec<String> = Vec::new();
    let mut i: usize = 0;
    while i < flags.len()
        invariant
            i <= flags@.len(),
            out@.len() == i,
            forall|j: int| 0 <= j < i ==> (#[trigger] out@[j])@ == flags@[j]@,
        decreases flags@.len() - i,
    {
        out.push(String::from_str(flags[i]));
        i += 1;
    }
    assert(texts(out@) =~= flags@.map_values(|flag: &'static str| flag@));
    out
}

/// The proxies of a crawl as texts, where any are set.
pub open spec fn proxy_texts(proxies: Option<Box<Vec<String>>>) -> Option<Seq<Seq<char>>> {
    match proxies {
        Some(list) => Some(texts(list@)),
        None => None,
    }
}

impl BrowserSettings {
    /// Whether these are the settings for the start of a local browser: the
    /// flags of the profile replace the browser's own; a browser with a
    /// window runs without its sandbox; requests are intercepted where the
    /// build can do it and the crawl asks for it; a browser program named by
    /// the surroundings is the one that is started.
    pub open spec fn starts(
        self,
        profile: LaunchProfile,
        proxies: Option<Box<Vec<String>>>,
        intercept: bool,
        cache_enabled: bool,
        viewport: Option<Viewport>,
        request_timeout: Option<Box<core::time::Duration>>,
        chrome_bin: Option<String>,
    ) -> bool {
        &&& self.with_head == profile.headed
        &&& self.sandbox == !profile.headed
        &&& self.request_timeout == request_time(request_timeout)
        &&& self.cache_enabled == cache_enabled
        &&& self.request_intercept == (profile.intercept && intercept)
        &&& texts(self.args@) == launch_flags(profile, proxy_texts(proxies))
        &&& self.executable == chrome_bin
        &&& self.viewport == viewport
    }
}

/// The settings for the start of a local browser.
pub fn get_browser_config(
    profile: &LaunchProfile,
    proxies: &Option<Box<Vec<String>>>,
    intercept: bool,
    cache_enabled: bool,
    viewport: Option<Viewport>,
    request_timeout: &Option<Box<core::time::Duration>>,
    chrome_bin: Option<String>,
) -> (r: BrowserSettings)
    ensures
        r.starts(
            *profile,
            *proxies,
            intercept,
            cache_enabled,
            viewport,
            *request_timeout,
            chrome_bin,
        ),
{
    let flags = profile.chrome_args();
    let args = match proxies {
        Some(list) => {
            let mut args = rewrite_flags(profile.headed, &flags);
            let mut flag = String::from_str(PROXY_FLAG_HEAD);
            let list_text = join(list, PROXY_SEPARATOR);
            flag.append(list_text.as_str());
            flag.append(PROXY_FLAG_TAIL);
            let ghost before = texts(args@);
            args.push(flag);
            assert(texts(args@) =~= before.push(proxy_flag(texts(list@))));
            args
        },
        None => if profile.headed {
            rewrite_flags(true, &flags)
        } else {
            copy_flags(&flags)
        },
    };
    BrowserSettings {
        with_head: profile.headed,
        sandbox: !profile.headed,
        request_timeout: request_time_of(request_timeout),
        cache_enabled,
        request_intercept: profile.intercept && intercept,
        args,
        executable: chrome_bin,
        viewport,
    }
}

/// How the session attaches to a browser that is already running.
#[derive(Debug, PartialEq, Eq)]
pub struct ConnectSettings {
    /// Where the browser listens.
    pub url: String,
    /// The time allowed for one request.
    pub request_timeout: core::time::Duration,
    /// Whether requests are intercepted.
    pub request_intercept: bool,
    /// Whether responses are cached.
    pub cache_enabled: bool,
    /// The screen that pages are laid out for.
    pub viewport: Option<Viewport>,
}

/// How the session gets its browser.
#[derive(Debug, PartialEq, Eq)]
pub enum LaunchPlan {
    /// Attach to the browser that is running at the named place.
    Connect(ConnectSettings),
    /// Start a browser on this machine.
    Launch(BrowserSettings),
}

impl ConnectSettings {
    /// Whether these are the settings for attaching to the browser at the
    /// named place: the crawl's time for a request, its cache setting and
    /// its screen, and interception where the build can do it and the crawl
    /// asks for it.
    pub open spec fn attaches(self, url: String, profile: LaunchProfile, config: Configuration) -> bool {
        &&& self.url == url
        &&& self.request_timeout == request_time(config.request_timeout)
        &&& self.request_intercept == (profile.intercept && config.chrome_intercept)
        &&& self.cache_enabled == config.cache
        &&& self.viewport == config.viewport
    }
}

/// Decides how the session gets its browser. Where the surroundings name a
/// remote browser, the session attaches to it and never starts one of its
/// own; else it starts a local one with the settings of
/// `get_browser_config`.
pub fn launch_browser(
    profile: &LaunchProfile,
    config: &Configuration,
    chrome_url: Option<String>,
    chrome_bin: Option<String>,
) -> (r: LaunchPlan)
    ensures
        match chrome_url {
            Some(url) => r matches LaunchPlan::Connect(settings) && settings.attaches(
                url,
                *profile,
                *config,
            ),
            None => r matches LaunchPlan::Launch(settings) && settings.starts(
                *profile,
                config.proxies,
                config.chrome_intercept,
                config.cache,
                config.viewport,
                config.request_timeout,
                chrome_bin,
            ),
        },
{
    match chrome_url {
        Some(url) => LaunchPlan::Connect(
            ConnectSettings {
                url,
                request_timeout: request_time_of(&config.request_timeout),
                request_intercept: profile.intercept && config.chrome_intercept,
                cache_enabled: config.cache,
                viewport: config.viewport,
            },
        ),
        None => LaunchPlan::Launch(
            get_browser_config(
                profile,
                &config.proxies,
                config.chrome_intercept,
                config.cache,
                config.viewport,
                &config.request_timeout,
                chrome_bin,
            ),
        ),
    }
}

/// The life of a browser session.
#[derive(Debug, Clone, Copy, PartialEq, Eq, Structural)]
pub enum SessionState {
    /// No browser has been asked for yet.
    Uninitialized,
    /// The session is attaching to a remote browser.
    Connecting,
    /// The session is starting a local browser.
    Launching,
    /// The browser is there, and its events are being polled.
    Ready,
    /// The session is over. It stays over: no new browser is started for it.
    Closed,
}

/// What one poll of the browser's events brought.
#[derive(Debug, Clone, Copy, PartialEq, Eq, Structural)]
pub enum PollResult {
    /// An event.
    Event,
    /// An error of the protocol.
    ProtocolError,
    /// The end of the stream of events.
    StreamEnded,
}

/// What happens to a browser session.
#[derive(Debug, Clone, Copy, PartialEq, Eq, Structural)]
pub enum SessionEvent {
    /// A browser is asked for; `remote` tells whether a remote browser is
    /// named.
    Acquire { remote: bool },
    /// The attempt to attach or to start succeeded.
    Attached,
    /// The attempt to attach or to start failed.
    AttachFailed,
    /// A poll of the browser's events returned.
    Polled(PollResult),
    /// The crawl ended or was aborted; `poller_finished` tells whether the
    /// task that polls the events has already ended by itself.
    Close { poller_finished: bool },
}

/// What the owner of a browser session is to do next.
#[derive(Debug, Clone, Copy, PartialEq, Eq, Structural)]
pub enum SessionAction {
    /// Nothing.
    Nothing,
    /// Attach to the remote browser.
    Connect,
    /// Start a local browser.
    Launch,
    /// Start the task that polls the browser's events.
    StartPolling,
    /// Poll the browser's events again.
    PollAgain,
    /// End the task that polls the browser's events.
    StopPolling,
    /// Tell the caller that no browser is to be had.
    ReportUnavailable,
}

/// A session state together with what is to be done on entering it.
#[derive(Debug, Clone, Copy, PartialEq, Eq, Structural)]
pub struct SessionStep {
    /// The state after the event.
    pub state: SessionState,
    /// What is to be done.
    pub action: SessionAction,
}

/// The state of a session after an event, and what is to be done. An event
/// that makes no sense in a state leaves the state as it is.
pub open spec fn session_next(state: SessionState, event: SessionEvent) -> SessionStep {
    match state {
        SessionState::Uninitialized => match event {
            SessionEvent::Acquire { remote } => if remote {
                SessionStep { state: SessionState::Connecting, action: SessionAction::Connect }
            } else {
                SessionStep { state: SessionState::Launching, action: SessionAction::Launch }
            },
            SessionEvent::Close { poller_finished } => SessionStep {
                state: SessionState::Closed,
                action: SessionAction::Nothing,
            },
            _ => SessionStep { state, action: SessionAction::Nothing },
        },
        SessionState::Connecting | SessionState::Launching => match event {
            SessionEvent::Attached => SessionStep {
                state: SessionState::Ready,
                action: SessionAction::StartPolling,
            },
            SessionEvent::AttachFailed => SessionStep {
                state: SessionState::Closed,
                action: SessionAction::ReportUnavailable,
            },
            SessionEvent::Close { poller_finished } => SessionStep {
                state: SessionState::Closed,
                action: SessionAction::Nothing,
            },
            _ => SessionStep { state, action: SessionAction::Nothing },
        },
        SessionState::Ready => match event {
            SessionEvent::Polled(result) => match result {
                PollResult::Event => SessionStep { state, action: SessionAction::PollAgain },
                _ => SessionStep { state: SessionState::Closed, action: SessionAction::Nothing },
            },
            SessionEvent::Close { poller_finished } => SessionStep {
                state: SessionState::Closed,
                action: if poller_finished {
                    SessionAction::Nothing
                } else {
                    SessionAction::StopPolling
                },
            },
            _ => SessionStep { state, action: SessionAction::Nothing },
        },
        SessionState::Closed => match event {
            SessionEvent::Acquire { remote } => SessionStep {
                state,
                action: SessionAction::ReportUnavailable,
            },
            _ => SessionStep { state, action: SessionAction::Nothing },
        },
    }
}

/// Moves a session on by one event.
pub fn session_step(state: SessionState, event: SessionEvent) -> (r: SessionStep)
    ensures
        r == session_next(state, event),
{
    match state {
        SessionState::Uninitialized => match event {
            SessionEvent::Acquire { remote } => if remote {
                SessionStep { state: SessionState::Connecting, action: SessionAction::Connect }
            } else {
                SessionStep { state: SessionState::Launching, action: SessionAction::Launch }
            },
            SessionEvent::Close { poller_finished: _ } => SessionStep {
                state: SessionState::Closed,
                action: SessionAction::Nothing,
            },
            _ => SessionStep { state, action: SessionAction::Nothing },
        },
        SessionState::Connecting | SessionState::Launching => match event {
            SessionEvent::Attached => SessionStep {
                state: SessionState::Ready,
                action: SessionAction::StartPolling,
            },
            SessionEvent::AttachFailed => SessionStep {
                state: SessionState::Closed,
                action: SessionAction::ReportUnavailable,
            },
            SessionEvent::Close { poller_finished: _ } => SessionStep {
                state: SessionState::Closed,
                action: SessionAction::Nothing,
            },
            _ => SessionStep { state, action: SessionAction::Nothing },
        },
        SessionState::Ready => match event {
            SessionEvent::Polled(result) => match result {
                PollResult::Event => SessionStep { state, action: SessionAction::PollAgain },
                _ => SessionStep { state: SessionState::Closed, action: SessionAction::Nothing },
            },
            SessionEvent::Close { poller_finished } => SessionStep {
                state: SessionState::Closed,
                action: if poller_finished {
                    SessionAction::Nothing
                } else {
                    SessionAction::StopPolling
                },
            },
            _ => SessionStep { state, action: SessionAction::Nothing },
        },
        SessionState::Closed => match event {
            SessionEvent::Acquire { remote: _ } => SessionStep {
                state,
                action: SessionAction::ReportUnavailable,
            },
            _ => SessionStep { state, action: SessionAction::Nothing },
        },
    }
}

/// Ends a session: the task that polls the browser's events is stopped
/// unless it has ended by itself.
pub fn close_browser(state: SessionState, poller_finished: bool) -> (r: SessionStep)
    ensures
        r == session_next(state, SessionEvent::Close { poller_finished }),
        r.state == SessionState::Closed,
        r.action == SessionAction::StopPolling <==> (state == SessionState::Ready
            && !poller_finished),
{
    session_step(state, SessionEvent::Close { poller_finished })
}

/// The state of a session after one event after the other.
pub open spec fn session_after(state: SessionState, events: Seq<SessionEvent>) -> SessionState
    decreases events.len(),
{
    if events.len() == 0 {
        state
    } else {
        session_after(session_next(state, events[0]).state, events.skip(1))
    }
}

/// A session that is over stays over, whatever happens: no browser is
/// started again for it.
pub proof fn law_closed_session_stays_closed(events: Seq<SessionEvent>)
    ensures
        session_after(SessionState::Closed, events) == SessionState::Closed,
    decreases events.len(),
{
    if events.len() > 0 {
        law_closed_session_stays_closed(events.skip(1));
    }
}

/// A local browser is started only for a session that has not begun and has
/// no remote browser named: a connection that fails is never made up for by
/// a start.
pub proof fn law_no_fallback_to_launch(state: SessionState, event: SessionEvent)
    ensures
        session_next(state, event).action == SessionAction::Launch <==> (state
            == SessionState::Uninitialized && event == SessionEvent::Acquire { remote: false }),
        session_next(state, event).state == SessionState::Launching ==> (state
            == SessionState::Launching || (state == SessionState::Uninitialized && event
            == SessionEvent::Acquire { remote: false })),
        session_next(SessionState::Connecting, SessionEvent::AttachFailed) == (SessionStep {
            state: SessionState::Closed,
            action: SessionAction::ReportUnavailable,
        }),
{
}

/// Polling starts when the session becomes ready and at no other time, and a
/// ready session ends at the first poll that brings an error or the end of
/// the stream.
pub proof fn law_polling_follows_readiness(state: SessionState, event: SessionEvent)
    ensures
        session_next(state, event).action == SessionAction::StartPolling <==> (state
            != SessionState::Ready && session_next(state, event).state == SessionState::Ready),
        session_next(SessionState::Ready, SessionEvent::Polled(PollResult::ProtocolError)).state
            == SessionState::Closed,
        session_next(SessionState::Ready, SessionEvent::Polled(PollResult::StreamEnded)).state
            == SessionState::Closed,
        session_next(SessionState::Ready, SessionEvent::Polled(PollResult::Event)) == (SessionStep {
            state: SessionState::Ready,
            action: SessionAction::PollAgain,
        }),
{
}

/// A setting of a page that overrides what the browser would report.
#[derive(Debug, Clone, PartialEq, Eq)]
pub enum PageOverride {
    /// The time zone that the page sees.
    Timezone(String),
    /// The locale that the page sees.
    Locale(String),
}

/// What a page override says, with its text as a sequence of characters.
pub enum OverrideModel {
    Timezone(Seq<char>),
    Locale(Seq<char>),
}

impl View for PageOverride {
    type V = OverrideModel;

    open spec fn view(&self) -> OverrideModel {
        match *self {
            PageOverride::Timezone(id) => OverrideModel::Timezone(id@),
            PageOverride::Locale(locale) => OverrideModel::Locale(locale@),
        }
    }
}

/// The overrides to apply to a new page: the time zone first, where one is
/// set, then the locale, where one is set.
pub open spec fn page_overrides(
    timezone_id: Option<Box<String>>,
    locale: Option<Box<String>>,
) -> Seq<OverrideModel> {
    let first = match timezone_id {
        Some(id) => seq![OverrideModel::Timezone(id@)],
        None => Seq::empty(),
    };
    match locale {
        Some(locale) => first.push(OverrideModel::Locale(locale@)),
        None => first,
    }
}

/// The overrides to apply to a new page before it goes anywhere. Each is
/// tried by itself: one that the browser refuses leaves the page as it was
/// in that respect, and the next is tried all the same.
pub fn configure_browser(configuration: &Configuration) -> (r: Vec<PageOverride>)
    ensures
        r@.map_values(|o: PageOverride| o@) == page_overrides(
            configuration.timezone_id,
            configuration.locale,
        ),
{
    let mut overrides: Vec<PageOverride> = Vec::new();
    match &configuration.timezone_id {
        Some(id) => {
            overrides.push(PageOverride::Timezone((**id).clone()));
        },
        None => {},
    }
    match &configuration.locale {
        Some(locale) => {
            overrides.push(PageOverride::Locale((**locale).clone()));
        },
        None => {},
    }
    assert(overrides@.map_values(|o: PageOverride| o@) =~= page_overrides(
        configuration.timezone_id,
        configuration.locale,
    ));
    overrides
}

/// Where a page is on its way from being opened to being closed.
#[derive(Debug, Clone, Copy, PartialEq, Eq, Structural)]
pub enum PagePhase {
    /// The page has been opened.
    Created,
    /// The overrides are being applied.
    Configuring,
    /// The page is going to its link.
    Navigating,
    /// The wait conditions are being waited for.
    Waiting,
    /// The automation script is running.
    Automating,
    /// The content is being read.
    Extracting,
    /// The page is done with.
    Closed,
}

/// How a phase of a page ended.
#[derive(Debug, Clone, Copy, PartialEq, Eq, Structural)]
pub enum PhaseOutcome {
    /// It did what it was for.
    Done,
    /// It failed.
    Failed,
    /// It ran out of time.
    TimedOut,
}

/// A page on its way.
#[derive(Debug, Clone, Copy, PartialEq, Eq, Structural)]
pub struct PageFlow {
    /// Where the page is.
    pub phase: PagePhase,
    /// Whether an automation script is registered for the link of the page.
    pub has_script: bool,
    /// Why the record of the page will report a failure, if it will.
    pub failure: Option<ErrorKind>,
}

/// The failure that an outcome other than success stands for.
pub open spec fn failure_of(outcome: PhaseOutcome) -> ErrorKind {
    if outcome == PhaseOutcome::TimedOut {
        ErrorKind::Timeout
    } else {
        ErrorKind::Network
    }
}

/// A page after its current phase has ended. `session_open` tells whether
/// the browser session is still there: without it the page fails at once.
/// A page that does not reach its link fails; a page that cannot be read
/// fails; nothing else makes a page fail, neither an override that is
/// refused nor a wait that runs out of time nor a script.
pub open spec fn page_next(flow: PageFlow, outcome: PhaseOutcome, session_open: bool) -> PageFlow {
    if flow.phase == PagePhase::Closed {
        flow
    } else if !session_open {
        PageFlow { phase: PagePhase::Closed, failure: Some(ErrorKind::SessionClosed), ..flow }
    } else {
        match flow.phase {
            PagePhase::Created => PageFlow { phase: PagePhase::Configuring, ..flow },
            PagePhase::Configuring => PageFlow { phase: PagePhase::Navigating, ..flow },
            PagePhase::Navigating => if outcome == PhaseOutcome::Done {
                PageFlow { phase: PagePhase::Waiting, ..flow }
            } else {
                PageFlow { phase: PagePhase::Closed, failure: Some(failure_of(outcome)), ..flow }
            },
            PagePhase::Waiting => if flow.has_script {
                PageFlow { phase: PagePhase::Automating, ..flow }
            } else {
                PageFlow { phase: PagePhase::Extracting, ..flow }
            },
            PagePhase::Automating => PageFlow { phase: PagePhase::Extracting, ..flow },
            PagePhase::Extracting => if outcome == PhaseOutcome::Done {
                PageFlow { phase: PagePhase::Closed, ..flow }
            } else {
                PageFlow { phase: PagePhase::Closed, failure: Some(failure_of(outcome)), ..flow }
            },
            PagePhase::Closed => flow,
        }
    }
}

impl PageFlow {
    /// A page that has just been opened.
    pub fn new(has_script: bool) -> (r: Self)
        ensures
            r == (PageFlow { phase: PagePhase::Created, has_script, failure: None }),
    {
        PageFlow { phase: PagePhase::Created, has_script, failure: None }
    }

    /// Moves the page on after its current phase has ended.
    pub fn advance(&mut self, outcome: PhaseOutcome, session_open: bool)
        ensures
            *final(self) == page_next(*old(self), outcome, session_open),
    {
        let failure = match outcome {
            PhaseOutcome::Done => None,
            PhaseOutcome::TimedOut => Some(ErrorKind::Timeout),
            PhaseOutcome::Failed => Some(ErrorKind::Network),
        };
        match self.phase {
            PagePhase::Closed => {},
            _ => if !session_open {
                self.phase = PagePhase::Closed;
                self.failure = Some(ErrorKind::SessionClosed);
            } else {
                match self.phase {
                    PagePhase::Created => {
                        self.phase = PagePhase::Configuring;
                    },
                    PagePhase::Configuring => {
                        self.phase = PagePhase::Navigating;
                    },
                    PagePhase::Navigating => match failure {
                        None => {
                            self.phase = PagePhase::Waiting;
                        },
                        Some(kind) => {
                            self.phase = PagePhase::Closed;
                            self.failure = Some(kind);
                        },
                    },
                    PagePhase::Waiting => if self.has_script {
                        self.phase = PagePhase::Automating;
                    } else {
                        self.phase = PagePhase::Extracting;
                    },
                    PagePhase::Automating => {
                        self.phase = PagePhase::Extracting;
                    },
                    PagePhase::Extracting => {
                        self.phase = PagePhase::Closed;
                        match failure {
                            None => {},
                            Some(kind) => {
                                self.failure = Some(kind);
                            },
                        }
                    },
                    PagePhase::Closed => {},
                }
            },
        }
    }

    /// The record of the page: a failure where the page has failed, with no
    /// links, whatever was read; else a success with what was read.
    pub fn record(
        &self,
        url: String,
        status: u16,
        content: Vec<u8>,
        links: Vec<String>,
        elapsed_ms: u64,
    ) -> (r: PageRecord)
        ensures
            r.url == url,
            r.elapsed_ms == elapsed_ms,
            match self.failure {
                Some(kind) => r.outcome == Outcome::Failure(kind) && r.links@ == Seq::<
                    String,
                >::empty(),
                None => r.outcome == (Outcome::Success { status, content }) && r.links == links,
            },
    {
        match self.failure {
            Some(kind) => PageRecord::failure(url, kind, elapsed_ms),
            None => PageRecord::success(url, status, content, links, elapsed_ms),
        }
    }
}

/// The number of phases that a page has before it, at most.
pub open spec fn phases_left(phase: PagePhase) -> nat {
    match phase {
        PagePhase::Created => 6,
        PagePhase::Configuring => 5,
        PagePhase::Navigating => 4,
        PagePhase::Waiting => 3,
        PagePhase::Automating => 2,
        PagePhase::Extracting => 1,
        PagePhase::Closed => 0,
    }
}

/// A wait that runs out of time, or fails, is not fatal: the page goes on to
/// its script, where it has one, and to the reading of its content, and its
/// record reports no failure on that account.
pub proof fn law_wait_timeout_is_not_fatal(flow: PageFlow, outcome: PhaseOutcome)
    requires
        flow.phase == PagePhase::Waiting,
    ensures
        page_next(flow, outcome, true).failure == flow.failure,
        page_next(flow, outcome, true).phase == if flow.has_script {
            PagePhase::Automating
        } else {
            PagePhase::Extracting
        },
        page_next(page_next(flow, outcome, true), outcome, true).phase == PagePhase::Extracting
            || page_next(flow, outcome, true).phase == PagePhase::Extracting,
{
}

/// Neither a refused override nor anything that happens to a script makes a
/// page fail or stop.
pub proof fn law_overrides_and_scripts_are_not_fatal(flow: PageFlow, outcome: PhaseOutcome)
    requires
        flow.phase == PagePhase::Configuring || flow.phase == PagePhase::Automating,
    ensures
        page_next(flow, outcome, true).failure == flow.failure,
        page_next(flow, outcome, true).phase == if flow.phase == PagePhase::Configuring {
            PagePhase::Navigating
        } else {
            PagePhase::Extracting
        },
{
}

/// Every phase that ends brings a page closer to its end, and a page whose
/// session is gone is closed at once, with a failure: no page hangs.
pub proof fn law_page_moves_on(flow: PageFlow, outcome: PhaseOutcome, session_open: bool)
    requires
        flow.phase != PagePhase::Closed,
    ensures
        phases_left(page_next(flow, outcome, session_open).phase) < phases_left(flow.phase),
        !session_open ==> page_next(flow, outcome, session_open) == (PageFlow {
            phase: PagePhase::Closed,
            failure: Some(ErrorKind::SessionClosed),
            ..flow
        }),
{
}

} // verus!
