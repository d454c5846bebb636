//! Page-level settings of the browser backend: what to wait for before a
//! page is read, how to take a screenshot, how to answer an authentication
//! challenge, and the steps of a page automation script.

use crate::text::{decimal, push_decimal};
use crate::utils::tables::{automation_table, script_table, AutomationTable, ScriptTable};
use vstd::prelude::*;
use vstd::string::*;

verus! {

/// Wait until the network has been idle, with an optional limit on the wait.
#[derive(Debug, Default, Clone)]
pub struct WaitForIdleNetwork {
    /// The longest time to wait; `None` waits without a limit.
    pub timeout: Option<core::time::Duration>,
}

impl WaitForIdleNetwork {
    /// A wait for an idle network with the given limit.
    pub fn new(timeout: Option<core::time::Duration>) -> (r: Self)
        ensures
            r.timeout == timeout,
    {
        Self { timeout }
    }
}

/// Wait until a selector matches, with an optional limit on the wait.
#[derive(Debug, Default, Clone)]
pub struct WaitForSelector {
    /// The longest time to wait; `None` waits without a limit.
    pub timeout: Option<core::time::Duration>,
    /// The selector to wait for.
    pub selector: String,
}

impl WaitForSelector {
    /// A wait for the selector with the given limit.
    pub fn new(timeout: Option<core::time::Duration>, selector: String) -> (r: Self)
        ensures
            r.timeout == timeout,
            r.selector == selector,
    {
        Self { timeout, selector }
    }
}

/// Wait for a fixed delay.
#[derive(Debug, Default, Clone)]
pub struct WaitForDelay {
    /// The time to wait; `None` does not wait.
    pub timeout: Option<core::time::Duration>,
}

impl WaitForDelay {
    /// A fixed delay of the given length.
    pub fn new(timeout: Option<core::time::Duration>) -> (r: Self)
        ensures
            r.timeout == timeout,
    {
        Self { timeout }
    }
}

/// What a page waits for before its content is read. Several conditions can
/// be set; each one set is waited for.
#[derive(Debug, Default, Clone)]
pub struct WaitFor {
    /// Wait for a selector.
    pub selector: Option<WaitForSelector>,
    /// Wait for the network to be idle.
    pub idle_network: Option<WaitForIdleNetwork>,
    /// Wait for a fixed delay.
    pub delay: Option<WaitForDelay>,
    /// Wait for the next navigation to finish.
    pub page_navigations: bool,
}

impl WaitFor {
    /// The conditions to wait for: the idle-network wait is set when
    /// `idle_network` is, the selector wait when a selector is given, both
    /// with the same limit; the delay and the navigation flag are taken as
    /// they are.
    pub fn new(
        timeout: Option<core::time::Duration>,
        delay: Option<WaitForDelay>,
        page_navigations: bool,
        idle_network: bool,
        selector: Option<String>,
    ) -> (r: Self)
        ensures
            r.page_navigations == page_navigations,
            r.delay == delay,
            r.idle_network == if idle_network {
                Some(WaitForIdleNetwork { timeout })
            } else {
                None
            },
            r.selector == match selector {
                Some(s) => Some(WaitForSelector { timeout, selector: s }),
                None => None,
            },
    {
        Self {
            page_navigations,
            idle_network: if idle_network {
                Some(WaitForIdleNetwork::new(timeout))
            } else {
                None
            },
            selector: match selector {
                Some(s) => Some(WaitForSelector::new(timeout, s)),
                None => None,
            },
            delay,
        }
    }
}

/// One thing that a page waits for before its content is read.
#[derive(Debug, Clone)]
pub enum WaitCondition {
    /// Wait until the network has been idle, for the given time at most.
    IdleNetwork(Option<core::time::Duration>),
    /// Wait until the selector matches, for the given time at most.
    Selector {
        /// The selector to wait for.
        selector: String,
        /// The longest time to wait.
        timeout: Option<core::time::Duration>,
    },
    /// Wait for the given time.
    Delay(Option<core::time::Duration>),
    /// Wait for the next navigation to finish.
    Navigation,
}

/// What a wait condition says, with its text as a sequence of characters.
pub enum ConditionModel {
    IdleNetwork(Option<core::time::Duration>),
    Selector { selector: Seq<char>, timeout: Option<core::time::Duration> },
    Delay(Option<core::time::Duration>),
    Navigation,
}

impl View for WaitCondition {
    type V = ConditionModel;

    open spec fn view(&self) -> ConditionModel {
        match *self {
            WaitCondition::IdleNetwork(timeout) => ConditionModel::IdleNetwork(timeout),
            WaitCondition::Selector { selector, timeout } => ConditionModel::Selector {
                selector: selector@,
                timeout,
            },
            WaitCondition::Delay(timeout) => ConditionModel::Delay(timeout),
            WaitCondition::Navigation => ConditionModel::Navigation,
        }
    }
}

/// The conditions that are set, in the order in which they are waited for:
/// the idle network, the selector, the delay, the navigation.
pub open spec fn wait_conditions(wait_for: WaitFor) -> Seq<ConditionModel> {
    let idle = match wait_for.idle_network {
        Some(wait) => seq![ConditionModel::IdleNetwork(wait.timeout)],
        None => Seq::empty(),
    };
    let selector = match wait_for.selector {
        Some(wait) => idle.push(
            ConditionModel::Selector { selector: wait.selector@, timeout: wait.timeout },
        ),
        None => idle,
    };
    let delay = match wait_for.delay {
        Some(wait) => selector.push(ConditionModel::Delay(wait.timeout)),
        None => selector,
    };
    if wait_for.page_navigations {
        delay.push(ConditionModel::Navigation)
    } else {
        delay
    }
}

impl WaitFor {
    /// The conditions that are set. Each of them is waited for, one after
    /// the other; one that runs out of time is left behind and the next is
    /// waited for.
    pub fn conditions(&self) -> (r: Vec<WaitCondition>)
        ensures
            r@.map_values(|c: WaitCondition| c@) == wait_conditions(*self),
    {
        let mut conditions: Vec<WaitCondition> = Vec::new();
        match &self.idle_network {
            Some(wait) => {
                conditions.push(WaitCondition::IdleNetwork(wait.timeout));
            },
            None => {},
        }
        match &self.selector {
            Some(wait) => {
                conditions.push(
                    WaitCondition::Selector {
                        selector: wait.selector.clone(),
                        timeout: wait.timeout,
                    },
                );
            },
            None => {},
        }
        match &self.delay {
            Some(wait) => {
                conditions.push(WaitCondition::Delay(wait.timeout));
            },
            None => {},
        }
        if self.page_navigations {
            conditions.push(WaitCondition::Navigation);
        }
        assert(conditions@.map_values(|c: WaitCondition| c@) =~= wait_conditions(*self));
        conditions
    }
}

/// The image format of a screenshot.
#[derive(Debug, Clone, Copy, PartialEq, Eq, Structural, Hash, Default)]
pub enum CaptureScreenshotFormat {
    /// jpeg format
    Jpeg,
    /// png format
    #[default]
    Png,
    /// webp format
    Webp,
}

impl CaptureScreenshotFormat {
    /// The lower-case name of the format.
    pub open spec fn name(self) -> Seq<char> {
        match self {
            CaptureScreenshotFormat::Jpeg => "jpeg"@,
            CaptureScreenshotFormat::Png => "png"@,
            CaptureScreenshotFormat::Webp => "webp"@,
        }
    }

    /// The format as a lower-case string.
    pub fn to_string(&self) -> (r: String)
        ensures
            r@ == self.name(),
    {
        match self {
            CaptureScreenshotFormat::Jpeg => String::from_str("jpeg"),
            CaptureScreenshotFormat::Png => String::from_str("png"),
            CaptureScreenshotFormat::Webp => String::from_str("webp"),
        }
    }
}

/// The decision on what to do in response to an authentication challenge.
#[derive(Debug, Default, Clone, Copy, PartialEq, Eq, Structural, Hash)]
pub enum AuthChallengeResponseResponse {
    /// Defer to the default behaviour of the network stack.
    #[default]
    Default,
    /// Cancel the authentication prompt.
    CancelAuth,
    /// Provide credentials.
    ProvideCredentials,
}

/// The response to an authentication challenge.
#[derive(Default, Debug, Clone, PartialEq)]
pub struct AuthChallengeResponse {
    /// The decision on what to do.
    pub response: AuthChallengeResponseResponse,
    /// The username to provide, possibly empty. Only meant to be set when the
    /// decision is to provide credentials.
    pub username: Option<String>,
    /// The password to provide, possibly empty. Only meant to be set when the
    /// decision is to provide credentials.
    pub password: Option<String>,
}

/// A step of a page automation script.
#[derive(Debug, Clone, PartialEq, Eq)]
pub enum WebAutomation {
    /// Runs custom JavaScript code.
    Evaluate(String),
    /// Clicks on an element.
    Click(String),
    /// Waits for a fixed duration in milliseconds.
    Wait(u64),
    /// Waits for the next navigation event.
    WaitForNavigation,
    /// Waits for an element to appear.
    WaitFor(String),
    /// Waits for an element to appear and then clicks on it.
    WaitForAndClick(String),
    /// Scrolls the screen horizontally by a number of pixels.
    ScrollX(i32),
    /// Scrolls the screen vertically by a number of pixels.
    ScrollY(i32),
    /// Fills an input element with a value.
    Fill {
        /// The selector of the input element to fill.
        selector: String,
        /// The value to fill the input element with.
        value: String,
    },
    /// Scrolls the page until the end.
    InfiniteScroll(u32),
    /// Takes a screenshot of the page.
    Screenshot {
        /// Take a full page screenshot.
        full_page: bool,
        /// Omit the background.
        omit_background: bool,
        /// The output file to store the screenshot.
        output: String,
    },
}

/// The longest time, in milliseconds, that the scroll script keeps scrolling.
pub const SCROLL_TIMEOUT_CEILING: u32 = 60000;

/// The scroll script up to the place of its time limit.
pub const SCROLL_SCRIPT_HEAD: &'static str = "\n        document.addEventListener('DOMContentLoaded',e=>{let t=null,o=null,n=";

/// The scroll script behind the place of its time limit.
pub const SCROLL_SCRIPT_TAIL: &'static str = ",a=Date.now(),i=Date.now(),r=()=>{window.scrollTo(0,document.body.scrollHeight)},l=()=>{o&&o.disconnect(),console.log('Stopped checking for new content.')},c=(e,n)=>{e.forEach(e=>{if(e.isIntersecting){i=Date.now();const n=Date.now();if(n-a>=t||n-i>=1e4)return void l();r(),t=document.querySelector('body > *:last-child'),o.observe(t)}})},s=()=>{t&&(o=new IntersectionObserver(c),o.observe(t))},d=()=>{['load','error','abort'].forEach(e=>{window.addEventListener(e,()=>{const e=document.querySelector('body > *:last-child');e!==t&&(i=Date.now(),t=e,o.observe(t))})})},u=()=>{r(),t=document.querySelector('body > *:last-child'),s(),d()};u(),setTimeout(l,n)});\n    ";

/// The text of the scroll script for a time limit in milliseconds: the limit,
/// capped at the ceiling and written in decimal, between the two fixed parts.
pub open spec fn dynamic_scroll_script(timeout: u32) -> Seq<char> {
    let capped = if timeout <= SCROLL_TIMEOUT_CEILING {
        timeout
    } else {
        SCROLL_TIMEOUT_CEILING
    };
    SCROLL_SCRIPT_HEAD@ + decimal(capped as nat) + SCROLL_SCRIPT_TAIL@
}

/// The script that scrolls a page to its end as long as new content keeps
/// arriving, and stops after the given time in milliseconds.
pub fn set_dynamic_scroll(timeout: u32) -> (r: String)
    ensures
        r@ == dynamic_scroll_script(timeout),
{
    let capped = if timeout <= SCROLL_TIMEOUT_CEILING {
        timeout
    } else {
        SCROLL_TIMEOUT_CEILING
    };
    let mut script = String::from_str(SCROLL_SCRIPT_HEAD);
    push_decimal(&mut script, capped);
    script.append(SCROLL_SCRIPT_TAIL);
    script
}

/// A double-precision number, carried by its IEEE 754 bit pattern. The
/// library hands such numbers on and never computes with them.
#[derive(Debug, Clone, Copy, PartialEq, Eq, Structural, Hash)]
pub struct Scalar {
    /// The bit pattern of the number.
    pub bits: u64,
}

/// The screen that a page is laid out for.
#[derive(Debug, Clone, Copy, PartialEq, Eq, Structural)]
pub struct Viewport {
    /// Device screen width.
    pub width: u32,
    /// Device screen height.
    pub height: u32,
    /// Device scale factor.
    pub device_scale_factor: Option<Scalar>,
    /// Emulate a mobile device?
    pub emulating_mobile: bool,
    /// Use landscape mode instead of portrait.
    pub is_landscape: bool,
    /// Touch screen device?
    pub has_touch: bool,
}

impl Default for Viewport {
    /// A screen of 800 by 600, with no scale factor and no emulation.
    fn default() -> (r: Self)
        ensures
            r == (Viewport {
                width: 800,
                height: 600,
                device_scale_factor: None,
                emulating_mobile: false,
                is_landscape: false,
                has_touch: false,
            }),
    {
        Viewport {
            width: 800,
            height: 600,
            device_scale_factor: None,
            emulating_mobile: false,
            is_landscape: false,
            has_touch: false,
        }
    }
}

impl Viewport {
    /// A screen of the given size, with no scale factor and no emulation.
    pub fn new(width: u32, height: u32) -> (r: Self)
        ensures
            r == (Viewport {
                width,
                height,
                device_scale_factor: None,
                emulating_mobile: false,
                is_landscape: false,
                has_touch: false,
            }),
    {
        Viewport {
            width,
            height,
            device_scale_factor: None,
            emulating_mobile: false,
            is_landscape: false,
            has_touch: false,
        }
    }

    /// Sets whether a mobile device is emulated.
    pub fn set_mobile(&mut self, emulating_mobile: bool)
        ensures
            *final(self) == (Viewport { emulating_mobile, ..*old(self) }),
    {
        self.emulating_mobile = emulating_mobile;
    }

    /// Sets whether the screen is in landscape mode.
    pub fn set_landscape(&mut self, is_landscape: bool)
        ensures
            *final(self) == (Viewport { is_landscape, ..*old(self) }),
    {
        self.is_landscape = is_landscape;
    }

    /// Sets whether the device has a touch screen.
    pub fn set_touch(&mut self, has_touch: bool)
        ensures
            *final(self) == (Viewport { has_touch, ..*old(self) }),
    {
        self.has_touch = has_touch;
    }

    /// Sets the scale factor of the screen.
    pub fn set_scale_factor(&mut self, device_scale_factor: Option<Scalar>)
        ensures
            *final(self) == (Viewport { device_scale_factor, ..*old(self) }),
    {
        self.device_scale_factor = device_scale_factor;
    }
}

/// The region of a page that a screenshot is cut to.
#[derive(Debug, Clone, Copy, PartialEq, Eq, Structural)]
pub struct ClipViewport {
    /// X offset in device independent pixels.
    pub x: Scalar,
    /// Y offset in device independent pixels.
    pub y: Scalar,
    /// Rectangle width in device independent pixels.
    pub width: Scalar,
    /// Rectangle height in device independent pixels.
    pub height: Scalar,
    /// Page scale factor.
    pub scale: Scalar,
}

/// The capture options of the browser's screenshot command.
#[derive(Debug, Clone, Copy, Default, PartialEq, Eq, Structural)]
pub struct CaptureScreenshotParams {
    /// Image compression format; png where none is given.
    pub format: Option<CaptureScreenshotFormat>,
    /// Compression quality from 0 to 100 (jpeg only).
    pub quality: Option<i64>,
    /// Capture the screenshot of a given region only.
    pub clip: Option<ClipViewport>,
    /// Capture the screenshot from the surface, rather than the view.
    pub from_surface: Option<bool>,
    /// Capture the screenshot beyond the viewport.
    pub capture_beyond_viewport: Option<bool>,
}

/// How a screenshot is taken.
#[derive(Debug, Clone, Copy, Default, PartialEq, Eq, Structural)]
pub struct ScreenshotParams {
    /// The capture options of the browser.
    pub cdp_params: CaptureScreenshotParams,
    /// Take a screenshot of the full page.
    pub full_page: Option<bool>,
    /// Make the background transparent (png only).
    pub omit_background: Option<bool>,
}

/// What the surroundings say of screenshots: the texts of the two settings
/// that decide where a call leaves the choice open, `None` for a setting that
/// is not made.
#[derive(Debug, Clone, Default)]
pub struct ScreenshotDefaults {
    /// The setting for full-page screenshots.
    pub full_page: Option<String>,
    /// The setting for transparent backgrounds.
    pub omit_background: Option<String>,
}

/// A screenshot with every choice made.
#[derive(Debug, Clone, Copy, PartialEq, Eq, Structural)]
pub struct ScreenshotRequest {
    /// The image format.
    pub format: CaptureScreenshotFormat,
    /// Whether the full page is captured, not only what the screen shows.
    pub full_page: bool,
    /// Whether the background is left transparent.
    pub omit_background: bool,
    /// The compression quality, where one is asked for.
    pub quality: Option<i64>,
    /// The region to cut the screenshot to, where one is asked for.
    pub clip: Option<ClipViewport>,
    /// Whether to capture beyond the viewport, where that is asked for.
    pub capture_beyond_viewport: Option<bool>,
    /// Whether to capture from the surface, where that is asked for.
    pub from_surface: Option<bool>,
}

/// A choice between yes and no: what the call says, where it says anything;
/// else whether the setting of the surroundings reads `true`; and yes where
/// neither speaks.
pub open spec fn choice(explicit: Option<bool>, setting: Option<String>) -> bool {
    match explicit {
        Some(v) => v,
        None => match setting {
            Some(text) => text@ == "true"@,
            None => true,
        },
    }
}

fn choose_flag(explicit: Option<bool>, setting: &Option<String>) -> (r: bool)
    ensures
        r == choice(explicit, *setting),
{
    match explicit {
        Some(v) => v,
        None => match setting {
            Some(text) => {
                let yes = String::from_str("true");
                *text == yes
            },
            None => true,
        },
    }
}

impl ScreenshotParams {
    /// Screenshot parameters from their parts.
    pub fn new(
        cdp_params: CaptureScreenshotParams,
        full_page: Option<bool>,
        omit_background: Option<bool>,
    ) -> (r: Self)
        ensures
            r == (ScreenshotParams { cdp_params, full_page, omit_background }),
    {
        Self { cdp_params, full_page, omit_background }
    }

    /// The screenshot that these parameters ask for under the given
    /// settings: png where no format is named, the two flags by `choice`,
    /// and the remaining options as they are.
    pub open spec fn resolved(self, defaults: ScreenshotDefaults) -> ScreenshotRequest {
        ScreenshotRequest {
            format: match self.cdp_params.format {
                Some(format) => format,
                None => CaptureScreenshotFormat::Png,
            },
            full_page: choice(self.full_page, defaults.full_page),
            omit_background: choice(self.omit_background, defaults.omit_background),
            quality: self.cdp_params.quality,
            clip: self.cdp_params.clip,
            capture_beyond_viewport: self.cdp_params.capture_beyond_viewport,
            from_surface: self.cdp_params.from_surface,
        }
    }

    /// Makes every choice that the parameters leave open.
    pub fn resolve(&self, defaults: &ScreenshotDefaults) -> (r: ScreenshotRequest)
        ensures
            r == self.resolved(*defaults),
    {
        ScreenshotRequest {
            format: match self.cdp_params.format {
                Some(format) => format,
                None => CaptureScreenshotFormat::Png,
            },
            full_page: choose_flag(self.full_page, &defaults.full_page),
            omit_background: choose_flag(self.omit_background, &defaults.omit_background),
            quality: self.cdp_params.quality,
            clip: self.cdp_params.clip,
            capture_beyond_viewport: self.cdp_params.capture_beyond_viewport,
            from_surface: self.cdp_params.from_surface,
        }
    }
}

/// `std::path::PathBuf`, an owned path of the file system. The library hands
/// paths on and never looks inside one.
#[verifier::external_type_specification]
#[verifier::external_body]
pub struct ExPathBuf(std::path::PathBuf);

/// Where a screenshot goes.
#[derive(Debug, Clone, Default)]
pub struct ScreenShotConfig {
    /// The screenshot parameters.
    pub params: ScreenshotParams,
    /// Return the bytes of the screenshot with the page.
    pub bytes: bool,
    /// Store the screenshot to disk.
    pub save: bool,
    /// The directory to store the file in.
    pub output_dir: Option<std::path::PathBuf>,
}

impl ScreenShotConfig {
    /// A screenshot configuration from its parts.
    pub fn new(
        params: ScreenshotParams,
        bytes: bool,
        save: bool,
        output_dir: Option<std::path::PathBuf>,
    ) -> (r: Self)
        ensures
            r.params == params,
            r.bytes == bytes,
            r.save == save,
            r.output_dir == output_dir,
    {
        Self { params, bytes, save, output_dir }
    }
}

/// The longest time, in milliseconds, that one step of an automation script
/// may take, and the longest that a step waits by itself.
pub const STEP_CEILING_MS: u64 = 60000;

/// One thing to do on a page. A step of an automation script is carried out
/// as one to three of these, each decided when the one before has ended.
#[derive(Debug, Clone, PartialEq, Eq)]
pub enum PageAction {
    /// Evaluate the script on the page.
    Evaluate(String),
    /// Look for the element that the selector names.
    FindElement(String),
    /// Click the element that was found last.
    ClickElement,
    /// Type the text into the element that was clicked last.
    TypeText(String),
    /// Do nothing for a number of milliseconds.
    Sleep(u64),
    /// Wait until the selector matches, for a number of milliseconds at most.
    WaitForSelector {
        /// The selector to wait for.
        selector: String,
        /// The longest time to wait, in milliseconds.
        timeout: u64,
    },
    /// Wait for the next navigation to finish.
    WaitForNavigation,
    /// Scroll until the rectangle is in view.
    ScrollIntoView {
        /// The left edge of the rectangle, in pixels.
        x: i32,
        /// The top edge of the rectangle, in pixels.
        y: i32,
        /// The width of the rectangle, in pixels.
        width: u32,
        /// The height of the rectangle, in pixels.
        height: u32,
    },
    /// Take a screenshot and store it in the output file.
    SaveScreenshot {
        /// How the screenshot is taken.
        params: ScreenshotParams,
        /// The file to store the screenshot in.
        output: String,
    },
}

/// What a page action says, with its texts as sequences of characters.
pub enum ActionModel {
    Evaluate(Seq<char>),
    FindElement(Seq<char>),
    ClickElement,
    TypeText(Seq<char>),
    Sleep(u64),
    WaitForSelector { selector: Seq<char>, timeout: u64 },
    WaitForNavigation,
    ScrollIntoView { x: i32, y: i32, width: u32, height: u32 },
    SaveScreenshot { params: ScreenshotParams, output: Seq<char> },
}

impl View for PageAction {
    type V = ActionModel;

    open spec fn view(&self) -> ActionModel {
        match *self {
            PageAction::Evaluate(script) => ActionModel::Evaluate(script@),
            PageAction::FindElement(selector) => ActionModel::FindElement(selector@),
            PageAction::ClickElement => ActionModel::ClickElement,
            PageAction::TypeText(text) => ActionModel::TypeText(text@),
            PageAction::Sleep(millis) => ActionModel::Sleep(millis),
            PageAction::WaitForSelector { selector, timeout } => ActionModel::WaitForSelector {
                selector: selector@,
                timeout,
            },
            PageAction::WaitForNavigation => ActionModel::WaitForNavigation,
            PageAction::ScrollIntoView { x, y, width, height } => ActionModel::ScrollIntoView {
                x,
                y,
                width,
                height,
            },
            PageAction::SaveScreenshot { params, output } => ActionModel::SaveScreenshot {
                params,
                output: output@,
            },
        }
    }
}

/// The parameters of the screenshot that a script step takes: png, with the
/// two flags as the step gives them.
pub open spec fn step_screenshot_params(full_page: bool, omit_background: bool) -> ScreenshotParams {
    ScreenshotParams {
        cdp_params: CaptureScreenshotParams {
            format: Some(CaptureScreenshotFormat::Png),
            quality: None,
            clip: None,
            from_surface: None,
            capture_beyond_viewport: None,
        },
        full_page: Some(full_page),
        omit_background: Some(omit_background),
    }
}

/// The action of a step at a position, given whether the action before it
/// succeeded; `None` where the step is over. A step that needs an element
/// ends as soon as the element is not found or cannot be clicked: the rest of
/// the step is left out, and nothing is reported as an error.
pub open spec fn step_action(step: WebAutomation, position: nat, previous_ok: bool) -> Option<
    ActionModel,
> {
    match step {
        WebAutomation::Evaluate(script) => if position == 0 {
            Some(ActionModel::Evaluate(script@))
        } else {
            None
        },
        WebAutomation::Click(selector) => if position == 0 {
            Some(ActionModel::FindElement(selector@))
        } else if position == 1 && previous_ok {
            Some(ActionModel::ClickElement)
        } else {
            None
        },
        WebAutomation::Wait(millis) => if position == 0 {
            Some(
                ActionModel::Sleep(
                    if millis <= STEP_CEILING_MS {
                        millis
                    } else {
                        STEP_CEILING_MS
                    },
                ),
            )
        } else {
            None
        },
        WebAutomation::WaitForNavigation => if position == 0 {
            Some(ActionModel::WaitForNavigation)
        } else {
            None
        },
        WebAutomation::WaitFor(selector) => if position == 0 {
            Some(ActionModel::WaitForSelector { selector: selector@, timeout: STEP_CEILING_MS })
        } else {
            None
        },
        WebAutomation::WaitForAndClick(selector) => if position == 0 {
            Some(ActionModel::WaitForSelector { selector: selector@, timeout: STEP_CEILING_MS })
        } else if position == 1 {
            Some(ActionModel::FindElement(selector@))
        } else if position == 2 && previous_ok {
            Some(ActionModel::ClickElement)
        } else {
            None
        },
        WebAutomation::ScrollX(pixels) => if position == 0 {
            Some(ActionModel::ScrollIntoView { x: pixels, y: 0, width: 10, height: 10 })
        } else {
            None
        },
        WebAutomation::ScrollY(pixels) => if position == 0 {
            Some(ActionModel::ScrollIntoView { x: 0, y: pixels, width: 10, height: 10 })
        } else {
            None
        },
        WebAutomation::Fill { selector, value } => if position == 0 {
            Some(ActionModel::FindElement(selector@))
        } else if position == 1 && previous_ok {
            Some(ActionModel::ClickElement)
        } else if position == 2 && previous_ok {
            Some(ActionModel::TypeText(value@))
        } else {
            None
        },
        WebAutomation::InfiniteScroll(timeout) => if position == 0 {
            Some(ActionModel::Evaluate(dynamic_scroll_script(timeout)))
        } else {
            None
        },
        WebAutomation::Screenshot { full_page, omit_background, output } => if position == 0 {
            Some(
                ActionModel::SaveScreenshot {
                    params: step_screenshot_params(full_page, omit_background),
                    output: output@,
                },
            )
        } else {
            None
        },
    }
}

impl WebAutomation {
    /// The next thing to do for this step: `position` counts the actions of
    /// the step that have ended, and `previous_ok` tells whether the last of
    /// them succeeded (it is not looked at for the first action). `None`
    /// means that the step is over.
    pub fn action_at(&self, position: usize, previous_ok: bool) -> (r: Option<PageAction>)
        ensures
            match r {
                Some(action) => step_action(*self, position as nat, previous_ok) == Some(action@),
                None => step_action(*self, position as nat, previous_ok) is None,
            },
    {
        match self {
            WebAutomation::Evaluate(script) => if position == 0 {
                Some(PageAction::Evaluate(script.clone()))
            } else {
                None
            },
            WebAutomation::Click(selector) => if position == 0 {
                Some(PageAction::FindElement(selector.clone()))
            } else if position == 1 && previous_ok {
                Some(PageAction::ClickElement)
            } else {
                None
            },
            WebAutomation::Wait(millis) => if position == 0 {
                Some(
                    PageAction::Sleep(
                        if *millis <= STEP_CEILING_MS {
                            *millis
                        } else {
                            STEP_CEILING_MS
                        },
                    ),
                )
            } else {
                None
            },
            WebAutomation::WaitForNavigation => if position == 0 {
                Some(PageAction::WaitForNavigation)
            } else {
                None
            },
            WebAutomation::WaitFor(selector) => if position == 0 {
                Some(
                    PageAction::WaitForSelector {
                        selector: selector.clone(),
                        timeout: STEP_CEILING_MS,
                    },
                )
            } else {
                None
            },
            WebAutomation::WaitForAndClick(selector) => if position == 0 {
                Some(
                    PageAction::WaitForSelector {
                        selector: selector.clone(),
                        timeout: STEP_CEILING_MS,
                    },
                )
            } else if position == 1 {
                Some(PageAction::FindElement(selector.clone()))
            } else if position == 2 && previous_ok {
                Some(PageAction::ClickElement)
            } else {
                None
            },
            WebAutomation::ScrollX(pixels) => if position == 0 {
                Some(PageAction::ScrollIntoView { x: *pixels, y: 0, width: 10, height: 10 })
            } else {
                None
            },
            WebAutomation::ScrollY(pixels) => if position == 0 {
                Some(PageAction::ScrollIntoView { x: 0, y: *pixels, width: 10, height: 10 })
            } else {
                None
            },
            WebAutomation::Fill { selector, value } => if position == 0 {
                Some(PageAction::FindElement(selector.clone()))
            } else if position == 1 && previous_ok {
                Some(PageAction::ClickElement)
            } else if position == 2 && previous_ok {
                Some(PageAction::TypeText(value.clone()))
            } else {
                None
            },
            WebAutomation::InfiniteScroll(timeout) => if position == 0 {
                Some(PageAction::Evaluate(set_dynamic_scroll(*timeout)))
            } else {
                None
            },
            WebAutomation::Screenshot { full_page, omit_background, output } => if position == 0 {
                let cdp_params = CaptureScreenshotParams {
                    format: Some(CaptureScreenshotFormat::Png),
                    quality: None,
                    clip: None,
                    from_surface: None,
                    capture_beyond_viewport: None,
                };
                let params = ScreenshotParams::new(
                    cdp_params,
                    Some(*full_page),
                    Some(*omit_background),
                );
                Some(PageAction::SaveScreenshot { params, output: output.clone() })
            } else {
                None
            },
        }
    }
}

/// Every step is over after three actions at most, however they end.
pub proof fn law_step_ends(step: WebAutomation, position: nat, previous_ok: bool)
    requires
        position >= 3,
    ensures
        step_action(step, position, previous_ok) is None,
{
}

/// Every step has a first action, and a failed action is never followed by
/// anything but the search that comes after a wait: a failure ends the step
/// quietly.
pub proof fn law_step_failure_is_quiet(step: WebAutomation, position: nat)
    requires
        position >= 1,
    ensures
        step_action(step, 0, true) is Some,
        step_action(step, 0, false) == step_action(step, 0, true),
        step_action(step, position, false) is Some ==> (step is WaitForAndClick && position == 1),
{
}

/// Scripts to evaluate on a page, by the link of the page.
pub struct ScriptMap {
    table: ScriptTable,
}

impl View for ScriptMap {
    type V = Map<Seq<char>, Seq<char>>;

    closed spec fn view(&self) -> Map<Seq<char>, Seq<char>> {
        script_table(self.table)
    }
}

impl ScriptMap {
    /// A map that holds no script.
    pub fn new() -> (r: Self)
        ensures
            r@ == Map::<Seq<char>, Seq<char>>::empty(),
    {
        let r = ScriptMap { table: ScriptTable::new() };
        assert(r@ =~= Map::<Seq<char>, Seq<char>>::empty());
        r
    }

    /// Registers the script for the link, in place of an earlier one.
    pub fn insert(&mut self, link: String, script: String)
        ensures
            final(self)@ == old(self)@.insert(link@, script@),
    {
        self.table.insert(link, script)
    }

    /// The script registered for the link.
    pub fn get(&self, link: &str) -> (r: Option<&String>)
        ensures
            match r {
                Some(script) => self@.contains_key(link@) && script@ == self@[link@],
                None => !self@.contains_key(link@),
            },
    {
        self.table.get(link)
    }
}

/// Automation scripts to run on a page, by the link of the page.
pub struct AutomationMap {
    table: AutomationTable,
}

impl View for AutomationMap {
    type V = Map<Seq<char>, Seq<WebAutomation>>;

    closed spec fn view(&self) -> Map<Seq<char>, Seq<WebAutomation>> {
        automation_table(self.table)
    }
}

impl AutomationMap {
    /// A map that holds no script.
    pub fn new() -> (r: Self)
        ensures
            r@ == Map::<Seq<char>, Seq<WebAutomation>>::empty(),
    {
        let r = AutomationMap { table: AutomationTable::new() };
        assert(r@ =~= Map::<Seq<char>, Seq<WebAutomation>>::empty());
        r
    }

    /// Registers the steps for the link, in place of earlier ones.
    pub fn insert(&mut self, link: String, steps: Vec<WebAutomation>)
        ensures
            final(self)@ == old(self)@.insert(link@, steps@),
    {
        self.table.insert(link, steps)
    }

    /// The steps registered for the link.
    pub fn get(&self, link: &str) -> (r: Option<&Vec<WebAutomation>>)
        ensures
            match r {
                Some(steps) => self@.contains_key(link@) && steps@ == self@[link@],
                None => !self@.contains_key(link@),
            },
    {
        self.table.get(link)
    }
}

/// Execution scripts to run on the page, by link.
pub type ExecutionScripts = Option<ScriptMap>;

/// Automation scripts to run on the page, by link.
pub type AutomationScripts = Option<AutomationMap>;

/// The script to evaluate on the page of a link, where one is registered.
pub open spec fn execution_script(scripts: ExecutionScripts, link: Seq<char>) -> Option<Seq<char>> {
    match scripts {
        Some(map) => if map@.contains_key(link) {
            Some(map@[link])
        } else {
            None
        },
        None => None,
    }
}

/// The steps to run on the page of a link; none where no script is
/// registered.
pub open spec fn automation_script(scripts: AutomationScripts, link: Seq<char>) -> Seq<
    WebAutomation,
> {
    match scripts {
        Some(map) => if map@.contains_key(link) {
            map@[link]
        } else {
            Seq::empty()
        },
        None => Seq::empty(),
    }
}

/// What to do for the execution script of a page: evaluate the script that
/// is registered for the link, or nothing where none is.
pub fn eval_execution_scripts(target_url: &str, execution_scripts: &ExecutionScripts) -> (r: Option<
    PageAction,
>)
    ensures
        match r {
            Some(action) => execution_script(*execution_scripts, target_url@) matches Some(script)
                && action@ == ActionModel::Evaluate(script),
            None => execution_script(*execution_scripts, target_url@) is None,
        },
{
    match execution_scripts {
        Some(scripts) => match scripts.get(target_url) {
            Some(script) => Some(PageAction::Evaluate(script.clone())),
            None => None,
        },
        None => None,
    }
}

/// How a step of an automation script ended.
#[derive(Debug, Clone, Copy, PartialEq, Eq, Structural)]
pub enum StepOutcome {
    /// The step ran to its end, whether or not its actions succeeded.
    Completed,
    /// The step took longer than the ceiling and was abandoned.
    TimedOut,
}

/// How far the run of an automation script has come.
pub struct RunModel {
    /// The steps of the script.
    pub steps: Seq<WebAutomation>,
    /// The number of steps that have ended.
    pub position: nat,
    /// The number of steps that were abandoned.
    pub abandoned: nat,
}

impl RunModel {
    /// The run of a script before its first step.
    pub open spec fn begin(steps: Seq<WebAutomation>) -> RunModel {
        RunModel { steps, position: 0, abandoned: 0 }
    }

    /// No more steps have ended than the script has, and no more were
    /// abandoned than have ended.
    pub open spec fn wf(self) -> bool {
        self.abandoned <= self.position <= self.steps.len()
    }

    /// Whether every step has ended.
    pub open spec fn finished(self) -> bool {
        self.position >= self.steps.len()
    }

    /// The run after the current step has ended. However the step ended, the
    /// run goes on with the next one; a finished run stays as it is.
    pub open spec fn record(self, outcome: StepOutcome) -> RunModel {
        if self.finished() {
            self
        } else {
            RunModel {
                steps: self.steps,
                position: self.position + 1,
                abandoned: if outcome is TimedOut {
                    self.abandoned + 1
                } else {
                    self.abandoned
                },
            }
        }
    }

    /// The run after one step after the other has ended as the outcomes say.
    pub open spec fn record_all(self, outcomes: Seq<StepOutcome>) -> RunModel
        decreases outcomes.len(),
    {
        if outcomes.len() == 0 {
            self
        } else {
            self.record(outcomes[0]).record_all(outcomes.skip(1))
        }
    }
}

/// The run of the automation script of one page: its steps are taken in
/// order, one at a time.
pub struct AutomationRun<'a> {
    steps: Option<&'a Vec<WebAutomation>>,
    position: usize,
    abandoned: usize,
}

impl<'a> View for AutomationRun<'a> {
    type V = RunModel;

    closed spec fn view(&self) -> RunModel {
        RunModel {
            steps: match self.steps {
                Some(steps) => steps@,
                None => Seq::empty(),
            },
            position: self.position as nat,
            abandoned: self.abandoned as nat,
        }
    }
}

impl<'a> AutomationRun<'a> {
    /// The step to run now, `None` when the script is over.
    pub fn current(&self) -> (r: Option<&'a WebAutomation>)
        requires
            self@.wf(),
        ensures
            match r {
                Some(step) => !self@.finished() && *step == self@.steps[self@.position as int],
                None => self@.finished(),
            },
    {
        match self.steps {
            Some(steps) => if self.position < steps.len() {
                Some(&steps[self.position])
            } else {
                None
            },
            None => None,
        }
    }

    /// Takes note of how the current step ended and moves on to the next.
    pub fn record(&mut self, outcome: StepOutcome)
        requires
            old(self)@.wf(),
        ensures
            final(self)@ == old(self)@.record(outcome),
            final(self)@.wf(),
    {
        let len = match self.steps {
            Some(steps) => steps.len(),
            None => 0,
        };
        if self.position < len {
            self.position = self.position + 1;
            match outcome {
                StepOutcome::TimedOut => {
                    self.abandoned = self.abandoned + 1;
                },
                StepOutcome::Completed => {},
            }
        }
    }

    /// Whether every step has ended.
    pub fn is_finished(&self) -> (r: bool)
        ensures
            r == self@.finished(),
    {
        match self.steps {
            Some(steps) => self.position >= steps.len(),
            None => true,
        }
    }

    /// The number of steps that have ended.
    pub fn position(&self) -> (r: usize)
        ensures
            r == self@.position,
    {
        self.position
    }

    /// The number of steps that were abandoned because they took too long.
    pub fn abandoned(&self) -> (r: usize)
        ensures
            r == self@.abandoned,
    {
        self.abandoned
    }
}

/// Starts the run of the automation script that is registered for the link.
/// Where none is registered the run has no steps and is over at once.
pub fn eval_automation_scripts<'a>(
    target_url: &str,
    automation_scripts: &'a AutomationScripts,
) -> (r: AutomationRun<'a>)
    ensures
        r@ == RunModel::begin(automation_script(*automation_scripts, target_url@)),
        r@.wf(),
{
    let steps = match automation_scripts {
        Some(scripts) => scripts.get(target_url),
        None => None,
    };
    AutomationRun { steps, position: 0, abandoned: 0 }
}

/// A script is run to its end whatever happens to its steps: after as many
/// steps have ended as the script has, in whatever way, the run is over, and
/// before that the step to run is the one behind those that have ended.
pub proof fn law_script_runs_to_its_end(run: RunModel, outcomes: Seq<StepOutcome>)
    requires
        run.wf(),
    ensures
        run.record_all(outcomes).wf(),
        run.record_all(outcomes).steps == run.steps,
        run.record_all(outcomes).position == if run.position + outcomes.len()
            <= run.steps.len() {
            run.position + outcomes.len()
        } else {
            run.steps.len()
        },
        run.position + outcomes.len() >= run.steps.len() ==> run.record_all(outcomes).finished(),
    decreases outcomes.len(),
{
    if outcomes.len() > 0 {
        law_script_runs_to_its_end(run.record(outcomes[0]), outcomes.skip(1));
    }
}

} // verus!
