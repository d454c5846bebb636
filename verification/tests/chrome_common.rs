use spider::features::chrome_common::{
    eval_automation_scripts, eval_execution_scripts, set_dynamic_scroll, AuthChallengeResponse,
    AuthChallengeResponseResponse, AutomationMap, AutomationScripts, CaptureScreenshotFormat,
    CaptureScreenshotParams, ClipViewport, ExecutionScripts, PageAction, Scalar, ScreenShotConfig,
    ScreenshotDefaults, ScreenshotParams, ScreenshotRequest, ScriptMap, StepOutcome, Viewport,
    WaitCondition, WaitFor, WaitForDelay, WaitForIdleNetwork, WaitForSelector, WebAutomation,
    SCROLL_TIMEOUT_CEILING, STEP_CEILING_MS,
};
use std::time::Duration;

fn scroll_script_with(limit: &str) -> String {
    let head = r###"
        document.addEventListener('DOMContentLoaded',e=>{let t=null,o=null,n="###;
    let tail = r###",a=Date.now(),i=Date.now(),r=()=>{window.scrollTo(0,document.body.scrollHeight)},l=()=>{o&&o.disconnect(),console.log('Stopped checking for new content.')},c=(e,n)=>{e.forEach(e=>{if(e.isIntersecting){i=Date.now();const n=Date.now();if(n-a>=t||n-i>=1e4)return void l();r(),t=document.querySelector('body > *:last-child'),o.observe(t)}})},s=()=>{t&&(o=new IntersectionObserver(c),o.observe(t))},d=()=>{['load','error','abort'].forEach(e=>{window.addEventListener(e,()=>{const e=document.querySelector('body > *:last-child');e!==t&&(i=Date.now(),t=e,o.observe(t))})})},u=()=>{r(),t=document.querySelector('body > *:last-child'),s(),d()};u(),setTimeout(l,n)});
    "###;
    format!("{}{}{}", head, limit, tail)
}

#[test]
fn wait_for_idle_network_keeps_its_timeout() {
    let wait = WaitForIdleNetwork::new(Some(Duration::from_secs(30)));
    assert_eq!(wait.timeout, Some(Duration::from_secs(30)));
    assert_eq!(WaitForIdleNetwork::new(None).timeout, None);
}

#[test]
fn wait_for_selector_keeps_its_parts() {
    let wait = WaitForSelector::new(Some(Duration::from_millis(1500)), "#main".to_string());
    assert_eq!(wait.timeout, Some(Duration::from_millis(1500)));
    assert_eq!(wait.selector, "#main");
}

#[test]
fn wait_for_delay_keeps_its_timeout() {
    assert_eq!(WaitForDelay::new(Some(Duration::from_secs(2))).timeout, Some(Duration::from_secs(2)));
}

#[test]
fn wait_for_sets_what_is_asked_for() {
    let timeout = Some(Duration::from_secs(5));
    let wait = WaitFor::new(
        timeout,
        Some(WaitForDelay::new(Some(Duration::from_secs(1)))),
        true,
        true,
        Some(".ready".to_string()),
    );
    assert!(wait.page_navigations);
    assert_eq!(wait.idle_network.unwrap().timeout, timeout);
    let selector = wait.selector.unwrap();
    assert_eq!(selector.selector, ".ready");
    assert_eq!(selector.timeout, timeout);
    assert_eq!(wait.delay.unwrap().timeout, Some(Duration::from_secs(1)));
}

#[test]
fn wait_for_leaves_out_what_is_not_asked_for() {
    let wait = WaitFor::new(Some(Duration::from_secs(5)), None, false, false, None);
    assert!(!wait.page_navigations);
    assert!(wait.idle_network.is_none());
    assert!(wait.selector.is_none());
    assert!(wait.delay.is_none());
    assert!(wait.conditions().is_empty());
}

#[test]
fn wait_conditions_come_in_their_order() {
    let wait = WaitFor::new(
        Some(Duration::from_secs(5)),
        Some(WaitForDelay::new(Some(Duration::from_secs(1)))),
        true,
        true,
        Some(".ready".to_string()),
    );
    let conditions = wait.conditions();
    assert_eq!(conditions.len(), 4);
    assert!(matches!(conditions[0], WaitCondition::IdleNetwork(Some(t)) if t == Duration::from_secs(5)));
    assert!(matches!(&conditions[1], WaitCondition::Selector { selector, timeout }
        if selector == ".ready" && *timeout == Some(Duration::from_secs(5))));
    assert!(matches!(conditions[2], WaitCondition::Delay(Some(t)) if t == Duration::from_secs(1)));
    assert!(matches!(conditions[3], WaitCondition::Navigation));
}

#[test]
fn wait_conditions_skip_what_is_not_set() {
    let wait = WaitFor::new(None, None, true, false, Some("a".to_string()));
    let conditions = wait.conditions();
    assert_eq!(conditions.len(), 2);
    assert!(matches!(&conditions[0], WaitCondition::Selector { selector, timeout }
        if selector == "a" && timeout.is_none()));
    assert!(matches!(conditions[1], WaitCondition::Navigation));
}

#[test]
fn screenshot_format_names_are_lower_case() {
    assert_eq!(CaptureScreenshotFormat::Jpeg.to_string(), "jpeg");
    assert_eq!(CaptureScreenshotFormat::Png.to_string(), "png");
    assert_eq!(CaptureScreenshotFormat::Webp.to_string(), "webp");
}

#[test]
fn screenshot_format_defaults_to_png() {
    assert_eq!(CaptureScreenshotFormat::default(), CaptureScreenshotFormat::Png);
}

#[test]
fn auth_challenge_response_defaults() {
    let response = AuthChallengeResponse::default();
    assert_eq!(response.response, AuthChallengeResponseResponse::Default);
    assert_eq!(response.username, None);
    assert_eq!(response.password, None);
}

#[test]
fn dynamic_scroll_script_carries_the_limit() {
    assert_eq!(set_dynamic_scroll(5000), scroll_script_with("5000"));
    assert_eq!(set_dynamic_scroll(0), scroll_script_with("0"));
    assert_eq!(set_dynamic_scroll(7), scroll_script_with("7"));
    assert_eq!(set_dynamic_scroll(10), scroll_script_with("10"));
    assert_eq!(set_dynamic_scroll(59999), scroll_script_with("59999"));
}

#[test]
fn dynamic_scroll_script_caps_the_limit() {
    assert_eq!(SCROLL_TIMEOUT_CEILING, 60000);
    assert_eq!(set_dynamic_scroll(60000), scroll_script_with("60000"));
    assert_eq!(set_dynamic_scroll(60001), scroll_script_with("60000"));
    assert_eq!(set_dynamic_scroll(u32::MAX), scroll_script_with("60000"));
}

#[test]
fn viewport_default_is_800_by_600() {
    let viewport = Viewport::default();
    assert_eq!(
        viewport,
        Viewport {
            width: 800,
            height: 600,
            device_scale_factor: None,
            emulating_mobile: false,
            is_landscape: false,
            has_touch: false,
        }
    );
}

#[test]
fn viewport_new_takes_the_size() {
    let viewport = Viewport::new(1280, 720);
    assert_eq!(viewport.width, 1280);
    assert_eq!(viewport.height, 720);
    assert_eq!(viewport.device_scale_factor, None);
    assert!(!viewport.emulating_mobile && !viewport.is_landscape && !viewport.has_touch);
}

#[test]
fn viewport_setters_change_one_field_each() {
    let mut viewport = Viewport::new(10, 20);
    viewport.set_mobile(true);
    assert_eq!(viewport, Viewport { emulating_mobile: true, ..Viewport::new(10, 20) });
    viewport.set_landscape(true);
    viewport.set_touch(true);
    let scale = Scalar { bits: 2.5f64.to_bits() };
    viewport.set_scale_factor(Some(scale));
    assert_eq!(
        viewport,
        Viewport {
            width: 10,
            height: 20,
            device_scale_factor: Some(scale),
            emulating_mobile: true,
            is_landscape: true,
            has_touch: true,
        }
    );
    viewport.set_mobile(false);
    viewport.set_scale_factor(None);
    assert!(!viewport.emulating_mobile);
    assert_eq!(viewport.device_scale_factor, None);
    assert!(viewport.is_landscape && viewport.has_touch);
}

#[test]
fn screenshot_params_new_keeps_its_parts() {
    let cdp = CaptureScreenshotParams { quality: Some(80), ..CaptureScreenshotParams::default() };
    let params = ScreenshotParams::new(cdp, Some(true), None);
    assert_eq!(params.cdp_params, cdp);
    assert_eq!(params.full_page, Some(true));
    assert_eq!(params.omit_background, None);
}

#[test]
fn screenshot_config_new_keeps_its_parts() {
    let params = ScreenshotParams::new(CaptureScreenshotParams::default(), None, Some(false));
    let config = ScreenShotConfig::new(params, true, false, Some(std::path::PathBuf::from("/tmp/shots")));
    assert_eq!(config.params, params);
    assert!(config.bytes);
    assert!(!config.save);
    assert_eq!(config.output_dir, Some(std::path::PathBuf::from("/tmp/shots")));
}

#[test]
fn screenshot_choices_default_to_yes() {
    let request = ScreenshotParams::default().resolve(&ScreenshotDefaults::default());
    assert_eq!(
        request,
        ScreenshotRequest {
            format: CaptureScreenshotFormat::Png,
            full_page: true,
            omit_background: true,
            quality: None,
            clip: None,
            capture_beyond_viewport: None,
            from_surface: None,
        }
    );
}

#[test]
fn screenshot_choices_follow_the_settings() {
    let defaults = ScreenshotDefaults {
        full_page: Some("true".to_string()),
        omit_background: Some("false".to_string()),
    };
    let request = ScreenshotParams::default().resolve(&defaults);
    assert!(request.full_page);
    assert!(!request.omit_background);
    let odd = ScreenshotDefaults {
        full_page: Some("TRUE".to_string()),
        omit_background: Some("".to_string()),
    };
    let request = ScreenshotParams::default().resolve(&odd);
    assert!(!request.full_page);
    assert!(!request.omit_background);
}

#[test]
fn screenshot_choices_of_the_call_come_first() {
    let defaults = ScreenshotDefaults {
        full_page: Some("true".to_string()),
        omit_background: Some("false".to_string()),
    };
    let params = ScreenshotParams::new(CaptureScreenshotParams::default(), Some(false), Some(true));
    let request = params.resolve(&defaults);
    assert!(!request.full_page);
    assert!(request.omit_background);
}

#[test]
fn screenshot_request_hands_the_options_on() {
    let one = Scalar { bits: 1.0f64.to_bits() };
    let clip = ClipViewport { x: one, y: one, width: one, height: one, scale: one };
    let cdp = CaptureScreenshotParams {
        format: Some(CaptureScreenshotFormat::Jpeg),
        quality: Some(75),
        clip: Some(clip),
        from_surface: Some(false),
        capture_beyond_viewport: Some(true),
    };
    let request = ScreenshotParams::new(cdp, Some(true), Some(false)).resolve(&ScreenshotDefaults::default());
    assert_eq!(
        request,
        ScreenshotRequest {
            format: CaptureScreenshotFormat::Jpeg,
            full_page: true,
            omit_background: false,
            quality: Some(75),
            clip: Some(clip),
            capture_beyond_viewport: Some(true),
            from_surface: Some(false),
        }
    );
}

#[test]
fn evaluate_is_one_action() {
    let step = WebAutomation::Evaluate("return 1".to_string());
    assert_eq!(step.action_at(0, true), Some(PageAction::Evaluate("return 1".to_string())));
    assert_eq!(step.action_at(0, false), Some(PageAction::Evaluate("return 1".to_string())));
    assert_eq!(step.action_at(1, true), None);
}

#[test]
fn click_needs_its_element() {
    let step = WebAutomation::Click("#go".to_string());
    assert_eq!(step.action_at(0, true), Some(PageAction::FindElement("#go".to_string())));
    assert_eq!(step.action_at(1, true), Some(PageAction::ClickElement));
    assert_eq!(step.action_at(1, false), None);
    assert_eq!(step.action_at(2, true), None);
}

#[test]
fn wait_is_capped_at_the_ceiling() {
    assert_eq!(STEP_CEILING_MS, 60000);
    assert_eq!(WebAutomation::Wait(100).action_at(0, true), Some(PageAction::Sleep(100)));
    assert_eq!(WebAutomation::Wait(60000).action_at(0, true), Some(PageAction::Sleep(60000)));
    assert_eq!(WebAutomation::Wait(60001).action_at(0, true), Some(PageAction::Sleep(60000)));
    assert_eq!(WebAutomation::Wait(u64::MAX).action_at(0, true), Some(PageAction::Sleep(60000)));
    assert_eq!(WebAutomation::Wait(5).action_at(1, true), None);
}

#[test]
fn wait_for_navigation_is_one_action() {
    let step = WebAutomation::WaitForNavigation;
    assert_eq!(step.action_at(0, true), Some(PageAction::WaitForNavigation));
    assert_eq!(step.action_at(1, true), None);
}

#[test]
fn wait_for_selector_waits_a_minute_at_most() {
    let step = WebAutomation::WaitFor(".late".to_string());
    assert_eq!(
        step.action_at(0, true),
        Some(PageAction::WaitForSelector { selector: ".late".to_string(), timeout: 60000 })
    );
    assert_eq!(step.action_at(1, true), None);
    assert_eq!(step.action_at(1, false), None);
}

#[test]
fn wait_for_and_click_looks_even_after_a_failed_wait() {
    let step = WebAutomation::WaitForAndClick(".late".to_string());
    assert_eq!(
        step.action_at(0, true),
        Some(PageAction::WaitForSelector { selector: ".late".to_string(), timeout: 60000 })
    );
    assert_eq!(step.action_at(1, false), Some(PageAction::FindElement(".late".to_string())));
    assert_eq!(step.action_at(1, true), Some(PageAction::FindElement(".late".to_string())));
    assert_eq!(step.action_at(2, true), Some(PageAction::ClickElement));
    assert_eq!(step.action_at(2, false), None);
    assert_eq!(step.action_at(3, true), None);
}

#[test]
fn scrolling_targets_a_small_rectangle() {
    assert_eq!(
        WebAutomation::ScrollX(300).action_at(0, true),
        Some(PageAction::ScrollIntoView { x: 300, y: 0, width: 10, height: 10 })
    );
    assert_eq!(
        WebAutomation::ScrollY(-40).action_at(0, true),
        Some(PageAction::ScrollIntoView { x: 0, y: -40, width: 10, height: 10 })
    );
    assert_eq!(WebAutomation::ScrollX(300).action_at(1, true), None);
    assert_eq!(WebAutomation::ScrollY(300).action_at(1, true), None);
}

#[test]
fn fill_finds_clicks_and_types() {
    let step = WebAutomation::Fill { selector: "#q".to_string(), value: "rust".to_string() };
    assert_eq!(step.action_at(0, true), Some(PageAction::FindElement("#q".to_string())));
    assert_eq!(step.action_at(1, true), Some(PageAction::ClickElement));
    assert_eq!(step.action_at(2, true), Some(PageAction::TypeText("rust".to_string())));
    assert_eq!(step.action_at(3, true), None);
    assert_eq!(step.action_at(1, false), None);
    assert_eq!(step.action_at(2, false), None);
}

#[test]
fn infinite_scroll_evaluates_the_scroll_script() {
    let step = WebAutomation::InfiniteScroll(3000);
    assert_eq!(step.action_at(0, true), Some(PageAction::Evaluate(scroll_script_with("3000"))));
    assert_eq!(
        WebAutomation::InfiniteScroll(90000).action_at(0, true),
        Some(PageAction::Evaluate(scroll_script_with("60000")))
    );
    assert_eq!(step.action_at(1, true), None);
}

#[test]
fn screenshot_step_asks_for_png() {
    let step = WebAutomation::Screenshot {
        full_page: true,
        omit_background: false,
        output: "shot.png".to_string(),
    };
    let expected = ScreenshotParams {
        cdp_params: CaptureScreenshotParams {
            format: Some(CaptureScreenshotFormat::Png),
            quality: None,
            clip: None,
            from_surface: None,
            capture_beyond_viewport: None,
        },
        full_page: Some(true),
        omit_background: Some(false),
    };
    assert_eq!(
        step.action_at(0, true),
        Some(PageAction::SaveScreenshot { params: expected, output: "shot.png".to_string() })
    );
    assert_eq!(step.action_at(1, true), None);
}

#[test]
fn execution_script_is_found_by_its_link() {
    let mut map = ScriptMap::new();
    map.insert("https://example.com/a".to_string(), "document.title".to_string());
    map.insert("https://example.com/b".to_string(), "1 + 1".to_string());
    map.insert("https://example.com/b".to_string(), "2 + 2".to_string());
    assert_eq!(map.get("https://example.com/a"), Some(&"document.title".to_string()));
    assert_eq!(map.get("https://example.com/c"), None);
    let scripts: ExecutionScripts = Some(map);
    assert_eq!(
        eval_execution_scripts("https://example.com/a", &scripts),
        Some(PageAction::Evaluate("document.title".to_string()))
    );
    assert_eq!(
        eval_execution_scripts("https://example.com/b", &scripts),
        Some(PageAction::Evaluate("2 + 2".to_string()))
    );
    assert_eq!(eval_execution_scripts("https://example.com/A", &scripts), None);
    assert_eq!(eval_execution_scripts("https://example.com/a", &None), None);
    assert_eq!(eval_execution_scripts("x", &Some(ScriptMap::new())), None);
}

#[test]
fn automation_run_without_a_script_is_over_at_once() {
    let run = eval_automation_scripts("https://example.com", &None);
    assert!(run.is_finished());
    assert!(run.current().is_none());
    let scripts: AutomationScripts = Some(AutomationMap::new());
    let run = eval_automation_scripts("https://example.com", &scripts);
    assert!(run.is_finished());
    assert_eq!(run.position(), 0);
}

#[test]
fn automation_run_takes_the_steps_in_order() {
    let steps = vec![
        WebAutomation::Wait(1),
        WebAutomation::WaitForNavigation,
        WebAutomation::Evaluate("x".to_string()),
    ];
    let mut map = AutomationMap::new();
    map.insert("https://example.com".to_string(), steps.clone());
    map.insert("https://example.com/other".to_string(), vec![WebAutomation::Wait(9)]);
    assert_eq!(map.get("https://example.com"), Some(&steps));
    assert_eq!(map.get("https://example.com/none"), None);
    let scripts: AutomationScripts = Some(map);
    let mut run = eval_automation_scripts("https://example.com", &scripts);
    assert_eq!(run.current(), Some(&steps[0]));
    run.record(StepOutcome::Completed);
    assert_eq!(run.current(), Some(&steps[1]));
    run.record(StepOutcome::TimedOut);
    assert_eq!(run.current(), Some(&steps[2]));
    assert!(!run.is_finished());
    run.record(StepOutcome::Completed);
    assert!(run.is_finished());
    assert_eq!(run.current(), None);
    assert_eq!(run.position(), 3);
    assert_eq!(run.abandoned(), 1);
    run.record(StepOutcome::TimedOut);
    assert_eq!(run.position(), 3);
    assert_eq!(run.abandoned(), 1);
}

#[test]
fn script_with_a_missing_selector_completes_all_steps() {
    let steps = vec![
        WebAutomation::Click("#missing".to_string()),
        WebAutomation::Wait(100),
        WebAutomation::Evaluate("return 1".to_string()),
    ];
    let mut map = AutomationMap::new();
    map.insert("https://example.com".to_string(), steps);
    let scripts: AutomationScripts = Some(map);
    let mut run = eval_automation_scripts("https://example.com", &scripts);
    let mut performed: Vec<PageAction> = Vec::new();
    let mut completed = 0;
    while let Some(step) = run.current() {
        let mut position = 0;
        let mut ok = true;
        while let Some(action) = step.action_at(position, ok) {
            // The page has no element `#missing`: looking for it fails.
            ok = !matches!(action, PageAction::FindElement(_));
            performed.push(action);
            position += 1;
        }
        run.record(StepOutcome::Completed);
        completed += 1;
    }
    assert_eq!(completed, 3);
    assert!(run.is_finished());
    assert_eq!(run.abandoned(), 0);
    assert_eq!(
        performed,
        vec![
            PageAction::FindElement("#missing".to_string()),
            PageAction::Sleep(100),
            PageAction::Evaluate("return 1".to_string()),
        ]
    );
}

#[test]
fn script_goes_on_after_a_step_times_out() {
    let steps = vec![WebAutomation::WaitForNavigation, WebAutomation::Wait(5)];
    let mut map = AutomationMap::new();
    map.insert("u".to_string(), steps.clone());
    let scripts: AutomationScripts = Some(map);
    let mut run = eval_automation_scripts("u", &scripts);
    run.record(StepOutcome::TimedOut);
    assert_eq!(run.current(), Some(&steps[1]));
    assert_eq!(run.abandoned(), 1);
}
