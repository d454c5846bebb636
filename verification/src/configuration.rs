//! The settings of a crawl.

use crate::features::chrome_common::{AutomationScripts, ExecutionScripts, Viewport, WaitFor};
use crate::frontier::LinkVerdict;
use crate::text::{ascii_lowercase, canonical, starts_with, texts};
use vstd::prelude::*;

verus! {

/// `Duration::from_millis` of the standard library: the duration of so many
/// milliseconds.
pub uninterp spec fn duration_of_millis(millis: u64) -> core::time::Duration;

/// `Duration::from_millis` of the standard library.
#[verifier::external_body]
pub(crate) fn duration_from_millis(millis: u64) -> (r: core::time::Duration)
    ensures
        r == duration_of_millis(millis),
{
    core::time::Duration::from_millis(millis)
}

/// What the collaborators of a crawl say of a link: the parser of links,
/// the judge of domains and the reader of robots.txt.
#[derive(Debug, Clone, Copy, PartialEq, Eq, Structural)]
pub struct PolicyAnswers {
    /// The text is a link at all.
    pub well_formed: bool,
    /// The link lies in the domain of the crawl itself.
    pub same_domain: bool,
    /// The link lies in a subdomain of the domain of the crawl.
    pub subdomain: bool,
    /// The rules for robots allow the link.
    pub robots_allowed: bool,
}

/// Whether a link matches a blacklist: one of the patterns is the link or
/// the beginning of it, the case of ASCII letters aside.
pub open spec fn blacklisted(url: Seq<char>, patterns: Seq<Seq<char>>) -> bool {
    exists|i: int|
        0 <= i < patterns.len() && canonical(#[trigger] patterns[i]).is_prefix_of(canonical(url))
}

/// The settings of a crawl.
pub struct Configuration {
    /// The user agent to present.
    pub user_agent: Option<Box<String>>,
    /// The proxies to go through.
    pub proxies: Option<Box<Vec<String>>>,
    /// The delay between two dispatches, in milliseconds.
    pub delay: u64,
    /// Whether subdomains belong to the crawl.
    pub subdomains: bool,
    /// Whether robots.txt is respected.
    pub respect_robots_txt: bool,
    /// Links not to visit, exactly or by prefix.
    pub blacklist_url: Option<Box<Vec<String>>>,
    /// Whether pages are rendered in a browser instead of fetched plainly.
    pub chrome: bool,
    /// Whether the browser intercepts requests.
    pub chrome_intercept: bool,
    /// Whether the browser caches responses.
    pub cache: bool,
    /// The screen that pages are laid out for.
    pub viewport: Option<Viewport>,
    /// The time allowed for one request.
    pub request_timeout: Option<Box<core::time::Duration>>,
    /// The time zone that pages see.
    pub timezone_id: Option<Box<String>>,
    /// The locale that pages see.
    pub locale: Option<Box<String>>,
    /// What a page waits for before it is read.
    pub wait_for: Option<WaitFor>,
    /// Automation scripts, by the link of the page.
    pub automation_scripts: AutomationScripts,
    /// Execution scripts, by the link of the page.
    pub execution_scripts: ExecutionScripts,
    /// The most pages to visit; `None` sets no limit.
    pub limit: Option<usize>,
    /// The greatest depth to follow links to; `None` sets no limit.
    pub depth: Option<usize>,
}

impl Configuration {
    /// The settings of a plain crawl: no delay, no subdomains, robots.txt not
    /// consulted, nothing rendered, nothing limited, and nothing else set.
    pub fn new() -> (r: Self)
        ensures
            r.user_agent is None,
            r.proxies is None,
            r.delay == 0,
            !r.subdomains,
            !r.respect_robots_txt,
            r.blacklist_url is None,
            !r.chrome,
            !r.chrome_intercept,
            !r.cache,
            r.viewport is None,
            r.request_timeout is None,
            r.timezone_id is None,
            r.locale is None,
            r.wait_for is None,
            r.automation_scripts is None,
            r.execution_scripts is None,
            r.limit is None,
            r.depth is None,
    {
        Configuration {
            user_agent: None,
            proxies: None,
            delay: 0,
            subdomains: false,
            respect_robots_txt: false,
            blacklist_url: None,
            chrome: false,
            chrome_intercept: false,
            cache: false,
            viewport: None,
            request_timeout: None,
            timezone_id: None,
            locale: None,
            wait_for: None,
            automation_scripts: None,
            execution_scripts: None,
            limit: None,
            depth: None,
        }
    }

    /// The patterns of the blacklist; none where no blacklist is set.
    pub open spec fn blacklist(&self) -> Seq<Seq<char>> {
        match self.blacklist_url {
            Some(patterns) => texts(patterns@),
            None => Seq::empty(),
        }
    }

    /// What the policies of the crawl say of a link, given what the
    /// collaborators say. A subdomain is in scope only where the crawl
    /// includes subdomains. The rules for robots count only where the crawl
    /// respects them.
    pub open spec fn judged(&self, url: Seq<char>, answers: PolicyAnswers) -> LinkVerdict {
        LinkVerdict {
            well_formed: answers.well_formed,
            in_scope: answers.same_domain || (self.subdomains && answers.subdomain),
            blacklisted: blacklisted(url, self.blacklist()),
            robots_allowed: !self.respect_robots_txt || answers.robots_allowed,
        }
    }

    /// Whether the link matches the blacklist of the crawl.
    pub fn is_blacklisted(&self, url: &str) -> (r: bool)
        ensures
            r == blacklisted(url@, self.blacklist()),
    {
        match &self.blacklist_url {
            Some(patterns) => {
                let link = ascii_lowercase(url);
                let mut i: usize = 0;
                while i < patterns.len()
                    invariant
                        i <= patterns@.len(),
                        link@ == canonical(url@),
                        self.blacklist() == texts(patterns@),
                        forall|j: int|
                            0 <= j < i ==> !canonical(#[trigger] texts(patterns@)[j]).is_prefix_of(
                                canonical(url@),
                            ),
                    decreases patterns@.len() - i,
                {
                    let pattern = ascii_lowercase(patterns[i].as_str());
                    assert(texts(patterns@)[i as int] == patterns@[i as int]@);
                    if starts_with(link.as_str(), pattern.as_str()) {
                        assert(canonical(self.blacklist()[i as int]).is_prefix_of(canonical(url@)));
                        return true;
                    }
                    i += 1;
                }
                false
            },
            None => false,
        }
    }

    /// What the policies of the crawl say of a link.
    pub fn verdict(&self, url: &str, answers: PolicyAnswers) -> (r: LinkVerdict)
        ensures
            r == self.judged(url@, answers),
    {
        LinkVerdict {
            well_formed: answers.well_formed,
            in_scope: answers.same_domain || (self.subdomains && answers.subdomain),
            blacklisted: self.is_blacklisted(url),
            robots_allowed: !self.respect_robots_txt || answers.robots_allowed,
        }
    }

    /// The pause between two dispatches: none where the delay is zero. The
    /// pause paces one crawl; it is not waited for while anything is held
    /// that other workers need.
    pub fn dispatch_delay(&self) -> (r: Option<core::time::Duration>)
        ensures
            r == if self.delay == 0 {
                None
            } else {
                Some(duration_of_millis(self.delay))
            },
    {
        if self.delay == 0 {
            None
        } else {
            Some(duration_from_millis(self.delay))
        }
    }
}

} // verus!
