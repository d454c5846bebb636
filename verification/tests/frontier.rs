use spider::configuration::{Configuration, PolicyAnswers};
use spider::frontier::{Frontier, FrontierEntry, LinkVerdict, Rejection};
use spider::utils::interner::Symbol;

const FINE: LinkVerdict =
    LinkVerdict { well_formed: true, in_scope: true, blacklisted: false, robots_allowed: true };

fn entry(url: &str, depth: usize) -> FrontierEntry {
    FrontierEntry { url: url.to_string(), depth, parent: None }
}

#[test]
fn links_are_handed_out_in_the_order_they_came() {
    let mut frontier = Frontier::new(None, None);
    assert!(frontier.is_exhausted());
    assert_eq!(frontier.enqueue(entry("https://example.com/", 0), FINE), Ok(()));
    assert_eq!(frontier.enqueue(entry("https://example.com/a", 1), FINE), Ok(()));
    let with_parent = FrontierEntry {
        url: "https://example.com/b".to_string(),
        depth: 1,
        parent: Some(Symbol { index: 0 }),
    };
    assert_eq!(frontier.enqueue(with_parent.clone(), FINE), Ok(()));
    assert_eq!(frontier.pending_len(), 3);
    assert!(!frontier.is_exhausted());
    assert_eq!(frontier.next(), Some(entry("https://example.com/", 0)));
    assert_eq!(frontier.next(), Some(entry("https://example.com/a", 1)));
    assert_eq!(frontier.next(), Some(with_parent));
    assert_eq!(frontier.next(), None);
    assert_eq!(frontier.in_flight(), 3);
    assert_eq!(frontier.pending_len(), 0);
}

#[test]
fn crawl_ends_when_nothing_waits_and_nothing_is_under_way() {
    let mut frontier = Frontier::new(None, None);
    frontier.enqueue(entry("https://example.com/", 0), FINE).unwrap();
    assert!(!frontier.is_exhausted());
    frontier.next().unwrap();
    assert!(!frontier.is_exhausted());
    frontier.complete();
    assert!(frontier.is_exhausted());
    frontier.complete();
    assert_eq!(frontier.in_flight(), 0);
    assert!(frontier.is_exhausted());
}

#[test]
fn enqueue_beyond_the_page_limit_is_rejected() {
    let mut frontier = Frontier::new(Some(5), None);
    let mut accepted = 0;
    for i in 0..20 {
        let link = format!("https://example.com/{}", i);
        match frontier.enqueue(entry(&link, 1), FINE) {
            Ok(()) => {
                accepted += 1;
                assert!(i < 5);
            }
            Err(reason) => {
                assert!(i >= 5);
                assert_eq!(reason, Rejection::BudgetSpent);
            }
        }
    }
    assert_eq!(accepted, 5);
    assert_eq!(frontier.pending_len(), 5);
    assert_eq!(frontier.visited().len(), 5);
}

#[test]
fn page_limit_holds_in_any_order_of_arrival() {
    let mut frontier = Frontier::new(Some(5), Some(3));
    let refused = LinkVerdict { blacklisted: true, ..FINE };
    let mut accepted = Vec::new();
    for i in (0..30).rev() {
        let link = format!("https://example.com/{}", i % 12);
        let verdict = if i % 4 == 0 { refused } else { FINE };
        if frontier.enqueue(entry(&link, i % 5), verdict).is_ok() {
            accepted.push(link);
        }
        if i % 3 == 0 {
            frontier.next();
        }
    }
    assert_eq!(accepted.len(), 5);
    assert_eq!(frontier.visited().len(), 5);
    for link in &accepted {
        assert!(frontier.visited().contains(link));
    }
    assert_eq!(frontier.enqueue(entry("https://example.com/fresh", 0), FINE), Err(Rejection::BudgetSpent));
}

#[test]
fn crawl_of_a_large_site_stops_at_the_page_limit() {
    let mut frontier = Frontier::new(Some(5), None);
    frontier.enqueue(entry("https://site.test/0", 0), FINE).unwrap();
    let mut pages = 0;
    let mut rounds = 0;
    while !frontier.is_exhausted() {
        rounds += 1;
        assert!(rounds < 1000);
        let page = frontier.next().unwrap();
        pages += 1;
        // Every page of the site links to all hundred pages.
        for i in 0..100 {
            let link = format!("https://site.test/{}", i);
            let _ = frontier.enqueue(entry(&link, page.depth + 1), FINE);
        }
        frontier.complete();
    }
    assert_eq!(pages, 5);
    assert_eq!(frontier.visited().len(), 5);
    assert_eq!(frontier.pending_len(), 0);
    assert_eq!(frontier.in_flight(), 0);
}

#[test]
fn each_policy_rejects_with_its_reason() {
    let mut frontier = Frontier::new(None, Some(2));
    let link = entry("https://example.com/x", 1);
    assert_eq!(
        frontier.enqueue(link.clone(), LinkVerdict { well_formed: false, ..FINE }),
        Err(Rejection::Malformed)
    );
    assert_eq!(
        frontier.enqueue(link.clone(), LinkVerdict { in_scope: false, ..FINE }),
        Err(Rejection::OutOfScope)
    );
    assert_eq!(
        frontier.enqueue(link.clone(), LinkVerdict { blacklisted: true, ..FINE }),
        Err(Rejection::Blacklisted)
    );
    assert_eq!(
        frontier.enqueue(link.clone(), LinkVerdict { robots_allowed: false, ..FINE }),
        Err(Rejection::Disallowed)
    );
    assert_eq!(frontier.enqueue(entry("https://example.com/x", 3), FINE), Err(Rejection::TooDeep));
    assert_eq!(frontier.pending_len(), 0);
    assert_eq!(frontier.visited().len(), 0);
    assert!(!frontier.visited().contains("https://example.com/x"));
    assert_eq!(frontier.enqueue(entry("https://example.com/x", 2), FINE), Ok(()));
    assert_eq!(frontier.enqueue(link.clone(), FINE), Err(Rejection::AlreadyVisited));
    assert_eq!(frontier.enqueue(entry("HTTPS://EXAMPLE.COM/X", 0), FINE), Err(Rejection::AlreadyVisited));
    assert_eq!(frontier.pending_len(), 1);
}

#[test]
fn reasons_are_asked_in_order() {
    let mut frontier = Frontier::new(Some(0), Some(0));
    let nothing_right =
        LinkVerdict { well_formed: false, in_scope: false, blacklisted: true, robots_allowed: false };
    assert_eq!(frontier.enqueue(entry("u", 9), nothing_right), Err(Rejection::Malformed));
    assert_eq!(
        frontier.enqueue(entry("u", 9), LinkVerdict { well_formed: true, ..nothing_right }),
        Err(Rejection::OutOfScope)
    );
    assert_eq!(
        frontier.enqueue(entry("u", 9), LinkVerdict { blacklisted: true, robots_allowed: false, ..FINE }),
        Err(Rejection::Blacklisted)
    );
    assert_eq!(frontier.enqueue(entry("u", 9), FINE), Err(Rejection::TooDeep));
    assert_eq!(frontier.enqueue(entry("u", 0), FINE), Err(Rejection::BudgetSpent));
    frontier.cancel();
    assert_eq!(frontier.enqueue(entry("u", 9), nothing_right), Err(Rejection::Cancelled));
}

#[test]
fn cancelled_crawl_takes_and_hands_out_nothing() {
    let mut frontier = Frontier::new(None, None);
    frontier.enqueue(entry("https://example.com/a", 0), FINE).unwrap();
    frontier.enqueue(entry("https://example.com/b", 0), FINE).unwrap();
    frontier.next().unwrap();
    frontier.cancel();
    assert_eq!(frontier.enqueue(entry("https://example.com/c", 0), FINE), Err(Rejection::Cancelled));
    assert_eq!(frontier.next(), None);
    assert_eq!(frontier.pending_len(), 1);
    assert!(!frontier.is_exhausted());
    frontier.complete();
    assert!(frontier.is_exhausted());
    assert_eq!(frontier.visited().len(), 2);
}

#[test]
fn finished_page_brings_its_links_one_level_deeper() {
    let mut frontier = Frontier::new(None, Some(1));
    frontier.enqueue(entry("https://example.com/", 0), FINE).unwrap();
    let page = frontier.next().unwrap();
    let found = vec![
        ("https://example.com/a".to_string(), FINE),
        ("https://example.com/".to_string(), FINE),
        ("https://other.test/".to_string(), LinkVerdict { in_scope: false, ..FINE }),
        ("https://example.com/b".to_string(), FINE),
        ("https://example.com/A".to_string(), FINE),
    ];
    assert_eq!(frontier.finish_page(&page, &found), 2);
    assert_eq!(frontier.in_flight(), 0);
    assert_eq!(frontier.pending_len(), 2);
    let a = frontier.next().unwrap();
    assert_eq!(
        a,
        FrontierEntry {
            url: "https://example.com/a".to_string(),
            depth: 1,
            parent: Some(Symbol { index: 0 }),
        }
    );
    let b = frontier.next().unwrap();
    assert_eq!(b.url, "https://example.com/b");
    assert_eq!(b.depth, 1);
    // Links found one level further down lie too deep.
    assert_eq!(frontier.finish_page(&a, &vec![("https://example.com/c".to_string(), FINE)]), 0);
    assert_eq!(frontier.finish_page(&b, &Vec::new()), 0);
    assert!(frontier.is_exhausted());
    assert_eq!(frontier.visited().len(), 3);
}

#[test]
fn depth_stops_at_the_largest_number() {
    let mut frontier = Frontier::new(None, None);
    let page = entry("https://example.com/deep", usize::MAX);
    assert_eq!(frontier.finish_page(&page, &vec![("https://example.com/deeper".to_string(), FINE)]), 1);
    let child = frontier.next().unwrap();
    assert_eq!(child.depth, usize::MAX);
    assert_eq!(child.parent, None);
}

const ALL_FINE: PolicyAnswers =
    PolicyAnswers { well_formed: true, same_domain: true, subdomain: false, robots_allowed: true };

#[test]
fn blacklist_matches_exactly_and_by_prefix() {
    let mut config = Configuration::new();
    assert!(!config.is_blacklisted("https://example.com/private/a"));
    config.blacklist_url = Some(Box::new(vec![
        "https://example.com/robots.txt".to_string(),
        "https://example.com/Private/".to_string(),
    ]));
    assert!(config.is_blacklisted("https://example.com/robots.txt"));
    assert!(config.is_blacklisted("https://example.com/private/a"));
    assert!(config.is_blacklisted("HTTPS://EXAMPLE.COM/PRIVATE/"));
    assert!(config.is_blacklisted("https://example.com/robots.txt?x=1"));
    assert!(!config.is_blacklisted("https://example.com/private"));
    assert!(!config.is_blacklisted("https://example.com/"));
    assert!(!config.is_blacklisted(""));
    config.blacklist_url = Some(Box::new(Vec::new()));
    assert!(!config.is_blacklisted("https://example.com/robots.txt"));
}

#[test]
fn verdict_follows_the_settings_of_the_crawl() {
    let mut config = Configuration::new();
    assert_eq!(config.verdict("https://example.com/", ALL_FINE), FINE);
    let sub = PolicyAnswers { same_domain: false, subdomain: true, ..ALL_FINE };
    assert!(!config.verdict("https://a.example.com/", sub).in_scope);
    config.subdomains = true;
    assert!(config.verdict("https://a.example.com/", sub).in_scope);
    let elsewhere = PolicyAnswers { same_domain: false, subdomain: false, ..ALL_FINE };
    assert!(!config.verdict("https://other.test/", elsewhere).in_scope);
    let forbidden = PolicyAnswers { robots_allowed: false, ..ALL_FINE };
    assert!(config.verdict("https://example.com/x", forbidden).robots_allowed);
    config.respect_robots_txt = true;
    assert!(!config.verdict("https://example.com/x", forbidden).robots_allowed);
    assert!(config.verdict("https://example.com/x", ALL_FINE).robots_allowed);
    let broken = PolicyAnswers { well_formed: false, ..ALL_FINE };
    assert!(!config.verdict("::", broken).well_formed);
    config.blacklist_url = Some(Box::new(vec!["https://example.com/x".to_string()]));
    assert!(config.verdict("https://example.com/x/y", ALL_FINE).blacklisted);
    assert!(!config.verdict("https://example.com/y", ALL_FINE).blacklisted);
}

#[test]
fn blacklisted_link_is_kept_out_of_the_frontier() {
    let mut config = Configuration::new();
    config.blacklist_url = Some(Box::new(vec!["https://example.com/robots.txt".to_string()]));
    let mut frontier = Frontier::new(config.limit, config.depth);
    let url = "https://example.com/robots.txt";
    assert_eq!(frontier.enqueue(entry(url, 0), config.verdict(url, ALL_FINE)), Err(Rejection::Blacklisted));
    let url = "https://example.com/";
    assert_eq!(frontier.enqueue(entry(url, 0), config.verdict(url, ALL_FINE)), Ok(()));
}
