use std::cell::RefCell;

use crawler::Crawler;
use crawler::EngineError;
use crawler::ProcessError;
use crawler::ScrapeError;
use crawler::Spider;
use crawler::Summary;

fn calls_with_prefix(log: &RefCell<Vec<String>>, prefix: &str) -> Vec<String> {
    log.borrow().iter().filter(|e| e.starts_with(prefix)).cloned().collect()
}

/// The concrete scenario: A yields i1 and discovers B and C; B discovers C
/// again (already claimed); C yields i2.
struct ScenarioSpider {
    log: RefCell<Vec<String>>,
}

impl Spider for ScenarioSpider {
    type Item = String;

    fn name(&self) -> String {
        String::from("scenario")
    }

    fn start_urls(&self) -> Vec<String> {
        vec![String::from("A")]
    }

    fn scrape(&self, url: String) -> Result<(Vec<String>, Vec<String>), ScrapeError> {
        self.log.borrow_mut().push(format!("scrape:{url}"));
        match url.as_str() {
            "A" => Ok((vec![String::from("i1")], vec![String::from("B"), String::from("C")])),
            "B" => Ok((vec![], vec![String::from("C")])),
            "C" => Ok((vec![String::from("i2")], vec![])),
            _ => Err(ScrapeError::Malformed(String::from("unexpected location"))),
        }
    }

    fn process(&self, item: String) -> Result<(), ProcessError> {
        self.log.borrow_mut().push(format!("process:{item}"));
        Ok(())
    }
}

#[test]
fn scenario_three_scrapes_two_processes() {
    let spider = ScenarioSpider { log: RefCell::new(Vec::new()) };
    assert_eq!(spider.name(), "scenario");
    let crawler = Crawler::new(0, 2, 50);
    let summary = crawler.run(&spider).unwrap();
    assert_eq!(
        summary,
        Summary {
            locations_claimed: 3,
            locations_crawled: 3,
            scrape_errors: 0,
            items_produced: 2,
            items_processed: 2,
            process_errors: 0,
        }
    );
    assert_eq!(
        calls_with_prefix(&spider.log, "scrape:"),
        vec!["scrape:A", "scrape:B", "scrape:C"]
    );
    assert_eq!(
        calls_with_prefix(&spider.log, "process:"),
        vec!["process:i1", "process:i2"]
    );
}

/// One location fails to scrape; its siblings must still be scraped.
struct FlakyScrapeSpider {
    log: RefCell<Vec<String>>,
}

impl Spider for FlakyScrapeSpider {
    type Item = String;

    fn name(&self) -> String {
        String::from("flaky")
    }

    fn start_urls(&self) -> Vec<String> {
        vec![String::from("A")]
    }

    fn scrape(&self, url: String) -> Result<(Vec<String>, Vec<String>), ScrapeError> {
        self.log.borrow_mut().push(format!("scrape:{url}"));
        match url.as_str() {
            "A" => Ok((
                vec![],
                vec![String::from("X"), String::from("Y"), String::from("Z")],
            )),
            "X" => Err(ScrapeError::Status(500)),
            "Y" => Ok((vec![String::from("iY")], vec![])),
            "Z" => Ok((vec![], vec![])),
            _ => Err(ScrapeError::Fetch(String::from("unreachable host"))),
        }
    }

    fn process(&self, item: String) -> Result<(), ProcessError> {
        self.log.borrow_mut().push(format!("process:{item}"));
        Ok(())
    }
}

#[test]
fn scrape_error_does_not_block_siblings() {
    let spider = FlakyScrapeSpider { log: RefCell::new(Vec::new()) };
    let crawler = Crawler::new(0, 2, 8);
    let summary = crawler.run(&spider).unwrap();
    assert_eq!(summary.locations_claimed, 4);
    assert_eq!(summary.locations_crawled, 3);
    assert_eq!(summary.scrape_errors, 1);
    assert_eq!(summary.items_produced, 1);
    assert_eq!(summary.items_processed, 1);
    assert_eq!(
        calls_with_prefix(&spider.log, "scrape:"),
        vec!["scrape:A", "scrape:X", "scrape:Y", "scrape:Z"]
    );
    assert_eq!(calls_with_prefix(&spider.log, "process:"), vec!["process:iY"]);
}

/// The first item fails to persist; the second must still be processed.
struct FlakySinkSpider {
    log: RefCell<Vec<String>>,
}

impl Spider for FlakySinkSpider {
    type Item = String;

    fn name(&self) -> String {
        String::from("flaky-sink")
    }

    fn start_urls(&self) -> Vec<String> {
        vec![String::from("A")]
    }

    fn scrape(&self, url: String) -> Result<(Vec<String>, Vec<String>), ScrapeError> {
        self.log.borrow_mut().push(format!("scrape:{url}"));
        Ok((vec![String::from("bad"), String::from("good")], vec![]))
    }

    fn process(&self, item: String) -> Result<(), ProcessError> {
        self.log.borrow_mut().push(format!("process:{item}"));
        if item == "bad" {
            Err(ProcessError::Io(String::from("disk full")))
        } else {
            Ok(())
        }
    }
}

#[test]
fn process_error_does_not_block_later_items() {
    let spider = FlakySinkSpider { log: RefCell::new(Vec::new()) };
    let crawler = Crawler::new(0, 1, 4);
    let summary = crawler.run(&spider).unwrap();
    assert_eq!(summary.items_produced, 2);
    assert_eq!(summary.items_processed, 1);
    assert_eq!(summary.process_errors, 1);
    assert_eq!(
        calls_with_prefix(&spider.log, "process:"),
        vec!["process:bad", "process:good"]
    );
}

/// A and B keep discovering each other; dedup must bound the crawl.
struct CycleSpider {
    log: RefCell<Vec<String>>,
}

impl Spider for CycleSpider {
    type Item = String;

    fn name(&self) -> String {
        String::from("cycle")
    }

    fn start_urls(&self) -> Vec<String> {
        vec![String::from("A")]
    }

    fn scrape(&self, url: String) -> Result<(Vec<String>, Vec<String>), ScrapeError> {
        self.log.borrow_mut().push(format!("scrape:{url}"));
        Ok((vec![], vec![String::from("A"), String::from("B")]))
    }

    fn process(&self, item: String) -> Result<(), ProcessError> {
        self.log.borrow_mut().push(format!("process:{item}"));
        Ok(())
    }
}

#[test]
fn cyclic_discoveries_are_scraped_once() {
    let spider = CycleSpider { log: RefCell::new(Vec::new()) };
    let crawler = Crawler::new(0, 2, 2);
    let summary = crawler.run(&spider).unwrap();
    assert_eq!(summary.locations_claimed, 2);
    assert_eq!(summary.locations_crawled, 2);
    assert_eq!(
        calls_with_prefix(&spider.log, "scrape:"),
        vec!["scrape:A", "scrape:B"]
    );
}

/// Two items from one scrape, with a second location pending.
struct TwoItemSpider {
    log: RefCell<Vec<String>>,
}

impl Spider for TwoItemSpider {
    type Item = String;

    fn name(&self) -> String {
        String::from("two-item")
    }

    fn start_urls(&self) -> Vec<String> {
        vec![String::from("A"), String::from("B")]
    }

    fn scrape(&self, url: String) -> Result<(Vec<String>, Vec<String>), ScrapeError> {
        self.log.borrow_mut().push(format!("scrape:{url}"));
        if url == "A" {
            Ok((vec![String::from("i1"), String::from("i2")], vec![]))
        } else {
            Ok((vec![], vec![]))
        }
    }

    fn process(&self, item: String) -> Result<(), ProcessError> {
        self.log.borrow_mut().push(format!("process:{item}"));
        Ok(())
    }
}

#[test]
fn full_channel_forces_processing_before_next_fetch() {
    // Channel capacity 1: the second item of A cannot be pushed until the
    // first is consumed, so a process call precedes the fetch of B.
    let spider = TwoItemSpider { log: RefCell::new(Vec::new()) };
    let crawler = Crawler::new(0, 1, 1);
    let summary = crawler.run(&spider).unwrap();
    assert_eq!(summary.items_processed, 2);
    let log = spider.log.borrow().clone();
    assert_eq!(log, vec!["scrape:A", "process:i1", "scrape:B", "process:i2"]);
}

#[test]
fn roomy_channel_defers_processing() {
    // With room for both items nothing forces an early process call.
    let spider = TwoItemSpider { log: RefCell::new(Vec::new()) };
    let crawler = Crawler::new(0, 1, 4);
    let summary = crawler.run(&spider).unwrap();
    assert_eq!(summary.items_processed, 2);
    let log = spider.log.borrow().clone();
    assert_eq!(log, vec!["scrape:A", "scrape:B", "process:i1", "process:i2"]);
}

/// No seeds at all: the run completes immediately with empty counts.
struct EmptySpider {}

impl Spider for EmptySpider {
    type Item = u8;

    fn name(&self) -> String {
        String::from("empty")
    }

    fn start_urls(&self) -> Vec<String> {
        Vec::new()
    }

    fn scrape(&self, _url: String) -> Result<(Vec<u8>, Vec<String>), ScrapeError> {
        Err(ScrapeError::Fetch(String::from("no location exists")))
    }

    fn process(&self, _item: u8) -> Result<(), ProcessError> {
        Ok(())
    }
}

#[test]
fn empty_seed_set_completes_with_zero_counts() {
    let spider = EmptySpider {};
    let crawler = Crawler::new(250, 2, 2);
    let summary = crawler.run(&spider).unwrap();
    assert_eq!(
        summary,
        Summary {
            locations_claimed: 0,
            locations_crawled: 0,
            scrape_errors: 0,
            items_produced: 0,
            items_processed: 0,
            process_errors: 0,
        }
    );
}

#[test]
fn zero_crawling_concurrency_is_rejected() {
    let spider = EmptySpider {};
    let crawler = Crawler::new(0, 0, 2);
    let r = crawler.run(&spider);
    assert!(matches!(r, Err(EngineError::InvalidConfig)));
}

#[test]
fn zero_processing_concurrency_is_rejected() {
    let spider = EmptySpider {};
    let crawler = Crawler::new(0, 2, 0);
    let r = crawler.run(&spider);
    assert!(matches!(r, Err(EngineError::InvalidConfig)));
}

/// Duplicate seeds are claimed once.
struct DupSeedSpider {
    log: RefCell<Vec<String>>,
}

impl Spider for DupSeedSpider {
    type Item = u8;

    fn name(&self) -> String {
        String::from("dup-seed")
    }

    fn start_urls(&self) -> Vec<String> {
        vec![String::from("A"), String::from("A"), String::from("A")]
    }

    fn scrape(&self, url: String) -> Result<(Vec<u8>, Vec<String>), ScrapeError> {
        self.log.borrow_mut().push(format!("scrape:{url}"));
        Ok((vec![], vec![]))
    }

    fn process(&self, _item: u8) -> Result<(), ProcessError> {
        Ok(())
    }
}

#[test]
fn duplicate_seeds_are_claimed_once() {
    let spider = DupSeedSpider { log: RefCell::new(Vec::new()) };
    let crawler = Crawler::new(0, 2, 2);
    let summary = crawler.run(&spider).unwrap();
    assert_eq!(summary.locations_claimed, 1);
    assert_eq!(summary.locations_crawled, 1);
    assert_eq!(calls_with_prefix(&spider.log, "scrape:"), vec!["scrape:A"]);
}
