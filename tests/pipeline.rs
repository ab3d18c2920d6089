use everygarf::cache::{apply_cache, expand_image_url, parse_cached_urls, parse_line, split_columns, CacheError};
use everygarf::controller::{check_unimplemented_args, select_pending, Phase, Pool, Run, RunError};
use everygarf::date::Date;
use everygarf::download::{find_bytes, find_image_url, PageError};
use everygarf::pipeline::{Pipeline, PipelineError, Step};
use everygarf::state::{State, Status, Update, UpdateSuccess, UpdateWarning};
use everygarf::DateUrl;

const ASSET: &str = "https://featureassets.gocomics.com/assets/0123456789abcdef0123456789abcdef";

fn day(d: u32) -> Date {
    Date::new(2020, 1, d).unwrap()
}

fn chars(s: &str) -> Vec<char> {
    s.chars().collect()
}

fn item(d: u32) -> DateUrl {
    DateUrl { date: day(d), image_url: None }
}

#[test]
fn columns_split_at_first_whitespace() {
    let (a, b) = split_columns(&chars("2020-01-02 abc def")).unwrap();
    assert_eq!(a, chars("2020-01-02"));
    assert_eq!(b, chars(" abc def"));
    let (a, b) = split_columns(&chars("x\ty")).unwrap();
    assert_eq!(a, chars("x"));
    assert_eq!(b, chars("\ty"));
    assert!(split_columns(&chars("2020-01-02/abc")).is_none());
}

#[test]
fn image_urls_expand_and_normalise() {
    assert_eq!(expand_image_url(&chars("abc")).unwrap(), "https://featureassets.gocomics.com/assets/abc");
    assert_eq!(expand_image_url(&chars("a b")).unwrap(), "https://featureassets.gocomics.com/assets/a%20b");
}

#[test]
fn cache_lines_parse_or_fail() {
    assert_eq!(parse_line(&chars("   ")), Ok(None));
    let (d, u) = parse_line(&chars("  2020-01-02   abc  ")).unwrap().unwrap();
    assert_eq!(d, day(2));
    assert_eq!(u, "https://featureassets.gocomics.com/assets/abc");
    assert_eq!(parse_line(&chars("2020-01-02")), Err(CacheError::Malformed));
    assert_eq!(parse_line(&chars("2020-13-02 abc")), Err(CacheError::Malformed));
    assert_eq!(parse_line(&chars("someday abc")), Err(CacheError::Malformed));
}

#[test]
fn cache_file_maps_dates_to_addresses() {
    let text = "2020-01-01 a1\n\n2020-01-03 a3\r\n2020-01-01 b1\n";
    let cache = parse_cached_urls(text).unwrap();
    assert_eq!(cache.len(), 2);
    assert_eq!(cache.get(&day(1).key()).unwrap(), "https://featureassets.gocomics.com/assets/b1");
    assert_eq!(cache.get(&day(3).key()).unwrap(), "https://featureassets.gocomics.com/assets/a3");
    assert_eq!(parse_cached_urls("").unwrap().len(), 0);
}

#[test]
fn malformed_cache_line_fails_whole_file() {
    let text = "2020-01-01 a1\n2020-01-02a2\n2020-01-03 a3\n";
    assert_eq!(parse_cached_urls(text), Err(CacheError::Malformed));
    let mut run = Run::new(false, true);
    let mut items = vec![item(1), item(2), item(3)];
    assert_eq!(run.cache_received(text, &mut items), Err(RunError::MalformedCache));
    assert_eq!(run.phase(), Phase::Failed);
    assert!(items.iter().all(|i| i.image_url.is_none()));
}

#[test]
fn cache_annotates_listed_items_once() {
    let mut cache = parse_cached_urls("2020-01-01 a1\n2020-01-03 a3\n2020-01-09 a9").unwrap();
    let mut items = vec![item(1), item(2), item(3)];
    apply_cache(&mut items, &mut cache);
    assert_eq!(items[0].image_url.as_deref(), Some("https://featureassets.gocomics.com/assets/a1"));
    assert_eq!(items[1].image_url, None);
    assert_eq!(items[2].image_url.as_deref(), Some("https://featureassets.gocomics.com/assets/a3"));
    assert_eq!(cache.len(), 1);
    assert!(cache.contains_key(&day(9).key()));

    let mut run = Run::new(false, true);
    let mut items = vec![item(1), item(2)];
    assert_eq!(run.cache_received("2020-01-02 x", &mut items), Ok(UpdateSuccess::FetchCache));
    assert_eq!(run.phase(), Phase::Download);
    assert_eq!(items[0].image_url, None);
    assert_eq!(items[1].image_url.as_deref(), Some("https://featureassets.gocomics.com/assets/x"));
}

#[test]
fn image_url_is_found_in_page() {
    let body = format!("<html><img src=\"{}\" /></html>", ASSET);
    assert_eq!(find_image_url(&body), Ok(ASSET.to_string()));
    let body = format!("a{}", ASSET);
    assert_eq!(find_image_url(&body), Ok(ASSET.to_string()));
    assert_eq!(find_image_url("<html>nothing</html>"), Err(PageError::NoUrl));
    assert_eq!(find_image_url(&ASSET[..60]), Err(PageError::NoUrl));
    assert_eq!(find_bytes(b"abcabd", b"abd"), Some(3));
    assert_eq!(find_bytes(b"ab", b"abd"), None);
    assert_eq!(find_bytes(b"abc", b""), Some(0));
}

#[test]
fn image_url_window_counts_bytes() {
    let prefix = "https://featureassets.gocomics.com/assets/";
    let exact = format!("{}{}\u{e9}rest", prefix, "a".repeat(30));
    assert_eq!(
        find_image_url(&exact),
        Ok(format!("{}{}%C3%A9", prefix, "a".repeat(30)))
    );
    let split = format!("{}{}\u{e9}rest", prefix, "a".repeat(31));
    assert_eq!(find_image_url(&split), Err(PageError::NoUrl));
    let before = format!("\u{e9}\u{e9} {}", ASSET);
    assert_eq!(find_image_url(&before), Ok(ASSET.to_string()));
}

#[test]
fn unicode_whitespace_separates_and_trims() {
    let (a, b) = split_columns(&chars("x\u{3000}y")).unwrap();
    assert_eq!(a, chars("x"));
    assert_eq!(b, chars("\u{3000}y"));
    let (d, u) = parse_line(&chars("\u{a0}2020-01-02\u{a0}abc\u{a0}")).unwrap().unwrap();
    assert_eq!(d, day(2));
    assert_eq!(u, "https://featureassets.gocomics.com/assets/abc");
}

#[test]
fn cached_item_skips_resolve() {
    let mut p = Pipeline::new(DateUrl { date: day(4), image_url: Some(ASSET.to_string()) }, 3);
    assert_eq!(p.step(), Step::Fetch);
    assert_eq!(p.request_url(None), ASSET);
    assert_eq!(p.request_url(Some("https://p.example/")), format!("https://p.example/?{}", ASSET));
    assert_eq!(p.image_fetched(), Update::Success(UpdateSuccess::FetchImage { date: day(4) }));
    assert_eq!(p.step(), Step::Save);
    assert_eq!(p.filename(everygarf::ImageFormat::Png), "2020-01-04.png");
    assert_eq!(p.image_saved(), Update::Success(UpdateSuccess::SaveImage { date: day(4) }));
    assert_eq!(p.step(), Step::Done);
}

#[test]
fn uncached_item_resolves_with_retries() {
    let mut p = Pipeline::new(item(5), 1);
    assert_eq!(p.step(), Step::Resolve);
    assert_eq!(p.request_url(None), "https://www.gocomics.com/garfield/2020/01/05");
    assert_eq!(
        p.page_fetched("no address here"),
        Ok(Update::Warning(UpdateWarning::FetchUrl { attempt: 0, date: day(5) }))
    );
    assert_eq!(p.step(), Step::Resolve);
    let body = format!("x{}y", ASSET);
    assert_eq!(p.page_fetched(&body), Ok(Update::Success(UpdateSuccess::FetchUrl { date: day(5) })));
    assert_eq!(p.step(), Step::Fetch);
    assert_eq!(p.request_url(None), ASSET);
    assert_eq!(
        p.attempt_failed(),
        Ok(Update::Warning(UpdateWarning::FetchImage { attempt: 0, date: day(5) }))
    );
    assert_eq!(p.attempt_failed(), Err(PipelineError::FetchFailed));
    assert_eq!(p.step(), Step::Failed);
}

#[test]
fn exhausted_resolve_and_failed_save_end_the_item() {
    let mut p = Pipeline::new(item(6), 1);
    assert!(p.attempt_failed().is_ok());
    assert_eq!(p.attempt_failed(), Err(PipelineError::ResolveFailed));
    assert_eq!(p.step(), Step::Failed);

    let mut p = Pipeline::new(DateUrl { date: day(7), image_url: Some(ASSET.to_string()) }, 5);
    p.image_fetched();
    assert_eq!(p.save_failed(), PipelineError::SaveFailed);
    assert_eq!(p.step(), Step::Failed);
}

#[test]
fn pool_never_exceeds_its_limit() {
    let mut pool = Pool::new(5, 2);
    assert_eq!(pool.start_next(), Some(0));
    assert_eq!(pool.start_next(), Some(1));
    assert_eq!(pool.start_next(), None);
    assert_eq!(pool.in_flight(), 2);
    pool.finish_one();
    assert_eq!(pool.start_next(), Some(2));
    assert_eq!(pool.start_next(), None);
    pool.cancel();
    pool.finish_one();
    assert_eq!(pool.start_next(), None);
    pool.finish_one();
    assert!(pool.is_idle());
    assert!(!pool.is_complete());
}

#[test]
fn pool_bound_holds_under_varied_schedules() {
    for limit in 1..5usize {
        let mut pool = Pool::new(13, limit);
        let mut seed: u32 = 7 + limit as u32;
        while !pool.is_complete() {
            seed = seed.wrapping_mul(1103515245).wrapping_add(12345);
            if seed % 3 == 0 || pool.in_flight() == limit || pool.start_next().is_none() {
                pool.finish_one();
            }
            assert!(pool.in_flight() <= limit);
        }
        assert!(pool.is_idle());
    }
}

#[test]
fn pending_items_skip_saved_dates_and_respect_maximum() {
    let dates: Vec<Date> = (1..=6).map(day).collect();
    let existing = vec![day(2), day(5), Date::new(1999, 1, 1).unwrap()];
    let pending = select_pending(&dates, &existing, None);
    let got: Vec<u32> = pending.iter().map(|i| i.date.day()).collect();
    assert_eq!(got, vec![1, 3, 4, 6]);
    assert!(pending.iter().all(|i| i.image_url.is_none()));
    let got: Vec<u32> = select_pending(&dates, &existing, Some(2)).iter().map(|i| i.date.day()).collect();
    assert_eq!(got, vec![1, 3]);
    assert_eq!(select_pending(&dates, &existing, Some(0)).len(), 0);
}

#[test]
fn unimplemented_options_are_named() {
    assert_eq!(check_unimplemented_args(false, 20, false, false, false), None);
    assert_eq!(check_unimplemented_args(true, 5, true, true, true), Some("--tree"));
    assert_eq!(check_unimplemented_args(false, 5, true, false, false), Some("--initial-timeout"));
    assert_eq!(check_unimplemented_args(false, 20, true, true, false), Some("--notify-on-fail"));
    assert_eq!(check_unimplemented_args(false, 20, false, true, true), Some("--save-cache"));
    assert_eq!(check_unimplemented_args(false, 20, false, false, true), Some("--query"));
}

#[test]
fn unreachable_proxy_fails_before_any_item() {
    let mut run = Run::new(true, true);
    assert_eq!(run.phase(), Phase::CheckProxy);
    let mut fatal = Vec::new();
    if let Err(error) = run.proxy_checked(false) {
        fatal.push(error);
    }
    assert_eq!(fatal, vec![RunError::ProxyUnreachable]);
    assert_eq!(run.phase(), Phase::Failed);
    let mut state = State::new(4);
    state.set_failed();
    assert_eq!(state.status(), Status::Failed);
    let mut started = 0;
    if run.phase() == Phase::Download {
        let mut pool = Pool::new(4, 2);
        while pool.start_next().is_some() {
            started += 1;
        }
    }
    assert_eq!(started, 0);
    assert_eq!(RunError::ProxyUnreachable.message(), "failed to access proxy server");

    let mut run = Run::new(true, false);
    assert_eq!(run.proxy_checked(true), Ok(UpdateSuccess::ProxyPing));
    assert_eq!(run.phase(), Phase::Download);
    assert_eq!(run.downloads_complete(), UpdateSuccess::Complete);
    assert_eq!(run.phase(), Phase::Finished);
}

#[test]
fn five_items_with_one_flaky_page() {
    let items: Vec<DateUrl> = (1..=5).map(item).collect();
    let max_attempts = 1;
    let mut run = Run::new(false, false);
    assert_eq!(run.phase(), Phase::Download);
    let mut state = State::new(items.len());
    state.skip_disabled_stages(false, false);
    let mut pool = Pool::new(items.len(), 2);
    let mut pipelines: Vec<Option<Pipeline>> = Vec::new();
    let mut items = items.into_iter();
    let mut page_requests = vec![0; 6];
    let mut events: Vec<Update> = Vec::new();
    let mut most_in_flight = 0;
    loop {
        while let Some(_) = pool.start_next() {
            pipelines.push(Some(Pipeline::new(items.next().unwrap(), max_attempts)));
        }
        most_in_flight = most_in_flight.max(pool.in_flight());
        let mut progressed = false;
        for slot in pipelines.iter_mut() {
            let Some(p) = slot else { continue };
            let d = p.date().day() as usize;
            let update = match p.step() {
                Step::Resolve => {
                    page_requests[d] += 1;
                    if d == 3 && page_requests[d] == 1 {
                        p.attempt_failed()
                    } else {
                        let body = format!("<img src=\"https://featureassets.gocomics.com/assets/{:032}\">", d);
                        p.page_fetched(&body)
                    }
                },
                Step::Fetch => Ok(p.image_fetched()),
                Step::Save => Ok(p.image_saved()),
                Step::Done | Step::Failed => unreachable!(),
            };
            let update = update.expect("no item fails");
            state.update(update);
            events.push(update);
            if p.step() == Step::Done {
                *slot = None;
                pool.finish_one();
            }
            progressed = true;
            break;
        }
        if !progressed {
            break;
        }
    }
    assert!(pool.is_complete());
    let complete = run.downloads_complete();
    state.update(Update::Success(complete));
    events.push(Update::Success(complete));

    let warnings: Vec<&Update> = events.iter().filter(|u| matches!(u, Update::Warning(_))).collect();
    assert_eq!(warnings, vec![&Update::Warning(UpdateWarning::FetchUrl { attempt: 0, date: day(3) })]);
    for d in 1..=5 {
        let saves = events
            .iter()
            .filter(|u| **u == Update::Success(UpdateSuccess::SaveImage { date: day(d) }))
            .count();
        assert_eq!(saves, 1);
    }
    let completes = events.iter().filter(|u| **u == Update::Success(UpdateSuccess::Complete)).count();
    assert_eq!(completes, 1);
    assert_eq!(events.last(), Some(&Update::Success(UpdateSuccess::Complete)));
    assert_eq!(state.completed_units(), 5);
    assert_eq!(state.status(), Status::Complete);
    assert!(most_in_flight <= 2);
}

#[test]
fn run_failures_name_their_cause() {
    let mut run = Run::new(false, true);
    assert_eq!(run.phase(), Phase::FetchCache);
    assert_eq!(run.cache_unavailable(), RunError::CacheUnavailable);
    assert_eq!(run.phase(), Phase::Failed);

    let mut run = Run::new(false, false);
    assert_eq!(run.phase(), Phase::Download);
    assert_eq!(
        run.item_failed(PipelineError::FetchFailed),
        RunError::Item(PipelineError::FetchFailed)
    );
    assert_eq!(run.phase(), Phase::Failed);

    assert_eq!(RunError::CacheUnavailable.message(), "failed to fetch cache file");
    assert_eq!(RunError::MalformedCache.message(), "malformed cache file");
    assert_eq!(RunError::Item(PipelineError::ResolveFailed).message(), "failed to fetch image url");
    assert_eq!(RunError::Item(PipelineError::FetchFailed).message(), "failed to fetch image data");
    assert_eq!(RunError::Item(PipelineError::SaveFailed).message(), "failed to save image");
}
