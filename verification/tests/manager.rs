use stealth_stock_monitor::models::{AppConfig, Stock};
use stealth_stock_monitor::manager::{FetchOutcome, SourceManager, DEFAULT_MAX_FAILURES};
use stealth_stock_monitor::poller::{route, same_names, visible_stocks, PollEvent, Poller, Tick};
use stealth_stock_monitor::sources::eastmoney::EastmoneySource;
use stealth_stock_monitor::sources::sina::SinaSource;
use stealth_stock_monitor::sources::tencent::TencentSource;
use stealth_stock_monitor::sources::{DataSource, FetchError};

fn names(items: &[&str]) -> Vec<String> {
    items.iter().map(|s| s.to_string()).collect()
}

fn pairs(items: &[(&str, &str)]) -> Vec<(String, String)> {
    items.iter().map(|(m, c)| (m.to_string(), c.to_string())).collect()
}

fn stock(market: &str, code: &str, visible: bool) -> Stock {
    Stock {
        id: format!("{}{}", market, code),
        code: code.to_string(),
        market: market.to_string(),
        alias: String::new(),
        visible,
    }
}

fn settings(sources: &[&str], interval: u64) -> AppConfig {
    let mut app = AppConfig::default();
    app.data_sources = names(sources);
    app.refresh_interval_ms = interval;
    app
}

fn failure() -> Vec<Result<String, String>> {
    vec![Err("Mock failure".to_string())]
}

const SINA: DataSource = DataSource::Sina(SinaSource {});
const TENCENT: DataSource = DataSource::Tencent(TencentSource {});
const EASTMONEY: DataSource = DataSource::Eastmoney(EastmoneySource {});

const TENCENT_BODY: &str = "v_sh600519=\"1~贵州茅台~600519~1755.00~1740.00~1740.00~0~0~0~0~0~0~0~0~0~0~0~0~0~0~0~0~0~0~0~0~0~0~0~0~0~0~0~1760.00~1745.00~\";\n";

#[test]
fn test_failover() {
    let stocks = pairs(&[("sh", "600519")]);
    let mut manager = SourceManager::new_with_sources(vec![SINA, TENCENT]);

    let _ = manager.fetch(&stocks, &failure(), 1);
    assert_eq!(manager.active_index(), 0);
    assert_eq!(manager.fail_count(), 1);

    let _ = manager.fetch(&stocks, &failure(), 2);
    assert_eq!(manager.active_index(), 0);
    assert_eq!(manager.fail_count(), 2);

    let result = manager.fetch(&stocks, &failure(), 3);
    match result {
        FetchOutcome::Switched(event) => {
            assert_eq!(event.from, "providerA");
            assert_eq!(event.to, "providerB");
        }
        _ => panic!("Expected switch error"),
    }

    assert_eq!(manager.active_index(), 1);
    assert_eq!(manager.fail_count(), 0);

    let result = manager.fetch(&stocks, &vec![Ok(TENCENT_BODY.to_string())], 4);
    match result {
        FetchOutcome::Quotes(updates) => {
            assert_eq!(updates.len(), 1);
            assert_eq!(updates[0].source, "providerB");
            assert_eq!(updates[0].price, 17_550_000);
            assert_eq!(updates[0].high, 17_600_000);
            assert_eq!(updates[0].low, 17_450_000);
        }
        _ => panic!("the second provider answers"),
    }
    assert_eq!(manager.active_index(), 1);
    assert_eq!(manager.fail_count(), 0);
}

#[test]
fn failures_before_the_threshold_return_the_error_itself() {
    let stocks = pairs(&[("sh", "600519")]);
    let mut manager = SourceManager::new(&names(&["providerB", "providerA"]));
    assert_eq!(manager.active_name(), "providerB");
    for n in 1..DEFAULT_MAX_FAILURES {
        match manager.fetch(&stocks, &vec![Err(format!("cause {}", n))], 1) {
            FetchOutcome::Failed(error) => {
                assert_eq!(error.source, "providerB");
                assert_eq!(error.cause, format!("cause {}", n));
            }
            _ => panic!("the error itself"),
        }
        assert_eq!(manager.active_index(), 0);
        assert_eq!(manager.fail_count(), n);
    }
}

#[test]
fn switching_wraps_around_the_list() {
    let stocks = pairs(&[("sh", "600519")]);
    let mut manager = SourceManager::new(&names(&["providerA", "providerB"]));
    let mut switches = Vec::new();
    for _ in 0..12 {
        if let FetchOutcome::Switched(event) = manager.fetch(&stocks, &failure(), 1) {
            switches.push((event.from, event.to, manager.active_index()));
        }
    }
    assert_eq!(
        switches,
        vec![
            ("providerA".to_string(), "providerB".to_string(), 1),
            ("providerB".to_string(), "providerA".to_string(), 0),
            ("providerA".to_string(), "providerB".to_string(), 1),
            ("providerB".to_string(), "providerA".to_string(), 0),
        ]
    );
    assert_eq!(manager.fail_count(), 0);
}

#[test]
fn single_source_never_switches() {
    let stocks = pairs(&[("sh", "600519")]);
    let mut manager = SourceManager::new(&names(&["providerB"]));
    assert_eq!(manager.source_count(), 1);
    for n in 1..=10u32 {
        match manager.fetch(&stocks, &failure(), 1) {
            FetchOutcome::Failed(error) => {
                assert_eq!(error.source, "providerB");
                assert_eq!(error.cause, "Mock failure");
            }
            _ => panic!("the error itself"),
        }
        assert_eq!(manager.active_index(), 0);
        assert_eq!(manager.fail_count(), n);
    }
}

#[test]
fn success_resets_the_failure_count() {
    let stocks = pairs(&[("sh", "600519")]);
    let mut manager = SourceManager::new(&names(&["providerB", "providerA"]));
    let _ = manager.fetch(&stocks, &failure(), 1);
    let _ = manager.fetch(&stocks, &failure(), 1);
    assert_eq!(manager.fail_count(), 2);
    let outcome = manager.fetch(&stocks, &vec![Ok(String::new())], 1);
    assert!(matches!(outcome, FetchOutcome::Quotes(ref updates) if updates.is_empty()));
    assert_eq!(manager.fail_count(), 0);
    assert_eq!(manager.active_index(), 0);
    let _ = manager.fetch(&stocks, &failure(), 1);
    let _ = manager.fetch(&stocks, &failure(), 1);
    assert_eq!(manager.active_index(), 0);
    assert_eq!(manager.fail_count(), 2);

    let mut single = SourceManager::new(&names(&["providerA"]));
    for _ in 0..7 {
        let _ = single.fetch(&stocks, &failure(), 1);
    }
    assert_eq!(single.fail_count(), 7);
    let _ = single.fetch(&stocks, &vec![Ok(String::new())], 1);
    assert_eq!(single.fail_count(), 0);
}

#[test]
fn settle_takes_any_result() {
    let mut manager = SourceManager::new_with_sources(vec![EASTMONEY, SINA, TENCENT]);
    let error = || FetchError { source: "providerC".to_string(), cause: "boom".to_string() };
    assert!(matches!(manager.settle(Err(error())), FetchOutcome::Failed(_)));
    assert!(matches!(manager.settle(Err(error())), FetchOutcome::Failed(_)));
    match manager.settle(Err(error())) {
        FetchOutcome::Switched(event) => {
            assert_eq!(event.from, "providerC");
            assert_eq!(event.to, "providerA");
        }
        _ => panic!("a switch"),
    }
    assert_eq!(manager.active(), SINA);
    assert!(matches!(manager.settle(Ok(Vec::new())), FetchOutcome::Quotes(_)));
    assert_eq!(manager.active_index(), 1);
}

#[test]
fn manager_is_built_from_recognized_names() {
    let manager = SourceManager::new(&names(&["providerB", "yahoo", "providerA", "", "providerC"]));
    assert_eq!(manager.source_count(), 3);
    assert_eq!(manager.active(), TENCENT);
    assert_eq!(manager.active_index(), 0);
    assert_eq!(manager.fail_count(), 0);

    let manager = SourceManager::new(&names(&[]));
    assert_eq!(manager.source_count(), 1);
    assert_eq!(manager.active_name(), "providerA");

    let manager = SourceManager::new(&names(&["yahoo", "google"]));
    assert_eq!(manager.source_count(), 1);
    assert_eq!(manager.active(), SINA);

    let manager = SourceManager::new(&names(&["providerA", "providerA"]));
    assert_eq!(manager.source_count(), 2);
}

#[test]
fn manager_asks_the_active_source() {
    let stocks = pairs(&[("sh", "600519")]);
    let mut manager = SourceManager::new(&names(&["providerA", "providerB"]));
    assert_eq!(manager.requests(&stocks)[0].url, "https://hq.sinajs.cn/list=sh600519");
    for _ in 0..3 {
        let _ = manager.fetch(&stocks, &failure(), 1);
    }
    assert_eq!(manager.requests(&stocks)[0].url, "http://qt.gtimg.cn/q=sh600519");
    assert!(manager.requests(&[]).is_empty());
}

#[test]
fn poller_flags_are_set_independently() {
    let mut poller = Poller::new();
    assert!(!poller.is_running());
    assert!(!poller.is_paused());
    poller.set_paused(true);
    assert!(poller.is_paused());
    assert!(!poller.is_running());
    let app = AppConfig::default();
    assert!(poller.start(&app).is_some());
    assert!(poller.is_running());
    assert!(poller.is_paused());
    poller.set_paused(false);
    assert!(poller.is_running());
    assert!(!poller.is_paused());
    poller.stop();
    assert!(!poller.is_running());
    poller.stop();
    assert!(!poller.is_running());
}

#[test]
fn poller_is_made_with_given_flags() {
    for paused in [false, true] {
        for running in [false, true] {
            let poller = Poller::with_flags(paused, running);
            assert_eq!(poller.is_paused(), paused);
            assert_eq!(poller.is_running(), running);
        }
    }
    let mut poller = Poller::with_flags(true, true);
    assert!(poller.start(&AppConfig::default()).is_none());
    assert!(poller.is_running());
    assert!(poller.is_paused());
}

#[test]
fn starting_a_running_poller_changes_nothing() {
    let mut poller = Poller::new();
    let app = settings(&["providerB"], 1500);
    let session = poller.start(&app).unwrap();
    assert_eq!(session.interval_ms(), 1500);
    assert_eq!(session.manager().active_name(), "providerB");
    assert!(poller.start(&app).is_none());
    assert!(poller.is_running());
    poller.stop();
    assert!(poller.start(&app).is_some());
}

#[test]
fn visible_stocks_are_listed_in_order() {
    let stocks = vec![
        stock("sh", "600519", true),
        stock("sz", "000001", false),
        stock("sz", "300750", true),
    ];
    assert_eq!(visible_stocks(&stocks), pairs(&[("sh", "600519"), ("sz", "300750")]));
    assert!(visible_stocks(&stocks[1..2]).is_empty());
    assert!(visible_stocks(&[]).is_empty());
}

#[test]
fn name_lists_are_compared_in_order() {
    assert!(same_names(&names(&[]), &names(&[])));
    assert!(same_names(&names(&["providerA", "providerB"]), &names(&["providerA", "providerB"])));
    assert!(!same_names(&names(&["providerA", "providerB"]), &names(&["providerB", "providerA"])));
    assert!(!same_names(&names(&["providerA"]), &names(&["providerA", "providerB"])));
    assert!(!same_names(&names(&["providerA", "providerB"]), &names(&["providerA"])));
}

#[test]
fn stopped_tick_leaves_the_loop() {
    let mut poller = Poller::new();
    let app = settings(&["providerA"], 3000);
    let mut session = poller.start(&app).unwrap();
    poller.stop();
    let stocks = vec![stock("sh", "600519", true)];
    assert!(matches!(session.begin_tick(&poller, &stocks, &app), Tick::Stop));
    poller.set_paused(true);
    assert!(matches!(session.begin_tick(&poller, &stocks, &app), Tick::Stop));
}

#[test]
fn paused_tick_reads_nothing() {
    let mut poller = Poller::new();
    let mut session = poller.start(&settings(&["providerA"], 3000)).unwrap();
    poller.set_paused(true);
    let stocks = vec![stock("sh", "600519", true)];
    let changed = settings(&["providerB"], 500);
    assert!(matches!(session.begin_tick(&poller, &stocks, &changed), Tick::Skip));
    assert_eq!(session.manager().active_name(), "providerA");
    assert_eq!(session.interval_ms(), 3000);
    poller.set_paused(false);
    assert!(matches!(session.begin_tick(&poller, &stocks, &changed), Tick::Fetch { .. }));
    assert_eq!(session.manager().active_name(), "providerB");
    assert_eq!(session.interval_ms(), 500);
}

#[test]
fn tick_without_visible_stocks_is_skipped() {
    let mut poller = Poller::new();
    let app = settings(&["providerA"], 3000);
    let mut session = poller.start(&app).unwrap();
    let hidden = vec![stock("sh", "600519", false)];
    assert!(matches!(session.begin_tick(&poller, &hidden, &app), Tick::Skip));
    assert!(matches!(session.begin_tick(&poller, &[], &app), Tick::Skip));
    let changed = settings(&["providerC"], 3000);
    assert!(matches!(session.begin_tick(&poller, &hidden, &changed), Tick::Skip));
    assert_eq!(session.manager().active_name(), "providerC");
}

#[test]
fn tick_fetches_the_visible_stocks() {
    let mut poller = Poller::new();
    let app = settings(&["providerA", "providerB"], 3000);
    let mut session = poller.start(&app).unwrap();
    let stocks = vec![
        stock("sh", "600519", true),
        stock("sz", "000001", false),
        stock("sz", "300750", true),
    ];
    match session.begin_tick(&poller, &stocks, &app) {
        Tick::Fetch { stocks, requests } => {
            assert_eq!(stocks, pairs(&[("sh", "600519"), ("sz", "300750")]));
            assert_eq!(requests.len(), 1);
            assert_eq!(requests[0].url, "https://hq.sinajs.cn/list=sh600519,sz300750");
        }
        _ => panic!("a fetch"),
    }
}

#[test]
fn changed_source_list_rebuilds_the_manager() {
    let mut poller = Poller::new();
    let app = settings(&["providerA", "providerB"], 3000);
    let mut session = poller.start(&app).unwrap();
    let stocks = vec![stock("sh", "600519", true)];
    let batch = pairs(&[("sh", "600519")]);
    for _ in 0..4 {
        assert!(matches!(session.begin_tick(&poller, &stocks, &app), Tick::Fetch { .. }));
        let _ = session.finish_tick(&batch, &failure(), 1);
    }
    assert_eq!(session.manager().active_index(), 1);
    assert_eq!(session.manager().fail_count(), 1);

    assert!(matches!(session.begin_tick(&poller, &stocks, &app), Tick::Fetch { .. }));
    assert_eq!(session.manager().active_index(), 1);
    assert_eq!(session.manager().fail_count(), 1);

    let changed = settings(&["providerB", "providerA"], 3000);
    match session.begin_tick(&poller, &stocks, &changed) {
        Tick::Fetch { requests, .. } => {
            assert_eq!(requests[0].url, "http://qt.gtimg.cn/q=sh600519");
        }
        _ => panic!("a fetch"),
    }
    assert_eq!(session.manager().active_index(), 0);
    assert_eq!(session.manager().fail_count(), 0);
    assert_eq!(session.manager().active_name(), "providerB");
}

#[test]
fn outcomes_are_routed_to_events() {
    let mut poller = Poller::new();
    let app = settings(&["providerA", "providerB"], 3000);
    let mut session = poller.start(&app).unwrap();
    let batch = pairs(&[("sh", "600519")]);

    let body = "var hq_str_sh600519=\"贵州茅台,1740.00,1740.00,1755.00,1760.00,1745.00\";\n";
    match session.finish_tick(&batch, &vec![Ok(body.to_string())], 8).unwrap() {
        PollEvent::PriceUpdate(updates) => {
            assert_eq!(updates.len(), 1);
            assert_eq!(updates[0].id, "sh600519");
            assert_eq!(updates[0].timestamp, 8);
        }
        _ => panic!("quotes"),
    }

    assert!(session.finish_tick(&batch, &vec![Ok("nothing".to_string())], 8).is_none());

    for _ in 0..2 {
        match session.finish_tick(&batch, &vec![Err("timed out".to_string())], 8).unwrap() {
            PollEvent::Error(event) => {
                assert_eq!(event.code, "FETCH_ERROR");
                assert_eq!(event.message, "数据获取失败: timed out");
            }
            _ => panic!("an error"),
        }
    }
    match session.finish_tick(&batch, &vec![Err("timed out".to_string())], 8).unwrap() {
        PollEvent::SourceSwitched(event) => {
            assert_eq!(event.from, "providerA");
            assert_eq!(event.to, "providerB");
        }
        _ => panic!("a switch"),
    }
}

#[test]
fn events_have_names() {
    let quotes = route(FetchOutcome::Quotes(Vec::new()));
    assert!(quotes.is_none());
    let switched = route(FetchOutcome::Switched(
        stealth_stock_monitor::models::SourceSwitchedEvent {
            from: "a".to_string(),
            to: "b".to_string(),
        },
    ))
    .unwrap();
    assert_eq!(switched.name(), "provider-switched");
    let failed = route(FetchOutcome::Failed(FetchError {
        source: "providerA".to_string(),
        cause: "x".to_string(),
    }))
    .unwrap();
    assert_eq!(failed.name(), "error");
    assert_eq!(PollEvent::PriceUpdate(Vec::new()).name(), "quotes-updated");
}

#[test]
fn timer_is_reset_when_the_interval_changed_during_the_tick() {
    let mut poller = Poller::new();
    let app = settings(&["providerA"], 3000);
    let mut session = poller.start(&app).unwrap();
    let stocks = vec![stock("sh", "600519", true)];
    assert_eq!(session.timer_reset(3000), None);
    assert_eq!(session.timer_reset(1000), Some(1000));
    let faster = settings(&["providerA"], 1000);
    assert!(matches!(session.begin_tick(&poller, &stocks, &faster), Tick::Fetch { .. }));
    assert_eq!(session.interval_ms(), 1000);
    assert_eq!(session.timer_reset(1000), None);
    assert_eq!(session.timer_reset(3000), Some(3000));
}
