use btcturk_websockets::dispatch::EventDispatcher;
use btcturk_websockets::dispatch::Frame;
use btcturk_websockets::dispatch::FrameOutcome;
use btcturk_websockets::error::FrameDecodeError;
use btcturk_websockets::reconciler::DepthReconciler;
use btcturk_websockets::reconciler::ReconcilerAction;
use btcturk_websockets::reconciler::ReconcilerEvent;
use btcturk_websockets::reconciler::StalenessClock;

const ORDERBOOK_FRAME: &str = r#"[431,{"CS":461280,"PS":"BTCTRY","AO":[{"A":"0.01699937","P":"5171945"}],"BO":[{"A":"0.00795068","P":"5168031"}],"channel":"orderbook","event":"BTCTRY","type":431}]"#;

const TICKER_FRAME: &str = r#"[402,{"B":"34.706","A":"34.738","BA":"190.3053","AA":"1481.3956","PS":"ADATRY","H":"36.7","L":"34.555","LA":"34.76","O":"34.911","V":"473088.27239993","AV":"35.701201400000","D":"-0.173","DP":"-0.43","DS":"TRY","NS":"ADA","PId":57,"channel":"ticker","event":"ADATRY","type":402}]"#;

const SNAPSHOT: &str = r#"{"data":{"bids":[["100","1"]],"asks":[["101","2"]]}}"#;

fn started(interval_ms: u64, now_ms: u64) -> DepthReconciler {
    let (reconciler, first) = DepthReconciler::start("BTCTRY", interval_ms, now_ms, EventDispatcher::new(), None);
    assert!(matches!(first, ReconcilerAction::Idle));
    reconciler
}

fn text(frame: &str) -> ReconcilerEvent {
    ReconcilerEvent::Frame(Frame::Text(String::from(frame)))
}

#[test]
fn clock_measures_the_time_since_the_last_update() {
    let mut clock = StalenessClock::new(1_000);
    assert_eq!(clock.elapsed(1_000), 0);
    assert_eq!(clock.elapsed(1_250), 250);
    assert_eq!(clock.elapsed(999), 0);
    assert!(!clock.is_stale(1_500, 500));
    assert!(clock.is_stale(1_501, 500));
    assert!(!clock.is_stale(0, 500));
    clock.reset(1_400);
    assert_eq!(clock.last_update_ms, 1_400);
    assert!(!clock.is_stale(1_501, 500));
    assert_eq!(clock.elapsed(u64::MAX), u64::MAX - 1_400);
}

#[test]
fn primed_snapshot_is_delivered_first() {
    let (reconciler, first) =
        DepthReconciler::start("BTCTRY", 5_000, 10, EventDispatcher::new(), Some(SNAPSHOT));
    match first {
        ReconcilerAction::Deliver(book) => {
            assert_eq!(book.pair_symbol, "BTCTRY");
            assert_eq!(book.bids[0].price, "100");
            assert_eq!(book.asks[0].amount, "2");
        }
        other => panic!("expected a delivery, got {:?}", other),
    }
    assert_eq!(reconciler.pair, "BTCTRY");
    assert_eq!(reconciler.interval_ms, 5_000);
    assert_eq!(reconciler.clock.last_update_ms, 10);
}

#[test]
fn failed_priming_goes_on_to_streaming() {
    let (mut reconciler, first) =
        DepthReconciler::start("BTCTRY", 5_000, 0, EventDispatcher::new(), None);
    assert!(matches!(first, ReconcilerAction::Idle));
    assert_eq!(reconciler.clock.last_update_ms, 0);
    let (unread, first) =
        DepthReconciler::start("BTCTRY", 5_000, 3, EventDispatcher::new(), Some("busy"));
    assert!(matches!(first, ReconcilerAction::Idle));
    assert_eq!(unread.clock.last_update_ms, 3);
    assert!(matches!(reconciler.step(&text(ORDERBOOK_FRAME), 60), ReconcilerAction::Deliver(_)));
}

#[test]
fn snapshot_answer_in_the_stream_is_delivered() {
    let mut reconciler = started(5_000, 0);
    match reconciler.step(&ReconcilerEvent::Snapshot(Some(String::from(SNAPSHOT))), 40) {
        ReconcilerAction::Deliver(book) => assert_eq!(book.bids[0].price, "100"),
        other => panic!("expected a delivery, got {:?}", other),
    }
    assert_eq!(reconciler.clock.last_update_ms, 40);
    assert!(matches!(
        reconciler.step(&ReconcilerEvent::Snapshot(Some(String::from("busy"))), 50),
        ReconcilerAction::Idle
    ));
    assert_eq!(reconciler.clock.last_update_ms, 40);
}

#[test]
fn streamed_update_is_delivered_and_resets_the_clock() {
    let mut reconciler = started(5_000, 0);
    match reconciler.step(&text(ORDERBOOK_FRAME), 1_234) {
        ReconcilerAction::Deliver(book) => {
            assert_eq!(book.change_seq, Some(461280));
            assert_eq!(book.asks[0].price, "5171945");
        }
        other => panic!("expected a delivery, got {:?}", other),
    }
    assert_eq!(reconciler.clock.last_update_ms, 1_234);
}

#[test]
fn quiet_stream_is_refreshed_once() {
    let mut reconciler = started(5_000, 0);
    assert!(matches!(reconciler.step(&text(ORDERBOOK_FRAME), 1_000), ReconcilerAction::Deliver(_)));
    assert!(matches!(reconciler.step(&ReconcilerEvent::Tick, 5_000), ReconcilerAction::Idle));
    assert!(matches!(reconciler.step(&ReconcilerEvent::Tick, 6_000), ReconcilerAction::Idle));
    assert!(matches!(reconciler.step(&ReconcilerEvent::Tick, 6_001), ReconcilerAction::FetchSnapshot));
    assert_eq!(reconciler.clock.last_update_ms, 1_000);
    assert!(matches!(
        reconciler.step(&ReconcilerEvent::Snapshot(Some(String::from(SNAPSHOT))), 6_100),
        ReconcilerAction::Deliver(_)
    ));
    assert_eq!(reconciler.clock.last_update_ms, 6_100);
    assert!(matches!(reconciler.step(&ReconcilerEvent::Tick, 10_000), ReconcilerAction::Idle));
    assert!(matches!(reconciler.step(&ReconcilerEvent::Tick, 11_100), ReconcilerAction::Idle));
    assert!(matches!(reconciler.step(&ReconcilerEvent::Tick, 11_101), ReconcilerAction::FetchSnapshot));
}

#[test]
fn missed_refresh_is_asked_for_again() {
    let mut reconciler = started(1_000, 0);
    assert!(matches!(reconciler.step(&ReconcilerEvent::Tick, 1_001), ReconcilerAction::FetchSnapshot));
    assert!(matches!(reconciler.step(&ReconcilerEvent::Snapshot(None), 1_050), ReconcilerAction::Idle));
    assert!(matches!(reconciler.step(&ReconcilerEvent::Tick, 2_001), ReconcilerAction::FetchSnapshot));
}

#[test]
fn live_stream_keeps_the_timer_quiet() {
    let mut reconciler = started(1_000, 0);
    let mut now: u64 = 0;
    while now < 10_000 {
        now += 900;
        assert!(matches!(reconciler.step(&text(ORDERBOOK_FRAME), now), ReconcilerAction::Deliver(_)));
        assert!(matches!(reconciler.step(&ReconcilerEvent::Tick, now + 100), ReconcilerAction::Idle));
    }
}

#[test]
fn other_frames_do_not_touch_the_clock() {
    let mut reconciler = started(5_000, 7);
    assert!(matches!(reconciler.step(&text(TICKER_FRAME), 100), ReconcilerAction::Idle));
    assert!(matches!(reconciler.step(&text("[991,{}]"), 200), ReconcilerAction::Idle));
    assert!(matches!(reconciler.step(&ReconcilerEvent::Frame(Frame::Other), 300), ReconcilerAction::Idle));
    match reconciler.step(&text("garbage"), 400) {
        ReconcilerAction::Report(reason) => assert_eq!(reason, FrameDecodeError::InvalidJson),
        other => panic!("expected a report, got {:?}", other),
    }
    assert_eq!(reconciler.clock.last_update_ms, 7);
}

#[test]
fn close_stops_the_mode() {
    let mut reconciler = started(5_000, 0);
    assert!(matches!(reconciler.step(&ReconcilerEvent::Frame(Frame::Close), 10), ReconcilerAction::Stop));
    assert!(matches!(reconciler.on_outcome(FrameOutcome::Closed, 20), ReconcilerAction::Stop));
}

#[test]
fn snapshot_is_made_for_the_pair_of_the_mode() {
    let (mut reconciler, _) = DepthReconciler::start("ETHTRY", 5_000, 0, EventDispatcher::new(), None);
    let document = btcturk_websockets::json::parse_json(SNAPSHOT);
    match reconciler.on_snapshot_document(&document, 9) {
        ReconcilerAction::Deliver(book) => assert_eq!(book.pair_symbol, "ETHTRY"),
        other => panic!("expected a delivery, got {:?}", other),
    }
    assert!(matches!(reconciler.on_tick(5_009), ReconcilerAction::Idle));
    assert!(matches!(reconciler.on_tick(5_010), ReconcilerAction::FetchSnapshot));
}
