use hatchet_sdk::tracing::{
    event_fields, init_sink, level_name, pump, settle_dropped, EventRecord, FieldCollector, Level,
    LogLine, Pump, PumpAction, ReentrancyGuard, SinkMessage, SpanFields,
};
use hatchet_sdk::utils::ExecutionContext;
use hatchet_sdk::{HatchetError, HatchetLayer};
use serde_json::Value;

fn execution_context() -> ExecutionContext {
    ExecutionContext {
        workflow_run_id: String::from("workflow-run-1"),
        task_run_external_id: String::from("task-run-1"),
        child_index: 0,
        retry_count: 2,
    }
}

/// A layer that ignores no target.
fn test_layer() -> HatchetLayer {
    HatchetLayer::new().with_ignored_targets(Vec::new())
}

fn event(level: Level, target: &str, message: &str) -> EventRecord {
    let mut fields = FieldCollector::new();
    fields.record_debug("message", String::from(message));
    EventRecord { level, target: String::from(target), fields }
}

/// The lines that a layer makes of events emitted inside a task run.
fn capture(layer: &HatchetLayer, events: Vec<EventRecord>) -> Vec<LogLine> {
    let execution = execution_context();
    let mut lines = Vec::new();
    for event in events {
        if let Some(line) = layer.forward(event, Some(&execution), true, &Vec::new(), 0) {
            lines.push(line);
        }
    }
    lines
}

fn metadata(line: &LogLine) -> Value {
    serde_json::from_str(&line.metadata).unwrap()
}

#[test]
fn test_event_fields_become_message_and_metadata() {
    let mut fields = FieldCollector::new();
    fields.record_i64("user_id", 7);
    fields.record_str("retries", "none");
    fields.record_debug("message", String::from("hello"));
    let lines = capture(
        &test_layer(),
        vec![EventRecord { level: Level::INFO, target: String::from("test"), fields }],
    );

    assert_eq!(1, lines.len());
    assert_eq!("hello", lines[0].message);
    assert_eq!(Value::from(7), metadata(&lines[0])["user_id"]);
    assert_eq!(Value::from("none"), metadata(&lines[0])["retries"]);
    // The message is the line itself, not a metadata key.
    assert!(metadata(&lines[0]).get("message").is_none());
}

#[test]
fn test_span_fields_are_folded_into_metadata() {
    let mut fields = FieldCollector::new();
    fields.record_str("request_id", "abc");
    let spans = vec![SpanFields::new(fields)];
    let execution = execution_context();
    let line = test_layer()
        .forward(event(Level::INFO, "test", "handling"), Some(&execution), true, &spans, 0)
        .unwrap();

    assert_eq!(Value::from("abc"), metadata(&line)["request_id"]);
}

#[test]
fn test_task_run_id_and_retry_count_are_attached() {
    let lines = capture(&test_layer(), vec![event(Level::INFO, "test", "hello")]);

    assert_eq!(1, lines.len());
    assert_eq!("task-run-1", lines[0].task_run_external_id);
    assert_eq!(2, lines[0].retry_count);
}

#[test]
fn test_events_outside_a_task_run_are_dropped() {
    // This is what a worker's own start-up logging looks like, and none of it belongs on the
    // dashboard.
    let line = test_layer().forward(
        event(Level::ERROR, "test", "not part of a task"),
        None,
        true,
        &Vec::new(),
        0,
    );

    assert!(line.is_none());
}

#[test]
fn events_are_dropped_where_nothing_carries_lines() {
    let execution = execution_context();
    let line = test_layer().forward(
        event(Level::ERROR, "test", "lost"),
        Some(&execution),
        false,
        &Vec::new(),
        0,
    );
    assert!(line.is_none());
}

#[test]
fn test_max_level_filters_events() {
    let lines = capture(
        &test_layer(),
        vec![
            event(Level::DEBUG, "test", "too quiet"),
            event(Level::INFO, "test", "loud enough"),
        ],
    );

    assert_eq!(1, lines.len());
    assert_eq!("loud enough", lines[0].message);
}

#[test]
fn test_lowering_max_level_admits_debug_events() {
    let lines = capture(
        &test_layer().with_max_level(Level::DEBUG),
        vec![event(Level::DEBUG, "test", "now visible")],
    );

    assert_eq!(1, lines.len());
    assert_eq!("DEBUG", lines[0].level);
}

#[test]
fn test_ignored_targets_are_dropped() {
    let layer = test_layer().with_ignored_targets(vec![String::from("noisy_crate")]);
    let lines = capture(
        &layer,
        vec![
            event(Level::INFO, "noisy_crate::inner", "dropped"),
            event(Level::INFO, "my_app", "kept"),
        ],
    );

    assert_eq!(1, lines.len());
    assert_eq!("kept", lines[0].message);
}

#[test]
fn test_all_server_levels_are_reachable() {
    let lines = capture(
        &test_layer().with_max_level(Level::TRACE),
        vec![
            event(Level::ERROR, "test", "e"),
            event(Level::WARN, "test", "w"),
            event(Level::INFO, "test", "i"),
            event(Level::DEBUG, "test", "d"),
            event(Level::TRACE, "test", "t"),
        ],
    );

    let levels: Vec<&str> = lines.iter().map(|line| line.level).collect();
    // `TRACE` has no server counterpart and folds into `DEBUG`.
    assert_eq!(vec!["ERROR", "WARN", "INFO", "DEBUG", "DEBUG"], levels);
}

#[test]
fn test_default_ignored_targets() {
    let lines = capture(
        &HatchetLayer::new(),
        vec![
            // The library's own events, and those of the networking stack delivering them,
            // must never reach the dashboard.
            event(Level::INFO, "hatchet_sdk::worker", "internal"),
            event(Level::INFO, "hyper::client", "internal"),
            event(Level::INFO, "tonic::transport", "internal"),
            event(Level::INFO, "my_app::orders", "kept"),
        ],
    );

    assert_eq!(1, lines.len());
    assert_eq!("kept", lines[0].message);
}

#[test]
fn every_default_target_is_ignored() {
    let layer = HatchetLayer::new();
    for target in
        ["hatchet_sdk", "h2", "hyper", "hyper_util", "tonic", "tower", "rustls", "reqwest"]
    {
        assert!(layer.is_ignored(target));
        assert!(layer.is_ignored(&format!("{target}::inner")));
    }
    assert!(!layer.is_ignored("h"));
    assert!(!layer.is_ignored("my_tonic"));
    assert!(layer.admits(Level::ERROR, "my_app"));
    assert!(!layer.admits(Level::DEBUG, "my_app"));
}

#[test]
fn test_level_names_match_the_server_enum() {
    assert_eq!("ERROR", level_name(&Level::ERROR));
    assert_eq!("WARN", level_name(&Level::WARN));
    assert_eq!("INFO", level_name(&Level::INFO));
    assert_eq!("DEBUG", level_name(&Level::DEBUG));
    assert_eq!("DEBUG", level_name(&Level::TRACE));
}

#[test]
fn fields_keep_their_kind() {
    let mut fields = FieldCollector::new();
    fields.record_bool("flag", true);
    fields.record_i64("signed", i64::MIN);
    fields.record_u64("unsigned", u64::MAX);
    fields.record_error("error", String::from("it broke"));
    fields.insert("float", Value::from(1.5));
    fields.record_str("twice", "first");
    fields.record_str("twice", "second");
    let (message, own) = fields.into_parts();
    assert!(message.is_none());
    assert_eq!(
        Value::Object(own).to_string(),
        "{\"error\":\"it broke\",\"flag\":true,\"float\":1.5,\"signed\":-9223372036854775808,\
         \"twice\":\"second\",\"unsigned\":18446744073709551615}"
    );
}

#[test]
fn a_message_that_is_no_text_is_rendered() {
    let mut fields = FieldCollector::new();
    fields.record_u64("message", 7);
    let (message, own) = fields.into_parts();
    assert_eq!(message, Some(String::from("7")));
    assert!(own.is_empty());

    let mut fields = FieldCollector::new();
    fields.record_str("message", "text");
    assert_eq!(fields.into_parts().0, Some(String::from("text")));
}

#[test]
fn an_event_without_a_message_gives_an_empty_one() {
    let lines = capture(
        &test_layer(),
        vec![EventRecord {
            level: Level::INFO,
            target: String::from("test"),
            fields: FieldCollector::new(),
        }],
    );
    assert_eq!(lines[0].message, "");
    assert_eq!(lines[0].metadata, "{\"target\":\"test\"}");
}

fn span(name: &str, value: &str) -> SpanFields {
    let mut fields = FieldCollector::new();
    fields.record_str(name, value);
    SpanFields::new(fields)
}

#[test]
fn inner_spans_win_and_the_event_wins_over_all() {
    let spans = vec![span("a", "outer"), span("a", "inner"), span("b", "inner")];
    let mut own = FieldCollector::new();
    own.record_str("b", "event");
    let fields = event_fields(&spans, own.into_parts().1, "t", 0);
    assert_eq!(
        Value::Object(fields).to_string(),
        "{\"a\":\"inner\",\"b\":\"event\",\"target\":\"t\"}"
    );
}

#[test]
fn the_target_wins_and_dropped_lines_are_reported() {
    let spans = vec![span("target", "span"), span("hatchet_dropped_log_lines", "span")];
    let fields = event_fields(&spans, FieldCollector::new().into_parts().1, "t", 3);
    assert_eq!(
        Value::Object(fields).to_string(),
        "{\"hatchet_dropped_log_lines\":3,\"target\":\"t\"}"
    );
}

#[test]
fn later_records_on_a_span_replace_earlier_ones() {
    let mut more = FieldCollector::new();
    more.record_str("a", "new");
    more.record_str("message", "not kept");
    let recorded = SpanFields::recorded(Some(span("a", "old")), more);
    let fields =
        event_fields(&vec![recorded.copied()], FieldCollector::new().into_parts().1, "t", 0);
    assert_eq!(Value::Object(fields).to_string(), "{\"a\":\"new\",\"target\":\"t\"}");

    let mut first = FieldCollector::new();
    first.record_bool("b", false);
    let recorded = SpanFields::recorded(None, first);
    let fields = event_fields(&vec![recorded], FieldCollector::new().into_parts().1, "t", 0);
    assert_eq!(Value::Object(fields).to_string(), "{\"b\":false,\"target\":\"t\"}");
}

#[test]
fn every_dropped_line_is_accounted_for() {
    let mut dropped: u64 = 0;
    let mut reported: u64 = 0;
    let mut refused: u64 = 0;
    for accepted in [true, false, false, true, false, true, true, false] {
        if accepted {
            reported += dropped;
        } else {
            refused += 1;
        }
        dropped = settle_dropped(dropped, dropped, accepted);
        assert_eq!(refused, reported + dropped);
    }
    assert_eq!((refused, reported, dropped), (4, 3, 1));
}

#[test]
fn lines_dropped_meanwhile_stay_in_the_count() {
    assert_eq!(settle_dropped(5, 2, true), 3);
    assert_eq!(settle_dropped(5, 2, false), 6);
    assert_eq!(settle_dropped(u64::MAX, 0, false), 0);
    assert_eq!(settle_dropped(1, 2, true), u64::MAX);
}

#[test]
fn the_count_balances_however_offers_interleave() {
    // Two threads read a count of 2; one line is refused before both of theirs are accepted.
    let mut count: u64 = 0;
    for (reported, accepted) in [(0, false), (0, false), (0, false), (2, true)] {
        count = settle_dropped(count, reported, accepted);
    }
    assert_eq!(count, 1);
    assert_eq!(settle_dropped(count, 2, true), u64::MAX);
}

#[test]
fn a_flush_is_answered_behind_the_lines_ahead_of_it() {
    let messages: Vec<SinkMessage<&str>> = vec![
        SinkMessage::Line(Box::new(LogLine {
            task_run_external_id: String::from("run"),
            message: String::from("first"),
            level: "WARN",
            metadata: String::from("{}"),
            retry_count: 1,
        })),
        SinkMessage::Flush("responder"),
    ];
    let mut served = Vec::new();
    for message in messages {
        match pump(message) {
            PumpAction::PutLog(entry) => {
                assert_eq!(entry.task_run_external_id, "run");
                assert_eq!(entry.level, Some(String::from("WARN")));
                assert_eq!(entry.metadata, "{}");
                assert_eq!(entry.task_retry_count, Some(1));
                served.push(entry.message);
            }
            PumpAction::Respond(responder) => served.push(String::from(responder)),
        }
    }
    assert_eq!(served, ["first", "responder"]);
}

#[test]
fn a_line_that_fails_does_not_stop_the_next() {
    let line = |message: &str| {
        SinkMessage::Line(Box::new(LogLine {
            task_run_external_id: String::from("run"),
            message: String::from(message),
            level: "INFO",
            metadata: String::new(),
            retry_count: 0,
        }))
    };
    let queue: Vec<SinkMessage<&str>> =
        vec![line("first"), line("second"), SinkMessage::Flush("responder"), line("third")];
    let failure = || HatchetError::GrpcErrorStatus(String::from("unavailable"));
    let mut pump = Pump::new();
    let mut served = Vec::new();
    for message in queue {
        match pump.receive(message) {
            PumpAction::PutLog(entry) => {
                let fails = entry.message == "first";
                served.push(entry.message);
                let outcome = if fails { Err(failure()) } else { Ok(()) };
                let expected = if fails { Some(failure()) } else { None };
                assert_eq!(pump.sent(outcome), expected);
            }
            PumpAction::Respond(responder) => served.push(String::from(responder)),
        }
    }
    assert_eq!(served, ["first", "second", "responder", "third"]);
}

#[test]
fn the_queue_stays_with_the_first_client() {
    let mut bound = None;
    assert!(init_sink(&mut bound, "first"));
    assert!(!init_sink(&mut bound, "second"));
    assert!(!init_sink(&mut bound, "third"));
    assert_eq!(bound, Some("first"));
}

#[test]
fn a_thread_handles_one_event_at_a_time() {
    let mut inside = false;
    let guard = ReentrancyGuard::acquire(&mut inside).unwrap();
    assert!(inside);
    assert!(ReentrancyGuard::acquire(&mut inside).is_none());
    assert!(inside);
    guard.release(&mut inside);
    assert!(!inside);
    assert!(ReentrancyGuard::acquire(&mut inside).is_some());
}
