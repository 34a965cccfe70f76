use daily_digest::date::Date;
use daily_digest::message::Message;
use daily_digest::report::DeliverOutcome;
use daily_digest::report::FetchOutcome;
use daily_digest::report::ReportError;
use daily_digest::report::RunState;
use daily_digest::report::SummarizeOutcome;
use daily_digest::report::WriteOutcome;
use daily_digest::report::generate_report;
use daily_digest::report::should_deliver;
use daily_digest::report::summarize_daily_messages;
use daily_digest::store::MessageStore;

fn d(year: u32, month: u32, day: u32) -> Date {
    Date { year, month, day }
}

fn msg(id: u64, date: Date, data: &str) -> Message {
    Message { id, date, data: data.to_string() }
}

/// Scenario: two messages stored for 2024-01-01, run triggered on 2024-01-02
/// with a working summarizer, store and notifier.
#[test]
fn scenario_successful_daily_run() {
    let mut store = MessageStore::new();
    store.insert_message(msg(1, d(2024, 1, 1), "{\"text\":\"hi\"}"));
    store.insert_message(msg(2, d(2024, 1, 1), "{\"text\":\"bye\"}"));

    let log = summarize_daily_messages(
        &mut store,
        d(2024, 1, 2),
        SummarizeOutcome::Digest("A quiet day of greetings.".to_string()),
        WriteOutcome::Written,
        DeliverOutcome::Delivered,
    );

    // One summarizer call, with a serialization of both messages.
    assert_eq!(
        log.prompt,
        Some("[{\"text\":\"hi\"},{\"text\":\"bye\"}]".to_string())
    );
    // The digest came back and was delivered.
    assert_eq!(log.result, Ok("A quiet day of greetings.".to_string()));
    assert!(log.delivered);
    // Exactly one summary row, dated yesterday.
    assert_eq!(store.count_summaries_for_date(d(2024, 1, 1)), 1);
    let rows = store.summaries_for_date(d(2024, 1, 1));
    assert_eq!(rows[0].text, "A quiet day of greetings.");
    assert_eq!(store.count_summaries_for_date(d(2024, 1, 2)), 0);
}

/// Scenario: zero messages stored for 2024-01-01, run triggered on 2024-01-02.
#[test]
fn scenario_quiet_day() {
    let mut store = MessageStore::new();

    let log = summarize_daily_messages(
        &mut store,
        d(2024, 1, 2),
        SummarizeOutcome::Digest("should never be asked for".to_string()),
        WriteOutcome::Written,
        DeliverOutcome::Delivered,
    );

    assert_eq!(log.prompt, None);
    assert_eq!(log.result, Err(ReportError::NoMessages));
    assert!(!log.delivered);
    assert_eq!(store.count_summaries_for_date(d(2024, 1, 1)), 0);
}

#[test]
fn summarizer_failure_writes_nothing() {
    let mut store = MessageStore::new();
    store.insert_message(msg(1, d(2024, 1, 1), "{\"text\":\"hi\"}"));

    let log = summarize_daily_messages(
        &mut store,
        d(2024, 1, 2),
        SummarizeOutcome::Failed,
        WriteOutcome::Written,
        DeliverOutcome::Delivered,
    );

    assert_eq!(log.result, Err(ReportError::SummarizationFailed));
    assert!(!log.delivered);
    assert_eq!(store.count_summaries_for_date(d(2024, 1, 1)), 0);
}

#[test]
fn persistence_failure_loses_the_digest() {
    let mut store = MessageStore::new();
    store.insert_message(msg(1, d(2024, 1, 1), "{\"text\":\"hi\"}"));

    let run = generate_report(
        &mut store,
        d(2024, 1, 2),
        SummarizeOutcome::Digest("a digest the store refused".to_string()),
        WriteOutcome::Refused,
    );

    assert_eq!(run.result, Err(ReportError::PersistenceFailed));
    // No row exists for the date afterward.
    assert_eq!(store.count_summaries_for_date(d(2024, 1, 1)), 0);
}

#[test]
fn delivery_failure_keeps_the_persisted_row() {
    let mut store = MessageStore::new();
    store.insert_message(msg(1, d(2024, 1, 1), "{\"text\":\"hi\"}"));

    let log = summarize_daily_messages(
        &mut store,
        d(2024, 1, 2),
        SummarizeOutcome::Digest("persisted either way".to_string()),
        WriteOutcome::Written,
        DeliverOutcome::Failed,
    );

    assert_eq!(log.result, Ok("persisted either way".to_string()));
    assert!(!log.delivered);
    assert_eq!(store.count_summaries_for_date(d(2024, 1, 1)), 1);
}

#[test]
fn rerun_appends_a_second_row() {
    let mut store = MessageStore::new();
    store.insert_message(msg(1, d(2024, 1, 1), "{\"text\":\"hi\"}"));

    for text in ["first digest", "second digest"] {
        let log = summarize_daily_messages(
            &mut store,
            d(2024, 1, 2),
            SummarizeOutcome::Digest(text.to_string()),
            WriteOutcome::Written,
            DeliverOutcome::Delivered,
        );
        assert!(log.delivered);
    }

    let rows = store.summaries_for_date(d(2024, 1, 1));
    assert_eq!(rows.len(), 2);
    assert_eq!(rows[0].text, "first digest");
    assert_eq!(rows[1].text, "second digest");
}

#[test]
fn run_state_machine_happy_path() {
    let batch = vec![
        msg(1, d(2024, 1, 1), "{\"text\":\"hi\"}"),
        msg(2, d(2024, 1, 1), "{\"text\":\"bye\"}"),
    ];

    let st = RunState::start(d(2024, 1, 2));
    match &st {
        RunState::FetchPending { target } => assert_eq!(*target, d(2024, 1, 1)),
        other => panic!("unexpected state: {:?}", other),
    }

    let st = st.on_fetched(FetchOutcome::Rows(batch));
    let st = match st {
        RunState::SummarizePending { target, prompt } => {
            assert_eq!(target, d(2024, 1, 1));
            assert_eq!(prompt, "[{\"text\":\"hi\"},{\"text\":\"bye\"}]");
            RunState::SummarizePending { target, prompt }
        }
        other => panic!("unexpected state: {:?}", other),
    };

    let st = st.on_summarized(SummarizeOutcome::Digest("digest".to_string()));
    let st = match st {
        RunState::PersistPending { target, digest } => {
            assert_eq!(target, d(2024, 1, 1));
            assert_eq!(digest, "digest");
            RunState::PersistPending { target, digest }
        }
        other => panic!("unexpected state: {:?}", other),
    };

    let st = st.on_persisted(WriteOutcome::Written);
    match st {
        RunState::Complete { result } => assert_eq!(result, Ok("digest".to_string())),
        other => panic!("unexpected state: {:?}", other),
    }
}

#[test]
fn run_state_machine_failure_paths() {
    let st = RunState::start(d(2024, 1, 2));
    match st.on_fetched(FetchOutcome::NoRows) {
        RunState::Complete { result } => assert_eq!(result, Err(ReportError::NoMessages)),
        other => panic!("unexpected state: {:?}", other),
    }

    let st = RunState::start(d(2024, 1, 2));
    match st.on_fetched(FetchOutcome::Unavailable) {
        RunState::Complete { result } => assert_eq!(result, Err(ReportError::StoreUnavailable)),
        other => panic!("unexpected state: {:?}", other),
    }

    let st = RunState::SummarizePending {
        target: d(2024, 1, 1),
        prompt: "[]".to_string(),
    };
    match st.on_summarized(SummarizeOutcome::Failed) {
        RunState::Complete { result } => {
            assert_eq!(result, Err(ReportError::SummarizationFailed))
        }
        other => panic!("unexpected state: {:?}", other),
    }

    let st = RunState::PersistPending {
        target: d(2024, 1, 1),
        digest: "digest".to_string(),
    };
    match st.on_persisted(WriteOutcome::Refused) {
        RunState::Complete { result } => assert_eq!(result, Err(ReportError::PersistenceFailed)),
        other => panic!("unexpected state: {:?}", other),
    }
}

#[test]
fn delivery_is_gated_on_success() {
    assert!(should_deliver(&Ok("digest".to_string())));
    assert!(!should_deliver(&Err(ReportError::NoMessages)));
    assert!(!should_deliver(&Err(ReportError::StoreUnavailable)));
    assert!(!should_deliver(&Err(ReportError::SummarizationFailed)));
    assert!(!should_deliver(&Err(ReportError::PersistenceFailed)));
}
