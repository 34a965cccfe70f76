use daily_digest::date::Date;
use daily_digest::message::Message;
use daily_digest::serialize::serialize_batch;
use daily_digest::store::MessageStore;

fn d(year: u32, month: u32, day: u32) -> Date {
    Date { year, month, day }
}

fn msg(id: u64, date: Date, data: &str) -> Message {
    Message { id, date, data: data.to_string() }
}

#[test]
fn serialize_single_message() {
    let batch = vec![msg(1, d(2024, 1, 1), "{\"text\":\"hi\"}")];
    assert_eq!(serialize_batch(&batch), "[{\"text\":\"hi\"}]");
}

#[test]
fn serialize_joins_with_commas() {
    let batch = vec![
        msg(1, d(2024, 1, 1), "{\"text\":\"hi\"}"),
        msg(2, d(2024, 1, 1), "{\"text\":\"bye\"}"),
        msg(3, d(2024, 1, 1), "{\"text\":\"later\"}"),
    ];
    assert_eq!(
        serialize_batch(&batch),
        "[{\"text\":\"hi\"},{\"text\":\"bye\"},{\"text\":\"later\"}]"
    );
}

#[test]
fn serialize_empty_batch() {
    let batch: Vec<Message> = Vec::new();
    assert_eq!(serialize_batch(&batch), "[]");
}

#[test]
fn fetch_empty_store_reports_no_rows() {
    let store = MessageStore::new();
    assert!(store.fetch_messages_for_date(d(2024, 1, 1)).is_none());
}

#[test]
fn fetch_selects_only_the_requested_day_in_order() {
    let mut store = MessageStore::new();
    store.insert_message(msg(1, d(2024, 1, 1), "{\"text\":\"a\"}"));
    store.insert_message(msg(2, d(2024, 1, 2), "{\"text\":\"b\"}"));
    store.insert_message(msg(3, d(2024, 1, 1), "{\"text\":\"c\"}"));

    let rows = store.fetch_messages_for_date(d(2024, 1, 1)).unwrap();
    assert_eq!(rows.len(), 2);
    assert_eq!(rows[0].id, 1);
    assert_eq!(rows[0].data, "{\"text\":\"a\"}");
    assert_eq!(rows[1].id, 3);
    assert_eq!(rows[1].data, "{\"text\":\"c\"}");

    assert!(store.fetch_messages_for_date(d(2024, 1, 3)).is_none());
}

#[test]
fn summaries_are_append_only_per_day() {
    let mut store = MessageStore::new();
    assert_eq!(store.count_summaries_for_date(d(2024, 1, 1)), 0);

    store.insert_summary("first".to_string(), d(2024, 1, 1));
    store.insert_summary("other day".to_string(), d(2024, 1, 2));
    store.insert_summary("second".to_string(), d(2024, 1, 1));

    assert_eq!(store.count_summaries_for_date(d(2024, 1, 1)), 2);
    assert_eq!(store.count_summaries_for_date(d(2024, 1, 2)), 1);

    let rows = store.summaries_for_date(d(2024, 1, 1));
    assert_eq!(rows.len(), 2);
    assert_eq!(rows[0].text, "first");
    assert_eq!(rows[1].text, "second");
}
