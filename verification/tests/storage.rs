use chrono::{DateTime, FixedOffset, SecondsFormat};
use serde_json::{Number, Value};
use task_tracker::{Error, Status, Task, Timestamp, Tracker};

fn time_text(time: Timestamp) -> String {
    let zone = FixedOffset::east_opt(time.offset).unwrap();
    DateTime::from_timestamp(time.secs, time.nanos)
        .unwrap()
        .with_timezone(&zone)
        .to_rfc3339_opts(SecondsFormat::AutoSi, true)
}

fn time_of(text: &str) -> Timestamp {
    let time = DateTime::parse_from_rfc3339(text).unwrap();
    Timestamp::new(time.timestamp(), time.timestamp_subsec_nanos(), time.offset().local_minus_utc())
}

fn document(tracker: &Tracker) -> String {
    let mut tasks = Vec::new();
    for task in tracker.tasks() {
        let mut fields = serde_json::Map::new();
        fields.insert("id".to_string(), Value::Number(Number::from(task.id())));
        fields.insert("description".to_string(), Value::String(task.description().to_string()));
        fields.insert("status".to_string(), Value::String(task.status().label().to_string()));
        fields.insert("created_at".to_string(), Value::String(time_text(task.created_at())));
        fields.insert("updated_at".to_string(), Value::String(time_text(task.updated_at())));
        tasks.push(Value::Object(fields));
    }
    let mut root = serde_json::Map::new();
    root.insert("tasks".to_string(), Value::Array(tasks));
    root.insert("last_id".to_string(), Value::Number(Number::from(tracker.last_id())));
    serde_json::to_string(&Value::Object(root)).unwrap()
}

fn status_of(label: &str) -> Status {
    [Status::Todo, Status::InProgress, Status::Done]
        .into_iter()
        .find(|s| s.label() == label)
        .unwrap()
}

fn tracker_of(text: &str) -> Result<Tracker, Error> {
    let root: Value = serde_json::from_str(text).unwrap();
    let mut tasks = Vec::new();
    for task in root["tasks"].as_array().unwrap() {
        tasks.push(Task::from_parts(
            task["id"].as_u64().unwrap() as usize,
            task["description"].as_str().unwrap().to_string(),
            status_of(task["status"].as_str().unwrap()),
            time_of(task["created_at"].as_str().unwrap()),
            time_of(task["updated_at"].as_str().unwrap()),
        ));
    }
    Tracker::from_parts(tasks, root["last_id"].as_u64().unwrap() as usize)
}

#[test]
fn a_tracker_survives_the_way_through_json() {
    let mut tracker = Tracker::new();
    tracker.add_at("buy \"milk\"\n".to_string(), Timestamp::new(1_700_000_000, 123_456_789, 3_600));
    tracker.add_at("ünïcödé ✓".to_string(), Timestamp::new(1_700_000_100, 0, -18_000));
    tracker.add_at(String::new(), Timestamp::new(1_700_000_200, 999_999_999, 0));
    tracker.add_at("gone".to_string(), Timestamp::new(1_700_000_300, 1, 0));
    assert_eq!(tracker.mark_status_at(2, Status::Done, Timestamp::new(1_700_000_400, 5, 7_200)), Ok(()));
    assert_eq!(tracker.mark_status_at(3, Status::InProgress, Timestamp::new(1_700_000_500, 0, 0)), Ok(()));
    assert_eq!(tracker.delete(4), Ok(()));

    let text = document(&tracker);
    let reloaded = tracker_of(&text).unwrap();
    assert_eq!(reloaded, tracker);
    assert_eq!(reloaded.last_id(), 4);
    assert_eq!(document(&reloaded), text);
}

#[test]
fn times_out_of_order_survive_the_way_through_json() {
    let mut tracker = Tracker::new();
    tracker.add_at("x".to_string(), Timestamp::new(1_700_000_020, 0, 0));
    assert_eq!(tracker.mark_status_at(1, Status::Done, Timestamp::new(1_700_000_010, 0, 0)), Ok(()));
    let reloaded = tracker_of(&document(&tracker)).unwrap();
    assert_eq!(reloaded, tracker);
    assert_eq!(reloaded.tasks()[0].updated_at(), Timestamp::new(1_700_000_010, 0, 0));
}

#[test]
fn an_empty_tracker_survives_the_way_through_json() {
    let tracker = Tracker::new();
    let text = document(&tracker);
    assert_eq!(text, "{\"last_id\":0,\"tasks\":[]}");
    assert_eq!(tracker_of(&text), Ok(Tracker::new()));
}

#[test]
fn a_tracker_with_the_clock_survives_the_way_through_json() {
    let mut tracker = Tracker::new();
    tracker.add("now".to_string());
    tracker.add("then".to_string());
    assert_eq!(tracker.mark_status(1, Status::Done), Ok(()));
    let reloaded = tracker_of(&document(&tracker)).unwrap();
    assert_eq!(reloaded, tracker);
}

#[test]
fn a_document_that_is_no_tracker_is_refused() {
    let text = "{\"tasks\":[{\"id\":3,\"description\":\"x\",\"status\":\"Todo\",\
                \"created_at\":\"2024-01-01T00:00:00+00:00\",\
                \"updated_at\":\"2024-01-01T00:00:00+00:00\"}],\"last_id\":2}";
    assert_eq!(
        tracker_of(text),
        Err(Error::Format("Stored tasks break the invariants of a tracker".to_string()))
    );
}
