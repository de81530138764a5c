use poacher::events::{ControlPoll, FileEvent, FromMainEvent, ToMainEvent};
use poacher::worker::FilesProcessor;

fn two_file_registry(only_tail: bool) -> FilesProcessor {
    let names = vec![String::from("a.log"), String::from("b.log")];
    let lens = vec![12u64, 7u64];
    FilesProcessor::new(&names, &lens, only_tail)
}

#[test]
fn registry_holds_every_file_with_its_cursor() {
    let p = two_file_registry(false);
    assert_eq!(p.file_count(), 2);
    assert_eq!(p.filename_at(0), "a.log");
    assert_eq!(p.filename_at(1), "b.log");
    assert_eq!(p.cursor_at(0), 0);
    assert_eq!(p.cursor_at(1), 0);

    let p = two_file_registry(true);
    assert_eq!(p.cursor_at(0), 12);
    assert_eq!(p.cursor_at(1), 7);
}

#[test]
fn lookup_resolves_registered_paths_only() {
    let p = two_file_registry(false);
    assert_eq!(p.find_index(&String::from("a.log")), Some(0));
    assert_eq!(p.find_index(&String::from("b.log")), Some(1));
    assert_eq!(p.find_index(&String::from("c.log")), None);
}

#[test]
fn startup_acknowledges_with_all_ok() {
    let mut p = two_file_registry(false);
    let msg = p.finish_startup();
    assert!(matches!(msg, ToMainEvent::AllOk));
}

// A write notification for one file never moves another file's cursor and
// never emits a batch tagged with another file's name.
#[test]
fn scenario_write_to_one_file_leaves_the_other_alone() {
    let mut p = two_file_registry(true);
    p.finish_startup();

    let batch = p.read_file(1, b"fresh\n").expect("one complete line");
    assert_eq!(batch.filename, "b.log");
    assert_eq!(batch.lines, vec![b"fresh".to_vec()]);

    assert_eq!(p.cursor_at(0), 12, "file a.log must be untouched");
    assert_eq!(p.cursor_at(1), 13);
}

// The concrete replay scenario, through the worker: pre-existing content is
// flushed as the first batch, an appended line arrives as the next.
#[test]
fn scenario_replay_then_notification() {
    let names = vec![String::from("a.log")];
    let lens = vec![12u64];
    let mut p = FilesProcessor::new(&names, &lens, false);
    p.finish_startup();

    let batch = p.read_file(0, b"line1\nline2\n").expect("two lines");
    assert_eq!(batch.filename, "a.log");
    assert_eq!(batch.lines, vec![b"line1".to_vec(), b"line2".to_vec()]);
    assert_eq!(p.cursor_at(0), 12);

    let batch = p.read_file(0, b"line3\n").expect("one line");
    assert_eq!(batch.lines, vec![b"line3".to_vec()]);
    assert_eq!(p.cursor_at(0), 18);
}

// In tail-only mode the startup read sees no bytes and emits no batch.
#[test]
fn no_batch_for_pre_existing_content_when_tailing_only() {
    let mut p = two_file_registry(true);
    p.finish_startup();
    assert!(p.read_file(0, b"").is_none());
    assert!(p.read_file(1, b"").is_none());
    assert_eq!(p.cursor_at(0), 12);
    assert_eq!(p.cursor_at(1), 7);
}

// A read that yields no complete line emits no batch.
#[test]
fn no_batch_for_an_unterminated_fragment() {
    let mut p = two_file_registry(false);
    p.finish_startup();
    assert!(p.read_file(0, b"partial").is_none());
    assert_eq!(p.cursor_at(0), 0);
}

// A batch travels to the consumer wrapped in the outbound event type.
#[test]
fn batches_are_sent_as_lines_events() {
    let mut p = two_file_registry(true);
    p.finish_startup();
    let batch = p.read_file(0, b"hit\n").expect("one complete line");
    let event = FileEvent::Lines(batch);
    match event {
        FileEvent::Lines(lines) => {
            assert_eq!(lines.filename, "a.log");
            assert_eq!(lines.lines, vec![b"hit".to_vec()]);
        }
    }
}

// Shutdown responsiveness: the first control poll that observes a shutdown
// message stops the worker; an empty poll never does; a disconnected
// control side counts as an implicit shutdown.
#[test]
fn shutdown_message_stops_the_worker() {
    let mut p = two_file_registry(false);
    p.finish_startup();
    assert!(!p.step_control(ControlPoll::Empty));
    assert!(!p.step_control(ControlPoll::Empty));
    assert!(p.step_control(ControlPoll::Message(FromMainEvent::Shutdown)));
}

#[test]
fn disconnected_control_side_stops_the_worker() {
    let mut p = two_file_registry(false);
    p.finish_startup();
    assert!(p.step_control(ControlPoll::Disconnected));
}
