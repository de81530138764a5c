use poacher::watched::WatchedFile;

// Replay mode: the first read delivers exactly the pre-existing content,
// split into lines, in file order; then an appended line arrives alone.
#[test]
fn scenario_replay_then_append() {
    let mut file = WatchedFile::new(String::from("a.log"), 12, false);
    assert_eq!(file.cursor(), 0);

    let lines = file.read_to_end(b"line1\nline2\n");
    assert_eq!(lines, vec![b"line1".to_vec(), b"line2".to_vec()]);
    assert_eq!(file.cursor(), 12);

    let lines = file.read_to_end(b"line3\n");
    assert_eq!(lines, vec![b"line3".to_vec()]);
    assert_eq!(file.cursor(), 18);
}

// Tail-only mode: the cursor starts at end-of-file, so pre-existing content
// is never delivered; only bytes appended afterwards appear.
#[test]
fn start_from_end_skips_existing_content() {
    let mut file = WatchedFile::new(String::from("a.log"), 12, true);
    assert_eq!(file.cursor(), 12);

    // Nothing has been appended: a read from the cursor sees no bytes.
    let lines = file.read_to_end(b"");
    assert!(lines.is_empty());
    assert_eq!(file.cursor(), 12);

    let lines = file.read_to_end(b"line3\n");
    assert_eq!(lines, vec![b"line3".to_vec()]);
    assert_eq!(file.cursor(), 18);
}

// Idempotence: with no intervening growth, a second read (which starts at
// the advanced cursor and so sees only the leftover fragment) yields nothing.
#[test]
fn second_read_without_growth_is_empty() {
    let mut file = WatchedFile::new(String::from("a.log"), 0, false);
    let content: &[u8] = b"abc\ndef";

    let lines = file.read_to_end(content);
    assert_eq!(lines, vec![b"abc".to_vec()]);
    assert_eq!(file.cursor(), 4);

    // The file did not grow: the bytes from the cursor on are unchanged.
    let rest = &content[file.cursor() as usize..];
    let lines = file.read_to_end(rest);
    assert!(lines.is_empty());
    assert_eq!(file.cursor(), 4);
}

// Monotonicity: the cursor never decreases, and at every point the lines
// delivered so far, joined with line feeds, are exactly the prefix of the
// file's content up to the cursor.
#[test]
fn cursor_is_monotonic_and_delivery_is_a_prefix() {
    let content: &[u8] = b"one\ntwo\nthree\nfour";
    let mut file = WatchedFile::new(String::from("a.log"), 0, false);
    let mut delivered: Vec<u8> = Vec::new();
    let mut last_cursor = 0u64;

    // Hand the file its content in uneven slices, as repeated reads would.
    for stop in [2usize, 5, 9, 13, 18] {
        let cursor = file.cursor() as usize;
        let lines = file.read_to_end(&content[cursor..stop]);
        for line in &lines {
            delivered.extend_from_slice(line);
            delivered.push(b'\n');
        }
        assert!(file.cursor() >= last_cursor);
        last_cursor = file.cursor();
        assert_eq!(&content[..file.cursor() as usize], &delivered[..]);
    }
    // The unterminated tail "four" was never delivered.
    assert_eq!(file.cursor(), 14);
}

// A carriage return just before the line feed is stripped from the line.
#[test]
fn carriage_return_is_stripped() {
    let mut file = WatchedFile::new(String::from("a.log"), 0, false);
    let lines = file.read_to_end(b"alpha\r\nbeta\n");
    assert_eq!(lines, vec![b"alpha".to_vec(), b"beta".to_vec()]);
    assert_eq!(file.cursor(), 12);
}

// An unterminated fragment is not delivered and does not advance the cursor;
// once its terminator arrives, the whole line is delivered exactly once.
#[test]
fn unterminated_fragment_waits_for_its_terminator() {
    let mut file = WatchedFile::new(String::from("a.log"), 0, false);

    let lines = file.read_to_end(b"ab");
    assert!(lines.is_empty());
    assert_eq!(file.cursor(), 0);

    // The file grew to "ab\n"; the read starts again at cursor 0.
    let lines = file.read_to_end(b"ab\n");
    assert_eq!(lines, vec![b"ab".to_vec()]);
    assert_eq!(file.cursor(), 3);
}

// Empty lines are lines: consecutive line feeds each delimit one.
#[test]
fn empty_lines_are_delivered() {
    let mut file = WatchedFile::new(String::from("a.log"), 0, false);
    let lines = file.read_to_end(b"\n\nx\n");
    assert_eq!(lines, vec![b"".to_vec(), b"".to_vec(), b"x".to_vec()]);
    assert_eq!(file.cursor(), 4);
}

#[test]
fn path_accessors_return_the_filename() {
    let file = WatchedFile::new(String::from("/var/log/a.log"), 0, false);
    assert_eq!(file.get_filename(), "/var/log/a.log");
    assert_eq!(file.get_path(), "/var/log/a.log");
}
