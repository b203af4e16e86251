use drama_study_tool::navigation::{parse_clock, NavigationController, TimeParseError};
use drama_study_tool::subtitles::{ParseError, SubtitleStore};

const SAMPLE: &str = "1\n00:00:01,000 --> 00:00:02,500\nHello\n\n2\n00:00:05,000 --> 00:00:06,000\nSecond line\nwith two rows\n\n3\n00:01:00,250 --> 00:01:02,000\nThird";

fn sample_store() -> SubtitleStore {
    SubtitleStore::parse(SAMPLE.to_string()).unwrap()
}

#[test]
fn parse_reads_blocks_in_order() {
    let store = sample_store();
    assert_eq!(store.len(), 3);
    assert!(!store.is_empty());
    let first = store.entry_at(0).unwrap();
    assert_eq!(first.start_time, 1000);
    assert_eq!(first.end_time, 2500);
    assert_eq!(first.text, "Hello");
    let second = store.entry_at(1).unwrap();
    assert_eq!(second.start_time, 5000);
    assert_eq!(second.text, "Second line\nwith two rows");
    assert_eq!(store.entry_at(2).unwrap().start_time, 60250);
    assert!(store.entry_at(3).is_none());
}

#[test]
fn parse_empty_document_gives_empty_store() {
    let store = SubtitleStore::parse(String::new()).unwrap();
    assert_eq!(store.len(), 0);
    assert!(store.is_empty());
    assert!(store.entry_at(0).is_none());
}

#[test]
fn parse_rejects_block_without_end_timestamp() {
    let doc = "1\n00:00:01,000 --> 00:00:02,000\nfine\n\n2\n00:00:03,000\ntext".to_string();
    assert_eq!(SubtitleStore::parse(doc).err(), Some(ParseError::Malformed(2)));
}

#[test]
fn parse_rejects_bad_timestamp() {
    let doc = "1\n00:xx:01,000 --> 00:00:02,000\ntext\n".to_string();
    assert!(matches!(SubtitleStore::parse(doc), Err(ParseError::Malformed(_))));
}

#[test]
fn nearest_in_increasing_track_is_first_at_or_after() {
    let store = sample_store();
    assert_eq!(store.nearest_index_at_or_after(0), 0);
    assert_eq!(store.nearest_index_at_or_after(1001), 1);
    assert_eq!(store.nearest_index_at_or_after(5001), 2);
    assert_eq!(store.nearest_index_at_or_after(90000), 2);
}

#[test]
fn nearest_exact_start_returns_that_entry() {
    let store = sample_store();
    assert_eq!(store.nearest_index_at_or_after(1000), 0);
    assert_eq!(store.nearest_index_at_or_after(5000), 1);
    assert_eq!(store.nearest_index_at_or_after(60250), 2);
}

#[test]
fn nearest_in_unordered_track_prefers_closest() {
    let doc = "1\n00:00:09,000 --> 00:00:10,000\na\n\n2\n00:00:03,000 --> 00:00:04,000\nb\n\n3\n00:00:06,000 --> 00:00:07,000\nc\n\n4\n00:00:06,000 --> 00:00:07,000\nd".to_string();
    let store = SubtitleStore::parse(doc).unwrap();
    // after 5 s: entries 3 and 4 start at 6 s, the closest; the lower index wins
    assert_eq!(store.nearest_index_at_or_after(5000), 2);
    // after 10 s: nothing starts later; the closest earlier entry starts at 9 s
    assert_eq!(store.nearest_index_at_or_after(10000), 0);
    assert_eq!(store.nearest_index_at_or_after(1000), 1);
}

#[test]
fn parse_clock_reads_hours_minutes_seconds() {
    assert_eq!(parse_clock("00:01:00"), Ok(60000));
    assert_eq!(parse_clock("01:02:03"), Ok(3723000));
    assert_eq!(parse_clock("1:02:03"), Err(TimeParseError::InvalidFormat));
    assert_eq!(parse_clock("00:60:00"), Err(TimeParseError::InvalidFormat));
    assert_eq!(parse_clock(""), Err(TimeParseError::InvalidFormat));
}

#[test]
fn step_forward_and_backward_clamp() {
    let mut nav = NavigationController::new(sample_store());
    assert_eq!(nav.current_index(), 0);
    nav.step_forward(1);
    assert_eq!(nav.current_index(), 1);
    nav.step_forward(10);
    assert_eq!(nav.current_index(), 2);
    nav.step_forward(usize::MAX);
    assert_eq!(nav.current_index(), 2);
    nav.step_backward(1);
    assert_eq!(nav.current_index(), 1);
    nav.step_backward(10);
    assert_eq!(nav.current_index(), 0);
    assert_eq!(nav.current().unwrap().text, "Hello");
}

#[test]
fn empty_track_has_no_current_entry() {
    let mut nav = NavigationController::new(SubtitleStore::new());
    assert!(nav.current().is_none());
    nav.step_forward(3);
    assert!(nav.current().is_none());
    assert_eq!(nav.current_index(), 0);
    nav.step_backward(2);
    assert!(nav.current().is_none());
    assert_eq!(nav.jump_to_time("00:00:05"), Ok(()));
    assert!(nav.current().is_none());
}

#[test]
fn jump_to_invalid_clock_keeps_position() {
    let mut nav = NavigationController::new(sample_store());
    nav.step_forward(1);
    assert_eq!(nav.jump_to_time("99:99:99"), Err(TimeParseError::InvalidFormat));
    assert_eq!(nav.current_index(), 1);
    assert_eq!(nav.jump_to_time("abc"), Err(TimeParseError::InvalidFormat));
    assert_eq!(nav.current_index(), 1);
}

#[test]
fn jump_to_valid_clock_moves_to_nearest() {
    let mut nav = NavigationController::new(sample_store());
    assert_eq!(nav.jump_to_time("00:00:03"), Ok(()));
    assert_eq!(nav.current_index(), 1);
    assert_eq!(nav.jump_to_time("00:00:05"), Ok(()));
    assert_eq!(nav.current_index(), 1);
    assert_eq!(nav.jump_to_time("00:02:00"), Ok(()));
    assert_eq!(nav.current_index(), 2);
    assert_eq!(nav.jump_to_time("00:00:00"), Ok(()));
    assert_eq!(nav.current_index(), 0);
}

#[test]
fn loading_a_track_resets_position() {
    let mut nav = NavigationController::new(sample_store());
    nav.step_forward(2);
    assert_eq!(nav.current_index(), 2);
    nav.load(sample_store());
    assert_eq!(nav.current_index(), 0);
    assert_eq!(nav.store().len(), 3);
}
