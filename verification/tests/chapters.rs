use groovebox::chapters::{current_chapter, parse_chapters, Chapter};

#[test]
fn test_basic_timestamps() {
    let desc = "00:00 Intro\n01:30 First Song\n05:22 Second Song";
    let chapters = parse_chapters(desc);
    assert_eq!(chapters.len(), 3);
    assert_eq!(chapters[0].timestamp, 0);
    assert_eq!(chapters[0].title, "Intro");
    assert_eq!(chapters[1].timestamp, 90);
    assert_eq!(chapters[2].timestamp, 322);
}

#[test]
fn test_with_separators() {
    let desc = "00:00 - Intro\n01:30 - First Song\n05:22 - Second Song";
    let chapters = parse_chapters(desc);
    assert_eq!(chapters.len(), 3);
    assert_eq!(chapters[0].title, "Intro");
}

#[test]
fn test_hours() {
    let desc = "0:00:00 Start\n1:23:45 Middle\n2:00:00 End";
    let chapters = parse_chapters(desc);
    assert_eq!(chapters.len(), 3);
    assert_eq!(chapters[1].timestamp, 5025);
}

#[test]
fn test_with_arrows() {
    let desc = "► 00:00 Track One\n► 03:15 Track Two\n► 07:30 Track Three";
    let chapters = parse_chapters(desc);
    assert_eq!(chapters.len(), 3);
    assert_eq!(chapters[0].title, "Track One");
}

#[test]
fn test_bracketed() {
    let desc = "[00:00] Intro\n[03:15] Track Two\n[07:30] Track Three";
    let chapters = parse_chapters(desc);
    assert_eq!(chapters.len(), 3);
    assert_eq!(chapters[0].title, "Intro");
}

#[test]
fn test_current_chapter() {
    let chapters = vec![
        Chapter { timestamp: 0, title: "Intro".into() },
        Chapter { timestamp: 90, title: "First".into() },
        Chapter { timestamp: 300, title: "Second".into() },
    ];
    assert_eq!(current_chapter(&chapters, 50).unwrap().title, "Intro");
    assert_eq!(current_chapter(&chapters, 90).unwrap().title, "First");
    assert_eq!(current_chapter(&chapters, 200).unwrap().title, "First");
    assert_eq!(current_chapter(&chapters, 400).unwrap().title, "Second");
}

#[test]
fn test_single_timestamp_ignored() {
    let desc = "Check out 03:15 for the drop";
    let chapters = parse_chapters(desc);
    assert!(chapters.is_empty());
}

#[test]
fn trailing_timestamps_are_read() {
    let desc = "1. Opening - 00:00\n2. Closer – 04:10";
    let chapters = parse_chapters(desc);
    assert_eq!(chapters.len(), 2);
    assert_eq!(chapters[0].title, "Opening");
    assert_eq!(chapters[0].timestamp, 0);
    assert_eq!(chapters[1].title, "Closer");
    assert_eq!(chapters[1].timestamp, 250);
}

#[test]
fn artist_and_title_after_timestamp() {
    let desc = "00:00 - Artist - Title\n02:00 | Other Artist - Other Title |";
    let chapters = parse_chapters(desc);
    assert_eq!(chapters.len(), 2);
    assert_eq!(chapters[0].title, "Artist - Title");
    assert_eq!(chapters[1].title, "Other Artist - Other Title");
    assert_eq!(chapters[1].timestamp, 120);
}

#[test]
fn blank_lines_and_crlf_are_skipped() {
    let desc = "\r\n  00:10 One\r\n\r\n\t00:20 Two  \r\n";
    let chapters = parse_chapters(desc);
    assert_eq!(chapters.len(), 2);
    assert_eq!(chapters[0].timestamp, 10);
    assert_eq!(chapters[1].title, "Two");
}

#[test]
fn timestamp_without_title_is_skipped() {
    let desc = "00:00\n02:00 Real\n03:00 Also Real";
    let chapters = parse_chapters(desc);
    assert_eq!(chapters.len(), 2);
    assert_eq!(chapters[0].title, "Real");
}

#[test]
fn empty_leading_title_falls_back_to_the_end_scan() {
    // "01:00 -" has no title after its timestamp; read from the end, the
    // clock time "1:00" starts at the second digit and the title is what
    // precedes the last dash once numbering is stripped.
    let desc = "01:00 - \n02:00 Real";
    let chapters = parse_chapters(desc);
    assert_eq!(chapters.len(), 2);
    assert_eq!(chapters[0].timestamp, 60);
    assert_eq!(chapters[0].title, ":00");
}

#[test]
fn four_groups_are_not_a_timestamp() {
    let desc = "1:2:3:4 Nope\n00:01 Yes\n00:02 Also";
    let chapters = parse_chapters(desc);
    assert_eq!(chapters.len(), 2);
    assert_eq!(chapters[0].title, "Yes");
}

#[test]
fn huge_timestamps_saturate() {
    let desc = "99999999999999999999:00 Far\n00:01 Near";
    let chapters = parse_chapters(desc);
    assert_eq!(chapters.len(), 2);
    assert_eq!(chapters[0].timestamp, u64::MAX);
}

#[test]
fn current_chapter_of_empty_list_is_none() {
    let chapters: Vec<Chapter> = Vec::new();
    assert!(current_chapter(&chapters, 10).is_none());
}

#[test]
fn current_chapter_before_first_start_is_first() {
    let chapters = vec![
        Chapter { timestamp: 10, title: "A".into() },
        Chapter { timestamp: 20, title: "B".into() },
    ];
    assert_eq!(current_chapter(&chapters, 5).unwrap().title, "A");
}

#[test]
fn chapters_keep_line_order_and_trim_titles() {
    let chapters = parse_chapters("05:00 Later  \n00:10 -  Earlier |\n");
    assert_eq!(chapters.len(), 2);
    assert_eq!((chapters[0].timestamp, chapters[0].title.as_str()), (300, "Later"));
    assert_eq!((chapters[1].timestamp, chapters[1].title.as_str()), (10, "Earlier"));
}

#[test]
fn digit_free_lines_change_nothing() {
    let plain = parse_chapters("00:00 Intro\n01:30 Song");
    let padded = parse_chapters("Tracklist:\n\n00:00 Intro\n   \nno times here\n01:30 Song\nthanks!");
    assert_eq!(plain.len(), padded.len());
    for (a, b) in plain.iter().zip(padded.iter()) {
        assert_eq!((a.timestamp, &a.title), (b.timestamp, &b.title));
    }
}

#[test]
fn title_cleaning_strips_runs_and_is_stable() {
    let chapters = parse_chapters("00:00 - : Intro -|\n00:05 First Song.\n00:09 ...Intro");
    assert_eq!(chapters[0].title, "Intro");
    assert_eq!(chapters[1].title, "First Song.");
    assert_eq!(chapters[2].title, "Intro");
    let again = parse_chapters("00:00 Intro\n00:05 First Song.");
    assert_eq!(again[0].title, chapters[0].title);
    assert_eq!(again[1].title, chapters[1].title);
}
