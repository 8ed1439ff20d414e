use faculty_core::feed::{
    clean_description, new_post_notice, needs_edit, parse_feed, parse_rfc2822_epoch,
    update_notice, FeedAction, FeedLog, FEED_CUTOFF_EPOCH,
};

#[test]
fn newer_item_edits_in_place_and_equal_is_a_no_op() {
    let mut log = FeedLog::new();
    let title = "Stundenplan".to_string();
    let channel = 1001;
    let t1: i64 = FEED_CUTOFF_EPOCH + 100;
    let t2: i64 = t1 + 50;

    // First pass: never posted, so it is posted and recorded.
    assert_eq!(log.classify_item(&title, channel, t1), FeedAction::PostNew);
    log.record_new(title.clone(), channel, 555);

    // Later pass, same title, newer timestamp: edit the existing post and
    // replace the stored id — no second record appears.
    match log.classify_item(&title, channel, t2) {
        FeedAction::CheckExisting(mid) => {
            assert_eq!(mid, 555);
            assert!(needs_edit(t1, t2), "strictly newer must edit");
            log.update_message_id(&title, channel, 777);
        }
        other => panic!("expected CheckExisting, got {:?}", other),
    }
    assert_eq!(log.lookup(&title, channel), Some(777));

    // Equal timestamps: already synced, nothing to do.
    match log.classify_item(&title, channel, t2) {
        FeedAction::CheckExisting(mid) => {
            assert_eq!(mid, 777, "still one record, carrying the new id");
            assert!(!needs_edit(t2, t2), "equal timestamps are a no-op");
        }
        other => panic!("expected CheckExisting, got {:?}", other),
    }
}

#[test]
fn items_before_the_cutoff_are_ignored() {
    let log = FeedLog::new();
    let title = "Altes".to_string();
    assert_eq!(
        log.classify_item(&title, 1, FEED_CUTOFF_EPOCH - 1),
        FeedAction::TooOld
    );
    assert_eq!(
        log.classify_item(&title, 1, FEED_CUTOFF_EPOCH),
        FeedAction::PostNew,
        "the cutoff instant itself is in the window"
    );
}

#[test]
fn the_same_title_in_another_channel_is_a_separate_record() {
    let mut log = FeedLog::new();
    let title = "Mensa".to_string();
    log.record_new(title.clone(), 1, 10);
    assert_eq!(log.lookup(&title, 2), None);
    log.record_new(title.clone(), 2, 20);
    assert_eq!(log.lookup(&title, 1), Some(10));
    assert_eq!(log.lookup(&title, 2), Some(20));
}

#[test]
fn cleaning_removes_the_boilerplate_tokens() {
    // The tokens open with a literal backslash-n escape, not a newline.
    assert_eq!(clean_description("abc\\nalldef"), "abcdef");
    assert_eq!(clean_description("x\\nif wk medy"), "xy");
    assert_eq!(clean_description("\\nall\\nif wk med"), "");
    assert_eq!(clean_description("keine Marke"), "keine Marke");
    assert_eq!(clean_description(""), "");
    // A real newline is not the token.
    assert_eq!(clean_description("a\nall"), "a\nall");
    // A partial token stays.
    assert_eq!(clean_description("\\nal"), "\\nal");
    // Removal does not re-scan: the text the removal leaves adjacent is
    // kept even if it spells a token.
    assert_eq!(clean_description("\\n\\nallall"), "\\nall");
    // Tokens at the very start and very end.
    assert_eq!(clean_description("\\nallmitte\\nif wk med"), "mitte");
}

#[test]
fn rfc2822_dates_parse_to_their_unix_second() {
    assert_eq!(
        parse_rfc2822_epoch("Wed, 18 Feb 2015 23:16:09 GMT"),
        Some(1424301369)
    );
    // The anti-spam floor is the instant its constant says.
    assert_eq!(
        parse_rfc2822_epoch("Thu, 11 Jul 2024 00:00:00 +0200"),
        Some(FEED_CUTOFF_EPOCH)
    );
    assert_eq!(parse_rfc2822_epoch("kein Datum"), None);
}

#[test]
fn a_feed_document_parses_into_its_items() {
    let doc = "<rss version=\"2.0\"><channel>\
<title>Planungsportal</title><link>http://p</link><description>d</description>\
<item><title>A</title><link>http://x/a</link>\
<description>D1\\nall</description>\
<pubDate>Thu, 11 Jul 2024 10:00:00 +0200</pubDate></item>\
<item><title>B</title><link>http://x/b</link>\
<description>D2</description></item>\
</channel></rss>";
    let items = parse_feed(&doc.as_bytes().to_vec()).expect("a well-formed feed");
    assert_eq!(items.len(), 2);
    assert_eq!(items[0].title.as_deref(), Some("A"));
    assert_eq!(items[0].link.as_deref(), Some("http://x/a"));
    assert_eq!(items[0].description.as_deref(), Some("D1\\nall"));
    let epoch = parse_rfc2822_epoch(items[0].pub_date.as_deref().unwrap()).unwrap();
    assert!(epoch >= FEED_CUTOFF_EPOCH);
    assert_eq!(items[1].title.as_deref(), Some("B"));
    assert_eq!(items[1].pub_date, None);

    let garbage = parse_feed(&b"not a feed".to_vec());
    assert!(garbage.is_none());
}

#[test]
fn notice_lines() {
    assert_eq!(
        new_post_notice("Termine"),
        "Neue Nachricht im Planungsportal · Termine"
    );
    assert_eq!(
        update_notice("Termine"),
        "Der letzte Post im Planungsportal wurde aktualisiert · Termine"
    );
}
