use bot_utils::purge::{
    deleted_reply, purge_entry, purge_file_name, purge_log, purge_notice, PurgedMessage,
};

fn message(secs: i64, author: &str, content: &str, attachments: usize, embeds: usize) -> PurgedMessage {
    PurgedMessage {
        secs,
        nanos: 0,
        author: author.to_string(),
        content: content.to_string(),
        attachments,
        embeds,
    }
}

#[test]
fn entry_with_text_only() {
    assert_eq!(purge_entry("T", "bob", "hi", 0, 0), "T\n@bob\nhi\n\n\n");
}

#[test]
fn entry_without_text() {
    assert_eq!(purge_entry("T", "bob", "", 0, 0), "T\n@bob\n\n\n");
}

#[test]
fn entry_with_attachments_and_embeds() {
    assert_eq!(
        purge_entry("T", "bob", "", 2, 1),
        "T\n@bob\n-[2 attachment(s)]\n-[1 embed(s)]\n\n\n"
    );
    assert_eq!(
        purge_entry("T", "bob", "look", 12, 0),
        "T\n@bob\nlook\n-[12 attachment(s)]\n\n\n"
    );
    assert_eq!(purge_entry("T", "bob", "look", 0, 305), "T\n@bob\nlook\n-[305 embed(s)]\n\n\n");
}

#[test]
fn record_runs_from_the_last_message_to_the_first() {
    let messages = vec![
        message(1_690_000_000, "new", "second", 0, 0),
        message(0, "old", "first", 1, 0),
    ];
    assert_eq!(
        purge_log(&messages),
        Some(
            "01/01/1970 01:00:00 AM CET\n@old\nfirst\n-[1 attachment(s)]\n\n\n\
             22/07/2023 06:26:40 AM CEST\n@new\nsecond\n\n\n"
                .to_string()
        )
    );
}

#[test]
fn record_of_nothing_is_empty() {
    assert_eq!(purge_log(&Vec::new()), Some(String::new()));
}

#[test]
fn record_needs_every_time() {
    let messages = vec![message(0, "a", "b", 0, 0), message(i64::MAX, "c", "d", 0, 0)];
    assert_eq!(purge_log(&messages), None);
    let messages = vec![message(i64::MIN, "c", "d", 0, 0), message(0, "a", "b", 0, 0)];
    assert_eq!(purge_log(&messages), None);
}

#[test]
fn afternoon_is_pm() {
    let messages = vec![message(1_700_000_000, "a", "", 0, 0)];
    assert_eq!(purge_log(&messages), Some("14/11/2023 11:13:20 PM CET\n@a\n\n\n".to_string()));
}

#[test]
fn reply_counts_the_messages() {
    assert_eq!(deleted_reply(0), "Deleted 0 messages.");
    assert_eq!(deleted_reply(5), "Deleted 5 messages.");
    assert_eq!(deleted_reply(100), "Deleted 100 messages.");
}

#[test]
fn notice_names_the_channel() {
    assert_eq!(
        purge_notice(100, 1239387297003077682),
        "Purged 100 messages in channel <#1239387297003077682>"
    );
    assert_eq!(purge_notice(0, 0), "Purged 0 messages in channel <#0>");
    assert_eq!(
        purge_notice(7, u64::MAX),
        "Purged 7 messages in channel <#18446744073709551615>"
    );
}

#[test]
fn file_name_holds_the_instant() {
    assert_eq!(purge_file_name(0, 0), Some("purge_log_19700101000000.txt".to_string()));
    assert_eq!(
        purge_file_name(1_700_000_000, 999),
        Some("purge_log_20231114221320.txt".to_string())
    );
    assert_eq!(purge_file_name(i64::MAX, 0), None);
}
