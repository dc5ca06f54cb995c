//! The purge command: the record of what it deleted.

use vstd::prelude::*;
use vstd::string::StringExecFns;
use crate::clock::{format_time, formatted_time};
use crate::text::{decimal, push_number};

verus! {

/// A message that was deleted, as far as the record shows it.
#[derive(Debug, Clone, PartialEq, Eq)]
pub struct PurgedMessage {
    /// When it was sent: whole seconds after the Unix epoch.
    pub secs: i64,
    /// When it was sent: the nanoseconds after `secs`.
    pub nanos: u32,
    /// The name of who sent it.
    pub author: String,
    /// Its text.
    pub content: String,
    /// The number of its attachments.
    pub attachments: usize,
    /// The number of its embeds.
    pub embeds: usize,
}

/// The time zone of the record.
pub open spec fn record_zone() -> Seq<char> {
    "Europe/Berlin"@
}

/// The pattern of the times in the record: day, month, year, the time on a clock of
/// twelve hours, and the abbreviation of the zone.
pub open spec fn record_pattern() -> Seq<char> {
    "%d/%m/%Y %I:%M:%S %p %Z"@
}

/// The entry of one message: the time, the author after an `@`, the text if there is
/// any, the numbers of attachments and of embeds if there are any, and two empty lines.
pub open spec fn entry_text(
    timestamp: Seq<char>,
    author: Seq<char>,
    content: Seq<char>,
    attachments: nat,
    embeds: nat,
) -> Seq<char> {
    timestamp + "\n@"@ + author + (if content.len() > 0 {
        "\n"@ + content
    } else {
        Seq::empty()
    }) + (if attachments > 0 {
        "\n-["@ + decimal(attachments) + " attachment(s)]"@
    } else {
        Seq::empty()
    }) + (if embeds > 0 {
        "\n-["@ + decimal(embeds) + " embed(s)]"@
    } else {
        Seq::empty()
    }) + "\n\n\n"@
}

/// The entry of `message`, or `None` where its time cannot be shown.
pub open spec fn message_entry(message: PurgedMessage) -> Option<Seq<char>> {
    match formatted_time(message.secs, message.nanos, record_zone(), record_pattern()) {
        Some(timestamp) => Some(
            entry_text(
                timestamp,
                message.author@,
                message.content@,
                message.attachments as nat,
                message.embeds as nat,
            ),
        ),
        None => None,
    }
}

/// The record of the first `upto` messages: their entries, the last message first. It
/// is `None` where the time of one of them cannot be shown.
pub open spec fn record_text(messages: Seq<PurgedMessage>, upto: int) -> Option<Seq<char>>
    decreases upto,
{
    if upto <= 0 {
        Some(Seq::empty())
    } else {
        match (message_entry(messages[upto - 1]), record_text(messages, upto - 1)) {
            (Some(entry), Some(earlier)) => Some(entry + earlier),
            _ => None,
        }
    }
}

/// What the user is told after `count` messages were deleted.
pub open spec fn reply_text(count: nat) -> Seq<char> {
    "Deleted "@ + decimal(count) + " messages."@
}

/// What the log channel is told after `count` messages were deleted in `channel`.
pub open spec fn notice_text(count: nat, channel: u64) -> Seq<char> {
    "Purged "@ + decimal(count) + " messages in channel <#"@ + decimal(channel as nat) + ">"@
}

/// The name of the file that holds the record made at the given instant.
pub open spec fn record_name(secs: i64, nanos: u32) -> Option<Seq<char>> {
    match formatted_time(secs, nanos, "UTC"@, "%Y%m%d%H%M%S"@) {
        Some(stamp) => Some("purge_log_"@ + stamp + ".txt"@),
        None => None,
    }
}

/// The entry of one message in the record, with its time as `timestamp` shows it.
pub fn purge_entry(
    timestamp: &str,
    author: &str,
    content: &str,
    attachments: usize,
    embeds: usize,
) -> (entry: String)
    ensures
        entry@ == entry_text(timestamp@, author@, content@, attachments as nat, embeds as nat),
{
    let mut entry = String::from_str(timestamp);
    entry.append("\n@");
    entry.append(author);
    if !content.is_empty() {
        entry.append("\n");
        entry.append(content);
    }
    if attachments > 0 {
        entry.append("\n-[");
        push_number(&mut entry, attachments as u64);
        entry.append(" attachment(s)]");
    }
    if embeds > 0 {
        entry.append("\n-[");
        push_number(&mut entry, embeds as u64);
        entry.append(" embed(s)]");
    }
    entry.append("\n\n\n");
    assert(entry@ =~= entry_text(
        timestamp@,
        author@,
        content@,
        attachments as nat,
        embeds as nat,
    ));
    entry
}

/// The record of the messages that were deleted: one entry each, from the last of
/// `messages` to the first. It is `None` where the time of a message cannot be shown.
pub fn purge_log(messages: &Vec<PurgedMessage>) -> (record: Option<String>)
    ensures
        match record {
            Some(text) => record_text(messages@, messages.len() as int) == Some(text@),
            None => record_text(messages@, messages.len() as int) is None,
        },
{
    let mut text = String::new();
    let mut k: usize = messages.len();
    let ghost n = messages.len() as int;
    assert(text@ + Seq::<char>::empty() =~= Seq::<char>::empty());
    while k > 0
        invariant
            k <= messages.len(),
            n == messages.len(),
            match record_text(messages@, k as int) {
                Some(earlier) => record_text(messages@, n) == Some(text@ + earlier),
                None => record_text(messages@, n) is None,
            },
        decreases k,
    {
        let message = &messages[k - 1];
        let ghost before = text@;
        let shown = format_time(
            message.secs,
            message.nanos,
            "Europe/Berlin",
            "%d/%m/%Y %I:%M:%S %p %Z",
        );
        match shown {
            Some(timestamp) => {
                let entry = purge_entry(
                    timestamp.as_str(),
                    message.author.as_str(),
                    message.content.as_str(),
                    message.attachments,
                    message.embeds,
                );
                text.append(entry.as_str());
                proof {
                    assert(message_entry(*message) == Some(entry@));
                    if record_text(messages@, k - 1) is Some {
                        let earlier = record_text(messages@, k - 1)->0;
                        assert((before + entry@) + earlier =~= before + (entry@ + earlier));
                    }
                }
            },
            None => {
                assert(record_text(messages@, k as int) is None);
                return None;
            },
        }
        k -= 1;
    }
    assert(text@ + Seq::<char>::empty() =~= text@);
    Some(text)
}

/// What the user is told after `count` messages were deleted.
pub fn deleted_reply(count: usize) -> (reply: String)
    ensures
        reply@ == reply_text(count as nat),
{
    let mut reply = String::from_str("Deleted ");
    push_number(&mut reply, count as u64);
    reply.append(" messages.");
    reply
}

/// What the log channel is told after `count` messages were deleted in `channel`.
pub fn purge_notice(count: usize, channel: u64) -> (notice: String)
    ensures
        notice@ == notice_text(count as nat, channel),
{
    let mut notice = String::from_str("Purged ");
    push_number(&mut notice, count as u64);
    notice.append(" messages in channel <#");
    push_number(&mut notice, channel);
    notice.append(">");
    notice
}

/// The name of the file that holds the record made at the given instant, or `None`
/// where the instant cannot be shown.
pub fn purge_file_name(secs: i64, nanos: u32) -> (name: Option<String>)
    ensures
        match name {
            Some(name) => record_name(secs, nanos) == Some(name@),
            None => record_name(secs, nanos) is None,
        },
{
    match format_time(secs, nanos, "UTC", "%Y%m%d%H%M%S") {
        Some(stamp) => {
            let mut name = String::from_str("purge_log_");
            name.append(stamp.as_str());
            name.append(".txt");
            Some(name)
        },
        None => None,
    }
}

} // verus!
