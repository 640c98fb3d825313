//! The texts that the bot posts, replies and logs.
use vstd::prelude::*;
use crate::text::{decimal, push_decimal, push_signed_decimal, signed_decimal};

verus! {

/// A mention of a user: `<@id>`.
pub open spec fn mention(user_id: u64) -> Seq<char> {
    "<@"@ + decimal(user_id as nat) + ">"@
}

/// A mention of a channel: `<#id>`.
pub open spec fn channel_mention(channel_id: u64) -> Seq<char> {
    "<#"@ + decimal(channel_id as nat) + ">"@
}

/// A time that Discord shows relative to the reader's present: `<t:seconds:R>`.
pub open spec fn relative_time(seconds: int) -> Seq<char> {
    "<t:"@ + signed_decimal(seconds) + ":R>"@
}

fn push_mention(s: &mut String, user_id: u64)
    ensures
        final(s)@ == old(s)@ + mention(user_id),
{
    s.append("<@");
    push_decimal(s, user_id);
    s.append(">");
    assert(s@ =~= old(s)@ + mention(user_id));
}

fn push_relative_time(s: &mut String, seconds: i64)
    ensures
        final(s)@ == old(s)@ + relative_time(seconds as int),
{
    s.append("<t:");
    push_signed_decimal(s, seconds);
    s.append(":R>");
    assert(s@ =~= old(s)@ + relative_time(seconds as int));
}

/// The first message in a new verification channel: it pings the applicant
/// and shows when their account was made.
pub open spec fn welcome_text(user_id: u64, account_created: int) -> Seq<char> {
    mention(user_id) + " :wave:\n-# Аккаунт создан "@ + relative_time(account_created) + "\n"@
}

/// Builds `welcome_text`.
pub fn welcome(user_id: u64, account_created: i64) -> (text: String)
    ensures
        text@ == welcome_text(user_id, account_created as int),
{
    let mut s = String::new();
    push_mention(&mut s, user_id);
    s.append(" :wave:\n-# Аккаунт создан ");
    push_relative_time(&mut s, account_created);
    s.append("\n");
    assert(s@ =~= welcome_text(user_id, account_created as int));
    s
}

/// The reply to an applicant whose channel was made.
pub open spec fn channel_created_text(channel_id: u64) -> Seq<char> {
    "Канал создан: "@ + channel_mention(channel_id)
}

/// Builds `channel_created_text`.
pub fn channel_created(channel_id: u64) -> (text: String)
    ensures
        text@ == channel_created_text(channel_id),
{
    let mut s = String::from_str("Канал создан: ");
    s.append("<#");
    push_decimal(&mut s, channel_id);
    s.append(">");
    assert(s@ =~= channel_created_text(channel_id));
    s
}

/// The log line for a new verification request.
pub open spec fn request_log_text(user_id: u64, user_name: Seq<char>, now: int) -> Seq<char> {
    "❔ Участник "@ + mention(user_id) + " (`"@ + user_name + "`) запросил верификацию "@
        + relative_time(now)
}

/// Builds `request_log_text`.
pub fn request_log(user_id: u64, user_name: &str, now: i64) -> (text: String)
    ensures
        text@ == request_log_text(user_id, user_name@, now as int),
{
    let mut s = String::from_str("❔ Участник ");
    push_mention(&mut s, user_id);
    s.append(" (`");
    s.append(user_name);
    s.append("`) запросил верификацию ");
    push_relative_time(&mut s, now);
    assert(s@ =~= request_log_text(user_id, user_name@, now as int));
    s
}

/// The outcome of a moderator's decision on an applicant.
#[derive(Clone, Copy, PartialEq, Eq, Structural)]
pub enum Verdict {
    Accepted,
    Denied,
}

/// The status line that a verdict adds to the verification message.
pub open spec fn status_text(verdict: Verdict, moderator_id: u64) -> Seq<char> {
    match verdict {
        Verdict::Accepted => "✅ Принято модератором "@ + mention(moderator_id),
        Verdict::Denied => "❌ Отклонено модератором "@ + mention(moderator_id),
    }
}

/// The verification message once a verdict is given: the text it had, an empty line,
/// the status line and the time of the verdict.
pub open spec fn verdict_message_text(earlier: Seq<char>, verdict: Verdict, moderator_id: u64, now: int) -> Seq<char> {
    earlier + "\n\n"@ + status_text(verdict, moderator_id) + " "@ + relative_time(now)
}

/// Builds `verdict_message_text`.
pub fn verdict_message(earlier: &str, verdict: Verdict, moderator_id: u64, now: i64) -> (text: String)
    ensures
        text@ == verdict_message_text(earlier@, verdict, moderator_id, now as int),
{
    let mut s = String::from_str(earlier);
    s.append("\n\n");
    match verdict {
        Verdict::Accepted => s.append("✅ Принято модератором "),
        Verdict::Denied => s.append("❌ Отклонено модератором "),
    }
    push_mention(&mut s, moderator_id);
    s.append(" ");
    push_relative_time(&mut s, now);
    assert(s@ =~= verdict_message_text(earlier@, verdict, moderator_id, now as int));
    s
}

/// How the applicant's name appears in a verdict's log line: in parentheses
/// and code quotes when it could be fetched, otherwise nothing.
pub open spec fn applicant_name_text(name: Option<Seq<char>>) -> Seq<char> {
    match name {
        Some(n) => "(`"@ + n + "`)"@,
        None => Seq::<char>::empty(),
    }
}

/// The log line for a verdict.
pub open spec fn verdict_log_text(
    verdict: Verdict,
    applicant_id: u64,
    applicant_name: Option<Seq<char>>,
    moderator_id: u64,
    now: int,
) -> Seq<char> {
    let (sign, word) = match verdict {
        Verdict::Accepted => ("✅"@, "**принят**"@),
        Verdict::Denied => ("❌"@, "**отклонён**"@),
    };
    sign + " Участник "@ + mention(applicant_id) + " "@ + applicant_name_text(applicant_name) + " "@ + word
        + " модератором "@ + mention(moderator_id) + " "@ + relative_time(now)
}

/// Builds `verdict_log_text`.
pub fn verdict_log(
    verdict: Verdict,
    applicant_id: u64,
    applicant_name: Option<&str>,
    moderator_id: u64,
    now: i64,
) -> (text: String)
    ensures
        text@ == verdict_log_text(
            verdict,
            applicant_id,
            match applicant_name { Some(n) => Some(n@), None => None },
            moderator_id,
            now as int,
        ),
{
    let mut s = String::new();
    match verdict {
        Verdict::Accepted => s.append("✅"),
        Verdict::Denied => s.append("❌"),
    }
    s.append(" Участник ");
    push_mention(&mut s, applicant_id);
    s.append(" ");
    match applicant_name {
        Some(n) => {
            s.append("(`");
            s.append(n);
            s.append("`)");
        },
        None => {},
    }
    s.append(" ");
    match verdict {
        Verdict::Accepted => s.append("**принят**"),
        Verdict::Denied => s.append("**отклонён**"),
    }
    s.append(" модератором ");
    push_mention(&mut s, moderator_id);
    s.append(" ");
    push_relative_time(&mut s, now);
    assert(s@ =~= verdict_log_text(
        verdict,
        applicant_id,
        match applicant_name { Some(n) => Some(n@), None => None },
        moderator_id,
        now as int,
    ));
    s
}

/// The moment a deletion happens: `now` plus the delay, the delay taken as an
/// `i64` as `delay as i64` does.
pub open spec fn deadline(now: int, delay: u64) -> int {
    now + (delay as i64)
}

/// The notice that a channel will be deleted; `automatic` when a verdict
/// scheduled it.
pub open spec fn deletion_notice_text(automatic: bool, deadline: int) -> Seq<char> {
    if automatic {
        "Этот канал автоматически удалится "@ + relative_time(deadline) + "."@
    } else {
        "Этот канал будет удалён "@ + relative_time(deadline) + "."@
    }
}

/// Builds the notice of a deletion that waits `delay` seconds from `now`.
pub fn deletion_notice_at(automatic: bool, now: i64, delay: u64) -> (text: String)
    requires
        i64::MIN <= deadline(now as int, delay) <= i64::MAX,
    ensures
        text@ == deletion_notice_text(automatic, deadline(now as int, delay)),
{
    let when: i64 = now + delay as i64;
    let mut s = if automatic {
        String::from_str("Этот канал автоматически удалится ")
    } else {
        String::from_str("Этот канал будет удалён ")
    };
    push_relative_time(&mut s, when);
    s.append(".");
    assert(s@ =~= deletion_notice_text(automatic, deadline(now as int, delay)));
    s
}

} // verus!
