//! What the bot decides when a button is pressed or a command is sent.
use vstd::prelude::*;
use crate::access::{is_admin, is_admin_spec, GuildAccess};
use crate::channel::{channel_name_of, verification_channel_name};
use crate::chance::random_index;
use crate::config::Config;
use crate::deletion::{deletion_delay, DeletionRegistry};
use crate::discord::{
    account_created_at, applicant_access, applicant_access_bits, current_unix_time, latest_time,
    snowflake_seconds,
};
use crate::messages::{
    channel_created, channel_created_text, deadline, deletion_notice_at, deletion_notice_text,
    request_log, request_log_text, verdict_log, verdict_log_text, verdict_message,
    verdict_message_text, welcome, welcome_text, Verdict,
};
use crate::questions::{draw_questions, is_arrangement, question_count, questions_text, texts};

verus! {

/// The buttons that the bot's messages carry.
#[derive(Clone, Copy, PartialEq, Eq, Structural)]
pub enum Button {
    /// Start a verification.
    Verify,
    /// Accept the applicant.
    Accept,
    /// Deny the applicant.
    Deny,
    /// Schedule the deletion of the channel.
    InitiateDelete,
    /// Delete the channel at once.
    DeleteNow,
    /// Cancel the pending deletion.
    CancelDelete,
    /// Any other component.
    Other,
}

/// The button that a component's custom id names.
pub open spec fn button_of(custom_id: Seq<char>) -> Button {
    if custom_id == "verify_button"@ {
        Button::Verify
    } else if custom_id == "accept_button"@ {
        Button::Accept
    } else if custom_id == "deny_button"@ {
        Button::Deny
    } else if custom_id == "initiate_delete_button"@ {
        Button::InitiateDelete
    } else if custom_id == "delete_now_button"@ {
        Button::DeleteNow
    } else if custom_id == "cancel_delete_button"@ {
        Button::CancelDelete
    } else {
        Button::Other
    }
}

fn is_id(custom_id: &String, id: &str) -> (same: bool)
    ensures
        same == (custom_id@ == id@),
{
    let wanted = String::from_str(id);
    custom_id.eq(&wanted)
}

/// Tells which button a component's custom id names.
pub fn classify_button(custom_id: &String) -> (button: Button)
    ensures
        button == button_of(custom_id@),
{
    if is_id(custom_id, "verify_button") {
        Button::Verify
    } else if is_id(custom_id, "accept_button") {
        Button::Accept
    } else if is_id(custom_id, "deny_button") {
        Button::Deny
    } else if is_id(custom_id, "initiate_delete_button") {
        Button::InitiateDelete
    } else if is_id(custom_id, "delete_now_button") {
        Button::DeleteNow
    } else if is_id(custom_id, "cancel_delete_button") {
        Button::CancelDelete
    } else {
        Button::Other
    }
}

/// Whether a button may be pressed by a given member.
#[derive(Clone, Copy, PartialEq, Eq, Structural)]
pub enum Gate {
    /// The bot acts on the press.
    Open,
    /// The bot replies that the member lacks the rights.
    Refused,
    /// The bot does nothing.
    Ignored,
}

/// Anyone may start a verification; verdicts and deletions are for moderators
/// alone; other components are ignored.
pub open spec fn gate_of(button: Button, moderator: bool) -> Gate {
    match button {
        Button::Verify => Gate::Open,
        Button::Other => Gate::Ignored,
        _ => if moderator { Gate::Open } else { Gate::Refused },
    }
}

/// Decides whether a press is acted on; `moderator` tells whether the member
/// who pressed holds a moderator role.
pub fn gate(button: Button, moderator: bool) -> (g: Gate)
    ensures
        g == gate_of(button, moderator),
{
    match button {
        Button::Verify => Gate::Open,
        Button::Other => Gate::Ignored,
        _ => if moderator { Gate::Open } else { Gate::Refused },
    }
}

/// Whether a message asks for the greeting: its text is `!init` and its
/// author administers the server (see `is_admin_spec`).
pub fn init_requested(
    content: &String,
    guild: Option<&GuildAccess>,
    member_roles: Option<&Vec<u64>>,
    author_id: u64,
) -> (requested: bool)
    ensures
        requested == (content@ == "!init"@ && is_admin_spec(
            match guild { Some(g) => Some(*g), None => None },
            match member_roles { Some(r) => Some(r@), None => None },
            author_id,
        )),
{
    if !is_id(content, "!init") {
        return false;
    }
    is_admin(guild, member_roles, author_id)
}

/// Whom a permission overwrite is for.
#[derive(Clone, Copy, PartialEq, Eq, Structural)]
pub enum OverwriteTarget {
    Member(u64),
    Role(u64),
}

/// A permission overwrite of a channel: bits allowed and denied for a member
/// or a role.
#[derive(Clone, Copy, PartialEq, Eq, Structural)]
pub struct Overwrite {
    pub allow: u64,
    pub deny: u64,
    pub target: OverwriteTarget,
}

/// What the bot reads of a channel of the server.
pub struct ChannelSummary {
    pub id: u64,
    pub parent_id: Option<u64>,
    pub name: String,
    pub overwrites: Vec<Overwrite>,
}

/// Whether a channel named `name` already stands in the category.
pub open spec fn channel_exists_in(channels: Seq<ChannelSummary>, category_id: u64, name: Seq<char>) -> bool {
    exists|i: int| 0 <= i < channels.len() && #[trigger] channels[i].parent_id == Some(category_id)
        && channels[i].name@ == name
}

/// The overwrites of the first channel whose id is `category_id`; none when
/// there is no such channel.
pub open spec fn category_overwrites(channels: Seq<ChannelSummary>, category_id: u64) -> Seq<Overwrite>
    decreases channels.len(),
{
    if channels.len() == 0 {
        Seq::<Overwrite>::empty()
    } else if channels[0].id == category_id {
        channels[0].overwrites@
    } else {
        category_overwrites(channels.drop_first(), category_id)
    }
}

/// The overwrite that lets an applicant into their channel.
pub open spec fn applicant_overwrite(user_id: u64) -> Overwrite {
    Overwrite { allow: applicant_access_bits(), deny: 0, target: OverwriteTarget::Member(user_id) }
}

/// What the bot does when a user starts a verification.
pub enum VerificationPlan {
    /// The user's channel already exists: the bot tells them so.
    AlreadyOpen,
    /// The bot makes a text channel with this name and these overwrites in the
    /// configured category.
    Create { name: String, overwrites: Vec<Overwrite> },
}

/// What `plan_verification` decides. `channels` is `None` when the server's
/// channels could not be fetched.
pub open spec fn verification_plan_ok(
    plan: VerificationPlan,
    channels: Option<Seq<ChannelSummary>>,
    category_id: u64,
    user_name: Seq<char>,
    user_id: u64,
) -> bool {
    let name = channel_name_of(user_name, user_id);
    match channels {
        Some(chs) if channel_exists_in(chs, category_id, name) => plan is AlreadyOpen,
        _ => {
            let base = match channels {
                Some(chs) => category_overwrites(chs, category_id),
                None => Seq::<Overwrite>::empty(),
            };
            match plan {
                VerificationPlan::Create { name: n, overwrites: o } =>
                    n@ == name && o@ == base.push(applicant_overwrite(user_id)),
                VerificationPlan::AlreadyOpen => false,
            }
        },
    }
}

fn find_category_overwrites(channels: &Vec<ChannelSummary>, category_id: u64) -> (overwrites: Vec<Overwrite>)
    ensures
        overwrites@ == category_overwrites(channels@, category_id),
{
    let mut i: usize = 0;
    assert(channels@.subrange(0, channels.len() as int) =~= channels@);
    while i < channels.len()
        invariant
            i <= channels.len(),
            category_overwrites(channels@, category_id)
                == category_overwrites(channels@.subrange(i as int, channels.len() as int), category_id),
        decreases channels.len() - i,
    {
        let ghost rest = channels@.subrange(i as int, channels.len() as int);
        assert(rest.drop_first() =~= channels@.subrange(i + 1, channels.len() as int));
        assert(rest[0] == channels@[i as int]);
        if channels[i].id == category_id {
            return channels[i].overwrites.clone();
        }
        i = i + 1;
    }
    assert(channels@.subrange(i as int, channels.len() as int) =~= Seq::<ChannelSummary>::empty());
    Vec::new()
}

/// Decides what to do when `user_id`, named `user_name`, presses the verify
/// button: nothing new when a channel with their channel name already stands
/// in the category; otherwise a channel with that name, which carries the
/// category's overwrites and one more that lets the user in.
pub fn plan_verification(
    channels: Option<&Vec<ChannelSummary>>,
    category_id: u64,
    user_name: &str,
    user_id: u64,
) -> (plan: VerificationPlan)
    ensures
        verification_plan_ok(plan, match channels { Some(c) => Some(c@), None => None }, category_id, user_name@, user_id),
{
    let name = verification_channel_name(user_name, user_id);
    let mut overwrites: Vec<Overwrite> = Vec::new();
    match channels {
        Some(chs) => {
            let mut i: usize = 0;
            while i < chs.len()
                invariant
                    i <= chs.len(),
                    channels == Some(chs),
                    name@ == channel_name_of(user_name@, user_id),
                    forall|k: int| 0 <= k < i ==> !(#[trigger] chs@[k].parent_id == Some(category_id)
                        && chs@[k].name@ == name@),
                decreases chs.len() - i,
            {
                if chs[i].parent_id == Some(category_id) && chs[i].name.eq(&name) {
                    assert(channel_exists_in(chs@, category_id, name@));
                    return VerificationPlan::AlreadyOpen;
                }
                i = i + 1;
            }
            overwrites = find_category_overwrites(chs, category_id);
        },
        None => {},
    }
    let allow = applicant_access();
    overwrites.push(Overwrite { allow, deny: 0, target: OverwriteTarget::Member(user_id) });
    VerificationPlan::Create { name, overwrites }
}

/// Only moderators get a verdict or a deletion acted on; a member without a
/// moderator role can only start a verification.
pub proof fn law_only_moderators_decide(button: Button, moderator: bool)
    ensures
        gate_of(button, moderator) == Gate::Open ==> button == Button::Verify || moderator,
        !moderator && button != Button::Verify && button != Button::Other ==> gate_of(button, moderator)
            == Gate::Refused,
{
}

/// Once the channel planned for a user stands in the category, the user's next
/// press of the verify button makes no second channel.
pub proof fn law_one_channel_per_applicant(
    channels: Seq<ChannelSummary>,
    made: ChannelSummary,
    category_id: u64,
    user_name: Seq<char>,
    user_id: u64,
    plan: VerificationPlan,
)
    requires
        made.parent_id == Some(category_id),
        made.name@ == channel_name_of(user_name, user_id),
        verification_plan_ok(plan, Some(channels.push(made)), category_id, user_name, user_id),
    ensures
        plan is AlreadyOpen,
{
    let all = channels.push(made);
    assert(all[channels.len() as int] == made);
    assert(channel_exists_in(all, category_id, channel_name_of(user_name, user_id)));
}

/// The overwrites of a planned channel are those of the channel whose id is
/// the category (when the listing holds exactly one such channel), followed
/// by one that allows the applicant bits 68608 (View Channel, Send Messages,
/// Read Message History) and denies nothing; no other channel's overwrites,
/// wherever it stands in the listing and whatever its parent, are copied.
pub proof fn law_planned_overwrites_come_from_category(
    channels: Seq<ChannelSummary>,
    j: int,
    category_id: u64,
    user_name: Seq<char>,
    user_id: u64,
    name: String,
    overwrites: Vec<Overwrite>,
)
    requires
        0 <= j < channels.len(),
        channels[j].id == category_id,
        forall|k: int| 0 <= k < channels.len() && k != j ==> #[trigger] channels[k].id != category_id,
        verification_plan_ok(VerificationPlan::Create { name, overwrites }, Some(channels), category_id, user_name, user_id),
    ensures
        overwrites@ == channels[j].overwrites@.push(
            Overwrite { allow: 68608, deny: 0, target: OverwriteTarget::Member(user_id) },
        ),
        name@ == channel_name_of(user_name, user_id),
{
    lemma_category_overwrites_unique(channels, j, category_id);
}

/// Without a channel whose id is the category, a planned channel carries only
/// the overwrite that lets the applicant in.
pub proof fn law_planned_overwrites_without_category(
    channels: Option<Seq<ChannelSummary>>,
    category_id: u64,
    user_name: Seq<char>,
    user_id: u64,
    name: String,
    overwrites: Vec<Overwrite>,
)
    requires
        forall|k: int| channels is Some && 0 <= k < channels->0.len() ==> #[trigger] channels->0[k].id != category_id,
        verification_plan_ok(VerificationPlan::Create { name, overwrites }, channels, category_id, user_name, user_id),
    ensures
        overwrites@ == seq![Overwrite { allow: 68608, deny: 0, target: OverwriteTarget::Member(user_id) }],
{
    if let Some(chs) = channels {
        lemma_category_overwrites_absent(chs, category_id);
    }
    assert(Seq::<Overwrite>::empty().push(applicant_overwrite(user_id)) =~= seq![applicant_overwrite(user_id)]);
}

proof fn lemma_category_overwrites_unique(channels: Seq<ChannelSummary>, j: int, category_id: u64)
    requires
        0 <= j < channels.len(),
        channels[j].id == category_id,
        forall|k: int| 0 <= k < channels.len() && k != j ==> #[trigger] channels[k].id != category_id,
    ensures
        category_overwrites(channels, category_id) == channels[j].overwrites@,
    decreases channels.len(),
{
    if j > 0 {
        assert(channels[0].id != category_id);
        let rest = channels.drop_first();
        assert forall|k: int| 0 <= k < rest.len() && k != j - 1 implies #[trigger] rest[k].id != category_id by {
            assert(rest[k] == channels[k + 1]);
        }
        lemma_category_overwrites_unique(rest, j - 1, category_id);
    }
}

proof fn lemma_category_overwrites_absent(channels: Seq<ChannelSummary>, category_id: u64)
    requires
        forall|k: int| 0 <= k < channels.len() ==> #[trigger] channels[k].id != category_id,
    ensures
        category_overwrites(channels, category_id) == Seq::<Overwrite>::empty(),
    decreases channels.len(),
{
    if channels.len() > 0 {
        assert(channels[0].id != category_id);
        let rest = channels.drop_first();
        assert forall|k: int| 0 <= k < rest.len() implies #[trigger] rest[k].id != category_id by {
            assert(rest[k] == channels[k + 1]);
        }
        lemma_category_overwrites_absent(rest, category_id);
    }
}

/// What the bot posts once an applicant's channel is made.
pub struct VerificationPost {
    /// The first message in the channel.
    pub welcome: String,
    /// The questions, shown in the message's embed.
    pub questions: String,
    /// The private reply to the applicant.
    pub reply: String,
    /// The log line.
    pub log: String,
}

/// Composes what the bot posts in the new channel `channel_id` of applicant
/// `user_id`: the welcome, questions drawn at random from the configured ones
/// (see `draw_questions`), the reply that names the channel, and the log line
/// stamped with the present time. The draw and the clock are not stated beyond
/// what holds of every outcome.
pub fn verification_post(config: &Config, user_id: u64, user_name: &str, channel_id: u64) -> (post: VerificationPost)
    requires
        user_id != 0,
    ensures
        post.welcome@ == welcome_text(user_id, snowflake_seconds(user_id)),
        exists|order: Seq<usize>| is_arrangement(order, config.lines.len() as nat)
            && #[trigger] questions_text(texts(config.lines@), order,
                question_count(config.questions_number, config.lines.len() as nat)) == post.questions@,
        post.reply@ == channel_created_text(channel_id),
        exists|now: int| 0 <= now <= latest_time() && #[trigger] request_log_text(user_id, user_name@, now) == post.log@,
{
    let questions = draw_questions(&config.lines, config.questions_number);
    let created = account_created_at(user_id);
    let welcome_message = welcome(user_id, created);
    let reply = channel_created(channel_id);
    let now = current_unix_time();
    let log = request_log(user_id, user_name, now);
    assert(request_log_text(user_id, user_name@, now as int) == log@);
    VerificationPost { welcome: welcome_message, questions, reply, log }
}

/// The file name under which an attachment is posted as a spoiler.
pub open spec fn spoiler_name(file_name: Seq<char>) -> Seq<char> {
    "SPOILER_"@ + file_name
}

/// What becomes of the file at `index`: its spoiler name, or nothing when its
/// name is not valid Unicode (`None` in `file_names`).
pub open spec fn attachment_name_at(file_names: Seq<Option<String>>, index: int) -> Option<Seq<char>> {
    match file_names[index] {
        Some(n) => Some(spoiler_name(n@)),
        None => None,
    }
}

/// The spoiler name of the file at `index`, if that file's name is readable.
pub fn attachment_at(file_names: &Vec<Option<String>>, index: usize) -> (name: Option<String>)
    requires
        index < file_names.len(),
    ensures
        match name {
            Some(n) => attachment_name_at(file_names@, index as int) == Some(n@),
            None => attachment_name_at(file_names@, index as int) is None,
        },
{
    match &file_names[index] {
        Some(n) => {
            let mut s = String::from_str("SPOILER_");
            s.append(n.as_str());
            Some(s)
        },
        None => None,
    }
}

/// Picks a file at random among the files found for attachments and returns
/// its index and spoiler name; nothing when there are no files or when the
/// picked file's name is not readable.
pub fn pick_attachment(file_names: &Vec<Option<String>>) -> (picked: Option<(usize, String)>)
    ensures
        file_names.len() == 0 ==> picked is None,
        match picked {
            Some((i, n)) => i < file_names.len() && attachment_name_at(file_names@, i as int) == Some(n@),
            None => file_names.len() == 0 || exists|i: int| 0 <= i < file_names.len()
                && #[trigger] file_names@[i] is None,
        },
{
    if file_names.len() == 0 {
        return None;
    }
    let index = random_index(file_names.len());
    match attachment_at(file_names, index) {
        Some(n) => Some((index, n)),
        None => {
            assert(file_names@[index as int] is None);
            None
        },
    }
}

/// What a verdict changes: the verification message and the log line.
pub struct VerdictPost {
    /// The new text of the verification message.
    pub message: String,
    /// The log line.
    pub log: String,
}

/// Composes the verification message and the log line of a verdict given at
/// `now`. `earlier` is the message's text before the verdict, and
/// `applicant_name` the applicant's user name when it could be fetched.
pub fn verdict_post_at(
    verdict: Verdict,
    earlier: &str,
    moderator_id: u64,
    applicant_id: u64,
    applicant_name: Option<&str>,
    now: i64,
) -> (post: VerdictPost)
    ensures
        post.message@ == verdict_message_text(earlier@, verdict, moderator_id, now as int),
        post.log@ == verdict_log_text(verdict, applicant_id,
            match applicant_name { Some(n) => Some(n@), None => None }, moderator_id, now as int),
{
    VerdictPost {
        message: verdict_message(earlier, verdict, moderator_id, now),
        log: verdict_log(verdict, applicant_id, applicant_name, moderator_id, now),
    }
}

/// Composes the verdict's message and log line, both stamped with the same
/// present time, which the clock gives and which is not stated.
pub fn verdict_post(
    verdict: Verdict,
    earlier: &str,
    moderator_id: u64,
    applicant_id: u64,
    applicant_name: Option<&str>,
) -> (post: VerdictPost)
    ensures
        exists|now: int| 0 <= now <= latest_time()
            && #[trigger] verdict_message_text(earlier@, verdict, moderator_id, now) == post.message@
            && post.log@ == verdict_log_text(verdict, applicant_id,
                match applicant_name { Some(n) => Some(n@), None => None }, moderator_id, now),
{
    let now = current_unix_time();
    let post = verdict_post_at(verdict, earlier, moderator_id, applicant_id, applicant_name, now);
    assert(verdict_message_text(earlier@, verdict, moderator_id, now as int) == post.message@);
    post
}

/// The longest deletion delay that the bot can announce without leaving the
/// range of `i64` timestamps.
pub open spec fn announceable_delay() -> int {
    i64::MAX - latest_time()
}

/// A deletion that was scheduled: how long it waits, in seconds, and the
/// notice that announces it.
pub struct ScheduledDeletion {
    pub delay: u64,
    pub notice: String,
}

/// After a verdict, schedules the deletion of the channel when the settings
/// ask for it and none is pending. The deletion then waits twice the
/// configured delay; the result is that delay and the notice that announces
/// it. Otherwise nothing changes and nothing is returned.
pub fn schedule_after_verdict<T>(
    registry: &mut DeletionRegistry<T>,
    config: &Config,
    channel: u64,
    cancel: T,
) -> (scheduled: Option<ScheduledDeletion>)
    requires
        config.auto_delete_on_verdict ==> config.delete_delay_seconds * 2 <= announceable_delay(),
    ensures
        !config.auto_delete_on_verdict || old(registry)@.contains_key(channel) ==> {
            &&& final(registry)@ == old(registry)@
            &&& scheduled is None
        },
        config.auto_delete_on_verdict && !old(registry)@.contains_key(channel) ==> {
            let doubled = (config.delete_delay_seconds * 2) as u64;
            &&& final(registry)@ == old(registry)@.insert(channel, cancel)
            &&& scheduled is Some
            &&& scheduled->0.delay == deletion_delay(doubled, config.delete_delay_seconds)
            &&& scheduled->0.delay == doubled
            &&& exists|now: int| 0 <= now <= latest_time() && #[trigger] deletion_notice_text(true,
                deadline(now, doubled)) == scheduled->0.notice@
        },
{
    if !config.auto_delete_on_verdict || registry.is_pending(channel) {
        return None;
    }
    let delay_override = config.delete_delay_seconds * 2;
    match registry.schedule(channel, cancel, delay_override, config.delete_delay_seconds) {
        None => None,
        Some(delay) => {
            let now = current_unix_time();
            let text = deletion_notice_at(true, now, delay_override);
            assert(deletion_notice_text(true, deadline(now as int, delay_override)) == text@);
            Some(ScheduledDeletion { delay, notice: text })
        },
    }
}

/// On the delete button, schedules the deletion of the channel after the
/// configured delay; the result is that delay and the notice that announces
/// it. When a deletion is already pending, nothing changes and nothing is
/// returned.
pub fn schedule_on_request<T>(
    registry: &mut DeletionRegistry<T>,
    config: &Config,
    channel: u64,
    cancel: T,
) -> (scheduled: Option<ScheduledDeletion>)
    requires
        config.delete_delay_seconds <= announceable_delay(),
    ensures
        old(registry)@.contains_key(channel) ==> final(registry)@ == old(registry)@ && scheduled is None,
        !old(registry)@.contains_key(channel) ==> {
            &&& final(registry)@ == old(registry)@.insert(channel, cancel)
            &&& scheduled is Some
            &&& scheduled->0.delay == config.delete_delay_seconds
            &&& exists|now: int| 0 <= now <= latest_time() && #[trigger] deletion_notice_text(false,
                deadline(now, config.delete_delay_seconds)) == scheduled->0.notice@
        },
{
    match registry.schedule(channel, cancel, 0, config.delete_delay_seconds) {
        None => None,
        Some(delay) => {
            let now = current_unix_time();
            let text = deletion_notice_at(false, now, config.delete_delay_seconds);
            assert(deletion_notice_text(false, deadline(now as int, config.delete_delay_seconds)) == text@);
            Some(ScheduledDeletion { delay, notice: text })
        },
    }
}

} // verus!
