//! Reaction engine: one routing decision per received event.
//!
//! The surrounding application receives events from the client library,
//! hands each to [`route_event`] as plain values, and carries the
//! returned reaction out: sending a message back to the event's room, or
//! beginning the join-retry unit for an invitation.

use vstd::prelude::*;
use vstd::string::StringExecFns;
use crate::classify::classify;
use crate::classify::spec_classify;
use crate::classify::MembershipEvent;
use crate::classify::MembershipEventView;
use crate::classify::MembershipKind;
use crate::classify::Outcome;
use crate::config::BotFilteringConfig;
use crate::config::BotFilteringView;
use crate::config::Config;
use crate::config::ConfigView;
use crate::config::JoinDetectionConfig;
use crate::config::JoinDetectionView;
use crate::filter::should_ignore_user;
use crate::filter::spec_should_ignore;
use crate::format::HelpFormat;
use crate::text::starts_with;
use crate::text::str_eq;
use crate::text::str_starts_with;

verus! {

/// A message the bot is to send, with the encoding the sender must use.
pub struct OutboundMessage {
    pub body: String,
    pub format: HelpFormat,
}

/// Mathematical image of `OutboundMessage`.
pub ghost struct OutboundPlan {
    pub body: Seq<char>,
    pub format: HelpFormat,
}

impl View for OutboundMessage {
    type V = OutboundPlan;

    open spec fn view(&self) -> OutboundPlan {
        OutboundPlan { body: self.body@, format: self.format }
    }
}

/// The welcome text for a new member: the subject's identity, a colon
/// and a space, then the configured template.
pub open spec fn spec_welcome_text(subject: Seq<char>, template: Seq<char>) -> Seq<char> {
    subject + ": "@ + template
}

/// Builds the welcome message for `subject` under `config`.
pub fn welcome_message_for(subject: &str, config: &JoinDetectionConfig) -> (m: OutboundMessage)
    ensures
        m@.body == spec_welcome_text(subject@, config.welcome_message@),
        m@.format == config.welcome_format,
{
    let mut body = subject.to_owned();
    body.append(": ");
    body.append(config.welcome_message.as_str());
    OutboundMessage { body, format: config.welcome_format }
}

/// The reply to a text message: the configured help text, in the
/// configured format, exactly when the room is joined, the sender is
/// not filtered out, and the body begins with the help command.
pub open spec fn spec_message_reaction(
    room_joined: bool,
    sender: Seq<char>,
    body: Seq<char>,
    bot: Seq<char>,
    help_text: Seq<char>,
    policy: BotFilteringView,
    help_format: HelpFormat,
) -> Option<OutboundPlan> {
    if room_joined && !spec_should_ignore(sender, bot, policy) && starts_with(body, "!help"@) {
        Some(OutboundPlan { body: help_text, format: help_format })
    } else {
        None
    }
}

/// Decides the reply to a text message from `sender` with `body`.
pub fn message_reaction(
    room_joined: bool,
    sender: &str,
    body: &str,
    bot_user_id: &str,
    help_text: &str,
    filtering: &BotFilteringConfig,
    help_format: HelpFormat,
) -> (r: Option<OutboundMessage>)
    ensures
        (match r {
            Some(m) => spec_message_reaction(
                room_joined,
                sender@,
                body@,
                bot_user_id@,
                help_text@,
                filtering@,
                help_format,
            ) == Some(m@),
            None => spec_message_reaction(
                room_joined,
                sender@,
                body@,
                bot_user_id@,
                help_text@,
                filtering@,
                help_format,
            ) is None,
        }),
{
    if !room_joined {
        return None;
    }
    if should_ignore_user(sender, bot_user_id, filtering) {
        return None;
    }
    if str_starts_with(body, "!help") {
        Some(OutboundMessage { body: help_text.to_owned(), format: help_format })
    } else {
        None
    }
}

/// An invitation begins a join-retry unit exactly when it is addressed
/// to the bot itself and no unit is already running for the room.
pub open spec fn spec_invite_begins_join(
    subject: Seq<char>,
    kind: MembershipKind,
    bot: Seq<char>,
    already_attempting: bool,
) -> bool {
    subject == bot && kind == MembershipKind::Invite && !already_attempting
}

/// Decides whether a stripped membership notice begins a join-retry
/// unit; `already_attempting` says whether one is running for the room.
pub fn invite_reaction(
    subject: &str,
    kind: MembershipKind,
    bot_user_id: &str,
    already_attempting: bool,
) -> (r: bool)
    ensures
        r == spec_invite_begins_join(subject@, kind, bot_user_id@, already_attempting),
{
    if already_attempting {
        return false;
    }
    let invited = match kind {
        MembershipKind::Invite => true,
        _ => false,
    };
    invited && str_eq(subject, bot_user_id)
}

/// The welcome sent for a membership event: present exactly when the
/// classifier finds a new join and welcome messages are switched on.
pub open spec fn spec_membership_reaction(
    e: MembershipEventView,
    room_joined: bool,
    bot: Seq<char>,
    c: JoinDetectionView,
) -> Option<OutboundPlan> {
    if spec_classify(e, room_joined, bot, c) == Outcome::NewJoin && c.send_welcome {
        Some(
            OutboundPlan {
                body: spec_welcome_text(e.subject, c.welcome_message),
                format: c.welcome_format,
            },
        )
    } else {
        None
    }
}

/// Decides the welcome, if any, for a full membership event.
pub fn membership_reaction(
    event: &MembershipEvent,
    room_joined: bool,
    bot_user_id: &str,
    config: &JoinDetectionConfig,
) -> (r: Option<OutboundMessage>)
    ensures
        (match r {
            Some(m) => spec_membership_reaction(event@, room_joined, bot_user_id@, config@)
                == Some(m@),
            None => spec_membership_reaction(event@, room_joined, bot_user_id@, config@) is None,
        }),
{
    match classify(event, room_joined, bot_user_id, config) {
        Outcome::NewJoin => {
            if config.send_welcome {
                Some(welcome_message_for(event.subject.as_str(), config))
            } else {
                None
            }
        },
        Outcome::Skip(_) => None,
    }
}

/// One event as the application hands it over for routing.
pub enum RoomEvent {
    /// A text message in a room.
    Message { sender: String, body: String },
    /// A stripped membership notice, delivered for rooms not yet
    /// joined; an invitation arrives this way.
    MembershipNotice { subject: String, kind: MembershipKind },
    /// A full membership-state change in a known room.
    MemberChange(MembershipEvent),
}

/// Mathematical image of `RoomEvent`.
pub ghost enum RoomEventView {
    Message { sender: Seq<char>, body: Seq<char> },
    MembershipNotice { subject: Seq<char>, kind: MembershipKind },
    MemberChange(MembershipEventView),
}

impl View for RoomEvent {
    type V = RoomEventView;

    open spec fn view(&self) -> RoomEventView {
        match self {
            RoomEvent::Message { sender, body } => RoomEventView::Message {
                sender: sender@,
                body: body@,
            },
            RoomEvent::MembershipNotice { subject, kind } => RoomEventView::MembershipNotice {
                subject: subject@,
                kind: *kind,
            },
            RoomEvent::MemberChange(e) => RoomEventView::MemberChange(e@),
        }
    }
}

/// What the application is to do with the event's room.
pub enum Reaction {
    /// Send this message to the room the event came from.
    Send(OutboundMessage),
    /// Begin a join-retry unit for the room the event came from.
    BeginJoin,
}

/// Mathematical image of `Reaction`.
pub ghost enum ReactionView {
    Send(OutboundPlan),
    BeginJoin,
}

impl View for Reaction {
    type V = ReactionView;

    open spec fn view(&self) -> ReactionView {
        match self {
            Reaction::Send(m) => ReactionView::Send(m@),
            Reaction::BeginJoin => ReactionView::BeginJoin,
        }
    }
}

/// The routing decision for one event: messages go through the
/// filtering policy and the help command, stripped notices through the
/// invitation rule, and membership changes through the classifier.
pub open spec fn spec_route(
    e: RoomEventView,
    room_joined: bool,
    bot: Seq<char>,
    help_text: Seq<char>,
    already_attempting: bool,
    c: ConfigView,
) -> Option<ReactionView> {
    match e {
        RoomEventView::Message { sender, body } => match spec_message_reaction(
            room_joined,
            sender,
            body,
            bot,
            help_text,
            c.bot_filtering,
            c.help_format,
        ) {
            Some(p) => Some(ReactionView::Send(p)),
            None => None,
        },
        RoomEventView::MembershipNotice { subject, kind } => if spec_invite_begins_join(
            subject,
            kind,
            bot,
            already_attempting,
        ) {
            Some(ReactionView::BeginJoin)
        } else {
            None
        },
        RoomEventView::MemberChange(ev) => match spec_membership_reaction(
            ev,
            room_joined,
            bot,
            c.join_detection,
        ) {
            Some(p) => Some(ReactionView::Send(p)),
            None => None,
        },
    }
}

/// Routes one event; `room_joined` is the bot's standing in the event's
/// room and `already_attempting` whether a join-retry unit is already
/// running for it.
pub fn route_event(
    event: &RoomEvent,
    room_joined: bool,
    bot_user_id: &str,
    help_text: &str,
    already_attempting: bool,
    config: &Config,
) -> (r: Option<Reaction>)
    ensures
        (match r {
            Some(x) => spec_route(
                event@,
                room_joined,
                bot_user_id@,
                help_text@,
                already_attempting,
                config@,
            ) == Some(x@),
            None => spec_route(
                event@,
                room_joined,
                bot_user_id@,
                help_text@,
                already_attempting,
                config@,
            ) is None,
        }),
{
    match event {
        RoomEvent::Message { sender, body } => match message_reaction(
            room_joined,
            sender.as_str(),
            body.as_str(),
            bot_user_id,
            help_text,
            &config.bot_filtering,
            config.help_format,
        ) {
            Some(m) => Some(Reaction::Send(m)),
            None => None,
        },
        RoomEvent::MembershipNotice { subject, kind } => {
            if invite_reaction(subject.as_str(), *kind, bot_user_id, already_attempting) {
                Some(Reaction::BeginJoin)
            } else {
                None
            }
        },
        RoomEvent::MemberChange(ev) => match membership_reaction(
            ev,
            room_joined,
            bot_user_id,
            &config.join_detection,
        ) {
            Some(m) => Some(Reaction::Send(m)),
            None => None,
        },
    }
}

} // verus!
