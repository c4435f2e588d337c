//! Membership change classifier: is an event a genuine new join?

use vstd::prelude::*;
use crate::config::JoinDetectionConfig;
use crate::config::JoinDetectionView;
use crate::filter::contains_string;
use crate::text::str_eq;

verus! {

/// The membership standing a room assigns a participant.
#[derive(Debug, Clone, Copy, PartialEq, Eq, Structural)]
pub enum MembershipKind {
    Join,
    Leave,
    Invite,
    Knock,
    Ban,
    /// Any standing beyond the common five.
    Other,
}

/// A membership-state change as the event feed reports it.
/// `previous_state` is `None` when the event is the first known record
/// for `subject` in `room`; `redacted` marks a record whose content was
/// retracted and so carries no classifiable state.
pub struct MembershipEvent {
    pub room: String,
    pub subject: String,
    pub new_state: MembershipKind,
    pub previous_state: Option<MembershipKind>,
    pub redacted: bool,
}

/// Mathematical image of `MembershipEvent`.
pub ghost struct MembershipEventView {
    pub room: Seq<char>,
    pub subject: Seq<char>,
    pub new_state: MembershipKind,
    pub previous_state: Option<MembershipKind>,
    pub redacted: bool,
}

impl View for MembershipEvent {
    type V = MembershipEventView;

    open spec fn view(&self) -> MembershipEventView {
        MembershipEventView {
            room: self.room@,
            subject: self.subject@,
            new_state: self.new_state,
            previous_state: self.previous_state,
            redacted: self.redacted,
        }
    }
}

/// Why an event was not treated as a new join.
#[derive(Debug, Clone, Copy, PartialEq, Eq, Structural)]
pub enum SkipReason {
    /// Join detection is switched off.
    Disabled,
    /// The bot is not an active member of the room.
    NotJoined,
    /// A monitored-room list is set and the room is not on it.
    NotMonitored,
    /// The event is about the bot itself.
    OwnIdentity,
    /// The record was redacted and carries no state.
    Redacted,
    /// The new membership state is not Join.
    NotAJoin,
    /// The member was already joined; the event only refreshes state.
    RedundantUpdate,
}

/// What the classifier decides for one event.
#[derive(Debug, Clone, Copy, PartialEq, Eq, Structural)]
pub enum Outcome {
    Skip(SkipReason),
    NewJoin,
}

/// The classifier's decision, checks in their fixed order: detection
/// enabled, room joined, room monitored, not the bot itself, record not
/// redacted, state is Join, and the member was not already joined.
pub open spec fn spec_classify(
    e: MembershipEventView,
    room_joined: bool,
    bot: Seq<char>,
    c: JoinDetectionView,
) -> Outcome {
    if !c.enabled {
        Outcome::Skip(SkipReason::Disabled)
    } else if !room_joined {
        Outcome::Skip(SkipReason::NotJoined)
    } else if c.monitored_rooms.len() > 0 && !c.monitored_rooms.contains(e.room) {
        Outcome::Skip(SkipReason::NotMonitored)
    } else if e.subject == bot {
        Outcome::Skip(SkipReason::OwnIdentity)
    } else if e.redacted {
        Outcome::Skip(SkipReason::Redacted)
    } else if e.new_state != MembershipKind::Join {
        Outcome::Skip(SkipReason::NotAJoin)
    } else if e.previous_state == Some(MembershipKind::Join) {
        Outcome::Skip(SkipReason::RedundantUpdate)
    } else {
        Outcome::NewJoin
    }
}

/// Classifies one membership event, `room_joined` being whether the bot
/// is an active member of the event's room.
pub fn classify(
    event: &MembershipEvent,
    room_joined: bool,
    bot_user_id: &str,
    config: &JoinDetectionConfig,
) -> (r: Outcome)
    ensures
        r == spec_classify(event@, room_joined, bot_user_id@, config@),
{
    if !config.enabled {
        return Outcome::Skip(SkipReason::Disabled);
    }
    if !room_joined {
        return Outcome::Skip(SkipReason::NotJoined);
    }
    if config.monitored_rooms.len() > 0 && !contains_string(
        &config.monitored_rooms,
        event.room.as_str(),
    ) {
        return Outcome::Skip(SkipReason::NotMonitored);
    }
    if str_eq(event.subject.as_str(), bot_user_id) {
        return Outcome::Skip(SkipReason::OwnIdentity);
    }
    if event.redacted {
        return Outcome::Skip(SkipReason::Redacted);
    }
    let is_join = match event.new_state {
        MembershipKind::Join => true,
        _ => false,
    };
    if !is_join {
        return Outcome::Skip(SkipReason::NotAJoin);
    }
    let was_joined = match event.previous_state {
        Some(MembershipKind::Join) => true,
        _ => false,
    };
    if was_joined {
        return Outcome::Skip(SkipReason::RedundantUpdate);
    }
    Outcome::NewJoin
}

/// Law: an event that reports Join over a previous Join is never a new
/// join, whatever the other fields and settings say.
pub proof fn lemma_redundant_update_never_new_join(
    e: MembershipEventView,
    room_joined: bool,
    bot: Seq<char>,
    c: JoinDetectionView,
)
    requires
        e.previous_state == Some(MembershipKind::Join),
        e.new_state == MembershipKind::Join,
    ensures
        spec_classify(e, room_joined, bot, c) != Outcome::NewJoin,
{
}

/// Law: an event about the bot's own identity is never a new join, even
/// with every other condition satisfied.
pub proof fn lemma_own_identity_never_new_join(
    e: MembershipEventView,
    room_joined: bool,
    bot: Seq<char>,
    c: JoinDetectionView,
)
    requires
        e.subject == bot,
    ensures
        spec_classify(e, room_joined, bot, c) != Outcome::NewJoin,
{
}

} // verus!
