//! Filtering policy: whether a message sender is ignored.

use vstd::prelude::*;
use crate::config::BotFilteringConfig;
use crate::config::BotFilteringView;
use crate::text::contains_sub;
use crate::text::lower_of;
use crate::text::lowercase;
use crate::text::str_contains;
use crate::text::str_eq;

verus! {

/// A sender is ignored when it is the bot itself (with self-filtering
/// on), when it is listed by name, or when its lowercase form holds the
/// substring "bot" (with pattern filtering on).
pub open spec fn spec_should_ignore(user: Seq<char>, bot: Seq<char>, policy: BotFilteringView) -> bool {
    ||| policy.ignore_self && user == bot
    ||| policy.ignored_users.contains(user)
    ||| policy.ignore_bots && contains_sub(lower_of(user), "bot"@)
}

/// Whether a list of names holds the given one, character for
/// character.
pub fn contains_string(items: &Vec<String>, target: &str) -> (r: bool)
    ensures
        r == items.deep_view().contains(target@),
{
    let mut i: usize = 0;
    while i < items.len()
        invariant
            i <= items.len(),
            forall|j: int| 0 <= j < i ==> items.deep_view()[j] != target@,
        decreases items.len() - i,
    {
        if str_eq(items[i].as_str(), target) {
            proof {
                assert(items.deep_view()[i as int] == target@);
            }
            return true;
        }
        i += 1;
    }
    proof {
        assert(!items.deep_view().contains(target@));
    }
    false
}

/// Decides whether a message from `user_id` is ignored under `config`,
/// `bot_user_id` being the bot's own identity.
pub fn should_ignore_user(user_id: &str, bot_user_id: &str, config: &BotFilteringConfig) -> (r:
    bool)
    ensures
        r == spec_should_ignore(user_id@, bot_user_id@, config@),
{
    if config.ignore_self && str_eq(user_id, bot_user_id) {
        return true;
    }
    if contains_string(&config.ignored_users, user_id) {
        return true;
    }
    if config.ignore_bots {
        let low = lowercase(user_id);
        if str_contains(low.as_str(), "bot") {
            return true;
        }
    }
    false
}

/// Law: with self-filtering on, the bot's own identity is always
/// ignored, whatever the other settings say.
pub proof fn lemma_self_always_ignored(user: Seq<char>, bot: Seq<char>, policy: BotFilteringView)
    requires
        policy.ignore_self,
        user == bot,
    ensures
        spec_should_ignore(user, bot, policy),
{
}

/// Law: an identity on the ignored list is always ignored, even with
/// self-filtering and pattern filtering both off.
pub proof fn lemma_listed_always_ignored(user: Seq<char>, bot: Seq<char>, policy: BotFilteringView)
    requires
        policy.ignored_users.contains(user),
    ensures
        spec_should_ignore(user, bot, policy),
{
}

} // verus!
