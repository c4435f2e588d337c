//! Decision core of a chat-room helper bot.
//!
//! The library holds the logic that decides how the bot reacts to room
//! events: whether a sender is filtered out, how an invitation is retried
//! under failure, whether a membership change is a genuine new join, and
//! what message, if any, goes out in reply.  Network transport, session
//! handling and process management live outside, in the surrounding
//! application; they hand the library plain values and carry its decisions
//! out.

mod classify;
mod config;
mod engine;
mod filter;
mod format;
mod retry;
mod text;
mod toml_doc;

pub use classify::MembershipEvent;
pub use classify::MembershipEventView;
pub use classify::MembershipKind;
pub use classify::Outcome;
pub use classify::SkipReason;
pub use classify::classify;
pub use classify::lemma_own_identity_never_new_join;
pub use classify::lemma_redundant_update_never_new_join;
pub use classify::spec_classify;
pub use config::BotFilteringConfig;
pub use config::BotFilteringView;
pub use config::Config;
pub use config::ConfigError;
pub use config::ConfigView;
pub use config::JoinDetectionConfig;
pub use config::JoinDetectionView;
pub use config::spec_bot_filtering;
pub use config::spec_config;
pub use config::spec_config_lines;
pub use config::spec_config_ok;
pub use config::spec_error_message;
pub use config::spec_head_lines;
pub use config::spec_indented;
pub use config::spec_join_detection;
pub use config::spec_join_detection_ok;
pub use config::spec_list_block;
pub use config::spec_required_fields_ok;
pub use config::spec_sec_bool_or;
pub use config::spec_sec_int_or;
pub use config::spec_sec_str_or;
pub use config::spec_string_list;
pub use config::spec_strings_upto;
pub use config::spec_tail_lines;
pub use config::spec_top_str_or;
pub use engine::OutboundMessage;
pub use engine::OutboundPlan;
pub use engine::Reaction;
pub use engine::ReactionView;
pub use engine::RoomEvent;
pub use engine::RoomEventView;
pub use engine::invite_reaction;
pub use engine::membership_reaction;
pub use engine::message_reaction;
pub use engine::route_event;
pub use engine::spec_invite_begins_join;
pub use engine::spec_membership_reaction;
pub use engine::spec_message_reaction;
pub use engine::spec_route;
pub use engine::spec_welcome_text;
pub use engine::welcome_message_for;
pub use filter::contains_string;
pub use filter::lemma_listed_always_ignored;
pub use filter::lemma_self_always_ignored;
pub use filter::should_ignore_user;
pub use filter::spec_should_ignore;
pub use format::HelpFormat;
pub use format::parse_help_format;
pub use format::spec_format_label;
pub use format::spec_parse_format;
pub use retry::BACKOFF_CEILING_SECONDS;
pub use retry::INITIAL_BACKOFF_SECONDS;
pub use retry::RetryState;
pub use retry::lemma_backoff_sequence;
pub use retry::lemma_step_follows_trace;
pub use retry::spec_state_after;
pub use text::bool_str;
pub use text::contains_sub;
pub use text::lower_of;
pub use text::spec_bool_str;
pub use text::spec_digit_char;
pub use text::spec_u64_string;
pub use text::starts_with;
pub use text::str_contains;
pub use text::str_eq;
pub use text::str_starts_with;
pub use text::sub_at;
pub use text::u64_string;
pub use toml_doc::toml_parse_ok;
pub use toml_doc::toml_sec_arr_len;
pub use toml_doc::toml_sec_arr_str;
pub use toml_doc::toml_sec_bool;
pub use toml_doc::toml_sec_int;
pub use toml_doc::toml_sec_str;
pub use toml_doc::toml_top_str;
