//! The bot's static configuration: message filtering, join detection,
//! and the connection and help-text settings around them.

use vstd::prelude::*;
use vstd::string::StringExecFns;
use crate::format::spec_format_label;
use crate::format::spec_parse_format;
use crate::format::parse_help_format;
use crate::format::HelpFormat;
use crate::text::bool_str;
use crate::text::spec_bool_str;
use crate::text::spec_u64_string;
use crate::text::u64_string;
use crate::toml_doc::toml_parse;
use crate::toml_doc::toml_parse_ok;
use crate::toml_doc::toml_sec_arr_len;
use crate::toml_doc::toml_sec_arr_str;
use crate::toml_doc::toml_sec_bool;
use crate::toml_doc::toml_sec_int;
use crate::toml_doc::toml_sec_str;
use crate::toml_doc::toml_top_str;
use crate::toml_doc::TomlDoc;

verus! {

/// Which message senders the bot ignores.
#[derive(Debug, Clone)]
pub struct BotFilteringConfig {
    /// Whether to ignore messages from the bot itself
    pub ignore_self: bool,
    /// Whether to ignore messages from users with "bot" in their username
    pub ignore_bots: bool,
    /// Specific list of user IDs to ignore
    pub ignored_users: Vec<String>,
}

/// How the bot reacts to users joining a room.
#[derive(Debug, Clone)]
pub struct JoinDetectionConfig {
    /// Whether to detect user joins at all
    pub enabled: bool,
    /// Specific list of room IDs to monitor for joins (empty = all rooms)
    pub monitored_rooms: Vec<String>,
    /// Whether to send a welcome message to users who join
    pub send_welcome: bool,
    /// Welcome message to send to new users
    pub welcome_message: String,
    /// Format for the welcome message
    pub welcome_format: HelpFormat,
    /// Timeout in seconds for deduplication of welcome messages
    pub welcome_timeout_seconds: u64,
}

/// The whole configuration as loaded at startup.
#[derive(Debug)]
pub struct Config {
    pub homeserver: String,
    pub username: String,
    pub access_token: String,
    pub log_file: String,
    pub working_dir: String,
    pub help_file: String,
    pub help_format: HelpFormat,
    pub bot_filtering: BotFilteringConfig,
    pub join_detection: JoinDetectionConfig,
}

/// Mathematical image of `BotFilteringConfig`.
pub ghost struct BotFilteringView {
    pub ignore_self: bool,
    pub ignore_bots: bool,
    pub ignored_users: Seq<Seq<char>>,
}

impl View for BotFilteringConfig {
    type V = BotFilteringView;

    open spec fn view(&self) -> BotFilteringView {
        BotFilteringView {
            ignore_self: self.ignore_self,
            ignore_bots: self.ignore_bots,
            ignored_users: self.ignored_users.deep_view(),
        }
    }
}

/// Mathematical image of `JoinDetectionConfig`.
pub ghost struct JoinDetectionView {
    pub enabled: bool,
    pub monitored_rooms: Seq<Seq<char>>,
    pub send_welcome: bool,
    pub welcome_message: Seq<char>,
    pub welcome_format: HelpFormat,
    pub welcome_timeout_seconds: u64,
}

impl View for JoinDetectionConfig {
    type V = JoinDetectionView;

    open spec fn view(&self) -> JoinDetectionView {
        JoinDetectionView {
            enabled: self.enabled,
            monitored_rooms: self.monitored_rooms.deep_view(),
            send_welcome: self.send_welcome,
            welcome_message: self.welcome_message@,
            welcome_format: self.welcome_format,
            welcome_timeout_seconds: self.welcome_timeout_seconds,
        }
    }
}

/// Why a configuration text was rejected.
#[derive(Debug, Clone)]
pub enum ConfigError {
    /// The text is not a TOML document; carries the parser's account.
    TomlSyntax(String),
    MissingHomeserver,
    MissingUsername,
    MissingAccessToken,
    MissingHelpFile,
    /// A format entry names no known format; carries the entry.
    InvalidFormat(String),
}

/// The words in which each rejection is reported.
pub open spec fn spec_error_message(e: ConfigError) -> Seq<char> {
    match e {
        ConfigError::TomlSyntax(d) => "Failed to parse TOML: "@ + d@,
        ConfigError::MissingHomeserver => "Missing 'homeserver' in config file"@,
        ConfigError::MissingUsername => "Missing 'username' in config file"@,
        ConfigError::MissingAccessToken => "Missing 'access_token' in config file"@,
        ConfigError::MissingHelpFile => "Missing 'help_file' in config file"@,
        ConfigError::InvalidFormat(v) => "Invalid help format '"@ + v@
            + "'. Valid options are: plain, html, markdown"@,
    }
}

impl ConfigError {
    /// The rejection, written out for a report.
    pub fn message(&self) -> (r: String)
        ensures
            r@ == spec_error_message(*self),
    {
        match self {
            ConfigError::TomlSyntax(d) => {
                let mut s = String::from_str("Failed to parse TOML: ");
                s.append(d.as_str());
                s
            },
            ConfigError::MissingHomeserver => String::from_str(
                "Missing 'homeserver' in config file",
            ),
            ConfigError::MissingUsername => String::from_str("Missing 'username' in config file"),
            ConfigError::MissingAccessToken => String::from_str(
                "Missing 'access_token' in config file",
            ),
            ConfigError::MissingHelpFile => String::from_str("Missing 'help_file' in config file"),
            ConfigError::InvalidFormat(v) => {
                let mut s = String::from_str("Invalid help format '");
                s.append(v.as_str());
                s.append("'. Valid options are: plain, html, markdown");
                s
            },
        }
    }
}

impl Default for BotFilteringConfig {
    /// Self-filtering on, pattern filtering off, nobody listed.
    fn default() -> (r: Self)
        ensures
            r.ignore_self == true,
            r.ignore_bots == false,
            r.ignored_users@ == Seq::<String>::empty(),
    {
        BotFilteringConfig { ignore_self: true, ignore_bots: false, ignored_users: Vec::new() }
    }
}

impl Default for JoinDetectionConfig {
    /// Detection on for every room, welcome messages off, with the
    /// stock welcome text in plain form.
    fn default() -> (r: Self)
        ensures
            r.enabled == true,
            r.monitored_rooms@ == Seq::<String>::empty(),
            r.send_welcome == false,
            r.welcome_message@ == "Welcome to the room! Type !help for assistance."@,
            r.welcome_format == HelpFormat::Plain,
            r.welcome_timeout_seconds == 300,
    {
        JoinDetectionConfig {
            enabled: true,
            monitored_rooms: Vec::new(),
            send_welcome: false,
            welcome_message: String::from_str("Welcome to the room! Type !help for assistance."),
            welcome_format: HelpFormat::Plain,
            welcome_timeout_seconds: 300,
        }
    }
}

/// Mathematical image of `Config`.
pub ghost struct ConfigView {
    pub homeserver: Seq<char>,
    pub username: Seq<char>,
    pub access_token: Seq<char>,
    pub log_file: Seq<char>,
    pub working_dir: Seq<char>,
    pub help_file: Seq<char>,
    pub help_format: HelpFormat,
    pub bot_filtering: BotFilteringView,
    pub join_detection: JoinDetectionView,
}

impl View for Config {
    type V = ConfigView;

    open spec fn view(&self) -> ConfigView {
        ConfigView {
            homeserver: self.homeserver@,
            username: self.username@,
            access_token: self.access_token@,
            log_file: self.log_file@,
            working_dir: self.working_dir@,
            help_file: self.help_file@,
            help_format: self.help_format,
            bot_filtering: self.bot_filtering@,
            join_detection: self.join_detection@,
        }
    }
}

/// The boolean at `sec.key`, or `dflt` where the text has none.
pub open spec fn spec_sec_bool_or(s: Seq<char>, sec: Seq<char>, key: Seq<char>, dflt: bool) -> bool {
    match toml_sec_bool(s, sec, key) {
        Some(b) => b,
        None => dflt,
    }
}

/// The string at `sec.key`, or `dflt` where the text has none.
pub open spec fn spec_sec_str_or(s: Seq<char>, sec: Seq<char>, key: Seq<char>, dflt: Seq<char>) -> Seq<
    char,
> {
    match toml_sec_str(s, sec, key) {
        Some(v) => v,
        None => dflt,
    }
}

/// The integer at `sec.key`, or `dflt` where the text has none.
pub open spec fn spec_sec_int_or(s: Seq<char>, sec: Seq<char>, key: Seq<char>, dflt: i64) -> i64 {
    match toml_sec_int(s, sec, key) {
        Some(v) => v,
        None => dflt,
    }
}

/// The string at the top-level `key`, or `dflt` where the text has none.
pub open spec fn spec_top_str_or(s: Seq<char>, key: Seq<char>, dflt: Seq<char>) -> Seq<char> {
    match toml_top_str(s, key) {
        Some(v) => v,
        None => dflt,
    }
}

/// The strings among the first `n` elements of the array at `sec.key`,
/// in order; elements of any other type are passed over.
pub open spec fn spec_strings_upto(s: Seq<char>, sec: Seq<char>, key: Seq<char>, n: int) -> Seq<
    Seq<char>,
>
    decreases n,
{
    if n <= 0 {
        Seq::empty()
    } else {
        spec_strings_upto(s, sec, key, n - 1) + match toml_sec_arr_str(s, sec, key, n - 1) {
            Some(v) => seq![v],
            None => Seq::empty(),
        }
    }
}

/// The strings of the array at `sec.key`; empty where the text has no
/// array there.
pub open spec fn spec_string_list(s: Seq<char>, sec: Seq<char>, key: Seq<char>) -> Seq<Seq<char>> {
    match toml_sec_arr_len(s, sec, key) {
        Some(l) => spec_strings_upto(s, sec, key, l),
        None => Seq::empty(),
    }
}

/// Collects the strings of the array at `sec.key`, passing over
/// elements of any other type.
fn read_string_list(doc: &TomlDoc, sec: &str, key: &str) -> (r: Vec<String>)
    ensures
        r.deep_view() == spec_string_list(doc@, sec@, key@),
{
    let mut out: Vec<String> = Vec::new();
    proof {
        assert(out.deep_view() =~= Seq::<Seq<char>>::empty());
    }
    match doc.sec_arr_len(sec, key) {
        None => out,
        Some(l) => {
            let mut i: usize = 0;
            while i < l
                invariant
                    i <= l,
                    toml_sec_arr_len(doc@, sec@, key@) == Some(l as int),
                    out.deep_view() == spec_strings_upto(doc@, sec@, key@, i as int),
                decreases l - i,
            {
                let ghost prior = out.deep_view();
                match doc.sec_arr_str(sec, key, i) {
                    Some(v) => {
                        let ghost vv = v@;
                        out.push(v);
                        proof {
                            assert(out.deep_view() =~= prior + seq![vv]);
                        }
                    },
                    None => {},
                }
                i += 1;
            }
            out
        },
    }
}

/// Image of the filtering section of a configuration text: every
/// setting read, with its default where the text is silent.
pub open spec fn spec_bot_filtering(s: Seq<char>) -> BotFilteringView {
    BotFilteringView {
        ignore_self: spec_sec_bool_or(s, "bot_filtering"@, "ignore_self"@, true),
        ignore_bots: spec_sec_bool_or(s, "bot_filtering"@, "ignore_bots"@, false),
        ignored_users: spec_string_list(s, "bot_filtering"@, "ignored_users"@),
    }
}

/// Reads the `bot_filtering` section; a missing section or entry falls
/// back to its default, so this never fails.
fn parse_bot_filtering(doc: &TomlDoc) -> (r: BotFilteringConfig)
    ensures
        r@ == spec_bot_filtering(doc@),
{
    let ignore_self = match doc.sec_bool("bot_filtering", "ignore_self") {
        Some(b) => b,
        None => true,
    };
    let ignore_bots = match doc.sec_bool("bot_filtering", "ignore_bots") {
        Some(b) => b,
        None => false,
    };
    let ignored_users = read_string_list(doc, "bot_filtering", "ignored_users");
    BotFilteringConfig { ignore_self, ignore_bots, ignored_users }
}

/// Whether the `join_detection` section carries no invalid format entry.
pub open spec fn spec_join_detection_ok(s: Seq<char>) -> bool {
    match toml_sec_str(s, "join_detection"@, "welcome_format"@) {
        Some(f) => spec_parse_format(f) is Some,
        None => true,
    }
}

/// Image of the join-detection section of a configuration text.
pub open spec fn spec_join_detection(s: Seq<char>) -> JoinDetectionView {
    JoinDetectionView {
        enabled: spec_sec_bool_or(s, "join_detection"@, "enabled"@, true),
        monitored_rooms: spec_string_list(s, "join_detection"@, "monitored_rooms"@),
        send_welcome: spec_sec_bool_or(s, "join_detection"@, "send_welcome"@, false),
        welcome_message: spec_sec_str_or(
            s,
            "join_detection"@,
            "welcome_message"@,
            "Welcome to the room! Type !help for assistance."@,
        ),
        welcome_format: match toml_sec_str(s, "join_detection"@, "welcome_format"@) {
            Some(f) => spec_parse_format(f).unwrap(),
            None => HelpFormat::Plain,
        },
        welcome_timeout_seconds: spec_sec_int_or(
            s,
            "join_detection"@,
            "welcome_timeout_seconds"@,
            300,
        ) as u64,
    }
}

/// Reads the `join_detection` section; fails only on a format entry
/// that names no known format.
fn parse_join_detection(doc: &TomlDoc) -> (r: Result<JoinDetectionConfig, ConfigError>)
    ensures
        r is Ok <==> spec_join_detection_ok(doc@),
        r matches Ok(c) ==> c@ == spec_join_detection(doc@),
        r matches Err(e) ==> (e matches ConfigError::InvalidFormat(v) && toml_sec_str(
            doc@,
            "join_detection"@,
            "welcome_format"@,
        ) == Some(v@)),
{
    let enabled = match doc.sec_bool("join_detection", "enabled") {
        Some(b) => b,
        None => true,
    };
    let monitored_rooms = read_string_list(doc, "join_detection", "monitored_rooms");
    let send_welcome = match doc.sec_bool("join_detection", "send_welcome") {
        Some(b) => b,
        None => false,
    };
    let welcome_message = match doc.sec_str("join_detection", "welcome_message") {
        Some(v) => v,
        None => String::from_str("Welcome to the room! Type !help for assistance."),
    };
    let welcome_format = match doc.sec_str("join_detection", "welcome_format") {
        Some(f) => match parse_help_format(f.as_str()) {
            Some(x) => x,
            None => {
                return Err(ConfigError::InvalidFormat(f));
            },
        },
        None => HelpFormat::Plain,
    };
    let raw_timeout = match doc.sec_int("join_detection", "welcome_timeout_seconds") {
        Some(v) => v,
        None => 300,
    };
    let welcome_timeout_seconds = raw_timeout as u64;
    Ok(
        JoinDetectionConfig {
            enabled,
            monitored_rooms,
            send_welcome,
            welcome_message,
            welcome_format,
            welcome_timeout_seconds,
        },
    )
}

/// Whether the text parses and every required string field is present.
pub open spec fn spec_required_fields_ok(s: Seq<char>) -> bool {
    &&& toml_parse_ok(s)
    &&& toml_top_str(s, "homeserver"@) is Some
    &&& toml_top_str(s, "username"@) is Some
    &&& toml_top_str(s, "access_token"@) is Some
    &&& toml_top_str(s, "help_file"@) is Some
}

/// Whether a configuration text carries everything a `Config` needs.
pub open spec fn spec_config_ok(s: Seq<char>) -> bool {
    &&& spec_required_fields_ok(s)
    &&& (match toml_top_str(s, "help_format"@) {
        Some(f) => spec_parse_format(f) is Some,
        None => true,
    })
    &&& spec_join_detection_ok(s)
}

/// Image of a whole configuration text that `spec_config_ok` admits.
pub open spec fn spec_config(s: Seq<char>) -> ConfigView {
    ConfigView {
        homeserver: toml_top_str(s, "homeserver"@).unwrap(),
        username: toml_top_str(s, "username"@).unwrap(),
        access_token: toml_top_str(s, "access_token"@).unwrap(),
        log_file: spec_top_str_or(s, "log_file"@, "bot.log"@),
        working_dir: spec_top_str_or(s, "working_directory"@, "."@),
        help_file: toml_top_str(s, "help_file"@).unwrap(),
        help_format: match toml_top_str(s, "help_format"@) {
            Some(f) => spec_parse_format(f).unwrap(),
            None => HelpFormat::Plain,
        },
        bot_filtering: spec_bot_filtering(s),
        join_detection: spec_join_detection(s),
    }
}

impl Config {
    /// Reads a whole configuration from TOML text.  Succeeds exactly on
    /// the texts that `spec_config_ok` admits, and then returns their
    /// image; each rejection names the first fault, in the order the
    /// fields are read.
    pub fn from_toml(toml_str: &str) -> (r: Result<Config, ConfigError>)
        ensures
            r is Ok <==> spec_config_ok(toml_str@),
            r matches Ok(c) ==> c@ == spec_config(toml_str@),
            !toml_parse_ok(toml_str@) ==> (r matches Err(e) && e matches ConfigError::TomlSyntax(
                _,
            )),
            toml_parse_ok(toml_str@) && toml_top_str(toml_str@, "homeserver"@) is None ==> r
                matches Err(ConfigError::MissingHomeserver),
            toml_parse_ok(toml_str@) && toml_top_str(toml_str@, "homeserver"@) is Some
                && toml_top_str(toml_str@, "username"@) is None ==> r matches Err(
                ConfigError::MissingUsername,
            ),
            toml_parse_ok(toml_str@) && toml_top_str(toml_str@, "homeserver"@) is Some
                && toml_top_str(toml_str@, "username"@) is Some && toml_top_str(
                toml_str@,
                "access_token"@,
            ) is None ==> r matches Err(ConfigError::MissingAccessToken),
            toml_parse_ok(toml_str@) && toml_top_str(toml_str@, "homeserver"@) is Some
                && toml_top_str(toml_str@, "username"@) is Some && toml_top_str(
                toml_str@,
                "access_token"@,
            ) is Some && toml_top_str(toml_str@, "help_file"@) is None ==> r matches Err(
                ConfigError::MissingHelpFile,
            ),
            r matches Err(ConfigError::InvalidFormat(v)) ==> ((toml_top_str(
                toml_str@,
                "help_format"@,
            ) == Some(v@) || toml_sec_str(toml_str@, "join_detection"@, "welcome_format"@) == Some(
                v@,
            )) && spec_parse_format(v@) is None),
            spec_required_fields_ok(toml_str@) ==> (match toml_top_str(
                toml_str@,
                "help_format"@,
            ) {
                Some(f) => spec_parse_format(f) is None ==> (r matches Err(
                    ConfigError::InvalidFormat(v),
                ) && v@ == f),
                None => true,
            }),
            spec_required_fields_ok(toml_str@) && (match toml_top_str(toml_str@, "help_format"@) {
                Some(f) => spec_parse_format(f) is Some,
                None => true,
            }) ==> (match toml_sec_str(toml_str@, "join_detection"@, "welcome_format"@) {
                Some(w) => spec_parse_format(w) is None ==> (r matches Err(
                    ConfigError::InvalidFormat(v),
                ) && v@ == w),
                None => true,
            }),
    {
        let doc = match toml_parse(toml_str) {
            Ok(d) => d,
            Err(detail) => {
                return Err(ConfigError::TomlSyntax(detail));
            },
        };
        let homeserver = match doc.top_str("homeserver") {
            Some(v) => v,
            None => {
                return Err(ConfigError::MissingHomeserver);
            },
        };
        let username = match doc.top_str("username") {
            Some(v) => v,
            None => {
                return Err(ConfigError::MissingUsername);
            },
        };
        let access_token = match doc.top_str("access_token") {
            Some(v) => v,
            None => {
                return Err(ConfigError::MissingAccessToken);
            },
        };
        let log_file = match doc.top_str("log_file") {
            Some(v) => v,
            None => String::from_str("bot.log"),
        };
        let working_dir = match doc.top_str("working_directory") {
            Some(v) => v,
            None => String::from_str("."),
        };
        let help_file = match doc.top_str("help_file") {
            Some(v) => v,
            None => {
                return Err(ConfigError::MissingHelpFile);
            },
        };
        let help_format = match doc.top_str("help_format") {
            Some(f) => match parse_help_format(f.as_str()) {
                Some(x) => x,
                None => {
                    return Err(ConfigError::InvalidFormat(f));
                },
            },
            None => HelpFormat::Plain,
        };
        let bot_filtering = parse_bot_filtering(&doc);
        let join_detection = match parse_join_detection(&doc) {
            Ok(c) => c,
            Err(e) => {
                return Err(e);
            },
        };
        Ok(
            Config {
                homeserver,
                username,
                access_token,
                log_file,
                working_dir,
                help_file,
                help_format,
                bot_filtering,
                join_detection,
            },
        )
    }
}

/// One report line: `prefix` followed by `value`.
fn labeled(prefix: &str, value: &str) -> (r: String)
    ensures
        r@ == prefix@ + value@,
{
    let mut s = prefix.to_owned();
    s.append(value);
    s
}

/// Each of the items on a line of its own, indented under a section
/// header.
pub open spec fn spec_indented(items: Seq<Seq<char>>) -> Seq<Seq<char>> {
    Seq::new(items.len(), |k: int| "      "@ + items[k])
}

/// Pushes each item on a line of its own, indented under its section.
fn push_indented(out: &mut Vec<String>, items: &Vec<String>)
    ensures
        final(out).deep_view() == old(out).deep_view() + spec_indented(items.deep_view()),
{
    let mut i: usize = 0;
    while i < items.len()
        invariant
            i <= items.len(),
            out.deep_view() == old(out).deep_view() + spec_indented(items.deep_view()).take(
                i as int,
            ),
        decreases items.len() - i,
    {
        let ghost prior = out.deep_view();
        let line = labeled("      ", items[i].as_str());
        out.push(line);
        proof {
            assert(items.deep_view()[i as int] == items@[i as int]@);
            assert(out.deep_view() =~= prior + seq![
                spec_indented(items.deep_view())[i as int],
            ]);
            assert(spec_indented(items.deep_view()).take(i + 1 as int) =~= spec_indented(
                items.deep_view(),
            ).take(i as int) + seq![spec_indented(items.deep_view())[i as int]]);
        }
        i += 1;
    }
    proof {
        assert(spec_indented(items.deep_view()).take(items.len() as int) =~= spec_indented(
            items.deep_view(),
        ));
    }
}

/// The opening lines of the report: the flat settings, then the
/// filtering section's flags.
pub open spec fn spec_head_lines(c: ConfigView) -> Seq<Seq<char>> {
    seq![
        "Configuration:"@,
        "  Homeserver: "@ + c.homeserver,
        "  Username: "@ + c.username,
        "  Access Token: "@ + (if c.access_token.len() == 0 {
            "[empty]"@
        } else {
            "[set]"@
        }),
        "  Log File: "@ + c.log_file,
        "  Working Directory: "@ + c.working_dir,
        "  Help File: "@ + c.help_file,
        "  Help Format: "@ + spec_format_label(c.help_format),
        "  Bot Filtering:"@,
        "    Ignore Self: "@ + spec_bool_str(c.bot_filtering.ignore_self),
        "    Ignore Bots: "@ + spec_bool_str(c.bot_filtering.ignore_bots),
    ]
}

/// A section list: its header and one indented line per item, or the
/// given line where the list is empty.
pub open spec fn spec_list_block(
    header: Seq<char>,
    items: Seq<Seq<char>>,
    when_empty: Seq<char>,
) -> Seq<Seq<char>> {
    if items.len() > 0 {
        seq![header] + spec_indented(items)
    } else {
        seq![when_empty]
    }
}

/// The closing lines: the welcome settings, present only when welcome
/// messages are switched on.
pub open spec fn spec_tail_lines(c: ConfigView) -> Seq<Seq<char>> {
    seq!["    Send Welcome: "@ + spec_bool_str(c.join_detection.send_welcome)] + (
    if c.join_detection.send_welcome {
        seq![
            "    Welcome Message: "@ + c.join_detection.welcome_message,
            "    Welcome Format: "@ + spec_format_label(c.join_detection.welcome_format),
            "    Welcome Timeout: "@ + spec_u64_string(
                c.join_detection.welcome_timeout_seconds as nat,
            ) + " seconds"@,
        ]
    } else {
        Seq::empty()
    })
}

/// The whole configuration written out, line by line.
pub open spec fn spec_config_lines(c: ConfigView) -> Seq<Seq<char>> {
    spec_head_lines(c) + spec_list_block(
        "    Ignored Users:"@,
        c.bot_filtering.ignored_users,
        "    Ignored Users: [none]"@,
    ) + seq!["  Join Detection:"@, "    Enabled: "@ + spec_bool_str(c.join_detection.enabled)]
        + spec_list_block(
        "    Monitored Rooms:"@,
        c.join_detection.monitored_rooms,
        "    Monitored Rooms: [all rooms]"@,
    ) + spec_tail_lines(c)
}

impl Config {
    /// The configuration written out for the startup report, one line
    /// per entry, secrets reduced to whether they are set.
    pub fn describe_lines(&self) -> (r: Vec<String>)
        ensures
            r.deep_view() == spec_config_lines(self@),
    {
        let mut out: Vec<String> = Vec::new();
        out.push(String::from_str("Configuration:"));
        out.push(labeled("  Homeserver: ", self.homeserver.as_str()));
        out.push(labeled("  Username: ", self.username.as_str()));
        out.push(
            labeled(
                "  Access Token: ",
                if self.access_token.as_str().is_empty() {
                    "[empty]"
                } else {
                    "[set]"
                },
            ),
        );
        out.push(labeled("  Log File: ", self.log_file.as_str()));
        out.push(labeled("  Working Directory: ", self.working_dir.as_str()));
        out.push(labeled("  Help File: ", self.help_file.as_str()));
        out.push(labeled("  Help Format: ", self.help_format.label()));
        out.push(String::from_str("  Bot Filtering:"));
        out.push(labeled("    Ignore Self: ", bool_str(self.bot_filtering.ignore_self)));
        out.push(labeled("    Ignore Bots: ", bool_str(self.bot_filtering.ignore_bots)));
        proof {
            assert(out.deep_view() =~= spec_head_lines(self@));
        }
        let ghost done = spec_head_lines(self@) + spec_list_block(
            "    Ignored Users:"@,
            self@.bot_filtering.ignored_users,
            "    Ignored Users: [none]"@,
        );
        if self.bot_filtering.ignored_users.len() > 0 {
            out.push(String::from_str("    Ignored Users:"));
            push_indented(&mut out, &self.bot_filtering.ignored_users);
            proof {
                assert(out.deep_view() =~= done);
            }
        } else {
            out.push(String::from_str("    Ignored Users: [none]"));
            proof {
                assert(out.deep_view() =~= done);
            }
        }
        out.push(String::from_str("  Join Detection:"));
        out.push(labeled("    Enabled: ", bool_str(self.join_detection.enabled)));
        let ghost done2 = done + seq![
            "  Join Detection:"@,
            "    Enabled: "@ + spec_bool_str(self@.join_detection.enabled),
        ] + spec_list_block(
            "    Monitored Rooms:"@,
            self@.join_detection.monitored_rooms,
            "    Monitored Rooms: [all rooms]"@,
        );
        if self.join_detection.monitored_rooms.len() > 0 {
            out.push(String::from_str("    Monitored Rooms:"));
            push_indented(&mut out, &self.join_detection.monitored_rooms);
            proof {
                assert(out.deep_view() =~= done2);
            }
        } else {
            out.push(String::from_str("    Monitored Rooms: [all rooms]"));
            proof {
                assert(out.deep_view() =~= done2);
            }
        }
        out.push(labeled("    Send Welcome: ", bool_str(self.join_detection.send_welcome)));
        if self.join_detection.send_welcome {
            out.push(
                labeled("    Welcome Message: ", self.join_detection.welcome_message.as_str()),
            );
            out.push(labeled("    Welcome Format: ", self.join_detection.welcome_format.label()));
            let mut timeout_line = String::from_str("    Welcome Timeout: ");
            let timeout_text = u64_string(self.join_detection.welcome_timeout_seconds);
            timeout_line.append(timeout_text.as_str());
            timeout_line.append(" seconds");
            out.push(timeout_line);
        }
        proof {
            assert(out.deep_view() =~= spec_config_lines(self@));
        }
        out
    }
}

} // verus!
