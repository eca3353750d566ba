use std::fmt::Write;

use vstd::prelude::*;

use crate::error::NotificationError;
use crate::model::unix_now_secs;
use crate::probe::{is_success_code, is_success_status};
use crate::settings::FluxaConfig;
use crate::text::{
    contains, contains_text, join, lemma_contains_in_suffix, lemma_contains_start,
    lemma_join_contains_part,
};

verus! {

/// Writes each message to standard output; it is always registered.
#[derive(Debug, Clone)]
pub struct ConsoleProvider;

impl ConsoleProvider {
    pub fn new() -> (r: ConsoleProvider)
        ensures
            r == ConsoleProvider,
    {
        ConsoleProvider
    }
}

/// Push notifications through the Pushover messages API.
#[derive(Debug, Clone)]
pub struct PushoverProvider {
    pub api_key: String,
    pub user_key: String,
}

impl Default for ConsoleProvider {
    fn default() -> (r: ConsoleProvider)
        ensures
            r == ConsoleProvider,
    {
        ConsoleProvider::new()
    }
}

impl PushoverProvider {
    pub fn new(api_key: String, user_key: String) -> (r: PushoverProvider)
        ensures
            r == (PushoverProvider { api_key, user_key }),
    {
        PushoverProvider { api_key, user_key }
    }
}

/// Chat messages through the Telegram bot API.
#[derive(Debug, Clone)]
pub struct TelegramProvider {
    pub bot_token: String,
    pub chat_id: String,
}

/// The message is about a failure rather than a recovery.
pub open spec fn is_alert(message: Seq<char>) -> bool {
    contains(message, "unhealthy"@) || contains(message, "down"@)
}

/// The HTML text of a chat message sent at `timestamp`.
pub open spec fn telegram_text(message: Seq<char>, timestamp: Seq<char>) -> Seq<char> {
    let header = if is_alert(message) {
        "🚨 <b>Service Alert</b>"@
    } else {
        "✅ <b>Service Recovery</b>"@
    };
    header + "\n\n📋 <b>Message:</b> "@ + message + "\n⏰ <b>Time:</b> "@ + timestamp
        + "\n🔧 <i>Fluxa Monitor v0.1.0</i>"@
}

/// How the clock at `secs` seconds after the Unix epoch reads in UTC, if that
/// instant is representable.
pub uninterp spec fn utc_text_of(secs: u64) -> Option<Seq<char>>;

/// Relies on `chrono::DateTime::from_timestamp` (`None` outside its range) and
/// `DateTime::format`: the instant `secs` seconds after the Unix epoch, written
/// `YYYY-MM-DD HH:MM:SS UTC`; it depends on `secs` alone.
#[verifier::external_body]
fn utc_text(secs: u64) -> (r: Option<String>)
    ensures
        match r {
            Some(t) => utc_text_of(secs) == Some(t@),
            None => utc_text_of(secs) is None,
        },
{
    let at = chrono::DateTime::from_timestamp(i64::try_from(secs).ok()?, 0)?;
    let mut text = String::new();
    match write!(text, "{}", at.format("%Y-%m-%d %H:%M:%S UTC")) {
        Ok(()) => Some(text),
        Err(_) => None,
    }
}

/// The time shown in chat messages for the instant `secs`; `unknown time`
/// when that instant cannot be written as a date.
pub open spec fn timestamp_text(secs: u64) -> Seq<char> {
    match utc_text_of(secs) {
        Some(t) => t,
        None => "unknown time"@,
    }
}

/// The instant `secs` seconds after the Unix epoch as shown in chat messages.
pub fn timestamp_at(secs: u64) -> (r: String)
    ensures
        r@ == timestamp_text(secs),
{
    match utc_text(secs) {
        Some(t) => t,
        None => String::from_str("unknown time"),
    }
}

/// The current time as shown in chat messages.
fn current_timestamp() -> (r: String)
    ensures
        exists|secs: u64| r@ == #[trigger] timestamp_text(secs),
{
    let secs = unix_now_secs();
    let r = timestamp_at(secs);
    assert(r@ == timestamp_text(secs));
    r
}

impl TelegramProvider {
    pub fn new(bot_token: String, chat_id: String) -> (r: TelegramProvider)
        ensures
            r == (TelegramProvider { bot_token, chat_id }),
    {
        TelegramProvider { bot_token, chat_id }
    }

    /// The chat text for `message`, stamped with the given time.
    pub fn format_message_at(&self, message: &str, timestamp: &str) -> (r: String)
        ensures
            r@ == telegram_text(message@, timestamp@),
    {
        let alert = contains_text(message, "unhealthy") || contains_text(message, "down");
        let mut r = if alert {
            String::from_str("🚨 <b>Service Alert</b>")
        } else {
            String::from_str("✅ <b>Service Recovery</b>")
        };
        r.append("\n\n📋 <b>Message:</b> ");
        r.append(message);
        r.append("\n⏰ <b>Time:</b> ");
        r.append(timestamp);
        r.append("\n🔧 <i>Fluxa Monitor v0.1.0</i>");
        r
    }

    /// The chat text for `message`, stamped with the current time.
    pub fn format_message(&self, message: &str) -> (r: String)
        ensures
            exists|timestamp: Seq<char>| r@ == telegram_text(message@, timestamp),
    {
        let timestamp = current_timestamp();
        self.format_message_at(message, timestamp.as_str())
    }
}

/// One registered delivery channel.
#[derive(Debug, Clone)]
pub enum NotificationProvider {
    Console(ConsoleProvider),
    Pushover(PushoverProvider),
    Telegram(TelegramProvider),
}

/// What a provider needs done to deliver one message.
#[derive(Debug)]
pub enum Delivery {
    /// Write this line to standard output.
    Print { line: String },
    /// POST a JSON object with these string fields, in this order, to `url`.
    Post { url: String, fields: Vec<(String, String)> },
}

/// What came back from carrying out a `Delivery::Post`.
#[derive(Debug)]
pub enum PostResponse {
    /// No response: the request failed with this description.
    Failed { cause: String },
    /// A response with this status code, and its body text or the
    /// description of the failure to read it.
    Answered { status: u16, body: Result<String, String> },
}

pub open spec fn provider_label(p: NotificationProvider) -> Seq<char> {
    match p {
        NotificationProvider::Console(_) => "Console"@,
        NotificationProvider::Pushover(_) => "Pushover"@,
        NotificationProvider::Telegram(_) => "Telegram"@,
    }
}

pub open spec fn console_line(message: Seq<char>) -> Seq<char> {
    "🔔 [CONSOLE NOTIFICATION]: "@ + message
}

pub open spec fn telegram_url(bot_token: Seq<char>) -> Seq<char> {
    "https://api.telegram.org/bot"@ + bot_token + "/sendMessage"@
}

pub open spec fn field_is(f: (String, String), name: Seq<char>, value: Seq<char>) -> bool {
    f.0@ == name && f.1@ == value
}

/// `d` is how `p` delivers `message` at time `timestamp`.
pub open spec fn delivers(
    p: NotificationProvider,
    message: Seq<char>,
    timestamp: Seq<char>,
    d: Delivery,
) -> bool {
    match (p, d) {
        (NotificationProvider::Console(_), Delivery::Print { line }) => line@ == console_line(message),
        (NotificationProvider::Pushover(pp), Delivery::Post { url, fields }) => {
            &&& url@ == "https://api.pushover.net/1/messages.json"@
            &&& fields@.len() == 3
            &&& field_is(fields@[0], "token"@, pp.api_key@)
            &&& field_is(fields@[1], "user"@, pp.user_key@)
            &&& field_is(fields@[2], "message"@, message)
        },
        (NotificationProvider::Telegram(tp), Delivery::Post { url, fields }) => {
            &&& url@ == telegram_url(tp.bot_token@)
            &&& fields@.len() == 3
            &&& field_is(fields@[0], "chat_id"@, tp.chat_id@)
            &&& field_is(fields@[1], "text"@, telegram_text(message, timestamp))
            &&& field_is(fields@[2], "parse_mode"@, "HTML"@)
        },
        _ => false,
    }
}

pub open spec fn send_failed_with(r: Result<(), NotificationError>, text: Seq<char>) -> bool {
    match r {
        Err(NotificationError::SendFailed { message }) => message@ == text,
        _ => false,
    }
}

/// `r` is what provider `p` reports after its post came back with `resp`.
pub open spec fn settles(
    p: NotificationProvider,
    resp: PostResponse,
    r: Result<(), NotificationError>,
) -> bool {
    match p {
        NotificationProvider::Console(_) => r is Ok,
        NotificationProvider::Pushover(_) => match resp {
            PostResponse::Failed { cause } => r == Err::<(), NotificationError>(
                NotificationError::HttpRequest(cause),
            ),
            PostResponse::Answered { status, body } => if is_success_code(status) {
                r is Ok
            } else {
                match body {
                    Ok(text) => send_failed_with(r, "Pushover API error: "@ + text@),
                    Err(e) => r == Err::<(), NotificationError>(NotificationError::HttpRequest(e)),
                }
            },
        },
        NotificationProvider::Telegram(_) => match resp {
            PostResponse::Failed { cause } => send_failed_with(r, "HTTP request failed: "@ + cause@),
            PostResponse::Answered { status, body } => if is_success_code(status) {
                r is Ok
            } else {
                match body {
                    Ok(text) => send_failed_with(r, "Telegram API error: "@ + text@),
                    Err(_) => send_failed_with(r, "Telegram API error: "@ + "Unknown error"@),
                }
            },
        },
    }
}

fn json_field(name: &str, value: &str) -> (r: (String, String))
    ensures
        r.0@ == name@,
        r.1@ == value@,
{
    (String::from_str(name), String::from_str(value))
}

impl NotificationProvider {
    /// The name used in logs and in aggregated failures.
    pub fn provider_name(&self) -> (r: &'static str)
        ensures
            r@ == provider_label(*self),
    {
        match self {
            NotificationProvider::Console(_) => "Console",
            NotificationProvider::Pushover(_) => "Pushover",
            NotificationProvider::Telegram(_) => "Telegram",
        }
    }

    /// How this provider delivers `message`, stamped with `timestamp` where
    /// the provider shows a time.
    pub fn delivery_at(&self, message: &str, timestamp: &str) -> (r: Delivery)
        ensures
            delivers(*self, message@, timestamp@, r),
    {
        match self {
            NotificationProvider::Console(_) => {
                let mut line = String::from_str("🔔 [CONSOLE NOTIFICATION]: ");
                line.append(message);
                Delivery::Print { line }
            },
            NotificationProvider::Pushover(pp) => {
                let mut fields: Vec<(String, String)> = Vec::new();
                fields.push(json_field("token", pp.api_key.as_str()));
                fields.push(json_field("user", pp.user_key.as_str()));
                fields.push(json_field("message", message));
                Delivery::Post { url: String::from_str("https://api.pushover.net/1/messages.json"), fields }
            },
            NotificationProvider::Telegram(tp) => {
                let mut url = String::from_str("https://api.telegram.org/bot");
                url.append(tp.bot_token.as_str());
                url.append("/sendMessage");
                let text = tp.format_message_at(message, timestamp);
                let mut fields: Vec<(String, String)> = Vec::new();
                fields.push(json_field("chat_id", tp.chat_id.as_str()));
                fields.push(json_field("text", text.as_str()));
                fields.push(json_field("parse_mode", "HTML"));
                Delivery::Post { url, fields }
            },
        }
    }

    /// How this provider delivers `message` now.
    pub fn delivery(&self, message: &str) -> (r: Delivery)
        ensures
            exists|timestamp: Seq<char>| delivers(*self, message@, timestamp, r),
    {
        let timestamp = current_timestamp();
        self.delivery_at(message, timestamp.as_str())
    }

    /// The provider's verdict on its post: success exactly on a 2xx answer
    /// (a console line always succeeds).
    pub fn post_outcome(&self, resp: &PostResponse) -> (r: Result<(), NotificationError>)
        ensures
            settles(*self, *resp, r),
    {
        match self {
            NotificationProvider::Console(_) => Ok(()),
            NotificationProvider::Pushover(_) => match resp {
                PostResponse::Failed { cause } => Err(NotificationError::HttpRequest(cause.clone())),
                PostResponse::Answered { status, body } => {
                    if is_success_status(*status) {
                        Ok(())
                    } else {
                        match body {
                            Ok(text) => {
                                let mut message = String::from_str("Pushover API error: ");
                                message.append(text.as_str());
                                Err(NotificationError::SendFailed { message })
                            },
                            Err(e) => Err(NotificationError::HttpRequest(e.clone())),
                        }
                    }
                },
            },
            NotificationProvider::Telegram(_) => match resp {
                PostResponse::Failed { cause } => {
                    let mut message = String::from_str("HTTP request failed: ");
                    message.append(cause.as_str());
                    Err(NotificationError::SendFailed { message })
                },
                PostResponse::Answered { status, body } => {
                    if is_success_status(*status) {
                        Ok(())
                    } else {
                        let mut message = String::from_str("Telegram API error: ");
                        match body {
                            Ok(text) => message.append(text.as_str()),
                            Err(_) => message.append("Unknown error"),
                        }
                        Err(NotificationError::SendFailed { message })
                    }
                },
            },
        }
    }
}

/// The failure line of one provider: its name and the text of its error.
pub open spec fn failure_line(p: NotificationProvider, r: Result<(), NotificationError>) -> Seq<char> {
    provider_label(p) + ": "@ + match r {
        Ok(_) => Seq::empty(),
        Err(e) => e.spec_message(),
    }
}

pub open spec fn failure_lines(
    ps: Seq<NotificationProvider>,
    rs: Seq<Result<(), NotificationError>>,
) -> Seq<Seq<char>> {
    Seq::new(ps.len(), |i: int| failure_line(ps[i], rs[i]))
}

/// A send succeeds when no provider is registered or at least one delivered.
pub open spec fn dispatch_succeeds(
    ps: Seq<NotificationProvider>,
    rs: Seq<Result<(), NotificationError>>,
) -> bool {
    ps.len() == 0 || exists|i: int| 0 <= i < rs.len() && (#[trigger] rs[i]) is Ok
}

/// The text of a send in which every provider failed.
pub open spec fn dispatch_failure_text(
    ps: Seq<NotificationProvider>,
    rs: Seq<Result<(), NotificationError>>,
) -> Seq<char> {
    "All providers failed: "@ + join(failure_lines(ps, rs), ", "@)
}

/// The fan-out over an ordered, append-only list of providers.
#[derive(Debug)]
pub struct NotificationManager {
    providers: Vec<NotificationProvider>,
}

impl View for NotificationManager {
    type V = Seq<NotificationProvider>;

    closed spec fn view(&self) -> Seq<NotificationProvider> {
        self.providers@
    }
}

/// The providers a configuration asks for, in registration order: the console
/// always, Pushover when both its keys are non-empty, Telegram when its
/// section is present.
pub open spec fn configured_providers(config: FluxaConfig) -> Seq<NotificationProvider> {
    let console = seq![NotificationProvider::Console(ConsoleProvider)];
    let pushover = if config.pushover_api_key@.len() > 0 && config.pushover_user_key@.len() > 0 {
        seq![
            NotificationProvider::Pushover(
                PushoverProvider {
                    api_key: config.pushover_api_key,
                    user_key: config.pushover_user_key,
                },
            ),
        ]
    } else {
        Seq::empty()
    };
    let telegram = match config.telegram {
        Some(t) => seq![
            NotificationProvider::Telegram(
                TelegramProvider { bot_token: t.bot_token, chat_id: t.chat_id },
            ),
        ],
        None => Seq::empty(),
    };
    console + pushover + telegram
}

impl Default for NotificationManager {
    fn default() -> (r: NotificationManager)
        ensures
            r@ == Seq::<NotificationProvider>::empty(),
    {
        NotificationManager::new()
    }
}

impl NotificationManager {
    /// A dispatcher with no provider.
    pub fn new() -> (r: NotificationManager)
        ensures
            r@ == Seq::<NotificationProvider>::empty(),
    {
        NotificationManager { providers: Vec::new() }
    }

    /// The dispatcher for a configuration.
    pub fn from_config(config: &FluxaConfig) -> (r: NotificationManager)
        ensures
            r@ == configured_providers(*config),
    {
        let mut manager = NotificationManager::new();
        manager.add_provider(NotificationProvider::Console(ConsoleProvider::new()));
        if !config.pushover_api_key.as_str().is_empty() && !config.pushover_user_key.as_str().is_empty() {
            manager.add_provider(
                NotificationProvider::Pushover(
                    PushoverProvider::new(
                        config.pushover_api_key.clone(),
                        config.pushover_user_key.clone(),
                    ),
                ),
            );
        }
        match &config.telegram {
            Some(t) => {
                manager.add_provider(
                    NotificationProvider::Telegram(
                        TelegramProvider::new(t.bot_token.clone(), t.chat_id.clone()),
                    ),
                );
            },
            None => {},
        }
        proof {
            assert(manager@ =~= configured_providers(*config));
        }
        manager
    }

    /// Registers one more provider after those already there.
    pub fn add_provider(&mut self, provider: NotificationProvider)
        ensures
            final(self)@ == old(self)@.push(provider),
    {
        self.providers.push(provider);
    }

    /// The registered providers, in order.
    pub fn providers(&self) -> (r: &Vec<NotificationProvider>)
        ensures
            r@ == self@,
    {
        &self.providers
    }

    /// The overall result of one send, from each provider's result in
    /// registration order: success when at least one delivered (or none is
    /// registered), otherwise a failure that lists every provider's error.
    pub fn combine_outcomes(&self, results: &Vec<Result<(), NotificationError>>) -> (r: Result<
        (),
        NotificationError,
    >)
        requires
            results@.len() == self@.len(),
        ensures
            (r is Ok) == dispatch_succeeds(self@, results@),
            r is Err ==> send_failed_with(r, dispatch_failure_text(self@, results@)),
    {
        let n = self.providers.len();
        if n == 0 {
            return Ok(());
        }
        let ghost lines = failure_lines(self@, results@);
        let mut any_ok = false;
        let mut text = String::new();
        let mut i: usize = 0;
        while i < n
            invariant
                n == self@.len(),
                n == results@.len(),
                lines == failure_lines(self@, results@),
                0 < n,
                i <= n,
                text@ == join(lines.take(i as int), ", "@),
                any_ok == exists|j: int| 0 <= j < i && (#[trigger] results@[j]) is Ok,
            decreases n - i,
        {
            let mut line = String::from_str(self.providers[i].provider_name());
            line.append(": ");
            match &results[i] {
                Ok(_) => {
                    any_ok = true;
                },
                Err(e) => {
                    line.append(e.message().as_str());
                },
            }
            if i > 0 {
                text.append(", ");
            }
            text.append(line.as_str());
            proof {
                assert(line@ == lines[i as int]);
                assert(lines.take(i + 1).drop_last() =~= lines.take(i as int));
                assert(lines.take(i + 1).last() == lines[i as int]);
                if i == 0 {
                    assert(text@ =~= join(lines.take(1), ", "@));
                }
            }
            i = i + 1;
        }
        if any_ok {
            Ok(())
        } else {
            proof {
                assert(lines.take(n as int) =~= lines);
            }
            let mut message = String::from_str("All providers failed: ");
            message.append(text.as_str());
            Err(NotificationError::SendFailed { message })
        }
    }
}

/// Partial failure is tolerated: one provider that delivered makes the send
/// succeed, whatever the others did; when every provider of a non-empty list
/// failed, the failure text names each of them.
pub proof fn lemma_dispatch_tolerates_partial_failure(
    ps: Seq<NotificationProvider>,
    rs: Seq<Result<(), NotificationError>>,
)
    requires
        rs.len() == ps.len(),
    ensures
        (exists|i: int| 0 <= i < rs.len() && (#[trigger] rs[i]) is Ok) ==> dispatch_succeeds(ps, rs),
        (ps.len() > 0 && forall|i: int| 0 <= i < rs.len() ==> (#[trigger] rs[i]) is Err) ==> {
            &&& !dispatch_succeeds(ps, rs)
            &&& forall|i: int|
                0 <= i < ps.len() ==> contains(
                    dispatch_failure_text(ps, rs),
                    #[trigger] provider_label(ps[i]),
                )
        },
{
    if ps.len() > 0 && forall|i: int| 0 <= i < rs.len() ==> (#[trigger] rs[i]) is Err {
        let lines = failure_lines(ps, rs);
        assert forall|i: int| 0 <= i < ps.len() implies contains(
            dispatch_failure_text(ps, rs),
            #[trigger] provider_label(ps[i]),
        ) by {
            lemma_join_contains_part(lines, ", "@, i);
            let rest = ": "@ + match rs[i] {
                Ok(_) => Seq::empty(),
                Err(e) => e.spec_message(),
            };
            assert(lines[i] =~= provider_label(ps[i]) + rest);
            lemma_contains_start(join(lines, ", "@), provider_label(ps[i]), rest);
            lemma_contains_in_suffix(
                "All providers failed: "@,
                join(lines, ", "@),
                provider_label(ps[i]),
            );
        }
    }
}

} // verus!
