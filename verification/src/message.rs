//! Notification bodies, the request that carries one, and the configuration
//! of the endpoint that receives it.

use crate::invocation::USAGE;
use crate::text::{decimal_digits, push_decimal, texts};
use vstd::prelude::*;
use vstd::string::*;

verus! {

/// The pattern of the timestamp at the head of a notification, as chrono
/// reads it.
pub const TIMESTAMP_PATTERN: &'static str = "%Y-%m-%d %H:%M:%S";

/// The base address of the endpoint where none is configured.
pub const DEFAULT_API_BASE: &'static str = "https://api.telegram.org";

/// The body of a notification: the timestamp and the host in square brackets on
/// one line, the text below.
pub open spec fn message_text(ts: Seq<char>, host: Seq<char>, text: Seq<char>) -> Seq<char> {
    seq!['['] + ts + seq![']', ' ', '['] + host + seq![']', '\n'] + text
}

/// Whether `body` is `text` under a head of the timestamp `ts` and some host.
pub open spec fn is_stamped(body: Seq<char>, ts: Seq<char>, text: Seq<char>) -> bool {
    exists|host: Seq<char>| body == message_text(ts, host, text)
}

/// The address that notifications are posted to.
pub open spec fn endpoint_text(base: Seq<char>, token: Seq<char>) -> Seq<char> {
    base + "/bot"@ + token + "/sendMessage"@
}

/// How many seconds a delivery may take.
pub const DELIVERY_TIMEOUT_SECS: u64 = 10;

/// The detail of a delivery that the endpoint answered with `status`.
pub open spec fn status_text(status: u16) -> Seq<char> {
    "endpoint answered with status "@ + decimal_digits(status as nat)
}

/// Formats a notification body from a timestamp, a host name and the message.
pub fn format_message(ts: &str, host: &str, text: &str) -> (body: String)
    ensures
        body@ == message_text(ts@, host@, text@),
{
    proof {
        reveal_strlit("[");
        reveal_strlit("] [");
        reveal_strlit("]\n");
    }
    let mut body = String::from_str("[");
    body.append(ts);
    body.append("] [");
    body.append(host);
    body.append("]\n");
    body.append(text);
    body
}

/// Calls `hostname::get` and reads the name as text, the empty name where the
/// system gives none. Trusted; the machine decides the text, so nothing is
/// claimed of it.
#[verifier::external_body]
fn host_name_text() -> (text: String) {
    hostname::get().unwrap_or_default().to_string_lossy().into_owned()
}

/// Puts the timestamp `ts` and this machine's host name above `text`.
pub fn stamp_message(ts: &str, text: &str) -> (body: String)
    ensures
        is_stamped(body@, ts@, text@),
{
    let host = host_name_text();
    format_message(ts, host.as_str(), text)
}

/// What is posted for one notification.
#[derive(Debug)]
pub struct TelegramPayload {
    /// The chat that receives the message.
    pub chat_id: String,
    /// The message.
    pub text: String,
    /// Whether the receiver leaves links in the message unexpanded.
    pub disable_web_page_preview: bool,
}

/// The request body for `body` sent to `chat_id`. Link previews are always
/// switched off.
pub fn telegram_payload(chat_id: &str, body: &str) -> (payload: TelegramPayload)
    ensures
        payload.chat_id@ == chat_id@,
        payload.text@ == body@,
        payload.disable_web_page_preview,
{
    TelegramPayload {
        chat_id: String::from_str(chat_id),
        text: String::from_str(body),
        disable_web_page_preview: true,
    }
}

/// The address to post to for the bot `token` at `base`.
pub fn endpoint_url(base: &str, token: &str) -> (url: String)
    ensures
        url@ == endpoint_text(base@, token@),
{
    let mut url = String::from_str(base);
    url.append("/bot");
    url.append(token);
    url.append("/sendMessage");
    url
}

/// Judges the status that the endpoint answered with: one from 200 to 299 is
/// a delivery, any other a fault that names the status.
pub fn check_status(status: u16) -> (res: Result<(), String>)
    ensures
        res is Ok <==> 200 <= status <= 299,
        res matches Err(detail) ==> detail@ == status_text(status),
{
    if 200 <= status && status <= 299 {
        Ok(())
    } else {
        let mut detail = String::from_str("endpoint answered with status ");
        push_decimal(&mut detail, status as u64);
        Err(detail)
    }
}

/// One request to the endpoint.
#[derive(Debug)]
pub struct Delivery {
    /// The address to post to.
    pub url: String,
    /// What to post.
    pub payload: TelegramPayload,
}

/// A required setting that was not given.
#[derive(Debug, Clone, Copy, PartialEq, Eq, Structural)]
pub enum ConfigError {
    /// No bot token.
    MissingToken,
    /// No chat identifier.
    MissingChatId,
}

/// The exit code where a required setting is missing.
pub const EXIT_CONFIG: i32 = 2;

/// The environment variable that holds the bot token.
pub const TOKEN_VAR: &'static str = "TG_BOT_TOKEN";

/// The environment variable that holds the chat identifier.
pub const CHAT_VAR: &'static str = "TG_CHAT_ID";

/// The environment variable that may hold the base address of the endpoint.
pub const BASE_VAR: &'static str = "TG_API_BASE";

impl ConfigError {
    /// The environment variable whose absence this error reports.
    pub open spec fn variable(&self) -> Seq<char> {
        match self {
            ConfigError::MissingToken => TOKEN_VAR@,
            ConfigError::MissingChatId => CHAT_VAR@,
        }
    }

    /// The line that reports this error.
    pub open spec fn text(&self) -> Seq<char> {
        "Missing required environment variable "@ + self.variable() + "."@
    }

    /// A line that names the variable that was not set.
    pub fn describe(&self) -> (line: String)
        ensures
            line@ == self.text(),
    {
        let mut line = String::from_str("Missing required environment variable ");
        match self {
            ConfigError::MissingToken => line.append(TOKEN_VAR),
            ConfigError::MissingChatId => line.append(CHAT_VAR),
        }
        line.append(".");
        line
    }

    /// The lines to print for this error: what is missing, then the usage
    /// text.
    pub fn lines(&self) -> (lines: Vec<String>)
        ensures
            texts(lines@) == seq![self.text(), USAGE@],
    {
        let mut lines: Vec<String> = Vec::new();
        lines.push(self.describe());
        lines.push(String::from_str(USAGE));
        assert(texts(lines@) =~= seq![self.text(), USAGE@]);
        lines
    }

    /// The exit code of a start that found this setting missing.
    pub fn exit_code(&self) -> (code: i32)
        ensures
            code == EXIT_CONFIG,
    {
        EXIT_CONFIG
    }
}

/// The settings of the notification endpoint, made once at startup.
#[derive(Debug)]
pub struct NotifierConfig {
    /// The base address of the endpoint.
    pub api_base: String,
    /// The token that authorises the bot.
    pub bot_token: String,
    /// The chat that receives the notifications.
    pub chat_id: String,
}

impl NotifierConfig {
    /// The configuration that `from_values` builds from the given settings.
    pub open spec fn resolved(
        bot_token: Option<String>,
        chat_id: Option<String>,
        api_base: Option<String>,
    ) -> Result<(Seq<char>, Seq<char>, Seq<char>), ConfigError> {
        match (bot_token, chat_id) {
            (None, _) => Err(ConfigError::MissingToken),
            (Some(_), None) => Err(ConfigError::MissingChatId),
            (Some(token), Some(chat)) => Ok(
                (
                    match api_base {
                        Some(base) => base@,
                        None => DEFAULT_API_BASE@,
                    },
                    token@,
                    chat@,
                ),
            ),
        }
    }

    /// Builds the configuration from the settings as they were found. The
    /// token is looked at first, then the chat identifier; the base address
    /// falls back to `DEFAULT_API_BASE`.
    pub fn from_values(
        bot_token: Option<String>,
        chat_id: Option<String>,
        api_base: Option<String>,
    ) -> (res: Result<NotifierConfig, ConfigError>)
        ensures
            match res {
                Ok(config) => Self::resolved(bot_token, chat_id, api_base) == Ok::<
                    (Seq<char>, Seq<char>, Seq<char>),
                    ConfigError,
                >((config.api_base@, config.bot_token@, config.chat_id@)),
                Err(e) => Self::resolved(bot_token, chat_id, api_base) == Err::<
                    (Seq<char>, Seq<char>, Seq<char>),
                    ConfigError,
                >(e),
            },
    {
        let bot_token = match bot_token {
            Some(token) => token,
            None => {
                return Err(ConfigError::MissingToken);
            },
        };
        let chat_id = match chat_id {
            Some(chat) => chat,
            None => {
                return Err(ConfigError::MissingChatId);
            },
        };
        let api_base = match api_base {
            Some(base) => base,
            None => String::from_str(DEFAULT_API_BASE),
        };
        Ok(NotifierConfig { api_base, bot_token, chat_id })
    }

    /// The address that this configuration posts to.
    pub fn endpoint(&self) -> (url: String)
        ensures
            url@ == endpoint_text(self.api_base@, self.bot_token@),
    {
        endpoint_url(self.api_base.as_str(), self.bot_token.as_str())
    }

    /// Prepares the delivery of `text` as written at `ts` on `host`: puts both
    /// above it and addresses it to the configured chat.
    pub fn prepare(&self, ts: &str, host: &str, text: &str) -> (delivery: Delivery)
        ensures
            delivery.url@ == endpoint_text(self.api_base@, self.bot_token@),
            delivery.payload.chat_id@ == self.chat_id@,
            delivery.payload.text@ == message_text(ts@, host@, text@),
            delivery.payload.disable_web_page_preview,
    {
        let body = format_message(ts, host, text);
        Delivery { url: self.endpoint(), payload: self.payload(body.as_str()) }
    }

    /// Prepares the delivery of `text` as written at `ts` on this machine,
    /// whose host name stands beside the timestamp.
    pub fn prepare_here(&self, ts: &str, text: &str) -> (delivery: Delivery)
        ensures
            delivery.url@ == endpoint_text(self.api_base@, self.bot_token@),
            delivery.payload.chat_id@ == self.chat_id@,
            is_stamped(delivery.payload.text@, ts@, text@),
            delivery.payload.disable_web_page_preview,
    {
        let host = host_name_text();
        self.prepare(ts, host.as_str(), text)
    }

    /// The request body for `body` under this configuration.
    pub fn payload(&self, body: &str) -> (payload: TelegramPayload)
        ensures
            payload.chat_id@ == self.chat_id@,
            payload.text@ == body@,
            payload.disable_web_page_preview,
    {
        telegram_payload(self.chat_id.as_str(), body)
    }
}

} // verus!
