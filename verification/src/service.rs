//! Configuration of the services and the decisions of their main loops.
use vstd::prelude::*;
use vstd::std_specs::convert::FromSpecImpl;
use vstd::string::StringExecFns;
use vstd::arithmetic::power2::{lemma2_to64, lemma2_to64_rest, lemma_pow2_strictly_increases, lemma_pow2_unfold, pow2};
use crate::brooch::BroochService;
use crate::ext_chrono::{time_delta_exists, time_delta_secs_valid};
use crate::text::{escape_html, nat_decimal, push_decimal_u64, push_escaped};

verus! {

/// Where the Telegram commands find the RYG database.
#[derive(Debug, Clone)]
pub struct DatabaseInterface {
    database_url: String,
}

impl DatabaseInterface {
    pub fn new(database_url: String) -> (r: Self)
        ensures
            r.spec_database_url() == database_url@,
    {
        Self { database_url }
    }

    pub closed spec fn spec_database_url(&self) -> Seq<char> {
        self.database_url@
    }

    /// The URL of the database.
    pub fn database_url(&self) -> (r: &str)
        ensures
            r@ == self.spec_database_url(),
    {
        self.database_url.as_str()
    }
}

/// A chat identifier read from the configuration.
#[derive(Debug, Clone, Copy, PartialEq, Eq, Structural)]
pub struct ChatIdConversionHack(pub i64);

impl From<i64> for ChatIdConversionHack {
    fn from(value: i64) -> (r: Self) {
        Self(value)
    }
}

impl FromSpecImpl<i64> for ChatIdConversionHack {
    open spec fn obeys_from_spec() -> bool {
        true
    }

    open spec fn from_spec(v: i64) -> Self {
        ChatIdConversionHack(v)
    }
}

/// A time span in seconds read from the configuration.
#[derive(Debug, Clone, Copy, PartialEq, Eq, Structural)]
pub struct TimeDeltaConversionHack(pub i64);

impl From<i64> for TimeDeltaConversionHack {
    fn from(value: i64) -> (r: Self) {
        Self(value)
    }
}

impl FromSpecImpl<i64> for TimeDeltaConversionHack {
    open spec fn obeys_from_spec() -> bool {
        true
    }

    open spec fn from_spec(v: i64) -> Self {
        TimeDeltaConversionHack(v)
    }
}

impl TimeDeltaConversionHack {
    /// The seconds, where a time span can hold them.
    pub fn to_time_delta_secs(self) -> (r: Result<i64, ()>)
        ensures
            r matches Ok(secs) ==> secs == self.0 && time_delta_secs_valid(secs as int),
            r is Err <==> !time_delta_secs_valid(self.0 as int),
    {
        if time_delta_exists(self.0) {
            Ok(self.0)
        } else {
            Err(())
        }
    }
}

/// How long a service waits before it is restarted: one second at first,
/// twice as long after each exit.
#[derive(Debug, Clone, Copy, PartialEq, Eq, Structural)]
pub struct Backoff {
    pub secs: u64,
}

impl Backoff {
    /// The wait in seconds before the first restart.
    pub open spec fn initial_secs() -> int {
        1
    }

    /// The wait before the first restart.
    pub fn initial() -> (r: Self)
        ensures
            r.secs == Self::initial_secs(),
    {
        Backoff { secs: 1 }
    }

    /// The wait after this one.
    pub fn doubled(self) -> (r: Self)
        requires
            self.secs * 2 <= u64::MAX,
        ensures
            r.secs == self.secs * 2,
    {
        Backoff { secs: self.secs * 2 }
    }
}

/// A service that has exited `k` times waits 2^k seconds before it starts
/// again: the first wait is one second ([`Backoff::initial`]), and
/// [`Backoff::doubled`] may be applied to the wait after `k` exits, which is
/// then the wait after `k + 1` exits, for every `k` below 63.
pub proof fn law_restart_wait(b: Backoff, k: nat)
    requires
        k < 63,
        b.secs == pow2(k),
    ensures
        Backoff::initial_secs() == pow2(0),
        b.secs * 2 <= u64::MAX,
        b.secs * 2 == pow2(k + 1),
{
    lemma2_to64();
    lemma2_to64_rest();
    lemma_pow2_unfold(k + 1);
    if k + 1 < 63 {
        lemma_pow2_strictly_increases(k + 1, 63);
    }
}

/// The Telegram service, as far as its decisions need it: the database, the
/// token and identity of the bot, and the chat that is told of its start.
#[derive(Debug, Clone)]
pub struct TelegramService {
    pub database_url: String,
    pub bot_token: String,
    pub me_username: String,
    pub me_id: u64,
    pub notification_chat_id: Option<i64>,
}

/// The service has no chat to notify.
#[derive(Debug, Clone, Copy, PartialEq, Eq, Structural)]
pub struct NotificationDisabled;

impl NotificationDisabled {
    pub fn message(&self) -> (r: &'static str)
        ensures
            r@ == "La chat di notifica non è abilitata."@,
    {
        "La chat di notifica non è abilitata."
    }
}

/// The notice that the service has started: the version (linked to its
/// release) and the bot's username and identifier.
pub open spec fn start_notification_text(version: Seq<char>, username: Seq<char>, id: nat) -> Seq<char> {
    "💠 <b>Servizio Telegram avviato</b>\n\nRoyalnet <a href='https://github.com/RYGhub/royalnet/releases/tag/v"@
        + escape_html(version) + "'>v"@ + escape_html(version) + "</a>\n\n@"@ + escape_html(username)
        + " [<code>"@ + escape_html(nat_decimal(id)) + "</code>]"@
}

impl TelegramService {
    /// The chat to notify of the start and the text of the notice.
    pub fn start_notification(&self, version: &str) -> (r: Result<(i64, String), NotificationDisabled>)
        ensures
            self.notification_chat_id is None ==> r is Err,
            self.notification_chat_id matches Some(chat) ==> r matches Ok((c, text)) && c == chat
                && text@ == start_notification_text(version@, self.me_username@, self.me_id as nat),
    {
        let chat = match self.notification_chat_id {
            Some(chat) => chat,
            None => return Err(NotificationDisabled),
        };
        let mut id = String::new();
        push_decimal_u64(&mut id, self.me_id);
        let mut text = String::from_str(
            "💠 <b>Servizio Telegram avviato</b>\n\nRoyalnet <a href='https://github.com/RYGhub/royalnet/releases/tag/v",
        );
        push_escaped(&mut text, version);
        text.append("'>v");
        push_escaped(&mut text, version);
        text.append("</a>\n\n@");
        push_escaped(&mut text, self.me_username.as_str());
        text.append(" [<code>");
        push_escaped(&mut text, id.as_str());
        text.append("</code>]");
        assert(id@ =~= nat_decimal(self.me_id as nat));
        assert(text@ =~= start_notification_text(version@, self.me_username@, self.me_id as nat));
        Ok((chat, text))
    }
}

/// The services of an instance of Royalnet.
#[derive(Debug)]
pub struct RoyalnetInstance {
    pub service_telegram: TelegramService,
    pub service_brooch: BroochService,
}

} // verus!
