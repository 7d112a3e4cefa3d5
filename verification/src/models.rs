//! Rows of the RYG database and the identifiers that they hold.
use vstd::prelude::*;
use vstd::std_specs::convert::FromSpecImpl;
use crate::numbers::{parse_i32, parse_i64, spec_parse_i32, spec_parse_i64};
use crate::text::{decimal_i64, int_decimal};

verus! {

/// Text that does not hold an identifier.
#[derive(Debug, Clone, Copy, PartialEq, Eq, Structural)]
pub struct ParseIdError;

/// The identifier of a Dota 2 match.
#[derive(Debug, Clone, Copy, PartialEq, Eq, Hash, Structural)]
pub struct DotaMatchId(pub i64);

impl From<i64> for DotaMatchId {
    fn from(value: i64) -> (r: Self) {
        DotaMatchId(value)
    }
}

impl FromSpecImpl<i64> for DotaMatchId {
    open spec fn obeys_from_spec() -> bool {
        true
    }

    open spec fn from_spec(v: i64) -> Self {
        DotaMatchId(v)
    }
}

impl From<DotaMatchId> for i64 {
    fn from(value: DotaMatchId) -> (r: Self) {
        value.0
    }
}

impl FromSpecImpl<DotaMatchId> for i64 {
    open spec fn obeys_from_spec() -> bool {
        true
    }

    open spec fn from_spec(v: DotaMatchId) -> Self {
        v.0
    }
}

impl DotaMatchId {
    /// The identifier written in decimal.
    pub fn to_string(&self) -> (r: String)
        ensures
            r@ == int_decimal(self.0 as int),
    {
        decimal_i64(self.0)
    }

    /// Reads the identifier from decimal text, as `str::parse::<i64>` reads it.
    pub fn from_decimal(s: &str) -> (r: Result<Self, ParseIdError>)
        ensures
            r matches Ok(id) ==> spec_parse_i64(s@) == Some(id.0),
            r is Err <==> spec_parse_i64(s@) is None,
    {
        match parse_i64(s) {
            Some(v) => Ok(DotaMatchId(v)),
            None => Err(ParseIdError),
        }
    }
}

impl core::str::FromStr for DotaMatchId {
    type Err = ParseIdError;

    fn from_str(s: &str) -> (r: Result<Self, Self::Err>)
        ensures
            r matches Ok(id) ==> spec_parse_i64(s@) == Some(id.0),
            r is Err <==> spec_parse_i64(s@) is None,
    {
        Self::from_decimal(s)
    }
}

/// The identifier of a Telegram user.
#[derive(Debug, Clone, Copy, PartialEq, Eq, Hash, Structural)]
pub struct TelegramUserId(pub i64);

impl From<i64> for TelegramUserId {
    fn from(value: i64) -> (r: Self) {
        TelegramUserId(value)
    }
}

impl FromSpecImpl<i64> for TelegramUserId {
    open spec fn obeys_from_spec() -> bool {
        true
    }

    open spec fn from_spec(v: i64) -> Self {
        TelegramUserId(v)
    }
}

impl From<TelegramUserId> for i64 {
    fn from(value: TelegramUserId) -> (r: Self) {
        value.0
    }
}

impl FromSpecImpl<TelegramUserId> for i64 {
    open spec fn obeys_from_spec() -> bool {
        true
    }

    open spec fn from_spec(v: TelegramUserId) -> Self {
        v.0
    }
}

impl TelegramUserId {
    /// The identifier written in decimal.
    pub fn to_string(&self) -> (r: String)
        ensures
            r@ == int_decimal(self.0 as int),
    {
        decimal_i64(self.0)
    }

    /// Reads the identifier from decimal text, as `str::parse::<i64>` reads it.
    pub fn from_decimal(s: &str) -> (r: Result<Self, ParseIdError>)
        ensures
            r matches Ok(id) ==> spec_parse_i64(s@) == Some(id.0),
            r is Err <==> spec_parse_i64(s@) is None,
    {
        match parse_i64(s) {
            Some(v) => Ok(TelegramUserId(v)),
            None => Err(ParseIdError),
        }
    }
}

impl TelegramUserId {
    /// The identifier of a user as the Telegram API gives it (an unsigned
    /// number), reinterpreted as a signed one.
    pub fn from_api(id: u64) -> (r: Self)
        ensures
            r.0 == id as i64,
    {
        TelegramUserId(id as i64)
    }

    /// The identifier of a user as the Telegram API gives it, where it fits
    /// in a signed number as the RYG database stores it.
    pub fn try_from_api(id: u64) -> (r: Option<Self>)
        ensures
            r is None <==> id > i64::MAX,
            r matches Some(t) ==> t.0 == id,
    {
        if id <= 0x7fff_ffff_ffff_ffff {
            Some(TelegramUserId(id as i64))
        } else {
            None
        }
    }

    /// The identifier as the Telegram API takes it, reinterpreted as an
    /// unsigned number.
    pub fn to_api(&self) -> (r: u64)
        ensures
            r == self.0 as u64,
    {
        self.0 as u64
    }
}

/// An identifier of the Telegram API that goes into a `TelegramUserId` comes
/// back out unchanged, and so does a stored one that goes out to the API.
pub proof fn law_telegram_user_id_roundtrip(api: u64, stored: i64)
    ensures
        (api as i64) as u64 == api,
        (stored as u64) as i64 == stored,
{
    assert((api as i64) as u64 == api) by (bit_vector);
    assert((stored as u64) as i64 == stored) by (bit_vector);
}

impl core::str::FromStr for TelegramUserId {
    type Err = ParseIdError;

    fn from_str(s: &str) -> (r: Result<Self, Self::Err>)
        ensures
            r matches Ok(id) ==> spec_parse_i64(s@) == Some(id.0),
            r is Err <==> spec_parse_i64(s@) is None,
    {
        Self::from_decimal(s)
    }
}

/// The identifier of a Telegram chat.
#[derive(Debug, Clone, Copy, PartialEq, Eq, Hash, Structural)]
pub struct TelegramChatId(pub i64);

impl From<i64> for TelegramChatId {
    fn from(value: i64) -> (r: Self) {
        TelegramChatId(value)
    }
}

impl FromSpecImpl<i64> for TelegramChatId {
    open spec fn obeys_from_spec() -> bool {
        true
    }

    open spec fn from_spec(v: i64) -> Self {
        TelegramChatId(v)
    }
}

impl From<TelegramChatId> for i64 {
    fn from(value: TelegramChatId) -> (r: Self) {
        value.0
    }
}

impl FromSpecImpl<TelegramChatId> for i64 {
    open spec fn obeys_from_spec() -> bool {
        true
    }

    open spec fn from_spec(v: TelegramChatId) -> Self {
        v.0
    }
}

impl TelegramChatId {
    /// The identifier written in decimal.
    pub fn to_string(&self) -> (r: String)
        ensures
            r@ == int_decimal(self.0 as int),
    {
        decimal_i64(self.0)
    }

    /// Reads the identifier from decimal text, as `str::parse::<i64>` reads it.
    pub fn from_decimal(s: &str) -> (r: Result<Self, ParseIdError>)
        ensures
            r matches Ok(id) ==> spec_parse_i64(s@) == Some(id.0),
            r is Err <==> spec_parse_i64(s@) is None,
    {
        match parse_i64(s) {
            Some(v) => Ok(TelegramChatId(v)),
            None => Err(ParseIdError),
        }
    }
}

impl core::str::FromStr for TelegramChatId {
    type Err = ParseIdError;

    fn from_str(s: &str) -> (r: Result<Self, Self::Err>)
        ensures
            r matches Ok(id) ==> spec_parse_i64(s@) == Some(id.0),
            r is Err <==> spec_parse_i64(s@) is None,
    {
        Self::from_decimal(s)
    }
}

/// The identifier of a Telegram message within its chat.
#[derive(Debug, Clone, Copy, PartialEq, Eq, Hash, Structural)]
pub struct TelegramMessageId(pub i32);

impl From<i32> for TelegramMessageId {
    fn from(value: i32) -> (r: Self) {
        TelegramMessageId(value)
    }
}

impl FromSpecImpl<i32> for TelegramMessageId {
    open spec fn obeys_from_spec() -> bool {
        true
    }

    open spec fn from_spec(v: i32) -> Self {
        TelegramMessageId(v)
    }
}

impl From<TelegramMessageId> for i32 {
    fn from(value: TelegramMessageId) -> (r: Self) {
        value.0
    }
}

impl FromSpecImpl<TelegramMessageId> for i32 {
    open spec fn obeys_from_spec() -> bool {
        true
    }

    open spec fn from_spec(v: TelegramMessageId) -> Self {
        v.0
    }
}

impl TelegramMessageId {
    /// The identifier written in decimal.
    pub fn to_string(&self) -> (r: String)
        ensures
            r@ == int_decimal(self.0 as int),
    {
        decimal_i64(self.0 as i64)
    }

    /// Reads the identifier from decimal text, as `str::parse::<i32>` reads it.
    pub fn from_decimal(s: &str) -> (r: Result<Self, ParseIdError>)
        ensures
            r matches Ok(id) ==> spec_parse_i32(s@) == Some(id.0),
            r is Err <==> spec_parse_i32(s@) is None,
    {
        match parse_i32(s) {
            Some(v) => Ok(TelegramMessageId(v)),
            None => Err(ParseIdError),
        }
    }
}

impl core::str::FromStr for TelegramMessageId {
    type Err = ParseIdError;

    fn from_str(s: &str) -> (r: Result<Self, Self::Err>)
        ensures
            r matches Ok(id) ==> spec_parse_i32(s@) == Some(id.0),
            r is Err <==> spec_parse_i32(s@) is None,
    {
        Self::from_decimal(s)
    }
}

/// The identifier of a user of the RYG database.
#[derive(Debug, Clone, Copy, PartialEq, Eq, Hash, Structural)]
pub struct RoyalnetUserId(pub i32);

impl From<i32> for RoyalnetUserId {
    fn from(value: i32) -> (r: Self) {
        RoyalnetUserId(value)
    }
}

impl FromSpecImpl<i32> for RoyalnetUserId {
    open spec fn obeys_from_spec() -> bool {
        true
    }

    open spec fn from_spec(v: i32) -> Self {
        RoyalnetUserId(v)
    }
}

impl From<RoyalnetUserId> for i32 {
    fn from(value: RoyalnetUserId) -> (r: Self) {
        value.0
    }
}

impl FromSpecImpl<RoyalnetUserId> for i32 {
    open spec fn obeys_from_spec() -> bool {
        true
    }

    open spec fn from_spec(v: RoyalnetUserId) -> Self {
        v.0
    }
}

impl RoyalnetUserId {
    /// The identifier written in decimal.
    pub fn to_string(&self) -> (r: String)
        ensures
            r@ == int_decimal(self.0 as int),
    {
        decimal_i64(self.0 as i64)
    }

    /// Reads the identifier from decimal text, as `str::parse::<i32>` reads it.
    pub fn from_decimal(s: &str) -> (r: Result<Self, ParseIdError>)
        ensures
            r matches Ok(id) ==> spec_parse_i32(s@) == Some(id.0),
            r is Err <==> spec_parse_i32(s@) is None,
    {
        match parse_i32(s) {
            Some(v) => Ok(RoyalnetUserId(v)),
            None => Err(ParseIdError),
        }
    }
}

impl core::str::FromStr for RoyalnetUserId {
    type Err = ParseIdError;

    fn from_str(s: &str) -> (r: Result<Self, Self::Err>)
        ensures
            r matches Ok(id) ==> spec_parse_i32(s@) == Some(id.0),
            r is Err <==> spec_parse_i32(s@) is None,
    {
        Self::from_decimal(s)
    }
}

/// The identifier of a matchmaking event.
#[derive(Debug, Clone, Copy, PartialEq, Eq, Hash, Structural)]
pub struct MatchmakingId(pub i32);

impl From<i32> for MatchmakingId {
    fn from(value: i32) -> (r: Self) {
        MatchmakingId(value)
    }
}

impl FromSpecImpl<i32> for MatchmakingId {
    open spec fn obeys_from_spec() -> bool {
        true
    }

    open spec fn from_spec(v: i32) -> Self {
        MatchmakingId(v)
    }
}

impl From<MatchmakingId> for i32 {
    fn from(value: MatchmakingId) -> (r: Self) {
        value.0
    }
}

impl FromSpecImpl<MatchmakingId> for i32 {
    open spec fn obeys_from_spec() -> bool {
        true
    }

    open spec fn from_spec(v: MatchmakingId) -> Self {
        v.0
    }
}

impl MatchmakingId {
    /// The identifier written in decimal.
    pub fn to_string(&self) -> (r: String)
        ensures
            r@ == int_decimal(self.0 as int),
    {
        decimal_i64(self.0 as i64)
    }

    /// Reads the identifier from decimal text, as `str::parse::<i32>` reads it.
    pub fn from_decimal(s: &str) -> (r: Result<Self, ParseIdError>)
        ensures
            r matches Ok(id) ==> spec_parse_i32(s@) == Some(id.0),
            r is Err <==> spec_parse_i32(s@) is None,
    {
        match parse_i32(s) {
            Some(v) => Ok(MatchmakingId(v)),
            None => Err(ParseIdError),
        }
    }
}

impl core::str::FromStr for MatchmakingId {
    type Err = ParseIdError;

    fn from_str(s: &str) -> (r: Result<Self, Self::Err>)
        ensures
            r matches Ok(id) ==> spec_parse_i32(s@) == Some(id.0),
            r is Err <==> spec_parse_i32(s@) is None,
    {
        Self::from_decimal(s)
    }
}

/// A user of the RYG database.
#[derive(Debug, Clone, PartialEq, Eq)]
pub struct RoyalnetUser {
    pub id: RoyalnetUserId,
    pub username: String,
}

/// A Telegram account linked to a user of the RYG database.
#[derive(Debug, Clone, Copy, PartialEq, Eq, Structural)]
pub struct TelegramUser {
    pub user_id: RoyalnetUserId,
    pub telegram_id: TelegramUserId,
}

/// A Discord account linked to a user of the RYG database.
#[derive(Debug, Clone, Copy, PartialEq, Eq, Structural)]
pub struct DiscordUser {
    pub user_id: i32,
    pub discord_id: i64,
}

/// A Steam account linked to a user of the RYG database.
#[derive(Debug, Clone, Copy, PartialEq, Eq, Structural)]
pub struct SteamUser {
    pub user_id: i32,
    pub steam_id: i64,
}

/// A Dota 2 match of which a notification has already been sent.
#[derive(Debug, Clone, Copy, PartialEq, Eq, Structural)]
pub struct BroochMatch {
    pub id: DotaMatchId,
}

/// A line to be added to the diario.
#[derive(Debug, Clone, PartialEq, Eq)]
pub struct DiarioAddition {
    pub saver_id: Option<i32>,
    pub warning: Option<String>,
    pub quote: String,
    pub quoted_name: Option<String>,
    pub context: Option<String>,
}

/// A line of the diario.
#[derive(Debug)]
pub struct Diario {
    pub id: i32,
    pub saver_id: Option<i32>,
    pub saved_on: Option<chrono::NaiveDateTime>,
    pub quoted_id: Option<i32>,
    pub quoted_name: Option<String>,
    pub warning: Option<String>,
    pub quote: String,
    pub context: Option<String>,
}

/// A matchmaking event to be added.
#[derive(Debug)]
pub struct MatchmakingEventAddition {
    pub text: String,
    pub starts_at: chrono::NaiveDateTime,
}

/// A matchmaking event: a call to play something at a given time.
#[derive(Debug)]
pub struct MatchmakingEvent {
    pub id: MatchmakingId,
    pub text: String,
    pub starts_at: chrono::NaiveDateTime,
}

/// The answer of a user to a matchmaking event.
#[derive(Debug, Clone, Copy, PartialEq, Eq, Structural)]
pub enum MatchmakingChoice {
    Yes,
    Late,
    Maybe,
    DontWait,
    Cant,
    Wont,
}

/// A user's reply to a matchmaking event.
#[derive(Debug, Clone, Copy, PartialEq, Eq, Structural)]
pub struct MatchmakingReply {
    pub matchmaking_id: MatchmakingId,
    pub user_id: RoyalnetUserId,
    pub choice: MatchmakingChoice,
    pub late_mins: i32,
}

/// A Telegram message that shows a matchmaking event.
#[derive(Debug, Clone, Copy, PartialEq, Eq, Structural)]
pub struct MatchmakingMessageTelegram {
    pub matchmaking_id: i32,
    pub telegram_chat_id: i64,
    pub telegram_message_id: i32,
}

/// A database value that names no [`MatchmakingChoice`].
#[derive(Debug, Clone, Copy, PartialEq, Eq, Structural)]
pub struct UnknownMatchmakingChoice;

/// The bytes that stand for a choice in the `matchmaking_choice` column type.
pub open spec fn choice_label(c: MatchmakingChoice) -> Seq<u8> {
    match c {
        MatchmakingChoice::Yes => seq![121u8, 101u8, 115u8],
        MatchmakingChoice::Late => seq![108u8, 97u8, 116u8, 101u8],
        MatchmakingChoice::Maybe => seq![109u8, 97u8, 121u8, 98u8, 101u8],
        MatchmakingChoice::DontWait => seq![100u8, 111u8, 110u8, 116u8, 119u8],
        MatchmakingChoice::Cant => seq![99u8, 97u8, 110u8, 116u8],
        MatchmakingChoice::Wont => seq![119u8, 111u8, 110u8, 116u8],
    }
}

/// The choice whose label is `raw`, if any.
pub open spec fn choice_of_label(raw: Seq<u8>) -> Option<MatchmakingChoice> {
    if raw == choice_label(MatchmakingChoice::Yes) {
        Some(MatchmakingChoice::Yes)
    } else if raw == choice_label(MatchmakingChoice::Late) {
        Some(MatchmakingChoice::Late)
    } else if raw == choice_label(MatchmakingChoice::Maybe) {
        Some(MatchmakingChoice::Maybe)
    } else if raw == choice_label(MatchmakingChoice::DontWait) {
        Some(MatchmakingChoice::DontWait)
    } else if raw == choice_label(MatchmakingChoice::Cant) {
        Some(MatchmakingChoice::Cant)
    } else if raw == choice_label(MatchmakingChoice::Wont) {
        Some(MatchmakingChoice::Wont)
    } else {
        None
    }
}

fn bytes_equal(a: &[u8], b: &[u8]) -> (r: bool)
    ensures
        r == (a@ == b@),
{
    if a.len() != b.len() {
        return false;
    }
    let mut i: usize = 0;
    while i < a.len()
        invariant
            a.len() == b.len(),
            i <= a.len(),
            forall|j: int| 0 <= j < i ==> a@[j] == b@[j],
        decreases a.len() - i,
    {
        if a[i] != b[i] {
            return false;
        }
        i = i + 1;
    }
    assert(a@ =~= b@);
    true
}

impl MatchmakingChoice {
    /// The bytes written to the database for this choice (`yes`, `late`,
    /// `maybe`, `dontw`, `cant`, `wont`).
    pub fn to_sql(self) -> (r: Vec<u8>)
        ensures
            r@ == choice_label(self),
    {
        match self {
            MatchmakingChoice::Yes => vec![121u8, 101u8, 115u8],
            MatchmakingChoice::Late => vec![108u8, 97u8, 116u8, 101u8],
            MatchmakingChoice::Maybe => vec![109u8, 97u8, 121u8, 98u8, 101u8],
            MatchmakingChoice::DontWait => vec![100u8, 111u8, 110u8, 116u8, 119u8],
            MatchmakingChoice::Cant => vec![99u8, 97u8, 110u8, 116u8],
            MatchmakingChoice::Wont => vec![119u8, 111u8, 110u8, 116u8],
        }
    }

    /// Reads a choice from the bytes of a database value.
    pub fn from_sql(raw: &[u8]) -> (r: Result<Self, UnknownMatchmakingChoice>)
        ensures
            r matches Ok(c) ==> choice_of_label(raw@) == Some(c),
            r is Err <==> choice_of_label(raw@) is None,
    {
        let yes = MatchmakingChoice::Yes.to_sql();
        if bytes_equal(raw, yes.as_slice()) {
            return Ok(MatchmakingChoice::Yes);
        }
        let late = MatchmakingChoice::Late.to_sql();
        if bytes_equal(raw, late.as_slice()) {
            return Ok(MatchmakingChoice::Late);
        }
        let maybe = MatchmakingChoice::Maybe.to_sql();
        if bytes_equal(raw, maybe.as_slice()) {
            return Ok(MatchmakingChoice::Maybe);
        }
        let dontw = MatchmakingChoice::DontWait.to_sql();
        if bytes_equal(raw, dontw.as_slice()) {
            return Ok(MatchmakingChoice::DontWait);
        }
        let cant = MatchmakingChoice::Cant.to_sql();
        if bytes_equal(raw, cant.as_slice()) {
            return Ok(MatchmakingChoice::Cant);
        }
        let wont = MatchmakingChoice::Wont.to_sql();
        if bytes_equal(raw, wont.as_slice()) {
            return Ok(MatchmakingChoice::Wont);
        }
        Err(UnknownMatchmakingChoice)
    }
}

/// Reading back the bytes written for a choice gives the same choice.
pub proof fn law_choice_sql_roundtrip(c: MatchmakingChoice)
    ensures
        choice_of_label(choice_label(c)) == Some(c),
{
    match c {
        MatchmakingChoice::Yes => {},
        MatchmakingChoice::Late => {
            assert(choice_label(MatchmakingChoice::Late) != choice_label(MatchmakingChoice::Yes));
        },
        MatchmakingChoice::Maybe => {
            assert(choice_label(c) != choice_label(MatchmakingChoice::Yes));
            assert(choice_label(c)[0] != choice_label(MatchmakingChoice::Late)[0]);
        },
        MatchmakingChoice::DontWait => {
            assert(choice_label(c) != choice_label(MatchmakingChoice::Yes));
            assert(choice_label(c)[0] != choice_label(MatchmakingChoice::Late)[0]);
            assert(choice_label(c)[0] != choice_label(MatchmakingChoice::Maybe)[0]);
        },
        MatchmakingChoice::Cant => {
            assert(choice_label(c)[0] != choice_label(MatchmakingChoice::Yes)[0]);
            assert(choice_label(c)[0] != choice_label(MatchmakingChoice::Late)[0]);
            assert(choice_label(c)[0] != choice_label(MatchmakingChoice::Maybe)[0]);
            assert(choice_label(c)[0] != choice_label(MatchmakingChoice::DontWait)[0]);
        },
        MatchmakingChoice::Wont => {
            assert(choice_label(c)[0] != choice_label(MatchmakingChoice::Yes)[0]);
            assert(choice_label(c)[0] != choice_label(MatchmakingChoice::Late)[0]);
            assert(choice_label(c)[0] != choice_label(MatchmakingChoice::Maybe)[0]);
            assert(choice_label(c)[0] != choice_label(MatchmakingChoice::DontWait)[0]);
            assert(choice_label(c)[0] != choice_label(MatchmakingChoice::Cant)[0]);
        },
    }
}

/// A database value that reads as a choice is exactly the bytes written for
/// that choice.
pub proof fn law_choice_sql_label_exact(raw: Seq<u8>)
    ensures
        choice_of_label(raw) matches Some(c) ==> choice_label(c) == raw,
{
}

} // verus!
