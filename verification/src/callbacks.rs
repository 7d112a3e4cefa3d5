//! The buttons of the Telegram keyboards and the data that they send back.
use vstd::prelude::*;
use vstd::std_specs::convert::FromSpecImpl;
use vstd::string::StringExecFns;
use crate::models::{MatchmakingChoice, MatchmakingId, MatchmakingReply, RoyalnetUserId};
use crate::numbers::{
    is_digit, law_i32_decimal_roundtrip, lemma_nat_decimal_digits, lemma_nat_decimal_len, parse_i32, pow10,
    spec_parse_i32,
};
use crate::text::{
    debug_quoted, quote_debug, int_decimal, lacks, lemma_split_once_concat, nat_decimal, push_decimal_i64, same_text, split_once,
    split_once_char,
};

verus! {

/// A button under a matchmaking message.
#[derive(Debug, Clone, Copy, PartialEq, Eq, Structural)]
pub enum MatchmakingTelegramKeyboardCallback {
    Yes,
    Plus5Min,
    Plus15Min,
    Plus60Min,
    Maybe,
    DontWait,
    Cant,
    Wont,
}

/// The text that stands for a button in callback data.
pub open spec fn callback_label(c: MatchmakingTelegramKeyboardCallback) -> Seq<char> {
    match c {
        MatchmakingTelegramKeyboardCallback::Yes => "yes"@,
        MatchmakingTelegramKeyboardCallback::Plus5Min => "5min"@,
        MatchmakingTelegramKeyboardCallback::Plus15Min => "15min"@,
        MatchmakingTelegramKeyboardCallback::Plus60Min => "60min"@,
        MatchmakingTelegramKeyboardCallback::Maybe => "maybe"@,
        MatchmakingTelegramKeyboardCallback::DontWait => "dontw"@,
        MatchmakingTelegramKeyboardCallback::Cant => "cant"@,
        MatchmakingTelegramKeyboardCallback::Wont => "wont"@,
    }
}

/// The button whose text is `s`, if any.
pub open spec fn callback_of_label(s: Seq<char>) -> Option<MatchmakingTelegramKeyboardCallback> {
    if s == "yes"@ {
        Some(MatchmakingTelegramKeyboardCallback::Yes)
    } else if s == "5min"@ {
        Some(MatchmakingTelegramKeyboardCallback::Plus5Min)
    } else if s == "15min"@ {
        Some(MatchmakingTelegramKeyboardCallback::Plus15Min)
    } else if s == "60min"@ {
        Some(MatchmakingTelegramKeyboardCallback::Plus60Min)
    } else if s == "maybe"@ {
        Some(MatchmakingTelegramKeyboardCallback::Maybe)
    } else if s == "dontw"@ {
        Some(MatchmakingTelegramKeyboardCallback::DontWait)
    } else if s == "cant"@ {
        Some(MatchmakingTelegramKeyboardCallback::Cant)
    } else if s == "wont"@ {
        Some(MatchmakingTelegramKeyboardCallback::Wont)
    } else {
        None
    }
}

impl From<MatchmakingTelegramKeyboardCallback> for &'static str {
    fn from(value: MatchmakingTelegramKeyboardCallback) -> (r: Self) {
        match value {
            MatchmakingTelegramKeyboardCallback::Yes => "yes",
            MatchmakingTelegramKeyboardCallback::Plus5Min => "5min",
            MatchmakingTelegramKeyboardCallback::Plus15Min => "15min",
            MatchmakingTelegramKeyboardCallback::Plus60Min => "60min",
            MatchmakingTelegramKeyboardCallback::Maybe => "maybe",
            MatchmakingTelegramKeyboardCallback::DontWait => "dontw",
            MatchmakingTelegramKeyboardCallback::Cant => "cant",
            MatchmakingTelegramKeyboardCallback::Wont => "wont",
        }
    }
}

impl FromSpecImpl<MatchmakingTelegramKeyboardCallback> for &'static str {
    open spec fn obeys_from_spec() -> bool {
        true
    }

    open spec fn from_spec(v: MatchmakingTelegramKeyboardCallback) -> &'static str {
        match v {
            MatchmakingTelegramKeyboardCallback::Yes => "yes",
            MatchmakingTelegramKeyboardCallback::Plus5Min => "5min",
            MatchmakingTelegramKeyboardCallback::Plus15Min => "15min",
            MatchmakingTelegramKeyboardCallback::Plus60Min => "60min",
            MatchmakingTelegramKeyboardCallback::Maybe => "maybe",
            MatchmakingTelegramKeyboardCallback::DontWait => "dontw",
            MatchmakingTelegramKeyboardCallback::Cant => "cant",
            MatchmakingTelegramKeyboardCallback::Wont => "wont",
        }
    }
}

/// Text that names no button.
#[derive(Debug, Clone, PartialEq, Eq)]
pub struct UnknownKeyboardCallback {
    pub text: String,
}

/// What a button does to the reply of the user who pressed it.
#[derive(Debug, Clone, Copy, PartialEq, Eq, Structural)]
pub enum ReplyAction {
    /// The reply becomes this choice, with no minutes of delay.
    Choose(MatchmakingChoice),
    /// The reply becomes "late", with this many more minutes of delay.
    AddLateMinutes(i32),
}

impl ReplyAction {
    /// The reply that a user who had not answered yet gets from the action:
    /// the chosen answer with no delay, or "late" by the given minutes.
    pub fn first_reply(self, matchmaking_id: MatchmakingId, user_id: RoyalnetUserId) -> (r: MatchmakingReply)
        ensures
            r.matchmaking_id == matchmaking_id,
            r.user_id == user_id,
            r.choice == (match self {
                ReplyAction::Choose(c) => c,
                ReplyAction::AddLateMinutes(_) => MatchmakingChoice::Late,
            }),
            r.late_mins == (match self {
                ReplyAction::Choose(_) => 0,
                ReplyAction::AddLateMinutes(m) => m,
            }),
    {
        match self {
            ReplyAction::Choose(choice) => MatchmakingReply { matchmaking_id, user_id, choice, late_mins: 0 },
            ReplyAction::AddLateMinutes(m) => MatchmakingReply {
                matchmaking_id,
                user_id,
                choice: MatchmakingChoice::Late,
                late_mins: m,
            },
        }
    }
}

impl MatchmakingTelegramKeyboardCallback {
    /// The text that stands for the button.
    pub fn label(self) -> (r: &'static str)
        ensures
            r@ == callback_label(self),
    {
        match self {
            MatchmakingTelegramKeyboardCallback::Yes => "yes",
            MatchmakingTelegramKeyboardCallback::Plus5Min => "5min",
            MatchmakingTelegramKeyboardCallback::Plus15Min => "15min",
            MatchmakingTelegramKeyboardCallback::Plus60Min => "60min",
            MatchmakingTelegramKeyboardCallback::Maybe => "maybe",
            MatchmakingTelegramKeyboardCallback::DontWait => "dontw",
            MatchmakingTelegramKeyboardCallback::Cant => "cant",
            MatchmakingTelegramKeyboardCallback::Wont => "wont",
        }
    }

    /// Reads a button from its text.
    pub fn parse(s: &str) -> (r: Result<Self, UnknownKeyboardCallback>)
        ensures
            r matches Ok(c) ==> callback_of_label(s@) == Some(c),
            r matches Err(e) ==> callback_of_label(s@) is None && e.text@ == s@,
    {
        if same_text(s, "yes") {
            Ok(MatchmakingTelegramKeyboardCallback::Yes)
        } else if same_text(s, "5min") {
            Ok(MatchmakingTelegramKeyboardCallback::Plus5Min)
        } else if same_text(s, "15min") {
            Ok(MatchmakingTelegramKeyboardCallback::Plus15Min)
        } else if same_text(s, "60min") {
            Ok(MatchmakingTelegramKeyboardCallback::Plus60Min)
        } else if same_text(s, "maybe") {
            Ok(MatchmakingTelegramKeyboardCallback::Maybe)
        } else if same_text(s, "dontw") {
            Ok(MatchmakingTelegramKeyboardCallback::DontWait)
        } else if same_text(s, "cant") {
            Ok(MatchmakingTelegramKeyboardCallback::Cant)
        } else if same_text(s, "wont") {
            Ok(MatchmakingTelegramKeyboardCallback::Wont)
        } else {
            Err(UnknownKeyboardCallback { text: String::from_str(s) })
        }
    }

    /// The callback data of the button under the given matchmaking message.
    pub fn callback_data(self, matchmaking_id: MatchmakingId) -> (r: String)
        ensures
            r@ == callback_text(matchmaking_id.0, self),
    {
        matchmaking_id.callback_data(self.label())
    }

    /// What pressing the button does to the user's reply.
    pub fn reply_action(self) -> (r: ReplyAction)
        ensures
            r == reply_action_of(self),
    {
        match self {
            MatchmakingTelegramKeyboardCallback::Yes => ReplyAction::Choose(MatchmakingChoice::Yes),
            MatchmakingTelegramKeyboardCallback::Plus5Min => ReplyAction::AddLateMinutes(5),
            MatchmakingTelegramKeyboardCallback::Plus15Min => ReplyAction::AddLateMinutes(15),
            MatchmakingTelegramKeyboardCallback::Plus60Min => ReplyAction::AddLateMinutes(60),
            MatchmakingTelegramKeyboardCallback::Maybe => ReplyAction::Choose(MatchmakingChoice::Maybe),
            MatchmakingTelegramKeyboardCallback::DontWait => ReplyAction::Choose(MatchmakingChoice::DontWait),
            MatchmakingTelegramKeyboardCallback::Cant => ReplyAction::Choose(MatchmakingChoice::Cant),
            MatchmakingTelegramKeyboardCallback::Wont => ReplyAction::Choose(MatchmakingChoice::Wont),
        }
    }
}

impl core::str::FromStr for MatchmakingTelegramKeyboardCallback {
    type Err = UnknownKeyboardCallback;

    fn from_str(s: &str) -> (r: Result<Self, Self::Err>)
        ensures
            r matches Ok(c) ==> callback_of_label(s@) == Some(c),
            r matches Err(e) ==> callback_of_label(s@) is None && e.text@ == s@,
    {
        Self::parse(s)
    }
}

pub open spec fn reply_action_of(c: MatchmakingTelegramKeyboardCallback) -> ReplyAction {
    match c {
        MatchmakingTelegramKeyboardCallback::Yes => ReplyAction::Choose(MatchmakingChoice::Yes),
        MatchmakingTelegramKeyboardCallback::Plus5Min => ReplyAction::AddLateMinutes(5),
        MatchmakingTelegramKeyboardCallback::Plus15Min => ReplyAction::AddLateMinutes(15),
        MatchmakingTelegramKeyboardCallback::Plus60Min => ReplyAction::AddLateMinutes(60),
        MatchmakingTelegramKeyboardCallback::Maybe => ReplyAction::Choose(MatchmakingChoice::Maybe),
        MatchmakingTelegramKeyboardCallback::DontWait => ReplyAction::Choose(MatchmakingChoice::DontWait),
        MatchmakingTelegramKeyboardCallback::Cant => ReplyAction::Choose(MatchmakingChoice::Cant),
        MatchmakingTelegramKeyboardCallback::Wont => ReplyAction::Choose(MatchmakingChoice::Wont),
    }
}

/// Callback data: `matchmaking:<id>:<data>`.
pub open spec fn matchmaking_callback_text(id: i32, data: Seq<char>) -> Seq<char> {
    "matchmaking"@ + seq![':'] + int_decimal(id as int) + seq![':'] + data
}

/// The callback data of a button under a matchmaking message.
pub open spec fn callback_text(id: i32, c: MatchmakingTelegramKeyboardCallback) -> Seq<char> {
    matchmaking_callback_text(id, callback_label(c))
}

impl MatchmakingId {
    /// The callback data that carries `data` for this matchmaking event.
    pub fn callback_data(&self, data: &str) -> (r: String)
        ensures
            r@ == matchmaking_callback_text(self.0, data@),
    {
        let mut out = String::from_str("matchmaking:");
        push_decimal_i64(&mut out, self.0 as i64);
        out.append(":");
        out.append(data);
        proof {
            reveal_strlit("matchmaking:");
            reveal_strlit(":");
            reveal_strlit("matchmaking");
        }
        assert(out@ =~= matchmaking_callback_text(self.0, data@));
        out
    }
}

/// The data of a pressed button of any keyboard of the bot.
#[derive(Debug, Clone, Copy, PartialEq, Eq, Structural)]
pub enum KeyboardCallback {
    Matchmaking(i32, MatchmakingTelegramKeyboardCallback),
}

/// Why callback data could not be read.
#[derive(Debug, Clone, PartialEq, Eq)]
pub enum KeyboardCallbackError {
    /// There is no `:` after the keyword.
    NoKeyword,
    /// There is no `:` after the identifier.
    NoId,
    /// The identifier is not a number.
    InvalidId,
    /// The data after the identifier names no button.
    InvalidData,
    /// The keyword names no keyboard.
    UnknownKeyword(String),
}

/// The message shown for an error in reading callback data.
pub open spec fn keyboard_error_text(e: KeyboardCallbackError) -> Seq<char> {
    match e {
        KeyboardCallbackError::NoKeyword => "Impossibile dividere il payload in keyword e dati."@,
        KeyboardCallbackError::NoId => "Impossibile dividere il payload in id e dati."@,
        KeyboardCallbackError::InvalidId => "Impossibile convertire l'id a un numero."@,
        KeyboardCallbackError::InvalidData => "Impossibile processare i dati."@,
        KeyboardCallbackError::UnknownKeyword(k) => "Keyword sconosciuta: "@ + debug_quoted(k@),
    }
}

impl KeyboardCallbackError {
    /// The message shown for the error; an unknown keyword is quoted as
    /// `{:?}` quotes it.
    pub fn message(&self) -> (r: String)
        ensures
            r@ == keyboard_error_text(*self),
    {
        match self {
            KeyboardCallbackError::NoKeyword => String::from_str("Impossibile dividere il payload in keyword e dati."),
            KeyboardCallbackError::NoId => String::from_str("Impossibile dividere il payload in id e dati."),
            KeyboardCallbackError::InvalidId => String::from_str("Impossibile convertire l'id a un numero."),
            KeyboardCallbackError::InvalidData => String::from_str("Impossibile processare i dati."),
            KeyboardCallbackError::UnknownKeyword(k) => {
                let mut out = String::from_str("Keyword sconosciuta: ");
                let quoted = quote_debug(k.as_str());
                out.append(quoted.as_str());
                out
            },
        }
    }
}

/// The answer shown when a pressed button belongs to no known keyboard.
pub fn unknown_button_text() -> (r: &'static str)
    ensures
        r@ == "⚠️ Il tasto che hai premuto non è più valido."@,
{
    "⚠️ Il tasto che hai premuto non è più valido."
}

/// The answer shown when a pressed matchmaking button has been recorded.
pub fn button_received_text() -> (r: &'static str)
    ensures
        r@ == "Ricevuto!"@,
{
    "Ricevuto!"
}

/// What reading callback data gives: the keyword, the identifier and the
/// data, split at the first two colons; the identifier is read before the
/// keyword is looked at.
pub open spec fn keyboard_callback_of(s: Seq<char>) -> Result<KeyboardCallback, KeyboardCallbackError> {
    match split_once(s, ':') {
        None => Err(KeyboardCallbackError::NoKeyword),
        Some((keyword, rest)) => match split_once(rest, ':') {
            None => Err(KeyboardCallbackError::NoId),
            Some((id, data)) => match spec_parse_i32(id) {
                None => Err(KeyboardCallbackError::InvalidId),
                Some(id) => if keyword == "matchmaking"@ {
                    match callback_of_label(data) {
                        Some(c) => Ok(KeyboardCallback::Matchmaking(id, c)),
                        None => Err(KeyboardCallbackError::InvalidData),
                    }
                } else {
                    Err(KeyboardCallbackError::UnknownKeyword(arbitrary()))
                },
            },
        },
    }
}

impl KeyboardCallback {
    /// Reads callback data.
    pub fn parse(s: &str) -> (r: Result<Self, KeyboardCallbackError>)
        ensures
            r matches Ok(c) ==> keyboard_callback_of(s@) == Ok::<KeyboardCallback, KeyboardCallbackError>(c),
            r matches Err(e) ==> keyboard_callback_of(s@) is Err && match e {
                KeyboardCallbackError::UnknownKeyword(k) => split_once(s@, ':') matches Some((keyword, _))
                    && k@ == keyword && keyboard_callback_of(s@) matches Err(KeyboardCallbackError::UnknownKeyword(_)),
                _ => keyboard_callback_of(s@) == Err::<KeyboardCallback, KeyboardCallbackError>(e),
            },
    {
        let (keyword, data) = match split_once_char(s, ':') {
            Some(parts) => parts,
            None => return Err(KeyboardCallbackError::NoKeyword),
        };
        let (id, data) = match split_once_char(data, ':') {
            Some(parts) => parts,
            None => return Err(KeyboardCallbackError::NoId),
        };
        let id: i32 = match parse_i32(id) {
            Some(id) => id,
            None => return Err(KeyboardCallbackError::InvalidId),
        };
        if same_text(keyword, "matchmaking") {
            match MatchmakingTelegramKeyboardCallback::parse(data) {
                Ok(c) => Ok(KeyboardCallback::Matchmaking(id, c)),
                Err(_) => Err(KeyboardCallbackError::InvalidData),
            }
        } else {
            Err(KeyboardCallbackError::UnknownKeyword(String::from_str(keyword)))
        }
    }
}

impl core::str::FromStr for KeyboardCallback {
    type Err = KeyboardCallbackError;

    fn from_str(s: &str) -> (r: Result<Self, Self::Err>)
        ensures
            r matches Ok(c) ==> keyboard_callback_of(s@) == Ok::<KeyboardCallback, KeyboardCallbackError>(c),
            r matches Err(e) ==> keyboard_callback_of(s@) is Err && match e {
                KeyboardCallbackError::UnknownKeyword(k) => split_once(s@, ':') matches Some((keyword, _))
                    && k@ == keyword && keyboard_callback_of(s@) matches Err(KeyboardCallbackError::UnknownKeyword(_)),
                _ => keyboard_callback_of(s@) == Err::<KeyboardCallback, KeyboardCallbackError>(e),
            },
    {
        Self::parse(s)
    }
}

proof fn lemma_decimal_lacks_colon(n: int)
    ensures
        lacks(int_decimal(n), ':'),
{
    if n < 0 {
        lemma_nat_decimal_digits((-n) as nat);
        let d = nat_decimal((-n) as nat);
        assert forall|i: int| 0 <= i < int_decimal(n).len() implies int_decimal(n)[i] != ':' by {
            if i > 0 {
                assert(int_decimal(n)[i] == d[i - 1]);
                assert(is_digit(d[i - 1]));
            }
        }
    } else {
        lemma_nat_decimal_digits(n as nat);
        let d = nat_decimal(n as nat);
        assert forall|i: int| 0 <= i < int_decimal(n).len() implies int_decimal(n)[i] != ':' by {
            assert(is_digit(d[i]));
        }
    }
}

proof fn lemma_labels_read_back(c: MatchmakingTelegramKeyboardCallback)
    ensures
        callback_of_label(callback_label(c)) == Some(c),
{
    reveal_strlit("yes");
    reveal_strlit("5min");
    reveal_strlit("15min");
    reveal_strlit("60min");
    reveal_strlit("maybe");
    reveal_strlit("dontw");
    reveal_strlit("cant");
    reveal_strlit("wont");
    let l = callback_label(c);
    assert(l == "yes"@ || l[0] != "yes"@[0]);
    assert(l == "5min"@ || l[0] != "5min"@[0]);
    assert(l == "15min"@ || l[0] != "15min"@[0]);
    assert(l == "60min"@ || l[0] != "60min"@[0]);
    assert(l == "maybe"@ || l[0] != "maybe"@[0]);
    assert(l == "dontw"@ || l[0] != "dontw"@[0]);
    assert(l == "cant"@ || l[0] != "cant"@[0]);
    assert(l == "wont"@ || l[0] != "wont"@[0]);
}

/// Reading the callback data of a button under a matchmaking message gives
/// back that button and that matchmaking event.
pub proof fn law_callback_data_roundtrip(id: MatchmakingId, c: MatchmakingTelegramKeyboardCallback)
    ensures
        keyboard_callback_of(callback_text(id.0, c)) == Ok::<KeyboardCallback, KeyboardCallbackError>(
            KeyboardCallback::Matchmaking(id.0, c),
        ),
{
    reveal_strlit("matchmaking");
    let keyword = "matchmaking"@;
    let number = int_decimal(id.0 as int);
    let label = callback_label(c);
    let rest = number + seq![':'] + label;
    assert(callback_text(id.0, c) =~= keyword + seq![':'] + rest);
    assert(lacks(keyword, ':'));
    lemma_split_once_concat(keyword, ':', rest);
    lemma_decimal_lacks_colon(id.0 as int);
    lemma_split_once_concat(number, ':', label);
    law_i32_decimal_roundtrip(id.0);
    lemma_labels_read_back(c);
}

/// The callback data of a button is never empty and stays within the 64
/// characters that Telegram allows for it.
pub proof fn law_callback_data_length(id: MatchmakingId, c: MatchmakingTelegramKeyboardCallback)
    ensures
        1 <= callback_text(id.0, c).len() <= 64,
{
    reveal_strlit("matchmaking");
    reveal_strlit("yes");
    reveal_strlit("5min");
    reveal_strlit("15min");
    reveal_strlit("60min");
    reveal_strlit("maybe");
    reveal_strlit("dontw");
    reveal_strlit("cant");
    reveal_strlit("wont");
    assert(pow10(10) == 10_000_000_000) by {
        reveal_with_fuel(pow10, 11);
    }
    let n: int = id.0 as int;
    if n < 0 {
        lemma_nat_decimal_len((-n) as nat, 10);
    } else {
        lemma_nat_decimal_len(n as nat, 10);
    }
    assert(int_decimal(n).len() <= 11);
    assert(callback_label(c).len() <= 5);
}

} // verus!
