//! The arguments of `/reminder` and `/matchmaking`: a moment in brackets,
//! then a text.
use vstd::prelude::*;
use vstd::string::StringExecFns;
use crate::ext_chrono::{local_now, Instant};
use crate::ext_parse_datetime::{
    has_spans_in_range, is_weekday_text, local_midnight, parse_datetime_at, spans_in_range, LATEST_WEEKDAY_BASE,
};
use crate::ext_regex::{group_views, regex_captures, regex_captures_of};
use crate::roll::group;

verus! {

/// The pattern of a reminder: a moment in brackets, then the text.
pub const REMINDER_PATTERN: &'static str = "\\[(?<target>.*)]\\s*(?<reminder>.+)$";

/// The pattern of a matchmaking call: a moment in brackets, then the text.
pub const MATCHMAKING_PATTERN: &'static str = "\\[(?<start>.*)]\\s*(?<text>.+)$";

/// Why a moment and a text could not be read.
#[derive(Debug, Clone, Copy, PartialEq, Eq, Structural)]
pub enum ArgsError {
    /// The text does not have the shape `[moment] text`.
    Syntax,
    /// The moment in brackets names no date.
    Date,
}

impl ArgsError {
    /// The message shown for the error.
    pub fn message(&self) -> (r: &'static str)
        ensures
            r@ == (match self {
                ArgsError::Syntax => "Sintassi del comando incorretta."@,
                ArgsError::Date => "Impossibile determinare la data in cui l'attesa avrà termine."@,
            }),
    {
        match self {
            ArgsError::Syntax => "Sintassi del comando incorretta.",
            ArgsError::Date => "Impossibile determinare la data in cui l'attesa avrà termine.",
        }
    }
}

/// The moment and the text that the captured groups hold (groups 1 and 2).
pub open spec fn moment_and_text_of(captures: Option<Seq<Option<Seq<char>>>>) -> Result<(Seq<char>, Seq<char>), ArgsError> {
    match captures {
        None => Err(ArgsError::Syntax),
        Some(groups) => match (group(groups, 1), group(groups, 2)) {
            (Some(moment), Some(text)) => Ok((moment, text)),
            _ => Err(ArgsError::Syntax),
        },
    }
}

/// Splits the captured groups into the text of the moment and the text.
pub fn moment_and_text(captures: Option<Vec<Option<String>>>) -> (r: Result<(String, String), ArgsError>)
    ensures
        r matches Ok((m, t)) ==> moment_and_text_of(match captures {
            Some(groups) => Some(group_views(groups@)),
            None => None,
        }) == Ok::<(Seq<char>, Seq<char>), ArgsError>((m@, t@)),
        r matches Err(e) ==> moment_and_text_of(match captures {
            Some(groups) => Some(group_views(groups@)),
            None => None,
        }) == Err::<(Seq<char>, Seq<char>), ArgsError>(e),
{
    let mut groups = match captures {
        Some(groups) => groups,
        None => return Err(ArgsError::Syntax),
    };
    if groups.len() < 3 {
        return Err(ArgsError::Syntax);
    }
    let ghost all = group_views(groups@);
    let text = groups.remove(2);
    let moment = groups.remove(1);
    assert(all[1] == match moment { Some(s) => Some(s@), None => None::<Seq<char>> });
    assert(all[2] == match text { Some(s) => Some(s@), None => None::<Seq<char>> });
    match (moment, text) {
        (Some(m), Some(t)) => Ok((m, t)),
        _ => Err(ArgsError::Syntax),
    }
}

/// The moment that `text` names, read at the current time. A text whose
/// spans of time may leave the range of a time span names no moment; so
/// does a weekday name where midnight of the current local day cannot be
/// found.
fn read_moment(text: &str) -> (r: Result<Instant, ArgsError>)
    ensures
        !spans_in_range(text@) ==> r == Err::<Instant, ArgsError>(ArgsError::Date),
        r is Err ==> r == Err::<Instant, ArgsError>(ArgsError::Date),
{
    if !has_spans_in_range(text) {
        return Err(ArgsError::Date);
    }
    let now = local_now();
    let midnight = if is_weekday_text(text) && now.secs <= LATEST_WEEKDAY_BASE {
        local_midnight(now)
    } else {
        None
    };
    if is_weekday_text(text) && midnight.is_none() {
        return Err(ArgsError::Date);
    }
    match parse_datetime_at(now, text, midnight) {
        Some(moment) => Ok(moment),
        None => Err(ArgsError::Date),
    }
}

/// A reminder: when it fires, and what it says.
#[derive(Debug, Clone, PartialEq, Eq)]
pub struct ReminderArgs {
    pub target: Instant,
    pub reminder: String,
}

impl ReminderArgs {
    /// Reads a reminder from the text of the command; the moment is read
    /// relative to the current time.
    pub fn parse(s: &str) -> (r: Result<Self, ArgsError>)
        ensures
            moment_and_text_of(regex_captures_of(REMINDER_PATTERN@, s@)) matches Err(e) ==> r == Err::<Self, ArgsError>(e),
            moment_and_text_of(regex_captures_of(REMINDER_PATTERN@, s@)) matches Ok((moment, _)) && !spans_in_range(moment) ==> r == Err::<
                Self,
                ArgsError,
            >(ArgsError::Date),
            moment_and_text_of(regex_captures_of(REMINDER_PATTERN@, s@)) is Ok && r is Err ==> r == Err::<Self, ArgsError>(ArgsError::Date),
            r matches Ok(args) ==> moment_and_text_of(regex_captures_of(REMINDER_PATTERN@, s@)) matches Ok((moment, text)) && args.reminder@ == text
                && spans_in_range(moment),
    {
        let (target, reminder) = moment_and_text(regex_captures(REMINDER_PATTERN, s))?;
        let target = read_moment(target.as_str())?;
        Ok(ReminderArgs { target, reminder })
    }
}

impl core::str::FromStr for ReminderArgs {
    type Err = ArgsError;

    fn from_str(s: &str) -> (r: Result<Self, Self::Err>)
        ensures
            moment_and_text_of(regex_captures_of(REMINDER_PATTERN@, s@)) matches Err(e) ==> r == Err::<Self, ArgsError>(e),
            moment_and_text_of(regex_captures_of(REMINDER_PATTERN@, s@)) matches Ok((moment, _)) && !spans_in_range(moment) ==> r == Err::<
                Self,
                ArgsError,
            >(ArgsError::Date),
            moment_and_text_of(regex_captures_of(REMINDER_PATTERN@, s@)) is Ok && r is Err ==> r == Err::<Self, ArgsError>(ArgsError::Date),
            r matches Ok(args) ==> moment_and_text_of(regex_captures_of(REMINDER_PATTERN@, s@)) matches Ok((moment, text)) && args.reminder@ == text
                && spans_in_range(moment),
    {
        Self::parse(s)
    }
}

/// A matchmaking call: when the event starts, and what it is.
#[derive(Debug, Clone, PartialEq, Eq)]
pub struct MatchmakingArgs {
    pub start: Instant,
    pub text: String,
}

impl MatchmakingArgs {
    /// Reads a matchmaking call from the text of the command; the moment is
    /// read relative to the current time.
    pub fn parse(s: &str) -> (r: Result<Self, ArgsError>)
        ensures
            moment_and_text_of(regex_captures_of(MATCHMAKING_PATTERN@, s@)) matches Err(e) ==> r == Err::<Self, ArgsError>(e),
            moment_and_text_of(regex_captures_of(MATCHMAKING_PATTERN@, s@)) matches Ok((moment, _)) && !spans_in_range(moment) ==> r == Err::<
                Self,
                ArgsError,
            >(ArgsError::Date),
            moment_and_text_of(regex_captures_of(MATCHMAKING_PATTERN@, s@)) is Ok && r is Err ==> r == Err::<Self, ArgsError>(ArgsError::Date),
            r matches Ok(args) ==> moment_and_text_of(regex_captures_of(MATCHMAKING_PATTERN@, s@)) matches Ok((moment, text)) && args.text@ == text
                && spans_in_range(moment),
    {
        let (start, text) = moment_and_text(regex_captures(MATCHMAKING_PATTERN, s))?;
        let start = read_moment(start.as_str())?;
        Ok(MatchmakingArgs { start, text })
    }
}

impl core::str::FromStr for MatchmakingArgs {
    type Err = ArgsError;

    fn from_str(s: &str) -> (r: Result<Self, Self::Err>)
        ensures
            moment_and_text_of(regex_captures_of(MATCHMAKING_PATTERN@, s@)) matches Err(e) ==> r == Err::<Self, ArgsError>(e),
            moment_and_text_of(regex_captures_of(MATCHMAKING_PATTERN@, s@)) matches Ok((moment, _)) && !spans_in_range(moment) ==> r == Err::<
                Self,
                ArgsError,
            >(ArgsError::Date),
            moment_and_text_of(regex_captures_of(MATCHMAKING_PATTERN@, s@)) is Ok && r is Err ==> r == Err::<Self, ArgsError>(ArgsError::Date),
            r matches Ok(args) ==> moment_and_text_of(regex_captures_of(MATCHMAKING_PATTERN@, s@)) matches Ok((moment, text)) && args.text@ == text
                && spans_in_range(moment),
    {
        Self::parse(s)
    }
}

} // verus!
