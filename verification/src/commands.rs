//! The commands of the Telegram bot: what they are, which handler answers
//! each, and the texts of the answers that need no outside service.
use vstd::prelude::*;
use vstd::string::{StrSliceExecFns, StringExecFns};
use crate::args::{MatchmakingArgs, ReminderArgs};
use crate::diario::DiarioArgs;
use crate::text::{escape_html, int_decimal, push_char, push_decimal_u64, push_escaped, same_text};

verus! {

/// A command of the bot, with its arguments.
#[derive(Debug, Clone, PartialEq, Eq)]
pub enum Command {
    Start,
    Help(String),
    Fortune,
    Echo(String),
    WhoAmI,
    Answer(String),
    Reminder(ReminderArgs),
    Dog,
    Cat,
    Roll(String),
    Diario(DiarioArgs),
    Matchmaking(MatchmakingArgs),
}

/// The handler that answers a command.
#[derive(Debug, Clone, Copy, PartialEq, Eq, Structural)]
pub enum Handler {
    Start,
    HelpAll,
    HelpSpecific,
    Fortune,
    Echo,
    WhoAmI,
    Answer,
    Reminder,
    Dog,
    Cat,
    Roll,
    Diario,
    Matchmaking,
}

/// The handler of a command: `/help` alone lists every command, `/help` with
/// a command describes that one.
pub open spec fn handler_of(c: Command) -> Handler {
    match c {
        Command::Start => Handler::Start,
        Command::Help(target) => if target@.len() == 0 {
            Handler::HelpAll
        } else {
            Handler::HelpSpecific
        },
        Command::Fortune => Handler::Fortune,
        Command::Echo(_) => Handler::Echo,
        Command::WhoAmI => Handler::WhoAmI,
        Command::Answer(_) => Handler::Answer,
        Command::Reminder(_) => Handler::Reminder,
        Command::Dog => Handler::Dog,
        Command::Cat => Handler::Cat,
        Command::Roll(_) => Handler::Roll,
        Command::Diario(_) => Handler::Diario,
        Command::Matchmaking(_) => Handler::Matchmaking,
    }
}

impl Command {
    /// The handler that answers the command.
    pub fn handler(&self) -> (r: Handler)
        ensures
            r == handler_of(*self),
    {
        match self {
            Command::Start => Handler::Start,
            Command::Help(target) => if target.as_str().is_empty() {
                Handler::HelpAll
            } else {
                Handler::HelpSpecific
            },
            Command::Fortune => Handler::Fortune,
            Command::Echo(_) => Handler::Echo,
            Command::WhoAmI => Handler::WhoAmI,
            Command::Answer(_) => Handler::Answer,
            Command::Reminder(_) => Handler::Reminder,
            Command::Dog => Handler::Dog,
            Command::Cat => Handler::Cat,
            Command::Roll(_) => Handler::Roll,
            Command::Diario(_) => Handler::Diario,
            Command::Matchmaking(_) => Handler::Matchmaking,
        }
    }
}

/// How the text of a command failed to parse.
#[derive(Debug, Clone, PartialEq, Eq)]
pub enum CommandParseError {
    /// The command was addressed to another bot.
    WrongBotName(String),
    TooFewArguments { expected: usize, found: usize },
    TooManyArguments { expected: usize, found: usize },
    /// The arguments did not have the shape that the command expects.
    IncorrectFormat(String),
    UnknownCommand(String),
    /// The arguments were rejected; the message says why.
    Custom(String),
}

/// What to do with a message.
#[derive(Debug, Clone, PartialEq, Eq)]
pub enum MessageAction {
    /// Leave it unanswered.
    Ignore,
    /// Answer it with this text.
    Reply(String),
}

/// The message is a command: it has text, and the text starts with `/`.
pub open spec fn is_command(text: Option<Seq<char>>) -> bool {
    text matches Some(t) && t.len() > 0 && t[0] == '/'
}

/// Whether a message, by its text, is to be parsed as a command.
pub fn is_command_text(text: Option<&str>) -> (r: bool)
    ensures
        r == is_command(match text {
            Some(t) => Some(t@),
            None => None,
        }),
{
    match text {
        None => false,
        Some(t) => {
            if t.is_empty() {
                false
            } else {
                t.get_char(0) == '/'
            }
        },
    }
}

/// `n` things take the singular ending, else the plural one.
pub open spec fn countable_suffix(n: int, singular: Seq<char>, plural: Seq<char>) -> Seq<char> {
    if n == 1 {
        singular
    } else {
        plural
    }
}

/// The ending of an Italian noun for a count: `singular` for one, `plural`
/// otherwise.
pub fn countable_noun_suffix<'a>(n: usize, singular: &'a str, plural: &'a str) -> (r: &'a str)
    ensures
        r@ == countable_suffix(n as int, singular@, plural@),
{
    if n == 1 {
        singular
    } else {
        plural
    }
}

/// The answer to a command with a wrong number of arguments.
pub open spec fn malformed_simple_text(expected: int, found: int) -> Seq<char> {
    "⚠️ Il comando si aspetta "@ + int_decimal(expected) + " argoment"@ + countable_suffix(expected, "o"@, "i"@)
        + ", ma ne ha ricevut"@ + countable_suffix(found, "o"@, "i"@) + " solo "@ + int_decimal(found) + "."@
}

pub fn malformed_simple_message(expected: usize, found: usize) -> (r: String)
    ensures
        r@ == malformed_simple_text(expected as int, found as int),
{
    let mut out = String::from_str("⚠️ Il comando si aspetta ");
    push_decimal_u64(&mut out, expected as u64);
    out.append(" argoment");
    out.append(countable_noun_suffix(expected, "o", "i"));
    out.append(", ma ne ha ricevut");
    out.append(countable_noun_suffix(found, "o", "i"));
    out.append(" solo ");
    push_decimal_u64(&mut out, found as u64);
    out.append(".");
    assert(out@ =~= malformed_simple_text(expected as int, found as int));
    out
}

pub open spec fn malformed_complex_text() -> Seq<char> {
    "⚠️ Il comando si aspetta una sintassi diversa da quella che ha ricevuto."@
}

pub open spec fn unknown_command_text() -> Seq<char> {
    "⚠️ Il comando specificato non esiste."@
}

/// The answer to a command that failed: a warning sign and the error.
pub open spec fn error_text(error: Seq<char>) -> Seq<char> {
    "⚠️ "@ + error
}

pub fn error_message(error: &str) -> (r: String)
    ensures
        r@ == error_text(error@),
{
    let mut out = String::from_str("⚠️ ");
    out.append(error);
    out
}

/// What to answer to a message whose text failed to parse as a command:
/// nothing where it was meant for another bot, else a warning that says
/// what was wrong.
pub fn parse_error_action(error: &CommandParseError) -> (r: MessageAction)
    ensures
        (error is WrongBotName) == (r == MessageAction::Ignore),
        r matches MessageAction::Reply(t) ==> match *error {
            CommandParseError::WrongBotName(_) => false,
            CommandParseError::TooFewArguments { expected, found } => t@ == malformed_simple_text(expected as int, found as int),
            CommandParseError::TooManyArguments { expected, found } => t@ == malformed_simple_text(expected as int, found as int),
            CommandParseError::IncorrectFormat(_) => t@ == malformed_complex_text(),
            CommandParseError::UnknownCommand(_) => t@ == unknown_command_text(),
            CommandParseError::Custom(e) => t@ == error_text(e@),
        },
{
    match error {
        CommandParseError::WrongBotName(_) => MessageAction::Ignore,
        CommandParseError::TooFewArguments { expected, found } => MessageAction::Reply(malformed_simple_message(*expected, *found)),
        CommandParseError::TooManyArguments { expected, found } => MessageAction::Reply(malformed_simple_message(*expected, *found)),
        CommandParseError::IncorrectFormat(_) => MessageAction::Reply(
            String::from_str("⚠️ Il comando si aspetta una sintassi diversa da quella che ha ricevuto."),
        ),
        CommandParseError::UnknownCommand(_) => MessageAction::Reply(String::from_str("⚠️ Il comando specificato non esiste.")),
        CommandParseError::Custom(e) => MessageAction::Reply(error_message(e.as_str())),
    }
}

/// The greeting of `/start`: the user by username (or first name), the bot,
/// and the version that it runs.
pub open spec fn start_text(author: Seq<char>, me: Seq<char>, version: Seq<char>) -> Seq<char> {
    "👋 Ciao "@ + author + "! Sono @"@ + me + ", il robot tuttofare della RYG!\n\nSto eseguendo la versione "@
        + version + ".\n\nPuoi vedere l'elenco delle mie funzionalità dal menu in basso.\n\nCosa posso fare per te oggi?"@
}

/// How `/start` names the user: `@username` where there is one, else the
/// first name.
pub open spec fn author_name(username: Option<Seq<char>>, first_name: Seq<char>) -> Seq<char> {
    match username {
        Some(u) => "@"@ + u,
        None => first_name,
    }
}

pub fn start_message(author_username: Option<&str>, first_name: &str, me_username: &str, version: &str) -> (r: String)
    ensures
        r@ == start_text(
            author_name(match author_username {
                Some(u) => Some(u@),
                None => None,
            }, first_name@),
            me_username@,
            version@,
        ),
{
    let mut out = String::from_str("👋 Ciao ");
    match author_username {
        Some(u) => {
            out.append("@");
            out.append(u);
        },
        None => out.append(first_name),
    }
    out.append("! Sono @");
    out.append(me_username);
    out.append(", il robot tuttofare della RYG!\n\nSto eseguendo la versione ");
    out.append(version);
    out.append(".\n\nPuoi vedere l'elenco delle mie funzionalità dal menu in basso.\n\nCosa posso fare per te oggi?");
    assert(out@ =~= start_text(
        author_name(match author_username {
            Some(u) => Some(u@),
            None => None,
        }, first_name@),
        me_username@,
        version@,
    ));
    out
}

/// The answer to `/echo`.
pub fn echo_message(text: &str) -> (r: String)
    ensures
        r@ == "💬 "@ + text@,
{
    let mut out = String::from_str("💬 ");
    out.append(text);
    out
}

/// The answer to `/whoami`: the user's name in the RYG database.
pub fn whoami_message(username: &str) -> (r: String)
    ensures
        r@ == "👤 Nel database RYG, tu hai l'username <code>"@ + escape_html(username@) + "</code>."@,
{
    let mut out = String::from_str("👤 Nel database RYG, tu hai l'username <code>");
    push_escaped(&mut out, username);
    out.append("</code>.");
    out
}

/// The answer to `/help` alone: the descriptions of all commands.
pub fn help_all_message(descriptions: &str) -> (r: String)
    ensures
        r@ == "❔ <b>Comandi disponibili</b>\n\n"@ + descriptions@,
{
    let mut out = String::from_str("❔ <b>Comandi disponibili</b>\n\n");
    out.append(descriptions);
    out
}

/// A command as the bot lists it: its name (with or without the leading
/// `/`) and its description.
#[derive(Debug, Clone, PartialEq, Eq)]
pub struct BotCommandInfo {
    pub command: String,
    pub description: String,
}

/// `s` without the leading `/`, where it has one.
pub open spec fn strip_slash(s: Seq<char>) -> Seq<char> {
    if s.len() > 0 && s[0] == '/' {
        s.drop_first()
    } else {
        s
    }
}

/// `s` without `suffix` at its end, where it ends so.
pub open spec fn strip_suffix(s: Seq<char>, suffix: Seq<char>) -> Seq<char> {
    if suffix.len() <= s.len() && s.subrange(s.len() - suffix.len(), s.len() as int) == suffix {
        s.subrange(0, s.len() - suffix.len())
    } else {
        s
    }
}

fn strip_slash_str(s: &str) -> (r: &str)
    ensures
        r@ == strip_slash(s@),
{
    let n = s.unicode_len();
    if n > 0 && s.get_char(0) == '/' {
        let r = s.substring_char(1, n);
        assert(r@ =~= s@.drop_first());
        r
    } else {
        s
    }
}

fn strip_suffix_str<'a>(s: &'a str, suffix: &str) -> (r: &'a str)
    ensures
        r@ == strip_suffix(s@, suffix@),
{
    let n = s.unicode_len();
    let k = suffix.unicode_len();
    if k <= n {
        let tail = s.substring_char(n - k, n);
        if same_text(tail, suffix) {
            return s.substring_char(0, n - k);
        }
    }
    s
}

/// The first command whose name, without its leading `/`, is `target`.
pub open spec fn find_command(commands: Seq<BotCommandInfo>, target: Seq<char>) -> Option<int>
    decreases commands.len(),
{
    if commands.len() == 0 {
        None
    } else if strip_slash(commands[0].command@) == target {
        Some(0)
    } else {
        match find_command(commands.drop_first(), target) {
            Some(i) => Some(i + 1),
            None => None,
        }
    }
}

/// The command that `/help <target>` asks about: the target without a
/// leading `/` and without the bot's `@username` at its end.
pub open spec fn help_target(target: Seq<char>, me_username: Seq<char>) -> Seq<char> {
    strip_suffix(strip_slash(target), "@"@ + me_username)
}

/// The answer to `/help <target>`: the command's name (followed by the bot's
/// `@username` outside private chats) and its description.
pub open spec fn help_specific_text(c: BotCommandInfo, me_username: Seq<char>, is_private: bool) -> Seq<char> {
    "❔ <b>Comando "@ + c.command@ + (if is_private { Seq::empty() } else { "@"@ + me_username }) + "</b>\n\n"@
        + c.description@
}

/// The command asked about is not one of the bot's.
#[derive(Debug, Clone, Copy, PartialEq, Eq, Structural)]
pub struct UnknownHelpTarget;

impl UnknownHelpTarget {
    pub fn message(&self) -> (r: &'static str)
        ensures
            r@ == "Non è stato possibile trovare il comando specificato."@,
    {
        "Non è stato possibile trovare il comando specificato."
    }
}

/// The answer to `/help <target>`, given the bot's username and commands.
pub fn help_specific_message(target: &str, me_username: &str, commands: &Vec<BotCommandInfo>, is_private: bool) -> (r: Result<String, UnknownHelpTarget>)
    ensures
        r matches Ok(t) ==> find_command(commands@, help_target(target@, me_username@)) matches Some(i)
            && t@ == help_specific_text(commands@[i], me_username@, is_private),
        r is Err <==> find_command(commands@, help_target(target@, me_username@)) is None,
{
    let mut suffix = String::from_str("@");
    suffix.append(me_username);
    let stripped = strip_slash_str(target);
    let wanted = strip_suffix_str(stripped, suffix.as_str());
    let ghost goal = help_target(target@, me_username@);
    assert(wanted@ == goal);
    let mut i: usize = 0;
    assert(commands@.skip(0) =~= commands@);
    while i < commands.len()
        invariant
            i <= commands.len(),
            wanted@ == goal,
            goal == help_target(target@, me_username@),
            suffix@ == "@"@ + me_username@,
            find_command(commands@, goal) == (match find_command(commands@.skip(i as int), goal) {
                Some(j) => Some(j + i),
                None => None::<int>,
            }),
        decreases commands.len() - i,
    {
        let name = strip_slash_str(commands[i].command.as_str());
        assert(commands@.skip(i as int)[0] == commands@[i as int]);
        if same_text(name, wanted) {
            assert(strip_slash(commands@.skip(i as int)[0].command@) == goal);
            assert(find_command(commands@.skip(i as int), goal) == Some(0int));
            assert(find_command(commands@, goal) == Some(i as int));
            let c = &commands[i];
            let mut out = String::from_str("❔ <b>Comando ");
            out.append(c.command.as_str());
            if !is_private {
                out.append(suffix.as_str());
            }
            out.append("</b>\n\n");
            out.append(c.description.as_str());
            assert(out@ =~= help_specific_text(commands@[i as int], me_username@, is_private));
            return Ok(out);
        }
        assert(commands@.skip(i as int).drop_first() =~= commands@.skip(i + 1));
        i = i + 1;
    }
    assert(commands@.skip(i as int) =~= Seq::<BotCommandInfo>::empty());
    Err(UnknownHelpTarget)
}

/// The texts of a reminder: when it is set, and when it fires.
pub open spec fn reminder_text(fired: bool, moment: Seq<char>, reminder: Seq<char>) -> Seq<char> {
    (if fired { "🕒 <b>Promemoria attivato</b>"@ } else { "🕒 <b>Promemoria impostato</b>"@ }) + seq!['\n']
        + "<i>"@ + escape_html(moment) + "</i>"@ + seq!['\n', '\n'] + escape_html(reminder)
}

/// The text of a reminder that was set (`fired` false) or fires (`fired`
/// true); `moment` is when it fires, as shown to the chat.
pub fn reminder_message(fired: bool, moment: &str, reminder: &str) -> (r: String)
    ensures
        r@ == reminder_text(fired, moment@, reminder@),
{
    let mut out = if fired {
        String::from_str("🕒 <b>Promemoria attivato</b>")
    } else {
        String::from_str("🕒 <b>Promemoria impostato</b>")
    };
    push_char(&mut out, '\n');
    out.append("<i>");
    push_escaped(&mut out, moment);
    out.append("</i>");
    push_char(&mut out, '\n');
    push_char(&mut out, '\n');
    push_escaped(&mut out, reminder);
    assert(out@ =~= reminder_text(fired, moment@, reminder@));
    out
}

} // verus!
