use rand::SeedableRng;
use royalnet::args::{moment_and_text, ArgsError, MatchmakingArgs, ReminderArgs};
use royalnet::callbacks::ReplyAction;
use royalnet::commands::{
    countable_noun_suffix, echo_message, error_message, help_all_message, help_specific_message, is_command_text,
    malformed_simple_message, parse_error_action, reminder_message, start_message, whoami_message, BotCommandInfo,
    Command, CommandParseError, Handler, MessageAction, UnknownHelpTarget,
};
use royalnet::diario::{diario_saved_text, DiarioArgs, DiarioError};
use royalnet::ext_chrono::Instant;
use royalnet::ext_parse_datetime::{has_spans_in_range, is_weekday_text};
use royalnet::models::{Diario, MatchmakingChoice, MatchmakingId, MatchmakingReply, RoyalnetUserId};
use royalnet::roll::{format_roll, roll_answer, roll_command, roll_dice, rolled_total_fits, RollError, RollSpec};

const RICKROLL: &str = "🎶 Roll? Rick roll! https://www.youtube.com/watch?v=dQw4w9WgXcQ";

fn bot_commands() -> Vec<BotCommandInfo> {
    vec![
        BotCommandInfo { command: "/start".to_string(), description: "Invia messaggio di introduzione.".to_string() },
        BotCommandInfo { command: "/echo".to_string(), description: "Ripeti il testo inviato.".to_string() },
    ]
}

#[test]
fn commands_go_to_their_handlers() {
    assert_eq!(Command::Start.handler(), Handler::Start);
    assert_eq!(Command::Help(String::new()).handler(), Handler::HelpAll);
    assert_eq!(Command::Help("echo".to_string()).handler(), Handler::HelpSpecific);
    assert_eq!(Command::Echo("x".to_string()).handler(), Handler::Echo);
    assert_eq!(Command::Roll("2d6".to_string()).handler(), Handler::Roll);
    let reminder = ReminderArgs { target: Instant { secs: 0, nanos: 0 }, reminder: "x".to_string() };
    assert_eq!(Command::Reminder(reminder).handler(), Handler::Reminder);
}

#[test]
fn only_slash_texts_are_commands() {
    assert!(is_command_text(Some("/start")));
    assert!(!is_command_text(Some("start")));
    assert!(!is_command_text(Some("")));
    assert!(!is_command_text(None));
}

#[test]
fn italian_plural_suffix() {
    assert_eq!(countable_noun_suffix(1, "o", "i"), "o");
    assert_eq!(countable_noun_suffix(0, "o", "i"), "i");
    assert_eq!(countable_noun_suffix(2, "o", "i"), "i");
}

#[test]
fn malformed_command_texts() {
    assert_eq!(malformed_simple_message(1, 0), "⚠️ Il comando si aspetta 1 argomento, ma ne ha ricevuti solo 0.");
    assert_eq!(malformed_simple_message(2, 1), "⚠️ Il comando si aspetta 2 argomenti, ma ne ha ricevuto solo 1.");
}

#[test]
fn parse_errors_are_answered() {
    assert_eq!(parse_error_action(&CommandParseError::WrongBotName("other".to_string())), MessageAction::Ignore);
    assert_eq!(
        parse_error_action(&CommandParseError::TooFewArguments { expected: 1, found: 0 }),
        MessageAction::Reply("⚠️ Il comando si aspetta 1 argomento, ma ne ha ricevuti solo 0.".to_string())
    );
    assert_eq!(
        parse_error_action(&CommandParseError::TooManyArguments { expected: 0, found: 3 }),
        MessageAction::Reply("⚠️ Il comando si aspetta 0 argomenti, ma ne ha ricevuti solo 3.".to_string())
    );
    assert_eq!(
        parse_error_action(&CommandParseError::IncorrectFormat("x".to_string())),
        MessageAction::Reply("⚠️ Il comando si aspetta una sintassi diversa da quella che ha ricevuto.".to_string())
    );
    assert_eq!(
        parse_error_action(&CommandParseError::UnknownCommand("/x".to_string())),
        MessageAction::Reply("⚠️ Il comando specificato non esiste.".to_string())
    );
    assert_eq!(
        parse_error_action(&CommandParseError::Custom("Sintassi del comando incorretta.".to_string())),
        MessageAction::Reply("⚠️ Sintassi del comando incorretta.".to_string())
    );
}

#[test]
fn simple_answers() {
    assert_eq!(error_message("boom"), "⚠️ boom");
    assert_eq!(echo_message("ciao"), "💬 ciao");
    assert_eq!(whoami_message("a<b"), "👤 Nel database RYG, tu hai l'username <code>a&lt;b</code>.");
    assert_eq!(help_all_message("/start - x"), "❔ <b>Comandi disponibili</b>\n\n/start - x");
}

#[test]
fn start_greets_by_username_or_name() {
    let tail = "! Sono @RoyalnetBot, il robot tuttofare della RYG!\n\nSto eseguendo la versione 1.2.3.\n\nPuoi vedere l'elenco delle mie funzionalità dal menu in basso.\n\nCosa posso fare per te oggi?";
    assert_eq!(start_message(Some("steffo"), "Stefano", "RoyalnetBot", "1.2.3"), format!("👋 Ciao @steffo{tail}"));
    assert_eq!(start_message(None, "Stefano", "RoyalnetBot", "1.2.3"), format!("👋 Ciao Stefano{tail}"));
}

#[test]
fn help_about_one_command() {
    let commands = bot_commands();
    assert_eq!(
        help_specific_message("echo", "RoyalnetBot", &commands, false),
        Ok("❔ <b>Comando /echo@RoyalnetBot</b>\n\nRipeti il testo inviato.".to_string())
    );
    assert_eq!(
        help_specific_message("/echo@RoyalnetBot", "RoyalnetBot", &commands, true),
        Ok("❔ <b>Comando /echo</b>\n\nRipeti il testo inviato.".to_string())
    );
    assert_eq!(help_specific_message("/fortune", "RoyalnetBot", &commands, true), Err(UnknownHelpTarget));
    assert_eq!(UnknownHelpTarget.message(), "Non è stato possibile trovare il comando specificato.");
}

#[test]
fn reminder_texts() {
    assert_eq!(
        reminder_message(false, "lun 1 gen 2024", "a&b"),
        "🕒 <b>Promemoria impostato</b>\n<i>lun 1 gen 2024</i>\n\na&amp;b"
    );
    assert_eq!(reminder_message(true, "x", "y"), "🕒 <b>Promemoria attivato</b>\n<i>x</i>\n\ny");
}

#[test]
fn dice_are_read() {
    assert_eq!(RollSpec::parse("2d6+3"), Ok(RollSpec { qty: 2, die: 6, modifier: 3 }));
    assert_eq!(RollSpec::parse("5d20-1"), Ok(RollSpec { qty: 5, die: 20, modifier: -1 }));
    assert_eq!(RollSpec::parse("roll 3d8+0 please"), Ok(RollSpec { qty: 3, die: 8, modifier: 0 }));
}

#[test]
fn dice_errors() {
    assert_eq!(RollSpec::parse("abc"), Err(RollError::Syntax));
    assert_eq!(RollSpec::parse("0d6+1"), Err(RollError::NoQuantity));
    assert_eq!(RollSpec::parse("2d0+1"), Err(RollError::NoDie));
    assert_eq!(RollSpec::parse("2d6+"), Err(RollError::InvalidModifier));
    assert_eq!(RollSpec::parse("99999999999d6+1"), Err(RollError::InvalidQuantity));
    assert_eq!(RollSpec::parse("2d99999999999+1"), Err(RollError::InvalidDie));
    assert_eq!(RollError::Syntax.message(), "Sintassi dei dadi non corretta.");
    assert_eq!(RollError::NoDie.message(), "Non è stato specificato nessun dado.");
}

#[test]
fn rolled_totals_that_fit() {
    assert!(rolled_total_fits(&vec![3, 5], 2));
    assert!(rolled_total_fits(&vec![], 0));
    assert!(!rolled_total_fits(&vec![u32::MAX, 1], 0));
    assert!(!rolled_total_fits(&vec![i32::MAX as u32], 1));
    assert!(rolled_total_fits(&vec![i32::MAX as u32 + 1], 0));
    assert!(!rolled_total_fits(&vec![i32::MAX as u32 + 1], -1));
}

#[test]
fn rolls_are_formatted() {
    assert_eq!(format_roll(&vec![3, 5], 2), "🎲 [3\n5]+2 = 10");
    assert_eq!(format_roll(&vec![4], 0), "🎲 [4] = 4");
    assert_eq!(format_roll(&vec![1, 1], -5), "🎲 [1\n1]-5 = -3");
}

#[test]
fn rolls_stay_on_the_die() {
    let mut rng = rand::rngs::SmallRng::seed_from_u64(7);
    let rolls = roll_dice(&mut rng, RollSpec { qty: 50, die: 6, modifier: 0 });
    assert_eq!(rolls.len(), 50);
    assert!(rolls.iter().all(|r| (1..=6).contains(r)));
}

#[test]
fn roll_command_answers() {
    for _ in 0..20 {
        match roll_command("2d6+3") {
            Some(Ok(text)) if text == RICKROLL => {},
            Some(Ok(text)) => {
                assert!(text.starts_with("🎲 ["));
                let total: i32 = text.rsplit(" = ").next().unwrap().parse().unwrap();
                assert!((5..=15).contains(&total), "{text}");
            },
            other => panic!("unexpected answer {other:?}"),
        }
    }
    let r = roll_command("abc");
    assert!(r == Some(Err(RollError::Syntax)) || r == Some(Ok(RICKROLL.to_string())));
}

#[test]
fn diario_lines_are_read() {
    assert_eq!(
        DiarioArgs::parse("[cw] \"hello\" —Steffo, at home"),
        Ok(DiarioArgs {
            warning: Some("cw".to_string()),
            quote: "hello".to_string(),
            quoted: Some("Steffo".to_string()),
            context: Some("at home".to_string()),
        })
    );
    assert_eq!(
        "\"ciao\"".parse::<DiarioArgs>(),
        Ok(DiarioArgs { warning: None, quote: "ciao".to_string(), quoted: None, context: None })
    );
    assert_eq!(
        DiarioArgs::parse("just text"),
        Ok(DiarioArgs { warning: None, quote: "just text".to_string(), quoted: None, context: None })
    );
    assert_eq!(DiarioArgs::parse(""), Err(DiarioError::EmptyQuote));
    assert_eq!(DiarioError::EmptyQuote.message(), "la citazione non deve essere vuota.");
    assert_eq!(DiarioError::NoQuote.message(), "Citazione non specificata nel comando.");
}

#[test]
fn diario_groups_without_quote() {
    let groups = Some(vec![Some("x".to_string()), None, None, None, None]);
    assert_eq!(DiarioArgs::from_captures("x", groups), Err(DiarioError::NoQuote));
}

#[test]
fn diario_lines_are_shown() {
    let entry = Diario {
        id: 42,
        saver_id: None,
        saved_on: None,
        quoted_id: None,
        quoted_name: Some("Steffo".to_string()),
        warning: Some("spoiler".to_string()),
        quote: "a < b".to_string(),
        context: Some("ieri".to_string()),
    };
    assert_eq!(
        entry.to_string_telegram(),
        "<code>#42</code>, <b>spoiler</b>\n<blockquote expandable><tg-spoiler>a &lt; b</tg-spoiler></blockquote>\n—Steffo, <i>ieri</i>"
    );
    let plain = Diario {
        id: 1,
        saver_id: None,
        saved_on: None,
        quoted_id: None,
        quoted_name: None,
        warning: None,
        quote: "q".to_string(),
        context: Some("c".to_string()),
    };
    assert_eq!(plain.to_string_telegram(), "<code>#1</code>\n<blockquote expandable>q</blockquote>\n...<i>c</i>");
    assert_eq!(
        diario_saved_text(&plain),
        "🖋 Riga aggiunta al diario!\n\n<code>#1</code>\n<blockquote expandable>q</blockquote>\n...<i>c</i>"
    );
}

#[test]
fn reminders_are_read() {
    let args = ReminderArgs::parse("[@1613371067] ciao a tutti").unwrap();
    assert_eq!(args.target.secs, 1613371067);
    assert_eq!(args.reminder, "ciao a tutti");
    assert_eq!(ReminderArgs::parse("ciao"), Err(ArgsError::Syntax));
    assert_eq!("[foobar] ciao".parse::<ReminderArgs>(), Err(ArgsError::Date));
}

#[test]
fn matchmaking_calls_are_read() {
    let args = MatchmakingArgs::parse("[@1700000000]   Dota?").unwrap();
    assert_eq!(args.start.secs, 1700000000);
    assert_eq!(args.text, "Dota?");
    assert_eq!(MatchmakingArgs::parse("[@1700000000]"), Err(ArgsError::Syntax));
    assert_eq!(ArgsError::Syntax.message(), "Sintassi del comando incorretta.");
    assert_eq!(ArgsError::Date.message(), "Impossibile determinare la data in cui l'attesa avrà termine.");
}

#[test]
fn moment_and_text_groups() {
    let groups = Some(vec![Some("[m] t".to_string()), Some("m".to_string()), Some("t".to_string())]);
    assert_eq!(moment_and_text(groups), Ok(("m".to_string(), "t".to_string())));
    assert_eq!(moment_and_text(None), Err(ArgsError::Syntax));
    assert_eq!(moment_and_text(Some(vec![Some("x".to_string())])), Err(ArgsError::Syntax));
}

#[test]
fn first_replies() {
    let id = MatchmakingId(4);
    let user = RoyalnetUserId(9);
    assert_eq!(
        ReplyAction::Choose(MatchmakingChoice::Maybe).first_reply(id, user),
        MatchmakingReply { matchmaking_id: id, user_id: user, choice: MatchmakingChoice::Maybe, late_mins: 0 }
    );
    assert_eq!(
        ReplyAction::AddLateMinutes(15).first_reply(id, user),
        MatchmakingReply { matchmaking_id: id, user_id: user, choice: MatchmakingChoice::Late, late_mins: 15 }
    );
}

#[test]
fn roll_answers_for_a_draw() {
    let mut rng = rand::rngs::SmallRng::seed_from_u64(3);
    assert_eq!(roll_answer(1, "2d6+3", &mut rng), Some(Ok(RICKROLL.to_string())));
    assert_eq!(roll_answer(1, "nonsense", &mut rng), Some(Ok(RICKROLL.to_string())));
    assert_eq!(roll_answer(1, "2d4294967295+0", &mut rng), Some(Ok(RICKROLL.to_string())));
    assert_eq!(roll_answer(2, "2d6", &mut rng), Some(Err(RollError::InvalidModifier)));
    assert_eq!(roll_answer(2, "nonsense", &mut rng), Some(Err(RollError::Syntax)));
    assert_eq!(roll_answer(1000, "2d0+1", &mut rng), Some(Err(RollError::NoDie)));
    assert_eq!(roll_answer(500, "3d1+2", &mut rng), Some(Ok("🎲 [1\n1\n1]+2 = 5".to_string())));
    assert_eq!(roll_answer(500, "2d1-2147483647", &mut rng), Some(Ok("🎲 [1\n1]-2147483647 = -2147483645".to_string())));
    assert_eq!(roll_answer(500, "1d1+2147483647", &mut rng), None);
    for _ in 0..20 {
        match roll_answer(7, "2d4294967295+0", &mut rng) {
            None => {},
            Some(Ok(text)) => assert!(text.starts_with("🎲 [")),
            other => panic!("unexpected answer {other:?}"),
        }
    }
}

#[test]
fn long_amounts_of_time_are_refused() {
    assert!(has_spans_in_range("in 3 days"));
    assert!(has_spans_in_range("99999999 days"));
    assert!(has_spans_in_range("123456789 seconds"));
    assert!(has_spans_in_range("280000000 years"));
    assert!(!has_spans_in_range("280000001 years"));
    assert!(has_spans_in_range("99999999 weeks 99999999 weeks"));
    assert!(!has_spans_in_range("99999999 weeks 99999999 weeks 99999999 weeks"));
    assert!(!has_spans_in_range("999999999 days"));
    assert!(!has_spans_in_range("999999999999 years ago"));
    assert!(!has_spans_in_range("1234567890h"));
    assert!(!has_spans_in_range("1234567890 \u{3000}days"));
    assert!(has_spans_in_range("@1613371067"));
    assert!(has_spans_in_range("202401011200"));
    assert!(has_spans_in_range("202401011200 +0100"));
    assert!(has_spans_in_range(""));
    assert_eq!(ReminderArgs::parse("[999999999999 days] ciao"), Err(ArgsError::Date));
    assert_eq!(MatchmakingArgs::parse("[9999999999 years] Dota"), Err(ArgsError::Date));
    let many = "99999999 weeks ".repeat(150);
    assert_eq!(ReminderArgs::parse(&format!("[{many}] ciao")), Err(ArgsError::Date));
    assert_eq!(ReminderArgs::parse("nessuna parentesi 999999999999 days"), Err(ArgsError::Syntax));
}

#[test]
fn weekday_names_are_recognised() {
    assert!(is_weekday_text("monday"));
    assert!(is_weekday_text("  Friday\t"));
    assert!(is_weekday_text("\u{3000}SUN"));
    assert!(is_weekday_text("wednes"));
    assert!(!is_weekday_text("mondays"));
    assert!(!is_weekday_text("tomorrow"));
    assert!(!is_weekday_text("mon day"));
    assert!(!is_weekday_text(""));
    assert!(ReminderArgs::parse("[monday] ciao").is_ok());
}
