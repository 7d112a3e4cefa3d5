use royalnet::callbacks::{
    button_received_text, unknown_button_text, KeyboardCallback, KeyboardCallbackError,
    MatchmakingTelegramKeyboardCallback, ReplyAction,
};
use royalnet::models::{
    DotaMatchId, MatchmakingChoice, MatchmakingId, ParseIdError, RoyalnetUserId, TelegramChatId, TelegramMessageId,
    TelegramUserId, UnknownMatchmakingChoice,
};

const ALL_BUTTONS: [MatchmakingTelegramKeyboardCallback; 8] = [
    MatchmakingTelegramKeyboardCallback::Yes,
    MatchmakingTelegramKeyboardCallback::Plus5Min,
    MatchmakingTelegramKeyboardCallback::Plus15Min,
    MatchmakingTelegramKeyboardCallback::Plus60Min,
    MatchmakingTelegramKeyboardCallback::Maybe,
    MatchmakingTelegramKeyboardCallback::DontWait,
    MatchmakingTelegramKeyboardCallback::Cant,
    MatchmakingTelegramKeyboardCallback::Wont,
];

const ALL_CHOICES: [MatchmakingChoice; 6] = [
    MatchmakingChoice::Yes,
    MatchmakingChoice::Late,
    MatchmakingChoice::Maybe,
    MatchmakingChoice::DontWait,
    MatchmakingChoice::Cant,
    MatchmakingChoice::Wont,
];

#[test]
fn identifiers_are_written_in_decimal() {
    assert_eq!(DotaMatchId(7654321).to_string(), "7654321");
    assert_eq!(TelegramUserId(-5).to_string(), "-5");
    assert_eq!(TelegramChatId(-1001234567890).to_string(), "-1001234567890");
    assert_eq!(TelegramMessageId(12).to_string(), "12");
    assert_eq!(RoyalnetUserId(3).to_string(), "3");
    assert_eq!(MatchmakingId(99).to_string(), "99");
}

#[test]
fn identifiers_are_read_from_decimal() {
    assert_eq!("7654321".parse::<DotaMatchId>(), Ok(DotaMatchId(7654321)));
    assert_eq!("-1001234567890".parse::<TelegramChatId>(), Ok(TelegramChatId(-1001234567890)));
    assert_eq!("12".parse::<TelegramMessageId>(), Ok(TelegramMessageId(12)));
    assert_eq!("abc".parse::<RoyalnetUserId>(), Err(ParseIdError));
    assert_eq!("2147483648".parse::<MatchmakingId>(), Err(ParseIdError));
    assert_eq!(TelegramUserId::from_decimal("42"), Ok(TelegramUserId(42)));
}

#[test]
fn identifier_decimal_roundtrip() {
    for n in [i64::MIN, -1, 0, 1, i64::MAX] {
        let id = DotaMatchId(n);
        assert_eq!(DotaMatchId::from_decimal(&id.to_string()), Ok(id));
    }
    for n in [i32::MIN, -1, 0, 1, i32::MAX] {
        let id = MatchmakingId(n);
        assert_eq!(MatchmakingId::from_decimal(&id.to_string()), Ok(id));
    }
}

#[test]
fn identifiers_convert_from_and_into_integers() {
    assert_eq!(DotaMatchId::from(5i64), DotaMatchId(5));
    assert_eq!(i64::from(DotaMatchId(5)), 5);
    assert_eq!(i32::from(MatchmakingId::from(8i32)), 8);
    assert_eq!(i64::from(TelegramChatId::from(-3i64)), -3);
}

#[test]
fn telegram_user_ids_convert_from_and_to_the_api() {
    assert_eq!(TelegramUserId::from_api(123456789), TelegramUserId(123456789));
    assert_eq!(TelegramUserId(123456789).to_api(), 123456789);
    assert_eq!(TelegramUserId::from_api(u64::MAX), TelegramUserId(-1));
    for id in [0u64, 1, 987654321, u64::MAX, 1 << 63] {
        assert_eq!(TelegramUserId::from_api(id).to_api(), id);
    }
}

#[test]
fn matchmaking_choices_roundtrip_through_the_database() {
    for c in ALL_CHOICES {
        assert_eq!(MatchmakingChoice::from_sql(&c.to_sql()), Ok(c));
    }
}

#[test]
fn matchmaking_choices_have_their_database_labels() {
    assert_eq!(MatchmakingChoice::Yes.to_sql(), b"yes".to_vec());
    assert_eq!(MatchmakingChoice::Late.to_sql(), b"late".to_vec());
    assert_eq!(MatchmakingChoice::Maybe.to_sql(), b"maybe".to_vec());
    assert_eq!(MatchmakingChoice::DontWait.to_sql(), b"dontw".to_vec());
    assert_eq!(MatchmakingChoice::Cant.to_sql(), b"cant".to_vec());
    assert_eq!(MatchmakingChoice::Wont.to_sql(), b"wont".to_vec());
}

#[test]
fn unknown_database_labels_are_rejected() {
    assert_eq!(MatchmakingChoice::from_sql(b"nope"), Err(UnknownMatchmakingChoice));
    assert_eq!(MatchmakingChoice::from_sql(b""), Err(UnknownMatchmakingChoice));
    assert_eq!(MatchmakingChoice::from_sql(b"Yes"), Err(UnknownMatchmakingChoice));
}

#[test]
fn buttons_have_their_labels() {
    let labels: Vec<&str> = ALL_BUTTONS.iter().map(|b| b.label()).collect();
    assert_eq!(labels, vec!["yes", "5min", "15min", "60min", "maybe", "dontw", "cant", "wont"]);
    let converted: &'static str = MatchmakingTelegramKeyboardCallback::DontWait.into();
    assert_eq!(converted, "dontw");
}

#[test]
fn buttons_are_read_from_their_labels() {
    for b in ALL_BUTTONS {
        assert_eq!(b.label().parse::<MatchmakingTelegramKeyboardCallback>(), Ok(b));
    }
    let err = MatchmakingTelegramKeyboardCallback::parse("later").unwrap_err();
    assert_eq!(err.text, "later");
}

#[test]
fn button_callback_data_names_the_event() {
    assert_eq!(MatchmakingTelegramKeyboardCallback::Plus5Min.callback_data(MatchmakingId(3)), "matchmaking:3:5min");
    assert_eq!(MatchmakingTelegramKeyboardCallback::Wont.callback_data(MatchmakingId(-12)), "matchmaking:-12:wont");
    assert_eq!(MatchmakingId(7).callback_data("anything"), "matchmaking:7:anything");
}

#[test]
fn callback_data_roundtrip() {
    for id in [i32::MIN, -1, 0, 3, 4096, i32::MAX] {
        for b in ALL_BUTTONS {
            let data = b.callback_data(MatchmakingId(id));
            assert_eq!(data.parse::<KeyboardCallback>(), Ok(KeyboardCallback::Matchmaking(id, b)));
        }
    }
}

#[test]
fn callback_data_errors() {
    assert_eq!(KeyboardCallback::parse("matchmaking"), Err(KeyboardCallbackError::NoKeyword));
    assert_eq!(KeyboardCallback::parse("matchmaking:3"), Err(KeyboardCallbackError::NoId));
    assert_eq!(KeyboardCallback::parse("matchmaking:x:yes"), Err(KeyboardCallbackError::InvalidId));
    assert_eq!(KeyboardCallback::parse("matchmaking:3:later"), Err(KeyboardCallbackError::InvalidData));
    assert_eq!(
        KeyboardCallback::parse("poll:3:yes"),
        Err(KeyboardCallbackError::UnknownKeyword("poll".to_string()))
    );
    assert_eq!(KeyboardCallback::parse("poll:x:yes"), Err(KeyboardCallbackError::InvalidId));
}

#[test]
fn callback_data_keeps_colons_in_the_data() {
    assert_eq!(KeyboardCallback::parse("matchmaking:3:yes:"), Err(KeyboardCallbackError::InvalidData));
}

#[test]
fn callback_error_messages() {
    assert_eq!(
        KeyboardCallbackError::NoKeyword.message(),
        "Impossibile dividere il payload in keyword e dati."
    );
    assert_eq!(KeyboardCallbackError::NoId.message(), "Impossibile dividere il payload in id e dati.");
    assert_eq!(KeyboardCallbackError::InvalidId.message(), "Impossibile convertire l'id a un numero.");
    assert_eq!(KeyboardCallbackError::InvalidData.message(), "Impossibile processare i dati.");
    assert_eq!(
        KeyboardCallbackError::UnknownKeyword("poll".to_string()).message(),
        "Keyword sconosciuta: \"poll\""
    );
    assert_eq!(
        KeyboardCallbackError::UnknownKeyword("a\"b".to_string()).message(),
        "Keyword sconosciuta: \"a\\\"b\""
    );
}

#[test]
fn buttons_change_replies() {
    assert_eq!(MatchmakingTelegramKeyboardCallback::Yes.reply_action(), ReplyAction::Choose(MatchmakingChoice::Yes));
    assert_eq!(MatchmakingTelegramKeyboardCallback::Plus5Min.reply_action(), ReplyAction::AddLateMinutes(5));
    assert_eq!(MatchmakingTelegramKeyboardCallback::Plus15Min.reply_action(), ReplyAction::AddLateMinutes(15));
    assert_eq!(MatchmakingTelegramKeyboardCallback::Plus60Min.reply_action(), ReplyAction::AddLateMinutes(60));
    assert_eq!(
        MatchmakingTelegramKeyboardCallback::Maybe.reply_action(),
        ReplyAction::Choose(MatchmakingChoice::Maybe)
    );
    assert_eq!(
        MatchmakingTelegramKeyboardCallback::DontWait.reply_action(),
        ReplyAction::Choose(MatchmakingChoice::DontWait)
    );
    assert_eq!(MatchmakingTelegramKeyboardCallback::Cant.reply_action(), ReplyAction::Choose(MatchmakingChoice::Cant));
    assert_eq!(MatchmakingTelegramKeyboardCallback::Wont.reply_action(), ReplyAction::Choose(MatchmakingChoice::Wont));
}

#[test]
fn button_answers() {
    assert_eq!(unknown_button_text(), "⚠️ Il tasto che hai premuto non è più valido.");
    assert_eq!(button_received_text(), "Ricevuto!");
}

#[test]
fn telegram_user_ids_that_fit_the_database() {
    assert_eq!(TelegramUserId::try_from_api(25167391), Some(TelegramUserId(25167391)));
    assert_eq!(TelegramUserId::try_from_api(i64::MAX as u64), Some(TelegramUserId(i64::MAX)));
    assert_eq!(TelegramUserId::try_from_api(i64::MAX as u64 + 1), None);
}

#[test]
fn callback_data_fits_in_sixty_four_bytes() {
    for id in [i32::MIN, -1, 0, 7, i32::MAX] {
        for c in ALL_BUTTONS {
            let data = c.callback_data(MatchmakingId(id));
            assert!(!data.is_empty());
            assert!(data.len() <= 64, "{data}");
        }
    }
    assert_eq!(
        MatchmakingTelegramKeyboardCallback::Plus60Min.callback_data(MatchmakingId(i32::MIN)),
        "matchmaking:-2147483648:60min"
    );
}
