use royalnet::oracle::{answer_for, answers, fortune_for, fortunes, seed_from_hash};
use royalnet::service::{
    Backoff, ChatIdConversionHack, DatabaseInterface, NotificationDisabled, TelegramService, TimeDeltaConversionHack,
};
use royalnet::stratz::{GameMode, GuildId, Lane, LobbyType, QueryError, Role};

#[test]
fn fortune_list_is_complete() {
    let list = fortunes();
    assert_eq!(list.len(), 164);
    assert!(list.iter().all(|f| !f.is_empty()));
    assert_eq!(list[list.len() - 1], "🏚 Oggi ristrutturerai una villa completando dei minigiochi match-3!");
}

#[test]
fn answer_list_is_complete() {
    assert_eq!(answers().len(), 60);
}

#[test]
fn fortune_is_one_of_the_list() {
    let list = fortunes();
    for (days, user) in [(738000, 42u64), (738001, 42), (0, u64::MAX), (-5, 1)] {
        assert!(list.contains(&fortune_for(days, user)));
    }
}

#[test]
fn fortune_is_the_same_for_the_same_day_and_user() {
    assert_eq!(fortune_for(738000, 25167391), fortune_for(738000, 25167391));
}

#[test]
fn answer_is_one_of_the_list() {
    let list = answers();
    for t in [0i64, 1_700_000_000, -1, i64::MAX] {
        assert!(list.contains(&answer_for(t)));
    }
}

#[test]
fn seed_repeats_the_little_endian_bytes() {
    let seed = seed_from_hash(0x0102030405060708);
    let expected: Vec<u8> = [8u8, 7, 6, 5, 4, 3, 2, 1].iter().cycle().take(32).copied().collect();
    assert_eq!(seed.to_vec(), expected);
    assert_eq!(seed.to_vec(), 0x0102030405060708u64.to_le_bytes().iter().cycle().take(32).copied().collect::<Vec<u8>>());
}

#[test]
fn time_spans_from_the_configuration() {
    assert_eq!(TimeDeltaConversionHack::from(900).to_time_delta_secs(), Ok(900));
    assert_eq!(TimeDeltaConversionHack(-900).to_time_delta_secs(), Ok(-900));
    assert_eq!(TimeDeltaConversionHack(i64::MAX).to_time_delta_secs(), Err(()));
    assert_eq!(TimeDeltaConversionHack(i64::MIN).to_time_delta_secs(), Err(()));
    assert_eq!(ChatIdConversionHack::from(-100).0, -100);
}

#[test]
fn backoff_doubles() {
    let b = Backoff::initial();
    assert_eq!(b.secs, 1);
    assert_eq!(b.doubled().secs, 2);
    assert_eq!(b.doubled().doubled().doubled().secs, 8);
}

#[test]
fn database_interface_keeps_the_url() {
    assert_eq!(DatabaseInterface::new("postgres://db".to_string()).database_url(), "postgres://db");
}

fn telegram(chat: Option<i64>) -> TelegramService {
    TelegramService {
        database_url: "postgres://db".to_string(),
        bot_token: "token".to_string(),
        me_username: "Royal<net>Bot".to_string(),
        me_id: 12345,
        notification_chat_id: chat,
    }
}

#[test]
fn start_notification() {
    let (chat, text) = telegram(Some(-100123)).start_notification("1.2.3").unwrap();
    assert_eq!(chat, -100123);
    assert_eq!(
        text,
        "💠 <b>Servizio Telegram avviato</b>\n\nRoyalnet <a href='https://github.com/RYGhub/royalnet/releases/tag/v1.2.3'>v1.2.3</a>\n\n@Royal&lt;net&gt;Bot [<code>12345</code>]"
    );
}

#[test]
fn start_notification_needs_a_chat() {
    assert_eq!(telegram(None).start_notification("1.2.3"), Err(NotificationDisabled));
    assert_eq!(NotificationDisabled.message(), "La chat di notifica non è abilitata.");
}

#[test]
fn stratz_query_errors() {
    assert_eq!(QueryError::Requesting.message(), "GraphQL request failed");
    assert_eq!(QueryError::Parsing.message(), "GraphQL response parsing failed");
    assert_eq!(GuildId::from(7).0, 7);
}

#[test]
fn stratz_names_are_read() {
    assert_eq!(LobbyType::from_name("RANKED"), LobbyType::RANKED);
    assert_eq!(LobbyType::from_name("DIRE_TIDE"), LobbyType::DIRE_TIDE);
    assert_eq!(LobbyType::from_name("NEW_KIND"), LobbyType::Other("NEW_KIND".to_string()));
    assert_eq!(GameMode::from_name("ALL_PICK_RANKED"), GameMode::ALL_PICK_RANKED);
    assert_eq!(GameMode::from_name("TURBO"), GameMode::TURBO);
    assert_eq!(GameMode::from_name("turbo"), GameMode::Other("turbo".to_string()));
    assert_eq!(Role::from_name("LIGHT_SUPPORT"), Role::LIGHT_SUPPORT);
    assert_eq!(Role::from_name(""), Role::Other(String::new()));
    assert_eq!(Lane::from_name("OFF_LANE"), Lane::OFF_LANE);
    assert_eq!(Lane::from_name("JUNGLE"), Lane::JUNGLE);
}

#[test]
fn restart_waits_are_powers_of_two() {
    let mut b = Backoff::initial();
    for k in 0..63u32 {
        assert_eq!(b.secs, 1u64 << k);
        b = b.doubled();
    }
    assert_eq!(b.secs, 1u64 << 63);
}
