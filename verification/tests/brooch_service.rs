use royalnet::brooch::{
    flatten_options, BroochError, BroochService, Elapsed, MatchOutcome, MatchSide, NotificationError, STEAM_ID_Y0,
};
use royalnet::ext_chrono::Instant;
use royalnet::models::{DotaMatchId, TelegramUserId};
use royalnet::stratz::{
    GameMode, Guild, Hero, Lane, LobbyType, Match, Player, QueryResponse, ResponseData, Role, Steam,
};

const HOUR: i64 = 3600;

fn service() -> BroochService {
    BroochService::new(
        "postgres://localhost/ryg".to_string(),
        "https://api.stratz.com/graphql",
        "token",
        12345,
        2,
        "bot-token".to_string(),
        -100987,
        HOUR,
    )
    .unwrap()
}

fn player(name: &str, radiant: bool, victory: bool) -> Player {
    Player {
        is_radiant: Some(radiant),
        is_victory: Some(victory),
        imp: Some(0),
        kills: Some(1),
        deaths: Some(1),
        assists: Some(1),
        role: Some(Role::CORE),
        lane: Some(Lane::MID_LANE),
        steam_account: Some(Steam { id: Some(1000), name: Some(name.to_string()) }),
        hero: Some(Hero { display_name: Some("Pudge".to_string()) }),
    }
}

fn bare_player(radiant: Option<bool>, victory: Option<bool>) -> Player {
    Player {
        is_radiant: radiant,
        is_victory: victory,
        imp: None,
        kills: None,
        deaths: None,
        assists: None,
        role: None,
        lane: None,
        steam_account: None,
        hero: None,
    }
}

fn full_match(players: Vec<Option<Player>>) -> Match {
    Match {
        id: Some(7000000001),
        end_date_time: Some(1_700_000_000),
        lobby_type: Some(LobbyType::RANKED),
        game_mode: Some(GameMode::ALL_PICK),
        duration_seconds: Some(2405),
        players: Some(players),
    }
}

#[test]
fn new_appends_the_token_to_the_url() {
    let s = service();
    assert_eq!(s.graphql_url(), "https://api.stratz.com/graphql?jwt=token");
    assert_eq!(s.database_url(), "postgres://localhost/ryg");
    assert_eq!(s.watched_guild_id(), 12345);
    assert_eq!(s.telegram_bot_token(), "bot-token");
    assert_eq!(s.notification_chat_id(), -100987);
}

#[test]
fn new_encodes_the_token() {
    let s = BroochService::new(String::new(), "https://example.org/q?a=1", "a b&c", 1, 1, String::new(), 0, 0)
        .unwrap();
    assert_eq!(s.graphql_url(), "https://example.org/q?a=1&jwt=a+b%26c");
}

#[test]
fn new_rejects_an_invalid_url() {
    let r = BroochService::new(String::new(), "not a url", "token", 1, 1, String::new(), 0, 0);
    assert_eq!(r.unwrap_err(), BroochError::InvalidGraphqlUrl);
}

#[test]
fn new_rejects_zero_players() {
    let r = BroochService::new(String::new(), "https://api.stratz.com/graphql", "token", 1, 0, String::new(), 0, 0);
    assert_eq!(r.unwrap_err(), BroochError::NoPlayersToProcess);
    assert_eq!(BroochError::NoPlayersToProcess.message(), "min_players_to_progress devono essere almeno 1.");
}

#[test]
fn guild_data_is_checked() {
    let s = service();
    assert_eq!(s.process_guild_data(QueryResponse { data: None }).unwrap_err(), BroochError::EmptyResponse);
    assert_eq!(
        s.process_guild_data(QueryResponse { data: Some(ResponseData { guild: None }) }).unwrap_err(),
        BroochError::NoGuild
    );
    let guild = |id| QueryResponse { data: Some(ResponseData { guild: Some(Guild { id, matches: None }) }) };
    assert_eq!(s.process_guild_data(guild(None)).unwrap_err(), BroochError::NoGuildId);
    assert_eq!(s.process_guild_data(guild(Some(1))).unwrap_err(), BroochError::WrongGuild);
    assert_eq!(s.process_guild_data(guild(Some(12345))).unwrap(), Guild { id: Some(12345), matches: None });
}

#[test]
fn matches_are_flattened_and_sorted_by_end() {
    let s = service();
    let at = |id: i64, end: Option<i64>| Match {
        id: Some(id),
        end_date_time: end,
        lobby_type: None,
        game_mode: None,
        duration_seconds: None,
        players: None,
    };
    let guild = Guild {
        id: Some(12345),
        matches: Some(vec![Some(at(1, Some(30))), None, Some(at(2, None)), Some(at(3, Some(10))), Some(at(4, Some(40)))]),
    };
    let ids: Vec<i64> = s.process_matches_data(guild).unwrap().iter().map(|m| m.id.unwrap()).collect();
    assert_eq!(ids, vec![2, 3, 1, 4]);
    assert_eq!(s.process_matches_data(Guild { id: Some(12345), matches: None }).unwrap_err(), BroochError::NoMatches);
}

#[test]
fn match_details_are_read() {
    let s = service();
    let m = full_match(vec![]);
    assert_eq!(s.get_match_id(&m), Ok(DotaMatchId(7000000001)));
    assert_eq!(s.get_match_datetime(&m), Ok(1_700_000_000));
    assert_eq!(s.get_match_type(&m), Ok(LobbyType::RANKED));
    assert_eq!(s.get_match_mode(&m), Ok(GameMode::ALL_PICK));
    assert_eq!(s.get_match_duration(&m), Ok(2405));
}

#[test]
fn missing_match_details_are_errors() {
    let s = service();
    let m = Match { id: None, end_date_time: None, lobby_type: None, game_mode: None, duration_seconds: None, players: None };
    assert_eq!(s.get_match_id(&m), Err(BroochError::NoMatchId));
    assert_eq!(s.get_match_datetime(&m), Err(BroochError::NoEndDateTime));
    assert_eq!(s.get_match_type(&m), Err(BroochError::NoLobbyType));
    assert_eq!(s.get_match_mode(&m), Err(BroochError::NoGameMode));
    assert_eq!(s.get_match_duration(&m), Err(BroochError::NoDuration));
    assert_eq!(s.get_match_players(m).unwrap_err(), BroochError::NoPlayers);
}

#[test]
fn out_of_range_times_are_errors() {
    let s = service();
    let mut m = full_match(vec![]);
    m.end_date_time = Some(i64::MAX);
    m.duration_seconds = Some(i64::MAX);
    assert_eq!(s.get_match_datetime(&m), Err(BroochError::InvalidEndDateTime));
    assert_eq!(s.get_match_duration(&m), Err(BroochError::InvalidDuration));
    m.duration_seconds = Some(9_223_372_036_854_775);
    assert_eq!(s.get_match_duration(&m), Ok(9_223_372_036_854_775));
    m.duration_seconds = Some(9_223_372_036_854_776);
    assert_eq!(s.get_match_duration(&m), Err(BroochError::InvalidDuration));
}

#[test]
fn elapsed_time_is_now_minus_end() {
    let s = service();
    let e = s.get_match_timedelta(1_000, Instant { secs: 4_600, nanos: 7 });
    assert_eq!(e, Elapsed { secs: 3_600, nanos: 7 });
}

#[test]
fn players_are_sorted_radiant_first() {
    let s = service();
    let m = full_match(vec![
        Some(player("d1", false, true)),
        None,
        Some(player("r1", true, false)),
        Some(player("d2", false, true)),
        Some(player("r2", true, false)),
    ]);
    let names: Vec<String> =
        s.get_match_players(m).unwrap().into_iter().map(|p| p.steam_account.unwrap().name.unwrap()).collect();
    assert_eq!(names.len(), 4);
    assert!(names[..2].iter().all(|n| n.starts_with('r')));
    assert!(names[2..].iter().all(|n| n.starts_with('d')));
}

#[test]
fn enough_players_are_needed() {
    let s = service();
    assert!(!s.should_process_match_players(&[player("a", true, true)]));
    assert!(s.should_process_match_players(&[player("a", true, true), player("b", true, true)]));
}

#[test]
fn imp_is_awaited_up_to_the_limit() {
    let s = service();
    let with_imp = [player("a", true, true)];
    let mut without = player("b", true, true);
    without.imp = None;
    let without_imp = [player("a", true, true), without];
    assert!(s.should_process_match_imp(&with_imp, Elapsed { secs: 0, nanos: 0 }));
    assert!(!s.should_process_match_imp(&without_imp, Elapsed { secs: 10, nanos: 0 }));
    assert!(!s.should_process_match_imp(&without_imp, Elapsed { secs: HOUR as i128, nanos: 0 }));
    assert!(s.should_process_match_imp(&without_imp, Elapsed { secs: HOUR as i128, nanos: 1 }));
    assert!(s.should_process_match_imp(&without_imp, Elapsed { secs: HOUR as i128 + 1, nanos: 0 }));
}

#[test]
fn match_side() {
    let s = service();
    let r = bare_player(Some(true), Some(true));
    let d = bare_player(Some(false), Some(true));
    assert_eq!(s.get_match_side(&[r.clone(), r.clone()]), Ok(MatchSide::Radiant));
    assert_eq!(s.get_match_side(&[d.clone()]), Ok(MatchSide::Dire));
    assert_eq!(s.get_match_side(&[r.clone(), d.clone()]), Ok(MatchSide::Both));
    assert_eq!(s.get_match_side(&[r.clone(), bare_player(None, None)]), Err(BroochError::NoPlayerSide));
    assert_eq!(s.get_match_side(&[r.clone(), d.clone(), bare_player(None, None)]), Err(BroochError::NoPlayerSide));
    assert_eq!(s.get_match_side(&[r.clone(), d.clone(), r.clone()]), Ok(MatchSide::Both));
}

#[test]
fn match_outcome() {
    let s = service();
    let w = bare_player(Some(true), Some(true));
    let l = bare_player(Some(true), Some(false));
    assert_eq!(s.get_match_outcome(&[w.clone(), w.clone()]), Ok(MatchOutcome::Victory));
    assert_eq!(s.get_match_outcome(&[l.clone()]), Ok(MatchOutcome::Defeat));
    assert_eq!(s.get_match_outcome(&[w.clone(), l.clone()]), Ok(MatchOutcome::Clash));
    assert_eq!(s.get_match_outcome(&[bare_player(None, None), w.clone()]), Err(BroochError::NoPlayerVictory));
    assert_eq!(s.get_match_outcome(&[l.clone(), w.clone(), bare_player(None, None)]), Err(BroochError::NoPlayerVictory));
    assert_eq!(s.get_match_outcome(&[l.clone(), w.clone(), l.clone()]), Ok(MatchOutcome::Clash));
}

#[test]
fn player_details() {
    let s = service();
    let p = player("Steffo", true, true);
    let steam = s.get_player_steam(&p).unwrap();
    assert_eq!(s.get_player_name(&steam), Ok("Steffo".to_string()));
    assert_eq!(s.get_player_steam_ids(&steam), Ok((STEAM_ID_Y0 + 1000, STEAM_ID_Y0 + 1001)));
    assert_eq!(STEAM_ID_Y0, 76561197960265728);
    assert_eq!(s.get_player_lookup(&p), Ok((76561197960266728, 76561197960266729)));
    assert_eq!(s.get_player_hero_name(&p), Ok("Pudge".to_string()));
    assert_eq!(s.get_player_outcome(&p), Ok(MatchOutcome::Victory));
    assert_eq!(s.get_player_outcome(&player("x", true, false)), Ok(MatchOutcome::Defeat));
}

#[test]
fn missing_player_details_are_errors() {
    let s = service();
    let p = bare_player(Some(true), None);
    assert_eq!(s.get_player_steam(&p), Err(BroochError::NoSteamAccount));
    assert_eq!(s.get_player_lookup(&p), Err(BroochError::NoSteamAccount));
    assert_eq!(s.get_player_name(&Steam { id: Some(1), name: None }), Err(BroochError::NoSteamName));
    assert_eq!(s.get_player_steam_ids(&Steam { id: None, name: None }), Err(BroochError::NoSteamId));
    assert_eq!(s.get_player_hero_name(&p), Err(BroochError::NoHero));
    let mut q = bare_player(None, None);
    q.hero = Some(Hero { display_name: None });
    assert_eq!(s.get_player_hero_name(&q), Err(BroochError::NoHeroName));
    assert_eq!(s.get_player_outcome(&p), Err(BroochError::NoPlayerOutcome));
}

#[test]
fn role_and_lane_ranks() {
    assert_eq!(BroochService::numberify_role_lane(&Some(Role::CORE), &Some(Lane::SAFE_LANE)), 1);
    assert_eq!(BroochService::numberify_role_lane(&Some(Role::CORE), &Some(Lane::MID_LANE)), 2);
    assert_eq!(BroochService::numberify_role_lane(&Some(Role::CORE), &Some(Lane::OFF_LANE)), 3);
    assert_eq!(BroochService::numberify_role_lane(&Some(Role::HARD_SUPPORT), &Some(Lane::ROAMING)), 4);
    assert_eq!(BroochService::numberify_role_lane(&None, &Some(Lane::JUNGLE)), 5);
    assert_eq!(BroochService::numberify_role_lane(&Some(Role::LIGHT_SUPPORT), &Some(Lane::SAFE_LANE)), 6);
    assert_eq!(BroochService::numberify_role_lane(&Some(Role::HARD_SUPPORT), &None), 7);
    assert_eq!(BroochService::numberify_role_lane(&Some(Role::CORE), &Some(Lane::UNKNOWN)), 8);
    assert_eq!(BroochService::numberify_role_lane(&None, &None), 8);
}

#[test]
fn role_and_lane_labels() {
    let s = service();
    assert_eq!(s.stringify_role_lane(Role::CORE, Lane::SAFE_LANE), "1\u{FE0F}\u{20E3} Safe Carry");
    assert_eq!(s.stringify_role_lane(Role::CORE, Lane::MID_LANE), "2\u{FE0F}\u{20E3} Mid Carry");
    assert_eq!(s.stringify_role_lane(Role::CORE, Lane::OFF_LANE), "3\u{FE0F}\u{20E3} Off Tank");
    assert_eq!(s.stringify_role_lane(Role::LIGHT_SUPPORT, Lane::ROAMING), "🔀 Roaming");
    assert_eq!(s.stringify_role_lane(Role::CORE, Lane::JUNGLE), "⏫ Jungle");
    assert_eq!(s.stringify_role_lane(Role::LIGHT_SUPPORT, Lane::OFF_LANE), "4\u{FE0F}\u{20E3} Soft Support");
    assert_eq!(s.stringify_role_lane(Role::HARD_SUPPORT, Lane::SAFE_LANE), "5\u{FE0F}\u{20E3} Hard Support");
    assert_eq!(s.stringify_role_lane(Role::UNKNOWN, Lane::UNKNOWN), "🆕 Sconosciuto");
}

#[test]
fn imp_emoji_buckets() {
    let s = service();
    assert_eq!(s.emojify_imp(i16::MIN), "🟧");
    assert_eq!(s.emojify_imp(-49), "🟧");
    assert_eq!(s.emojify_imp(-48), "🔶");
    assert_eq!(s.emojify_imp(-25), "🔶");
    assert_eq!(s.emojify_imp(-24), "🔸");
    assert_eq!(s.emojify_imp(-1), "🔸");
    assert_eq!(s.emojify_imp(0), "🔹");
    assert_eq!(s.emojify_imp(24), "🔹");
    assert_eq!(s.emojify_imp(25), "\u{1F537}\u{FE0F}");
    assert_eq!(s.emojify_imp(48), "\u{1F537}\u{FE0F}");
    assert_eq!(s.emojify_imp(49), "🟦");
    assert_eq!(s.emojify_imp(i16::MAX), "🟦");
}

#[test]
fn kda_emoji() {
    let s = service();
    assert_eq!(s.emojify_kills_deaths_assists(0, 0, 0), "➕");
    assert_eq!(s.emojify_kills_deaths_assists(0, 1, 1), "➖");
    assert_eq!(s.emojify_kills_deaths_assists(0, 1, 2), "➕");
    assert_eq!(s.emojify_kills_deaths_assists(3, 10, 12), "➖");
    assert_eq!(s.emojify_kills_deaths_assists(255, 255, 255), "➕");
}

#[test]
fn outcome_texts() {
    let s = service();
    assert_eq!(s.emojify_outcome(MatchOutcome::Victory), "🟩");
    assert_eq!(s.emojify_outcome(MatchOutcome::Defeat), "🔴");
    assert_eq!(s.emojify_outcome(MatchOutcome::Clash), "💛");
    assert_eq!(s.stringify_outcome(MatchOutcome::Victory), "Vittoria!");
    assert_eq!(s.stringify_outcome(MatchOutcome::Defeat), "Sconfitta...");
    assert_eq!(s.stringify_outcome(MatchOutcome::Clash), "Derby");
}

#[test]
fn durations_are_minutes_and_seconds() {
    let s = service();
    assert_eq!(s.stringify_duration(65), "01:05");
    assert_eq!(s.stringify_duration(2405), "40:05");
    assert_eq!(s.stringify_duration(0), "00:00");
    assert_eq!(s.stringify_duration(6000), "100:00");
    assert_eq!(s.stringify_duration(-65), "-1:-5");
}

#[test]
fn lobby_and_mode_labels() {
    let s = service();
    assert_eq!(s.stringify_type(LobbyType::RANKED), "Classificata");
    assert_eq!(s.stringify_type(LobbyType::UNRANKED), "Normale");
    assert_eq!(s.stringify_type(LobbyType::Other("SOMETHING_NEW".to_string())), "SOMETHING_NEW");
    assert_eq!(s.stringify_mode(GameMode::ALL_PICK), "All Pick");
    assert_eq!(s.stringify_mode(GameMode::NONE), "Sandbox");
    assert_eq!(s.stringify_mode(GameMode::ALL_PICK_RANKED), "All Draft");
    assert_eq!(s.stringify_mode(GameMode::Other("X".to_string())), "X");
}

#[test]
fn player_text_without_telegram() {
    let s = service();
    let p = Player {
        is_radiant: Some(true),
        is_victory: Some(true),
        imp: Some(30),
        kills: Some(10),
        deaths: Some(2),
        assists: Some(5),
        role: Some(Role::CORE),
        lane: Some(Lane::SAFE_LANE),
        steam_account: Some(Steam { id: Some(1), name: Some("Steffo <3".to_string()) }),
        hero: Some(Hero { display_name: Some("Anti-Mage".to_string()) }),
    };
    assert_eq!(
        s.stringify_player(p, None, false).unwrap(),
        "<u><b>Steffo &lt;3</b> (Anti-Mage)</u>\n— 1\u{FE0F}\u{20E3} Safe Carry\n— ➕ 10 K / 2 D / 5 A\n— \u{1F537}\u{FE0F} 30 IMP"
    );
}

#[test]
fn player_text_with_telegram_and_outcome() {
    let s = service();
    let mut p = bare_player(Some(false), Some(false));
    p.steam_account = Some(Steam { id: Some(1), name: Some("Ale".to_string()) });
    p.hero = Some(Hero { display_name: Some("Lina".to_string()) });
    p.imp = Some(-30);
    assert_eq!(
        s.stringify_player(p, Some(TelegramUserId(25167391)), true).unwrap(),
        "<u><a href=\"tg://user?id=25167391\"><b>Ale</b></a> (Lina)</u>\n— Sconfitta...\n— 🔶 -30 IMP"
    );
}

#[test]
fn player_text_errors() {
    let s = service();
    let mut p = bare_player(Some(true), Some(true));
    assert_eq!(s.stringify_player(p.clone(), None, false), Err(BroochError::NoSteamAccount));
    p.steam_account = Some(Steam { id: None, name: Some("a".to_string()) });
    assert_eq!(s.stringify_player(p.clone(), None, false), Err(BroochError::NoSteamId));
    p.steam_account = Some(Steam { id: Some(1), name: Some("a".to_string()) });
    assert_eq!(s.stringify_player(p.clone(), None, false), Err(BroochError::NoHero));
    p.hero = Some(Hero { display_name: Some("h".to_string()) });
    p.is_victory = None;
    assert_eq!(s.stringify_player(p, None, false), Err(BroochError::NoPlayerOutcome));
}

#[test]
fn too_few_players_skip_the_match() {
    let s = service();
    let m = full_match(vec![Some(player("only", true, true))]);
    let now = Instant { secs: 1_700_000_100, nanos: 0 };
    assert!(s.prepare_match_at(m, now).unwrap().is_none());
}

#[test]
fn missing_imp_waits_for_the_limit() {
    let s = service();
    let mut p = player("b", true, true);
    p.imp = None;
    let m = full_match(vec![Some(player("a", true, true)), Some(p.clone())]);
    assert!(s.prepare_match_at(m, Instant { secs: 1_700_000_100, nanos: 0 }).unwrap().is_none());
    let m = full_match(vec![Some(player("a", true, true)), Some(p)]);
    assert!(s.prepare_match_at(m, Instant { secs: 1_700_000_000 + HOUR + 1, nanos: 0 }).unwrap().is_some());
}

#[test]
fn prepared_match_orders_players_by_role() {
    let s = service();
    let mut support = player("support", true, true);
    support.role = Some(Role::HARD_SUPPORT);
    support.lane = Some(Lane::SAFE_LANE);
    let mut carry = player("carry", true, true);
    carry.lane = Some(Lane::SAFE_LANE);
    let mid = player("mid", true, true);
    let m = full_match(vec![Some(support), None, Some(mid), Some(carry)]);
    let pm = s.prepare_match_at(m, Instant { secs: 1_700_000_100, nanos: 0 }).unwrap().unwrap();
    let names: Vec<String> = pm.players.iter().map(|p| p.steam_account.clone().unwrap().name.unwrap()).collect();
    assert_eq!(names, vec!["carry", "mid", "support"]);
    assert_eq!(pm.lobby_type, LobbyType::RANKED);
    assert_eq!(pm.game_mode, GameMode::ALL_PICK);
    assert_eq!(pm.duration_secs, 2405);
}

#[test]
fn prepared_match_reports_the_first_missing_detail() {
    let s = service();
    let mut m = full_match(vec![Some(player("a", true, true)), Some(player("b", true, true))]);
    m.lobby_type = None;
    m.duration_seconds = None;
    assert_eq!(s.prepare_match_at(m, Instant { secs: 0, nanos: 0 }).unwrap_err(), BroochError::NoLobbyType);
}

#[test]
fn whole_notification() {
    let s = service();
    let m = full_match(vec![Some(player("a", true, true)), Some(player("b", true, true))]);
    let pm = s.prepare_match_at(m, Instant { secs: 1_700_000_100, nanos: 0 }).unwrap().unwrap();
    let outcome = s.get_match_outcome(&pm.players).unwrap();
    let heading = s.stringify_match_heading(&pm, outcome);
    assert_eq!(heading, vec!["🟩 <u><b>Vittoria!</b></u>", "<b>Classificata</b> · All Pick · <i>40:05</i>", ""]);
    let texts = vec!["first".to_string(), "second".to_string()];
    let text = s.stringify_match(heading, texts, DotaMatchId(7000000001));
    assert_eq!(
        text,
        "🟩 <u><b>Vittoria!</b></u>\n<b>Classificata</b> · All Pick · <i>40:05</i>\n\nfirst\n\nsecond\n\nPartita <code>7000000001</code>"
    );
    assert_eq!(s.match_link(DotaMatchId(7000000001)), "https://stratz.com/matches/7000000001");
}

#[test]
fn flatten_keeps_present_items_in_order() {
    assert_eq!(flatten_options(vec![Some(1), None, Some(3), None]), vec![1, 3]);
    assert_eq!(flatten_options::<u8>(vec![None, None]), Vec::<u8>::new());
}

#[test]
fn error_messages() {
    assert_eq!(BroochError::WrongGuild.message(), "La richiesta è riuscita, ma STRATZ ha risposto con le informazioni della gilda sbagliata.");
    assert_eq!(BroochError::InvalidGraphqlUrl.message(), "URL GraphQL non valido.");
    assert_eq!(BroochError::NoHeroName.message(), "Non è stato ricevuto da STRATZ il nome dell'eroe giocato da almeno uno dei giocatori della partita.");
}

#[test]
fn a_single_player_without_side_is_an_error() {
    let s = BroochService::new(String::new(), "https://api.stratz.com/graphql", "t", 1, 1, String::new(), 0, 0).unwrap();
    let mut p = player("a", true, true);
    p.is_radiant = None;
    let m = full_match(vec![Some(p)]);
    assert_eq!(s.prepare_match_at(m, Instant { secs: 1_700_000_100, nanos: 0 }).unwrap_err(), BroochError::NoPlayerSide);
}

#[test]
fn end_times_within_the_dates_that_chrono_represents() {
    let s = service();
    let mut m = full_match(vec![]);
    for (end, valid) in [
        (8_210_266_876_799i64, true),
        (8_210_266_876_800, false),
        (-8_334_601_228_800, true),
        (-8_334_601_228_801, false),
        (0, true),
    ] {
        m.end_date_time = Some(end);
        let expected = if valid { Ok(end) } else { Err(BroochError::InvalidEndDateTime) };
        assert_eq!(s.get_match_datetime(&m), expected, "{end}");
        assert_eq!(chrono::DateTime::from_timestamp(end, 0).is_some(), valid, "{end}");
    }
}

#[test]
fn rendered_notification_follows_the_players() {
    let s = service();
    let mut loser = player("b", true, false);
    loser.role = None;
    loser.lane = None;
    loser.imp = None;
    loser.kills = None;
    let m = full_match(vec![Some(player("a", true, true)), Some(loser)]);
    let pm = s.prepare_match_at(m, Instant { secs: 1_700_000_000 + HOUR + 1, nanos: 0 }).unwrap().unwrap();
    let text = s.render_notification(&pm, vec![Some(TelegramUserId(7)), None], DotaMatchId(99)).unwrap();
    assert_eq!(
        text,
        "💛 <u><b>Derby</b></u>\n<b>Classificata</b> · All Pick · <i>40:05</i>\n\n\
         <u><a href=\"tg://user?id=7\"><b>a</b></a> (Pudge)</u>\n— Vittoria!\n— 2\u{FE0F}\u{20E3} Mid Carry\n— ➕ 1 K / 1 D / 1 A\n— 🔹 0 IMP\n\n\
         <u><b>b</b> (Pudge)</u>\n— Sconfitta...\n\n\
         Partita <code>99</code>"
    );
}

#[test]
fn rendered_notification_reports_the_first_missing_detail() {
    let s = service();
    let mut second = player("b", true, true);
    second.hero = None;
    let m = full_match(vec![Some(player("a", true, true)), Some(second)]);
    let pm = s.prepare_match_at(m, Instant { secs: 1_700_000_100, nanos: 0 }).unwrap().unwrap();
    assert_eq!(s.render_notification(&pm, vec![None, None], DotaMatchId(1)), Err(BroochError::NoHero));
}

const ROLE_LANE_NAMES: [&str; 9] =
    ["", "Safe Carry", "Mid Carry", "Off Tank", "Roaming", "Jungle", "Soft Support", "Hard Support", "Sconosciuto"];

#[test]
fn role_lane_label_agrees_with_the_sort_rank() {
    let s = service();
    let roles = [Role::CORE, Role::LIGHT_SUPPORT, Role::HARD_SUPPORT, Role::UNKNOWN, Role::Other("X".to_string())];
    let lanes = [
        Lane::SAFE_LANE,
        Lane::MID_LANE,
        Lane::OFF_LANE,
        Lane::ROAMING,
        Lane::JUNGLE,
        Lane::UNKNOWN,
        Lane::Other("Y".to_string()),
    ];
    for role in roles.iter() {
        for lane in lanes.iter() {
            let rank = BroochService::numberify_role_lane(&Some(role.clone()), &Some(lane.clone()));
            let label = s.stringify_role_lane(role.clone(), lane.clone());
            assert!(label.ends_with(ROLE_LANE_NAMES[rank as usize]), "{label} {rank}");
        }
    }
}

#[test]
fn notification_after_lookups_is_the_rendered_text() {
    let s = service();
    let mut loser = player("b", true, false);
    loser.role = None;
    loser.lane = None;
    loser.imp = None;
    loser.kills = None;
    let m = full_match(vec![Some(player("a", true, true)), Some(loser)]);
    let pm = s.prepare_match_at(m, Instant { secs: 1_700_000_000 + HOUR + 1, nanos: 0 }).unwrap().unwrap();
    let lookups: Vec<Result<Option<TelegramUserId>, String>> = vec![Ok(Some(TelegramUserId(7))), Ok(None)];
    let text = s.render_notification_after_lookups(&pm, lookups, DotaMatchId(99)).unwrap();
    assert_eq!(text, s.render_notification(&pm, vec![Some(TelegramUserId(7)), None], DotaMatchId(99)).unwrap());
}

#[test]
fn notification_after_lookups_reports_the_first_failure() {
    let s = service();
    let mut second = player("b", true, true);
    second.hero = None;
    let m = full_match(vec![Some(player("a", true, true)), Some(second)]);
    let pm = s.prepare_match_at(m, Instant { secs: 1_700_000_100, nanos: 0 }).unwrap().unwrap();
    let lookups: Vec<Result<Option<TelegramUserId>, String>> = vec![Err("db".to_string()), Ok(None)];
    assert_eq!(
        s.render_notification_after_lookups(&pm, lookups, DotaMatchId(1)),
        Err(NotificationError::Lookup("db".to_string()))
    );

    let mut first = player("a", true, true);
    first.hero = None;
    let m = full_match(vec![Some(first), Some(player("b", true, true))]);
    let pm = s.prepare_match_at(m, Instant { secs: 1_700_000_100, nanos: 0 }).unwrap().unwrap();
    let lookups: Vec<Result<Option<TelegramUserId>, String>> = vec![Ok(None), Err("db".to_string())];
    assert_eq!(
        s.render_notification_after_lookups(&pm, lookups, DotaMatchId(1)),
        Err(NotificationError::Brooch(BroochError::NoHero))
    );

    let mut big = player("a", true, true);
    big.steam_account = Some(Steam { id: Some(i64::MAX - 5), name: Some("a".to_string()) });
    let m = full_match(vec![Some(big), Some(player("b", true, true))]);
    let pm = s.prepare_match_at(m, Instant { secs: 1_700_000_100, nanos: 0 }).unwrap().unwrap();
    let lookups: Vec<Result<Option<TelegramUserId>, String>> = vec![Ok(None), Err("db".to_string())];
    assert_eq!(s.render_notification_after_lookups(&pm, lookups, DotaMatchId(1)), Err(NotificationError::SteamIdOverflow));
}
