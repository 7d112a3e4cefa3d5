//! The Brooch service: notifications about the Dota 2 matches of a guild.
use vstd::prelude::*;
use vstd::string::StringExecFns;
use crate::ext_chrono::{
    chrono_timestamp_valid, local_datetime_exists, local_now, time_delta_exists, time_delta_secs_valid, Instant,
};
use crate::models::{DotaMatchId, TelegramUserId};
use crate::sorting::{sort_by_rank, sorted_by_rank};
use crate::ext_url::{url_append_query_pair, url_with_query_pair};
use crate::stratz::{GameMode, Guild, Lane, LobbyType, Match, Player, QueryResponse, Role, Steam};
use crate::text::{
    escape_html, int_decimal, join_lines, join_with_newlines, padded2, push_decimal_i64, push_escaped,
    push_padded2, views,
};

verus! {

/// The side on which the watched players played a match.
#[derive(Debug, Clone, Copy, PartialEq, Eq, Structural)]
pub enum MatchSide {
    Radiant,
    Dire,
    Both,
}

/// How a match went for the watched players.
#[derive(Debug, Clone, Copy, PartialEq, Eq, Structural)]
pub enum MatchOutcome {
    Victory,
    Defeat,
    Clash,
}

/// Why the Brooch service could not go on.
#[derive(Debug, Clone, Copy, PartialEq, Eq, Structural)]
pub enum BroochError {
    InvalidGraphqlUrl,
    NoPlayersToProcess,
    EmptyResponse,
    NoGuild,
    NoGuildId,
    WrongGuild,
    NoMatches,
    NoMatchId,
    NoEndDateTime,
    InvalidEndDateTime,
    NoLobbyType,
    NoGameMode,
    NoDuration,
    InvalidDuration,
    NoPlayers,
    NoPlayerSide,
    NoPlayerVictory,
    NoSteamAccount,
    NoSteamName,
    NoSteamId,
    NoHero,
    NoHeroName,
    NoPlayerOutcome,
}

impl BroochError {
    pub open spec fn spec_message(self) -> Seq<char> {
        match self {
            BroochError::InvalidGraphqlUrl => "URL GraphQL non valido."@,
            BroochError::NoPlayersToProcess => "min_players_to_progress devono essere almeno 1."@,
            BroochError::EmptyResponse => "La richiesta è riuscita, ma la risposta ricevuta da STRATZ era vuota."@,
            BroochError::NoGuild => "La richiesta è riuscita, ma non sono state ricevute gilde da STRATZ."@,
            BroochError::NoGuildId => "La richiesta è riuscita, ma non è stato ricevuto l'ID della gilda da STRATZ."@,
            BroochError::WrongGuild => "La richiesta è riuscita, ma STRATZ ha risposto con le informazioni della gilda sbagliata."@,
            BroochError::NoMatches => "La richiesta è riuscita, ma non sono state ricevute informazioni sulle partite della gilda da STRATZ."@,
            BroochError::NoMatchId => "La richiesta è riuscita, ma non è stato ricevuto da STRATZ l'ID della partita."@,
            BroochError::NoEndDateTime => "Non è stato ricevuto da STRATZ il momento di termine della partita."@,
            BroochError::InvalidEndDateTime => "È stato ricevuto da STRATZ un momento di termine della partita non valido."@,
            BroochError::NoLobbyType => "Non è stato ricevuta da STRATZ il tipo della partita."@,
            BroochError::NoGameMode => "Non è stata ricevuta da STRATZ la modalità della partita."@,
            BroochError::NoDuration => "Non è stata ricevuta da STRATZ la durata della partita."@,
            BroochError::InvalidDuration => "Non è stato possibile rappresentare la durata della partita ricevuta da STRATZ."@,
            BroochError::NoPlayers => "Non è stato ricevuto da STRATZ l'elenco dei giocatori della partita."@,
            BroochError::NoPlayerSide => "Non è stata ricevuta da STRATZ la squadra di almeno uno dei giocatori."@,
            BroochError::NoPlayerVictory => "Non è stata ricevuta da STRATZ la squadra di almeno uno dei giocatori."@,
            BroochError::NoSteamAccount => "Non è stato ricevuto da STRATZ l'account Steam di almeno uno dei giocatori della partita."@,
            BroochError::NoSteamName => "Non è stato ricevuto da STRATZ il display name di almeno uno dei giocatori della partita."@,
            BroochError::NoSteamId => "Non è stato ricevuto da STRATZ lo SteamID di almeno uno dei giocatori della partita."@,
            BroochError::NoHero => "Non è stato ricevuto da STRATZ l'eroe giocato da almeno uno dei giocatori della partita."@,
            BroochError::NoHeroName => "Non è stato ricevuto da STRATZ il nome dell'eroe giocato da almeno uno dei giocatori della partita."@,
            BroochError::NoPlayerOutcome => "Non è stato ricevuto da STRATZ il risultato della partita per almeno uno dei giocatori."@,
        }
    }

    /// The message shown for the error.
    pub fn message(&self) -> (r: &'static str)
        ensures
            r@ == self.spec_message(),
    {
        match self {
            BroochError::InvalidGraphqlUrl => "URL GraphQL non valido.",
            BroochError::NoPlayersToProcess => "min_players_to_progress devono essere almeno 1.",
            BroochError::EmptyResponse => "La richiesta è riuscita, ma la risposta ricevuta da STRATZ era vuota.",
            BroochError::NoGuild => "La richiesta è riuscita, ma non sono state ricevute gilde da STRATZ.",
            BroochError::NoGuildId => "La richiesta è riuscita, ma non è stato ricevuto l'ID della gilda da STRATZ.",
            BroochError::WrongGuild => "La richiesta è riuscita, ma STRATZ ha risposto con le informazioni della gilda sbagliata.",
            BroochError::NoMatches => "La richiesta è riuscita, ma non sono state ricevute informazioni sulle partite della gilda da STRATZ.",
            BroochError::NoMatchId => "La richiesta è riuscita, ma non è stato ricevuto da STRATZ l'ID della partita.",
            BroochError::NoEndDateTime => "Non è stato ricevuto da STRATZ il momento di termine della partita.",
            BroochError::InvalidEndDateTime => "È stato ricevuto da STRATZ un momento di termine della partita non valido.",
            BroochError::NoLobbyType => "Non è stato ricevuta da STRATZ il tipo della partita.",
            BroochError::NoGameMode => "Non è stata ricevuta da STRATZ la modalità della partita.",
            BroochError::NoDuration => "Non è stata ricevuta da STRATZ la durata della partita.",
            BroochError::InvalidDuration => "Non è stato possibile rappresentare la durata della partita ricevuta da STRATZ.",
            BroochError::NoPlayers => "Non è stato ricevuto da STRATZ l'elenco dei giocatori della partita.",
            BroochError::NoPlayerSide => "Non è stata ricevuta da STRATZ la squadra di almeno uno dei giocatori.",
            BroochError::NoPlayerVictory => "Non è stata ricevuta da STRATZ la squadra di almeno uno dei giocatori.",
            BroochError::NoSteamAccount => "Non è stato ricevuto da STRATZ l'account Steam di almeno uno dei giocatori della partita.",
            BroochError::NoSteamName => "Non è stato ricevuto da STRATZ il display name di almeno uno dei giocatori della partita.",
            BroochError::NoSteamId => "Non è stato ricevuto da STRATZ lo SteamID di almeno uno dei giocatori della partita.",
            BroochError::NoHero => "Non è stato ricevuto da STRATZ l'eroe giocato da almeno uno dei giocatori della partita.",
            BroochError::NoHeroName => "Non è stato ricevuto da STRATZ il nome dell'eroe giocato da almeno uno dei giocatori della partita.",
            BroochError::NoPlayerOutcome => "Non è stato ricevuto da STRATZ il risultato della partita per almeno uno dei giocatori.",
        }
    }
}

/// The service that watches a Dota 2 guild and notifies a Telegram chat of
/// its matches.
#[derive(Debug)]
pub struct BroochService {
    database_url: String,
    graphql_url: String,
    watched_guild_id: i64,
    min_players_to_process: usize,
    telegram_bot_token: String,
    notification_chat_id: i64,
    max_imp_wait_secs: i64,
}

impl BroochService {
    /// At least one player is needed to process a match, and the wait for IMP
    /// is a valid time span.
    #[verifier::type_invariant]
    spec fn well_formed(self) -> bool {
        &&& self.min_players_to_process >= 1
        &&& time_delta_secs_valid(self.max_imp_wait_secs as int)
    }

    pub closed spec fn spec_database_url(self) -> Seq<char> {
        self.database_url@
    }

    pub closed spec fn spec_graphql_url(self) -> Seq<char> {
        self.graphql_url@
    }

    pub closed spec fn spec_watched_guild_id(self) -> i64 {
        self.watched_guild_id
    }

    pub closed spec fn spec_min_players_to_process(self) -> usize {
        self.min_players_to_process
    }

    pub closed spec fn spec_telegram_bot_token(self) -> Seq<char> {
        self.telegram_bot_token@
    }

    pub closed spec fn spec_notification_chat_id(self) -> i64 {
        self.notification_chat_id
    }

    pub closed spec fn spec_max_imp_wait_secs(self) -> i64 {
        self.max_imp_wait_secs
    }

    /// Builds the service: the GraphQL endpoint carries the STRATZ token as
    /// its `jwt` query parameter.
    pub fn new(
        database_url: String,
        graphql_base_url: &str,
        stratz_token: &str,
        watched_guild_id: i64,
        min_players_to_process: usize,
        telegram_bot_token: String,
        notification_chat_id: i64,
        max_imp_wait_secs: i64,
    ) -> (r: Result<Self, BroochError>)
        requires
            time_delta_secs_valid(max_imp_wait_secs as int),
        ensures
            url_with_query_pair(graphql_base_url@, "jwt"@, stratz_token@) is None
                ==> r == Err::<Self, BroochError>(BroochError::InvalidGraphqlUrl),
            url_with_query_pair(graphql_base_url@, "jwt"@, stratz_token@) is Some
                && min_players_to_process == 0 ==> r == Err::<Self, BroochError>(
                BroochError::NoPlayersToProcess),
            r is Ok <==> (url_with_query_pair(graphql_base_url@, "jwt"@, stratz_token@) is Some
                && min_players_to_process >= 1),
            r matches Ok(s) ==> {
                &&& Some(s.spec_graphql_url()) == url_with_query_pair(
                    graphql_base_url@,
                    "jwt"@,
                    stratz_token@,
                )
                &&& s.spec_database_url() == database_url@
                &&& s.spec_watched_guild_id() == watched_guild_id
                &&& s.spec_min_players_to_process() == min_players_to_process
                &&& s.spec_telegram_bot_token() == telegram_bot_token@
                &&& s.spec_notification_chat_id() == notification_chat_id
                &&& s.spec_max_imp_wait_secs() == max_imp_wait_secs
            },
    {
        let graphql_url = match url_append_query_pair(graphql_base_url, "jwt", stratz_token) {
            Some(u) => u,
            None => return Err(BroochError::InvalidGraphqlUrl),
        };
        if min_players_to_process == 0 {
            return Err(BroochError::NoPlayersToProcess);
        }
        Ok(
            BroochService {
                database_url,
                graphql_url,
                watched_guild_id,
                min_players_to_process,
                telegram_bot_token,
                notification_chat_id,
                max_imp_wait_secs,
            },
        )
    }

    /// The URL of the RYG database.
    pub fn database_url(&self) -> (r: &str)
        ensures
            r@ == self.spec_database_url(),
    {
        self.database_url.as_str()
    }

    /// The GraphQL endpoint of STRATZ, with the token.
    pub fn graphql_url(&self) -> (r: &str)
        ensures
            r@ == self.spec_graphql_url(),
    {
        self.graphql_url.as_str()
    }

    /// The guild whose matches are watched.
    pub fn watched_guild_id(&self) -> (r: i64)
        ensures
            r == self.spec_watched_guild_id(),
    {
        self.watched_guild_id
    }

    /// The token of the Telegram bot that sends the notifications.
    pub fn telegram_bot_token(&self) -> (r: &str)
        ensures
            r@ == self.spec_telegram_bot_token(),
    {
        self.telegram_bot_token.as_str()
    }

    /// The chat that receives the notifications.
    pub fn notification_chat_id(&self) -> (r: i64)
        ensures
            r == self.spec_notification_chat_id(),
    {
        self.notification_chat_id
    }

    /// The guild in the answer of STRATZ, checked to be the watched one.
    pub fn process_guild_data(&self, data: QueryResponse) -> (r: Result<Guild, BroochError>)
        ensures
            r == (match data.data {
                None => Err(BroochError::EmptyResponse),
                Some(d) => match d.guild {
                    None => Err(BroochError::NoGuild),
                    Some(g) => match g.id {
                        None => Err(BroochError::NoGuildId),
                        Some(id) => if id != self.spec_watched_guild_id() {
                            Err(BroochError::WrongGuild)
                        } else {
                            Ok(g)
                        },
                    },
                },
            }),
    {
        let data = match data.data {
            Some(d) => d,
            None => return Err(BroochError::EmptyResponse),
        };
        let guild = match data.guild {
            Some(g) => g,
            None => return Err(BroochError::NoGuild),
        };
        let guild_id: i64 = match guild.id {
            Some(id) => id,
            None => return Err(BroochError::NoGuildId),
        };
        if guild_id != self.watched_guild_id {
            return Err(BroochError::WrongGuild);
        }
        Ok(guild)
    }

    /// The matches of the guild that STRATZ returned, in the order in which
    /// they ended (a match without an end time counts as ending at 0).
    pub fn process_matches_data(&self, guild: Guild) -> (r: Result<Vec<Match>, BroochError>)
        ensures
            guild.matches is None ==> r == Err::<Vec<Match>, BroochError>(BroochError::NoMatches),
            guild.matches matches Some(ms) ==> r matches Ok(v) && v@.to_multiset()
                == flatten(ms@).to_multiset() && sorted_by_rank(v@, match_end_rank()),
    {
        let matches = match guild.matches {
            Some(ms) => ms,
            None => return Err(BroochError::NoMatches),
        };
        let matches = flatten_options(matches);
        let mut ranks: Vec<i64> = Vec::new();
        let mut i: usize = 0;
        while i < matches.len()
            invariant
                i <= matches.len(),
                ranks.len() == i,
                forall|j: int| 0 <= j < i ==> ranks@[j] == match_end_rank()(#[trigger] matches@[j]),
            decreases matches.len() - i,
        {
            let end: i64 = match matches[i].end_date_time {
                Some(t) => t,
                None => 0,
            };
            ranks.push(end);
            i = i + 1;
        }
        Ok(sort_by_rank(matches, ranks, Ghost(match_end_rank())))
    }

    /// The identifier of a match.
    pub fn get_match_id(&self, m: &Match) -> (r: Result<DotaMatchId, BroochError>)
        ensures
            r == (match m.id {
                Some(id) => Ok(DotaMatchId(id)),
                None => Err(BroochError::NoMatchId),
            }),
    {
        match m.id {
            Some(id) => Ok(DotaMatchId(id)),
            None => Err(BroochError::NoMatchId),
        }
    }

    /// When the match ended, in seconds since the Unix epoch.
    pub fn get_match_datetime(&self, m: &Match) -> (r: Result<i64, BroochError>)
        ensures
            r == (match m.end_date_time {
                None => Err(BroochError::NoEndDateTime),
                Some(t) => if chrono_timestamp_valid(t as int) {
                    Ok(t)
                } else {
                    Err(BroochError::InvalidEndDateTime)
                },
            }),
    {
        let match_date = match m.end_date_time {
            Some(t) => t,
            None => return Err(BroochError::NoEndDateTime),
        };
        if local_datetime_exists(match_date) {
            Ok(match_date)
        } else {
            Err(BroochError::InvalidEndDateTime)
        }
    }

    /// How long ago, seen from `now`, a match ended at `end_secs`.
    pub fn get_match_timedelta(&self, end_secs: i64, now: Instant) -> (r: Elapsed)
        ensures
            r.secs == now.secs - end_secs,
            r.nanos == now.nanos,
    {
        Elapsed { secs: now.secs as i128 - end_secs as i128, nanos: now.nanos }
    }

    /// The lobby type of a match.
    pub fn get_match_type(&self, m: &Match) -> (r: Result<LobbyType, BroochError>)
        ensures
            r == (match m.lobby_type {
                Some(t) => Ok(t),
                None => Err(BroochError::NoLobbyType),
            }),
    {
        match &m.lobby_type {
            Some(t) => Ok(t.clone()),
            None => Err(BroochError::NoLobbyType),
        }
    }

    /// The game mode of a match.
    pub fn get_match_mode(&self, m: &Match) -> (r: Result<GameMode, BroochError>)
        ensures
            r == (match m.game_mode {
                Some(t) => Ok(t),
                None => Err(BroochError::NoGameMode),
            }),
    {
        match &m.game_mode {
            Some(t) => Ok(t.clone()),
            None => Err(BroochError::NoGameMode),
        }
    }

    /// The duration of a match in seconds, checked to fit a time span.
    pub fn get_match_duration(&self, m: &Match) -> (r: Result<i64, BroochError>)
        ensures
            r == (match m.duration_seconds {
                None => Err(BroochError::NoDuration),
                Some(secs) => if time_delta_secs_valid(secs as int) {
                    Ok(secs)
                } else {
                    Err(BroochError::InvalidDuration)
                },
            }),
    {
        let secs = match m.duration_seconds {
            Some(secs) => secs,
            None => return Err(BroochError::NoDuration),
        };
        if time_delta_exists(secs) {
            Ok(secs)
        } else {
            Err(BroochError::InvalidDuration)
        }
    }

    /// The players of a match, Radiant first.
    pub fn get_match_players(&self, m: Match) -> (r: Result<Vec<Player>, BroochError>)
        requires
            m.players matches Some(ps) ==> sortable_by_side(flatten(ps@)),
        ensures
            m.players is None ==> r == Err::<Vec<Player>, BroochError>(BroochError::NoPlayers),
            m.players matches Some(ps) ==> r matches Ok(v) && v@.to_multiset()
                == flatten(ps@).to_multiset() && sorted_by_rank(v@, side_rank()),
    {
        let players = match m.players {
            Some(ps) => ps,
            None => return Err(BroochError::NoPlayers),
        };
        let players = flatten_options(players);
        let mut ranks: Vec<i64> = Vec::new();
        let mut i: usize = 0;
        while i < players.len()
            invariant
                i <= players.len(),
                ranks.len() == i,
                forall|j: int| 0 <= j < i ==> ranks@[j] == side_rank()(#[trigger] players@[j]),
            decreases players.len() - i,
        {
            let rank: i64 = match players[i].is_radiant {
                Some(true) => 1,
                _ => 2,
            };
            ranks.push(rank);
            i = i + 1;
        }
        Ok(sort_by_rank(players, ranks, Ghost(side_rank())))
    }

    /// Whether a match had enough players to be notified.
    pub fn should_process_match_players(&self, players: &[Player]) -> (r: bool)
        ensures
            r == (players@.len() >= self.spec_min_players_to_process()),
    {
        players.len() >= self.min_players_to_process
    }

    /// Whether the IMP of a match is ready: known for every player, or waited
    /// for longer than the service waits.
    pub fn should_process_match_imp(&self, players: &[Player], timedelta: Elapsed) -> (r: bool)
        ensures
            r == (imp_known(players@) || elapsed_exceeds(timedelta, self.spec_max_imp_wait_secs() as int)),
    {
        let mut imp_available_for_everyone = true;
        let mut i: usize = 0;
        while i < players.len()
            invariant
                i <= players.len(),
                imp_available_for_everyone == imp_known(players@.take(i as int)),
            decreases players.len() - i,
        {
            assert(imp_known(players@.take(i + 1)) == (imp_known(players@.take(i as int)) && players@[i as int].imp is Some)) by {
                let t = players@.take(i + 1);
                if imp_known(players@.take(i as int)) && players@[i as int].imp is Some {
                    assert forall|j: int| 0 <= j < t.len() implies (#[trigger] t[j]).imp is Some by {
                        if j < i {
                            assert(t[j] == players@.take(i as int)[j]);
                        }
                    }
                }
                if imp_known(t) {
                    assert(t[i as int] == players@[i as int]);
                    assert forall|j: int| 0 <= j < i implies (#[trigger] players@.take(i as int)[j]).imp is Some by {
                        assert(t[j] == players@.take(i as int)[j]);
                    }
                }
            }
            imp_available_for_everyone = imp_available_for_everyone && players[i].imp.is_some();
            i = i + 1;
        }
        assert(players@.take(i as int) =~= players@);
        let max_wait = self.max_imp_wait_secs as i128;
        let imp_waited_too_long = timedelta.secs > max_wait || (timedelta.secs == max_wait
            && timedelta.nanos > 0);
        imp_available_for_everyone || imp_waited_too_long
    }

    /// The side on which the players of a match played.
    pub fn get_match_side(&self, players: &[Player]) -> (r: Result<MatchSide, BroochError>)
        requires
            players@.len() > 0,
        ensures
            r == (match side_from(None, players@) {
                None => Err(BroochError::NoPlayerSide),
                Some(side) => Ok(side.unwrap()),
            }),
    {
        let mut side: Option<MatchSide> = None;
        let mut i: usize = 0;
        assert(players@.skip(0) =~= players@);
        while i < players.len()
            invariant
                i <= players.len(),
                players@.len() > 0,
                side_from(None, players@) == side_from(side, players@.skip(i as int)),
                i > 0 ==> side is Some,
            ensures
                side_from(None, players@) == Some(side),
                side is Some,
            decreases players.len() - i,
        {
            assert(players@.skip(i as int).drop_first() =~= players@.skip(i + 1));
            if players[i].is_radiant.is_none() {
                return Err(BroochError::NoPlayerSide);
            }
            if side == Some(MatchSide::Both) {
                break;
            }
            side = match (side, players[i].is_radiant) {
                (_, None) => {
                    return Err(BroochError::NoPlayerSide);
                },
                (None, Some(true)) => Some(MatchSide::Radiant),
                (None, Some(false)) => Some(MatchSide::Dire),
                (Some(MatchSide::Radiant), Some(true)) => side,
                (Some(MatchSide::Dire), Some(false)) => side,
                (Some(MatchSide::Radiant), Some(false)) => Some(MatchSide::Both),
                (Some(MatchSide::Dire), Some(true)) => Some(MatchSide::Both),
                (Some(MatchSide::Both), _) => side,
            };
            i = i + 1;
        }
        Ok(side.unwrap())
    }

    /// How a match went for its players.
    pub fn get_match_outcome(&self, players: &[Player]) -> (r: Result<MatchOutcome, BroochError>)
        requires
            players@.len() > 0,
        ensures
            r == (match outcome_from(None, players@) {
                None => Err(BroochError::NoPlayerVictory),
                Some(outcome) => Ok(outcome.unwrap()),
            }),
    {
        let mut outcome: Option<MatchOutcome> = None;
        let mut i: usize = 0;
        assert(players@.skip(0) =~= players@);
        while i < players.len()
            invariant
                i <= players.len(),
                players@.len() > 0,
                outcome_from(None, players@) == outcome_from(outcome, players@.skip(i as int)),
                i > 0 ==> outcome is Some,
            ensures
                outcome_from(None, players@) == Some(outcome),
                outcome is Some,
            decreases players.len() - i,
        {
            assert(players@.skip(i as int).drop_first() =~= players@.skip(i + 1));
            if players[i].is_victory.is_none() {
                return Err(BroochError::NoPlayerVictory);
            }
            if outcome == Some(MatchOutcome::Clash) {
                break;
            }
            outcome = match (outcome, players[i].is_victory) {
                (_, None) => {
                    return Err(BroochError::NoPlayerVictory);
                },
                (None, Some(true)) => Some(MatchOutcome::Victory),
                (None, Some(false)) => Some(MatchOutcome::Defeat),
                (Some(MatchOutcome::Victory), Some(true)) => outcome,
                (Some(MatchOutcome::Defeat), Some(false)) => outcome,
                (Some(MatchOutcome::Victory), Some(false)) => Some(MatchOutcome::Clash),
                (Some(MatchOutcome::Defeat), Some(true)) => Some(MatchOutcome::Clash),
                (Some(MatchOutcome::Clash), _) => outcome,
            };
            i = i + 1;
        }
        Ok(outcome.unwrap())
    }

    /// The Steam account of a player.
    pub fn get_player_steam(&self, player: &Player) -> (r: Result<Steam, BroochError>)
        ensures
            r == (match player.steam_account {
                Some(steam) => Ok(steam),
                None => Err(BroochError::NoSteamAccount),
            }),
    {
        match &player.steam_account {
            Some(steam) => Ok(steam.clone()),
            None => Err(BroochError::NoSteamAccount),
        }
    }

    /// The display name of a Steam account.
    pub fn get_player_name(&self, steam: &Steam) -> (r: Result<String, BroochError>)
        ensures
            r matches Ok(name) ==> steam.name == Some(name),
            r is Err ==> steam.name is None && r == Err::<String, BroochError>(BroochError::NoSteamName),
    {
        match &steam.name {
            Some(name) => Ok(name.clone()),
            None => Err(BroochError::NoSteamName),
        }
    }

    /// The two SteamIDs under which the RYG database may hold the account of
    /// a player: the account number plus `0x0110_0001_0000_0000`, and plus one
    /// more than that.
    pub fn get_player_steam_ids(&self, steam: &Steam) -> (r: Result<(i64, i64), BroochError>)
        requires
            steam_id_fits(*steam),
        ensures
            r == (match steam.id {
                Some(id) => Ok(((id + STEAM_ID_Y0) as i64, (id + STEAM_ID_Y0 + 1) as i64)),
                None => Err(BroochError::NoSteamId),
            }),
    {
        let player_steam_id = match steam.id {
            Some(id) => id,
            None => return Err(BroochError::NoSteamId),
        };
        let player_steam_id_y0 = 0x_0110_0001_0000_0000 + player_steam_id;
        let player_steam_id_y1 = 0x_0110_0001_0000_0001 + player_steam_id;
        Ok((player_steam_id_y0, player_steam_id_y1))
    }

    /// What must be looked up in the RYG database for a player: the two
    /// SteamIDs of its account, after its Steam account and display name are
    /// found present.
    pub fn get_player_lookup(&self, player: &Player) -> (r: Result<(i64, i64), BroochError>)
        requires
            player.steam_account matches Some(steam) ==> steam_id_fits(steam),
        ensures
            r == (match player.steam_account {
                None => Err(BroochError::NoSteamAccount),
                Some(steam) => match steam.name {
                    None => Err(BroochError::NoSteamName),
                    Some(_) => match steam.id {
                        Some(id) => Ok(((id + STEAM_ID_Y0) as i64, (id + STEAM_ID_Y0 + 1) as i64)),
                        None => Err(BroochError::NoSteamId),
                    },
                },
            }),
    {
        let steam = self.get_player_steam(player)?;
        let _name = self.get_player_name(&steam)?;
        self.get_player_steam_ids(&steam)
    }

    /// The name of the hero that a player played.
    pub fn get_player_hero_name(&self, player: &Player) -> (r: Result<String, BroochError>)
        ensures
            r matches Ok(name) ==> player.hero matches Some(h) && h.display_name == Some(name),
            r matches Err(e) ==> (match player.hero {
                None => e == BroochError::NoHero,
                Some(h) => h.display_name is None && e == BroochError::NoHeroName,
            }),
    {
        match &player.hero {
            None => Err(BroochError::NoHero),
            Some(hero) => match &hero.display_name {
                Some(name) => Ok(name.clone()),
                None => Err(BroochError::NoHeroName),
            },
        }
    }

    /// How the match went for a player.
    pub fn get_player_outcome(&self, player: &Player) -> (r: Result<MatchOutcome, BroochError>)
        ensures
            r == (match player.is_victory {
                Some(true) => Ok(MatchOutcome::Victory),
                Some(false) => Ok(MatchOutcome::Defeat),
                None => Err(BroochError::NoPlayerOutcome),
            }),
    {
        match player.is_victory {
            Some(true) => Ok(MatchOutcome::Victory),
            Some(false) => Ok(MatchOutcome::Defeat),
            None => Err(BroochError::NoPlayerOutcome),
        }
    }

    /// The lines that describe a player in a notification, joined by newlines:
    /// the name (linked to the Telegram account where one is known) and hero,
    /// then the outcome where asked for, the role and lane, kills, deaths and
    /// assists, and IMP, each where known.
    pub fn stringify_player(&self, player: Player, telegram_id: Option<TelegramUserId>, show_outcome: bool) -> (r: Result<String, BroochError>)
        ensures
            r matches Ok(text) ==> player_text(player, telegram_id, show_outcome) == Ok::<Seq<char>, BroochError>(text@),
            r matches Err(e) ==> player_text(player, telegram_id, show_outcome) == Err::<Seq<char>, BroochError>(e),
    {
        let steam = match &player.steam_account {
            Some(steam) => steam,
            None => return Err(BroochError::NoSteamAccount),
        };
        let name = match &steam.name {
            Some(name) => name,
            None => return Err(BroochError::NoSteamName),
        };
        if steam.id.is_none() {
            return Err(BroochError::NoSteamId);
        }
        let hero_name = match &player.hero {
            None => return Err(BroochError::NoHero),
            Some(hero) => match &hero.display_name {
                Some(n) => n,
                None => return Err(BroochError::NoHeroName),
            },
        };
        let outcome = match player.is_victory {
            Some(true) => MatchOutcome::Victory,
            Some(false) => MatchOutcome::Defeat,
            None => return Err(BroochError::NoPlayerOutcome),
        };
        let mut lines: Vec<String> = Vec::new();
        let mut first = String::new();
        match telegram_id {
            None => {
                first.append("<u><b>");
                push_escaped(&mut first, name.as_str());
                first.append("</b> (");
                push_escaped(&mut first, hero_name.as_str());
                first.append(")</u>");
            },
            Some(id) => {
                first.append("<u><a href=\"tg://user?id=");
                let id_text = id.to_string();
                push_escaped(&mut first, id_text.as_str());
                first.append("\"><b>");
                push_escaped(&mut first, name.as_str());
                first.append("</b></a> (");
                push_escaped(&mut first, hero_name.as_str());
                first.append(")</u>");
            },
        }
        assert(first@ =~= player_heading(telegram_id, name@, hero_name@));
        lines.push(first);
        if show_outcome {
            let mut line = String::new();
            line.append("— ");
            line.append(self.stringify_outcome(outcome));
            lines.push(line);
        }
        let ghost after_outcome = lines@;
        match (&player.role, &player.lane) {
            (Some(role), Some(lane)) => {
                let mut line = String::new();
                line.append("— ");
                line.append(self.stringify_role_lane(role.clone(), lane.clone()));
                lines.push(line);
            },
            _ => {},
        }
        let ghost after_role = lines@;
        match (player.kills, player.deaths, player.assists) {
            (Some(kills), Some(deaths), Some(assists)) => {
                let mut line = String::new();
                line.append("— ");
                line.append(self.emojify_kills_deaths_assists(kills, deaths, assists));
                line.append(" ");
                push_decimal_i64(&mut line, kills as i64);
                line.append(" K / ");
                push_decimal_i64(&mut line, deaths as i64);
                line.append(" D / ");
                push_decimal_i64(&mut line, assists as i64);
                line.append(" A");
                lines.push(line);
            },
            _ => {},
        }
        let ghost after_kda = lines@;
        match player.imp {
            Some(imp) => {
                let mut line = String::new();
                line.append("— ");
                line.append(self.emojify_imp(imp));
                line.append(" ");
                push_decimal_i64(&mut line, imp as i64);
                line.append(" IMP");
                lines.push(line);
            },
            None => {},
        }
        assert(views(lines@) =~= player_lines(player, telegram_id, show_outcome, name@, hero_name@, outcome));
        Ok(join_with_newlines(&lines))
    }

    /// Goes through a match up to the point where its players are listed:
    /// `Ok(None)` where it has too few players or its IMP is not ready yet,
    /// else what the notification needs, with the players ordered by role and
    /// lane. `now` is the current time.
    pub fn prepare_match_at(&self, m: Match, now: Instant) -> (r: Result<Option<PreparedMatch>, BroochError>)
        requires
            reaches_players(m) ==> (m.players matches Some(ps) ==> sortable_by_side(flatten(ps@))),
        ensures
            self.prepared_as(m, now, r),
    {
        proof {
            use_type_invariant(self);
        }
        let datetime = self.get_match_datetime(&m)?;
        let timedelta = self.get_match_timedelta(datetime, now);
        let lobby_type = self.get_match_type(&m)?;
        let mode = self.get_match_mode(&m)?;
        let duration = self.get_match_duration(&m)?;
        let ghost flat = present_players(m);
        let players = self.get_match_players(m)?;
        proof {
            lemma_same_items(players@, flat);
            lemma_same_items(flat, players@);
        }
        if !self.should_process_match_players(players.as_slice()) {
            return Ok(None);
        }
        if !self.should_process_match_imp(players.as_slice(), timedelta) {
            return Ok(None);
        }
        let ghost by_side = players@;
        let mut ranks: Vec<i64> = Vec::new();
        let mut i: usize = 0;
        while i < players.len()
            invariant
                i <= players.len(),
                ranks.len() == i,
                forall|j: int| 0 <= j < i ==> ranks@[j] == role_lane_order()(#[trigger] players@[j]),
            decreases players.len() - i,
        {
            let rank = Self::numberify_role_lane(&players[i].role, &players[i].lane);
            ranks.push(rank as i64);
            i = i + 1;
        }
        let players = sort_by_rank(players, ranks, Ghost(role_lane_order()));
        proof {
            lemma_same_items(players@, by_side);
            lemma_same_items(by_side, players@);
            if sides_known(players@) {
                lemma_sides_known_side_from(None, players@);
            } else {
                assert(players@.len() == 1);
                assert(!(players@[0].is_radiant is Some));
            }
        }
        let _side = self.get_match_side(players.as_slice())?;
        assert(sides_known(flat));
        Ok(Some(PreparedMatch { lobby_type, game_mode: mode, duration_secs: duration, players }))
    }

    /// [`Self::prepare_match_at`] at the current time.
    pub fn prepare_match(&self, m: Match) -> (r: Result<Option<PreparedMatch>, BroochError>)
        requires
            reaches_players(m) ==> (m.players matches Some(ps) ==> sortable_by_side(flatten(ps@))),
        ensures
            exists|now: Instant| self.prepared_as(m, now, r),
    {
        let now = local_now();
        let r = self.prepare_match_at(m, now);
        assert(self.prepared_as(m, now, r));
        r
    }

    /// The first lines of a notification: the outcome, then the lobby type,
    /// game mode and duration, then an empty line.
    pub fn stringify_match_heading(&self, pm: &PreparedMatch, outcome: MatchOutcome) -> (r: Vec<String>)
        ensures
            views(r@) == match_heading(*pm, outcome),
    {
        let mut lines: Vec<String> = Vec::new();
        let mut first = String::new();
        first.append(self.emojify_outcome(outcome));
        first.append(" <u><b>");
        first.append(self.stringify_outcome(outcome));
        first.append("</b></u>");
        lines.push(first);
        let mut second = String::new();
        second.append("<b>");
        let type_text = self.stringify_type(pm.lobby_type.clone());
        second.append(type_text.as_str());
        second.append("</b> · ");
        let mode_text = self.stringify_mode(pm.game_mode.clone());
        second.append(mode_text.as_str());
        second.append(" · <i>");
        let duration_text = self.stringify_duration(pm.duration_secs);
        second.append(duration_text.as_str());
        second.append("</i>");
        lines.push(second);
        lines.push(String::new());
        assert(views(lines@) =~= match_heading(*pm, outcome));
        lines
    }

    /// The whole notification: the heading lines, the text about each player
    /// followed by an empty line, and the identifier of the match, joined by
    /// newlines.
    pub fn stringify_match(&self, heading: Vec<String>, player_texts: Vec<String>, match_id: DotaMatchId) -> (r: String)
        ensures
            r@ == join_lines(views(heading@) + spaced(views(player_texts@)) + seq![match_footer(match_id)]),
    {
        let mut lines = heading;
        let ghost start = views(lines@);
        let mut i: usize = 0;
        while i < player_texts.len()
            invariant
                i <= player_texts.len(),
                views(lines@) == start + spaced(views(player_texts@).take(i as int)),
            decreases player_texts.len() - i,
        {
            let ghost before = views(lines@);
            let mut text = String::new();
            text.append(player_texts[i].as_str());
            let ghost text_view = text@;
            lines.push(text);
            lines.push(String::new());
            proof {
                assert(views(lines@) =~= before + seq![text_view, Seq::<char>::empty()]);
                assert(text_view =~= views(player_texts@)[i as int]);
                let t = views(player_texts@).take(i + 1);
                assert(t.drop_last() =~= views(player_texts@).take(i as int));
                assert(views(lines@) =~= start + spaced(t));
            }
            i = i + 1;
        }
        assert(views(player_texts@).take(i as int) =~= views(player_texts@));
        let mut footer = String::new();
        footer.append("Partita <code>");
        let id_text = match_id.to_string();
        footer.append(id_text.as_str());
        footer.append("</code>");
        lines.push(footer);
        assert(views(lines@) =~= views(heading@) + spaced(views(player_texts@)) + seq![match_footer(match_id)]);
        join_with_newlines(&lines)
    }

    /// The whole notification of a prepared match: the outcome of its
    /// players, the heading for that outcome, the text about each player
    /// (with the Telegram account found for it, `ids[k]` for the player at
    /// `k`, and its own outcome shown where the match was a clash), and the
    /// identifier of the match.
    pub fn render_notification(&self, pm: &PreparedMatch, ids: Vec<Option<TelegramUserId>>, id: DotaMatchId) -> (r:
        Result<String, BroochError>)
        requires
            pm.players@.len() > 0,
            ids@.len() == pm.players@.len(),
        ensures
            r matches Ok(text) ==> notification_of(*pm, ids@, id) == Ok::<Seq<char>, BroochError>(text@),
            r matches Err(e) ==> notification_of(*pm, ids@, id) == Err::<Seq<char>, BroochError>(e),
    {
        proof {
            lemma_outcome_from_some(None, pm.players@);
        }
        let outcome = self.get_match_outcome(pm.players.as_slice())?;
        let heading = self.stringify_match_heading(pm, outcome);
        let clash = match outcome {
            MatchOutcome::Clash => true,
            _ => false,
        };
        let ghost players = pm.players@;
        let mut texts: Vec<String> = Vec::new();
        let mut i: usize = 0;
        assert(players.skip(0) =~= players);
        assert(ids@.skip(0) =~= ids@);
        while i < pm.players.len()
            invariant
                i <= pm.players@.len(),
                players == pm.players@,
                ids@.len() == players.len(),
                outcome_from(None, players) == Some(Some(outcome)),
                clash == (outcome == MatchOutcome::Clash),
                player_texts_of(players, ids@, clash) == prepend_texts(
                    views(texts@),
                    player_texts_of(players.skip(i as int), ids@.skip(i as int), clash),
                ),
            decreases pm.players.len() - i,
        {
            let ghost rest = players.skip(i as int);
            let ghost rest_ids = ids@.skip(i as int);
            assert(rest.drop_first() =~= players.skip(i + 1));
            assert(rest_ids.drop_first() =~= ids@.skip(i + 1));
            assert(rest[0] == players[i as int]);
            assert(rest_ids[0] == ids@[i as int]);
            let ghost tail = player_texts_of(rest.drop_first(), rest_ids.drop_first(), clash);
            assert(player_texts_of(rest, rest_ids, clash) == match player_text(rest[0], rest_ids[0], clash) {
                Err(e) => Err(e),
                Ok(t) => prepend_texts(seq![t], tail),
            });
            let player = pm.players[i].clone();
            let text = match self.stringify_player(player, ids[i], clash) {
                Ok(text) => text,
                Err(e) => {
                    assert(player_texts_of(rest, rest_ids, clash) == Err::<Seq<Seq<char>>, BroochError>(e));
                    assert(player_texts_of(players, ids@, clash) == Err::<Seq<Seq<char>>, BroochError>(e));
                    return Err(e);
                },
            };
            let ghost before = views(texts@);
            texts.push(text);
            assert(views(texts@) =~= before.push(text@));
            assert(before + seq![text@] =~= before.push(text@));
            assert(prepend_texts(before, prepend_texts(seq![text@], tail)) == prepend_texts(views(texts@), tail)) by {
                match tail {
                    Ok(ts) => {
                        assert(before + (seq![text@] + ts) =~= views(texts@) + ts);
                    },
                    Err(_) => {},
                }
            }
            i = i + 1;
        }
        assert(players.skip(i as int) =~= Seq::<Player>::empty());
        assert(views(texts@) =~= views(texts@) + Seq::<Seq<char>>::empty());
        Ok(self.stringify_match(heading, texts, id))
    }

    /// The notification of a prepared match once the Telegram account of
    /// each player has been looked up (`lookups[k]` for the player at `k`):
    /// the first error in the order in which the details are read (the
    /// outcome of the match; then, player by player, the Steam account, its
    /// name and its identifier, whether its SteamIDs fit, the lookup, the
    /// hero and the player's result), or the notification as [`Self::render_notification`] writes
    /// it with the accounts found.
    pub fn render_notification_after_lookups<E>(
        &self,
        pm: &PreparedMatch,
        lookups: Vec<Result<Option<TelegramUserId>, E>>,
        id: DotaMatchId,
    ) -> (r: Result<String, NotificationError<E>>)
        requires
            pm.players@.len() > 0,
            lookups@.len() == pm.players@.len(),
        ensures
            outcome_from(None, pm.players@) is None ==> r == Err::<String, NotificationError<E>>(
                NotificationError::Brooch(BroochError::NoPlayerVictory),
            ),
            outcome_from(None, pm.players@) matches Some(Some(o)) ==> match first_failure(
                pm.players@,
                lookups@,
                o == MatchOutcome::Clash,
            ) {
                Some(f) => r == Err::<String, NotificationError<E>>(f),
                None => r matches Ok(text) && notification_of(*pm, looked_up_ids(lookups@), id) == Ok::<
                    Seq<char>,
                    BroochError,
                >(text@),
            },
    {
        proof {
            lemma_outcome_from_some(None, pm.players@);
        }
        let outcome = match self.get_match_outcome(pm.players.as_slice()) {
            Ok(o) => o,
            Err(e) => return Err(NotificationError::Brooch(e)),
        };
        let clash = match outcome {
            MatchOutcome::Clash => true,
            _ => false,
        };
        let ghost players = pm.players@;
        let ghost all = lookups@;
        let mut rest = lookups;
        let mut ids: Vec<Option<TelegramUserId>> = Vec::new();
        let mut i: usize = 0;
        assert(all.skip(0) =~= all);
        assert(players.skip(0) =~= players);
        while i < pm.players.len()
            invariant
                i <= pm.players@.len(),
                players == pm.players@,
                all.len() == players.len(),
                all == lookups@,
                rest@ == all.skip(i as int),
                ids@ == looked_up_ids(all).take(i as int),
                outcome_from(None, players) == Some(Some(outcome)),
                clash == (outcome == MatchOutcome::Clash),
                first_failure(players, all, clash) == first_failure(players.skip(i as int), rest@, clash),
            decreases pm.players.len() - i,
        {
            let ghost ps = players.skip(i as int);
            assert(ps.drop_first() =~= players.skip(i + 1));
            assert(rest@.drop_first() =~= all.skip(i + 1));
            assert(ps[0] == players[i as int]);
            let player = &pm.players[i];
            let steam_error = match &player.steam_account {
                None => Some(BroochError::NoSteamAccount),
                Some(steam) => match &steam.name {
                    None => Some(BroochError::NoSteamName),
                    Some(_) => if steam.id.is_none() {
                        Some(BroochError::NoSteamId)
                    } else {
                        None
                    },
                },
            };
            assert(steam_error == steam_lookup_error(ps[0]));
            assert(all.skip(i as int)[0] == all[i as int]);
            if let Some(e) = steam_error {
                assert(first_failure(players, all, clash) == Some(NotificationError::<E>::Brooch(e)));
                return Err(NotificationError::Brooch(e));
            }
            let fits = match &player.steam_account {
                Some(steam) => match steam.id {
                    Some(steam_id) => steam_id <= 0x7fff_ffff_ffff_ffff - STEAM_ID_Y0 - 1,
                    None => true,
                },
                None => true,
            };
            if !fits {
                assert(first_failure(players, all, clash) == Some(NotificationError::<E>::SteamIdOverflow));
                return Err(NotificationError::SteamIdOverflow);
            }
            let ghost first_lookup = rest@[0];
            let lookup = rest.remove(0);
            assert(lookup == first_lookup);
            assert(all[i as int] == first_lookup);
            let telegram_id = match lookup {
                Err(e) => {
                    assert(first_failure(ps, all.skip(i as int), clash) == Some(NotificationError::<E>::Lookup(e)));
                    assert(first_failure(players, all, clash) == Some(NotificationError::<E>::Lookup(e)));
                    return Err(NotificationError::Lookup(e));
                },
                Ok(telegram_id) => telegram_id,
            };
            match self.stringify_player(player.clone(), telegram_id, clash) {
                Err(e) => {
                    assert(first_failure(players, all, clash) == Some(NotificationError::<E>::Brooch(e)));
                    return Err(NotificationError::Brooch(e));
                },
                Ok(_) => {},
            }
            let ghost before = ids@;
            ids.push(telegram_id);
            proof {
                assert(looked_up_ids(all)[i as int] == telegram_id);
                assert(ids@ =~= looked_up_ids(all).take(i + 1));
            }
            i = i + 1;
        }
        proof {
            assert(players.skip(i as int) =~= Seq::<Player>::empty());
            assert(ids@ =~= looked_up_ids(all));
            lemma_no_failure_renders(players, all, clash);
        }
        match self.render_notification(pm, ids, id) {
            Ok(text) => Ok(text),
            Err(e) => Err(NotificationError::Brooch(e)),
        }
    }

    /// What preparing `m` at `now` gives: the decision about the match, and
    /// for a match to notify its lobby type, game mode, duration, and its
    /// players (at least one) ordered by role and lane.
    pub open spec fn prepared_as(self, m: Match, now: Instant, r: Result<Option<PreparedMatch>, BroochError>) -> bool {
        &&& agrees_with_verdict(r, self.match_verdict(m, now))
        &&& r matches Ok(Some(pm)) ==> {
            &&& Some(pm.lobby_type) == m.lobby_type
            &&& Some(pm.game_mode) == m.game_mode
            &&& Some(pm.duration_secs) == m.duration_seconds
            &&& m.players matches Some(ps) && pm.players@.to_multiset() == flatten(ps@).to_multiset()
            &&& sorted_by_rank(pm.players@, role_lane_order())
            &&& pm.players@.len() >= 1
        }
    }

    /// The decision about a match, before its players are ordered: the first
    /// missing or invalid detail, in the order in which they are read, or
    /// whether the match is to be notified now.
    pub open spec fn match_verdict(self, m: Match, now: Instant) -> Result<bool, BroochError> {
        match m.end_date_time {
            None => Err(BroochError::NoEndDateTime),
            Some(end) => if !chrono_timestamp_valid(end as int) {
                Err(BroochError::InvalidEndDateTime)
            } else if m.lobby_type is None {
                Err(BroochError::NoLobbyType)
            } else if m.game_mode is None {
                Err(BroochError::NoGameMode)
            } else {
                match m.duration_seconds {
                    None => Err(BroochError::NoDuration),
                    Some(d) => if !time_delta_secs_valid(d as int) {
                        Err(BroochError::InvalidDuration)
                    } else {
                        match m.players {
                            None => Err(BroochError::NoPlayers),
                            Some(ps) => {
                                let players = flatten(ps@);
                                if players.len() < self.spec_min_players_to_process() {
                                    Ok(false)
                                } else if !(imp_known(players) || elapsed_exceeds(
                                    Elapsed { secs: (now.secs - end) as i128, nanos: now.nanos },
                                    self.spec_max_imp_wait_secs() as int,
                                )) {
                                    Ok(false)
                                } else if !sides_known(players) {
                                    Err(BroochError::NoPlayerSide)
                                } else {
                                    Ok(true)
                                }
                            },
                        }
                    },
                }
            }
        }
    }

    /// The page of a match on STRATZ, shown as the preview of its notification.
    pub fn match_link(&self, match_id: DotaMatchId) -> (r: String)
        ensures
            r@ == "https://stratz.com/matches/"@ + int_decimal(match_id.0 as int),
    {
        let mut out = String::from_str("https://stratz.com/matches/");
        push_decimal_i64(&mut out, match_id.0);
        out
    }

    /// The mark shown before the outcome of a match.
    pub fn emojify_outcome(&self, outcome: MatchOutcome) -> (r: &'static str)
        ensures
            r@ == outcome_emoji(outcome),
    {
        match outcome {
            MatchOutcome::Victory => "🟩",
            MatchOutcome::Defeat => "🔴",
            MatchOutcome::Clash => "💛",
        }
    }

    /// The words shown for the outcome of a match.
    pub fn stringify_outcome(&self, outcome: MatchOutcome) -> (r: &'static str)
        ensures
            r@ == outcome_label(outcome),
    {
        match outcome {
            MatchOutcome::Victory => "Vittoria!",
            MatchOutcome::Defeat => "Sconfitta...",
            MatchOutcome::Clash => "Derby",
        }
    }

    /// The place of a player in the list of a match, by role and lane: carries
    /// of the safe, mid and off lane first, then roamers, junglers, soft and
    /// hard supports, and everyone else last.
    pub fn numberify_role_lane(role: &Option<Role>, lane: &Option<Lane>) -> (r: u8)
        ensures
            r == role_lane_rank(*role, *lane),
            1 <= r <= 8,
    {
        match (role, lane) {
            (Some(Role::CORE), Some(Lane::SAFE_LANE)) => 1,
            (Some(Role::CORE), Some(Lane::MID_LANE)) => 2,
            (Some(Role::CORE), Some(Lane::OFF_LANE)) => 3,
            (_, Some(Lane::ROAMING)) => 4,
            (_, Some(Lane::JUNGLE)) => 5,
            (Some(Role::LIGHT_SUPPORT), _) => 6,
            (Some(Role::HARD_SUPPORT), _) => 7,
            (_, _) => 8,
        }
    }

    /// The name shown for the role and lane of a player.
    pub fn stringify_role_lane(&self, role: Role, lane: Lane) -> (r: &'static str)
        ensures
            r@ == role_lane_label(role, lane),
    {
        match (role, lane) {
            (Role::CORE, Lane::SAFE_LANE) => "1️⃣ Safe Carry",
            (Role::CORE, Lane::MID_LANE) => "2️⃣ Mid Carry",
            (Role::CORE, Lane::OFF_LANE) => "3️⃣ Off Tank",
            (_, Lane::ROAMING) => "🔀 Roaming",
            (_, Lane::JUNGLE) => "⏫ Jungle",
            (Role::LIGHT_SUPPORT, _) => "4️⃣ Soft Support",
            (Role::HARD_SUPPORT, _) => "5️⃣ Hard Support",
            (_, _) => "🆕 Sconosciuto",
        }
    }

    /// The mark shown before the IMP of a player.
    pub fn emojify_imp(&self, imp: i16) -> (r: &'static str)
        ensures
            r@ == imp_emoji(imp as int),
    {
        if imp <= -49 {
            "🟧"
        } else if imp <= -25 {
            "🔶"
        } else if imp <= -1 {
            "🔸"
        } else if imp <= 24 {
            "🔹"
        } else if imp <= 48 {
            "🔷️"
        } else {
            "🟦"
        }
    }

    /// The mark shown before the kills, deaths and assists of a player: a plus
    /// when kills and half the assists (rounded down) make up for the deaths.
    pub fn emojify_kills_deaths_assists(&self, kills: u8, deaths: u8, assists: u8) -> (r: &'static str)
        ensures
            r@ == (if kda_score(kills as int, deaths as int, assists as int) < 0 {
                "➖"@
            } else {
                "➕"@
            }),
    {
        let kills = kills as i16;
        let deaths = deaths as i16;
        let assists = assists as i16;
        let kda_score = kills + (assists / 2) - deaths;
        if kda_score <= -1 {
            "➖"
        } else {
            "➕"
        }
    }

    /// The duration of a match as minutes and seconds (`mm:ss`).
    pub fn stringify_duration(&self, duration_secs: i64) -> (r: String)
        ensures
            r@ == duration_text(duration_secs as int),
    {
        let magnitude: u64 = if duration_secs < 0 {
            (0i128 - duration_secs as i128) as u64
        } else {
            duration_secs as u64
        };
        let minutes_magnitude: u64 = magnitude / 60;
        let seconds_magnitude: u64 = magnitude % 60;
        let minutes: i64 = if duration_secs < 0 {
            0 - (minutes_magnitude as i64)
        } else {
            minutes_magnitude as i64
        };
        let seconds: i64 = if duration_secs < 0 {
            0 - (seconds_magnitude as i64)
        } else {
            seconds_magnitude as i64
        };
        let mut out = String::new();
        push_padded2(&mut out, minutes);
        out.append(":");
        push_padded2(&mut out, seconds);
        assert(out@ =~= duration_text(duration_secs as int));
        out
    }

    pub fn stringify_type(&self, lobby_type: LobbyType) -> (r: String)
        ensures
            r@ == lobby_type_label(lobby_type),
    {
        match lobby_type {
            LobbyType::UNRANKED => String::from_str("Normale"),
            LobbyType::PRACTICE => String::from_str("Torneo"),
            LobbyType::TOURNAMENT => String::from_str("The International"),
            LobbyType::TUTORIAL => String::from_str("Tutorial"),
            LobbyType::COOP_VS_BOTS => String::from_str("Co-op"),
            LobbyType::TEAM_MATCH => String::from_str("Scontro di Clan"),
            LobbyType::SOLO_QUEUE => String::from_str("Coda solitaria"),
            LobbyType::RANKED => String::from_str("Classificata"),
            LobbyType::SOLO_MID => String::from_str("Duello"),
            LobbyType::BATTLE_CUP => String::from_str("Battle Cup"),
            LobbyType::EVENT => String::from_str("Evento"),
            LobbyType::DIRE_TIDE => String::from_str("Diretide"),
            LobbyType::Other(t) => t,
        }
    }

    pub fn stringify_mode(&self, mode: GameMode) -> (r: String)
        ensures
            r@ == game_mode_label(mode),
    {
        match mode {
            GameMode::NONE => String::from_str("Sandbox"),
            GameMode::ALL_PICK => String::from_str("All Pick"),
            GameMode::CAPTAINS_MODE => String::from_str("Captains Mode"),
            GameMode::RANDOM_DRAFT => String::from_str("Random Draft"),
            GameMode::SINGLE_DRAFT => String::from_str("Single Draft"),
            GameMode::ALL_RANDOM => String::from_str("All Random"),
            GameMode::INTRO => String::from_str("Tutorial"),
            GameMode::THE_DIRETIDE => String::from_str("Diretide"),
            GameMode::REVERSE_CAPTAINS_MODE => String::from_str("Reverse Captains"),
            GameMode::THE_GREEVILING => String::from_str("The Greeviling"),
            GameMode::TUTORIAL => String::from_str("Tutorial"),
            GameMode::MID_ONLY => String::from_str("Mid Only"),
            GameMode::LEAST_PLAYED => String::from_str("Least Played"),
            GameMode::NEW_PLAYER_POOL => String::from_str("New Player"),
            GameMode::COMPENDIUM_MATCHMAKING => String::from_str("Compendium"),
            GameMode::CUSTOM => String::from_str("Arcade"),
            GameMode::CAPTAINS_DRAFT => String::from_str("Captains Draft"),
            GameMode::BALANCED_DRAFT => String::from_str("Balanced Draft"),
            GameMode::ABILITY_DRAFT => String::from_str("Ability Draft"),
            GameMode::EVENT => String::from_str("Evento"),
            GameMode::ALL_RANDOM_DEATH_MATCH => String::from_str("All Random Deathmatch"),
            GameMode::SOLO_MID => String::from_str("Mid Duel"),
            GameMode::ALL_PICK_RANKED => String::from_str("All Draft"),
            GameMode::TURBO => String::from_str("Turbo"),
            GameMode::MUTATION => String::from_str("Mutation"),
            GameMode::UNKNOWN => String::from_str("Unknown"),
            GameMode::Other(t) => t,
        }
    }

}

/// The name shown for a lobby type.
pub open spec fn lobby_type_label(t: LobbyType) -> Seq<char> {
    match t {
        LobbyType::UNRANKED => "Normale"@,
        LobbyType::PRACTICE => "Torneo"@,
        LobbyType::TOURNAMENT => "The International"@,
        LobbyType::TUTORIAL => "Tutorial"@,
        LobbyType::COOP_VS_BOTS => "Co-op"@,
        LobbyType::TEAM_MATCH => "Scontro di Clan"@,
        LobbyType::SOLO_QUEUE => "Coda solitaria"@,
        LobbyType::RANKED => "Classificata"@,
        LobbyType::SOLO_MID => "Duello"@,
        LobbyType::BATTLE_CUP => "Battle Cup"@,
        LobbyType::EVENT => "Evento"@,
        LobbyType::DIRE_TIDE => "Diretide"@,
        LobbyType::Other(s) => s@,
    }
}

/// The name shown for a game mode.
pub open spec fn game_mode_label(t: GameMode) -> Seq<char> {
    match t {
        GameMode::NONE => "Sandbox"@,
        GameMode::ALL_PICK => "All Pick"@,
        GameMode::CAPTAINS_MODE => "Captains Mode"@,
        GameMode::RANDOM_DRAFT => "Random Draft"@,
        GameMode::SINGLE_DRAFT => "Single Draft"@,
        GameMode::ALL_RANDOM => "All Random"@,
        GameMode::INTRO => "Tutorial"@,
        GameMode::THE_DIRETIDE => "Diretide"@,
        GameMode::REVERSE_CAPTAINS_MODE => "Reverse Captains"@,
        GameMode::THE_GREEVILING => "The Greeviling"@,
        GameMode::TUTORIAL => "Tutorial"@,
        GameMode::MID_ONLY => "Mid Only"@,
        GameMode::LEAST_PLAYED => "Least Played"@,
        GameMode::NEW_PLAYER_POOL => "New Player"@,
        GameMode::COMPENDIUM_MATCHMAKING => "Compendium"@,
        GameMode::CUSTOM => "Arcade"@,
        GameMode::CAPTAINS_DRAFT => "Captains Draft"@,
        GameMode::BALANCED_DRAFT => "Balanced Draft"@,
        GameMode::ABILITY_DRAFT => "Ability Draft"@,
        GameMode::EVENT => "Evento"@,
        GameMode::ALL_RANDOM_DEATH_MATCH => "All Random Deathmatch"@,
        GameMode::SOLO_MID => "Mid Duel"@,
        GameMode::ALL_PICK_RANKED => "All Draft"@,
        GameMode::TURBO => "Turbo"@,
        GameMode::MUTATION => "Mutation"@,
        GameMode::UNKNOWN => "Unknown"@,
        GameMode::Other(s) => s@,
    }
}


/// The game mode whose label has this length, first and last character,
/// if any does: no two labels of named modes share all three.
pub open spec fn mode_of_label(label: Seq<char>) -> Option<GameMode> {
    if label.len() == 0 {
        None
    } else if label.len() == 7 && label[0] == 'S' && label.last() == 'x' {
        Some(GameMode::NONE)
    } else if label.len() == 8 && label[0] == 'A' && label.last() == 'k' {
        Some(GameMode::ALL_PICK)
    } else if label.len() == 13 && label[0] == 'C' && label.last() == 'e' {
        Some(GameMode::CAPTAINS_MODE)
    } else if label.len() == 12 && label[0] == 'R' && label.last() == 't' {
        Some(GameMode::RANDOM_DRAFT)
    } else if label.len() == 12 && label[0] == 'S' && label.last() == 't' {
        Some(GameMode::SINGLE_DRAFT)
    } else if label.len() == 10 && label[0] == 'A' && label.last() == 'm' {
        Some(GameMode::ALL_RANDOM)
    } else if label.len() == 8 && label[0] == 'T' && label.last() == 'l' {
        Some(GameMode::TUTORIAL)
    } else if label.len() == 8 && label[0] == 'D' && label.last() == 'e' {
        Some(GameMode::THE_DIRETIDE)
    } else if label.len() == 16 && label[0] == 'R' && label.last() == 's' {
        Some(GameMode::REVERSE_CAPTAINS_MODE)
    } else if label.len() == 14 && label[0] == 'T' && label.last() == 'g' {
        Some(GameMode::THE_GREEVILING)
    } else if label.len() == 8 && label[0] == 'M' && label.last() == 'y' {
        Some(GameMode::MID_ONLY)
    } else if label.len() == 12 && label[0] == 'L' && label.last() == 'd' {
        Some(GameMode::LEAST_PLAYED)
    } else if label.len() == 10 && label[0] == 'N' && label.last() == 'r' {
        Some(GameMode::NEW_PLAYER_POOL)
    } else if label.len() == 10 && label[0] == 'C' && label.last() == 'm' {
        Some(GameMode::COMPENDIUM_MATCHMAKING)
    } else if label.len() == 6 && label[0] == 'A' && label.last() == 'e' {
        Some(GameMode::CUSTOM)
    } else if label.len() == 14 && label[0] == 'C' && label.last() == 't' {
        Some(GameMode::CAPTAINS_DRAFT)
    } else if label.len() == 14 && label[0] == 'B' && label.last() == 't' {
        Some(GameMode::BALANCED_DRAFT)
    } else if label.len() == 13 && label[0] == 'A' && label.last() == 't' {
        Some(GameMode::ABILITY_DRAFT)
    } else if label.len() == 6 && label[0] == 'E' && label.last() == 'o' {
        Some(GameMode::EVENT)
    } else if label.len() == 21 && label[0] == 'A' && label.last() == 'h' {
        Some(GameMode::ALL_RANDOM_DEATH_MATCH)
    } else if label.len() == 8 && label[0] == 'M' && label.last() == 'l' {
        Some(GameMode::SOLO_MID)
    } else if label.len() == 9 && label[0] == 'A' && label.last() == 't' {
        Some(GameMode::ALL_PICK_RANKED)
    } else if label.len() == 5 && label[0] == 'T' && label.last() == 'o' {
        Some(GameMode::TURBO)
    } else if label.len() == 8 && label[0] == 'M' && label.last() == 'n' {
        Some(GameMode::MUTATION)
    } else if label.len() == 7 && label[0] == 'U' && label.last() == 'n' {
        Some(GameMode::UNKNOWN)
    } else {
        None
    }
}

/// The mode that a named mode is announced as: itself, but for `INTRO`,
/// announced as "Tutorial" like `TUTORIAL`.
pub open spec fn announced_mode(mode: GameMode) -> GameMode {
    match mode {
        GameMode::INTRO => GameMode::TUTORIAL,
        _ => mode,
    }
}

/// The label of a named mode tells which mode it is.
pub proof fn lemma_mode_of_label(mode: GameMode)
    requires
        !(mode is Other),
    ensures
        mode_of_label(game_mode_label(mode)) == Some(announced_mode(mode)),
{
    match mode {
        GameMode::NONE => reveal_strlit("Sandbox"),
        GameMode::ALL_PICK => reveal_strlit("All Pick"),
        GameMode::CAPTAINS_MODE => reveal_strlit("Captains Mode"),
        GameMode::RANDOM_DRAFT => reveal_strlit("Random Draft"),
        GameMode::SINGLE_DRAFT => reveal_strlit("Single Draft"),
        GameMode::ALL_RANDOM => reveal_strlit("All Random"),
        GameMode::TUTORIAL => reveal_strlit("Tutorial"),
        GameMode::THE_DIRETIDE => reveal_strlit("Diretide"),
        GameMode::REVERSE_CAPTAINS_MODE => reveal_strlit("Reverse Captains"),
        GameMode::THE_GREEVILING => reveal_strlit("The Greeviling"),
        GameMode::MID_ONLY => reveal_strlit("Mid Only"),
        GameMode::LEAST_PLAYED => reveal_strlit("Least Played"),
        GameMode::NEW_PLAYER_POOL => reveal_strlit("New Player"),
        GameMode::COMPENDIUM_MATCHMAKING => reveal_strlit("Compendium"),
        GameMode::CUSTOM => reveal_strlit("Arcade"),
        GameMode::CAPTAINS_DRAFT => reveal_strlit("Captains Draft"),
        GameMode::BALANCED_DRAFT => reveal_strlit("Balanced Draft"),
        GameMode::ABILITY_DRAFT => reveal_strlit("Ability Draft"),
        GameMode::EVENT => reveal_strlit("Evento"),
        GameMode::ALL_RANDOM_DEATH_MATCH => reveal_strlit("All Random Deathmatch"),
        GameMode::SOLO_MID => reveal_strlit("Mid Duel"),
        GameMode::ALL_PICK_RANKED => reveal_strlit("All Draft"),
        GameMode::TURBO => reveal_strlit("Turbo"),
        GameMode::MUTATION => reveal_strlit("Mutation"),
        GameMode::UNKNOWN => reveal_strlit("Unknown"),
        GameMode::INTRO => reveal_strlit("Tutorial"),
        GameMode::Other(_) => {},
    }
}

/// Different game modes are announced with different names: two named
/// modes share a label only when they are `INTRO` and `TUTORIAL`, both
/// shown as "Tutorial" (a mode STRATZ does not name is shown by its own
/// name).
pub proof fn law_game_mode_labels_distinct(a: GameMode, b: GameMode)
    requires
        !(a is Other),
        !(b is Other),
        game_mode_label(a) == game_mode_label(b),
    ensures
        a == b || ((a is INTRO || a is TUTORIAL) && (b is INTRO || b is TUTORIAL)),
{
    lemma_mode_of_label(a);
    lemma_mode_of_label(b);
}

pub open spec fn outcome_emoji(outcome: MatchOutcome) -> Seq<char> {
    match outcome {
        MatchOutcome::Victory => "🟩"@,
        MatchOutcome::Defeat => "🔴"@,
        MatchOutcome::Clash => "💛"@,
    }
}

pub open spec fn outcome_label(outcome: MatchOutcome) -> Seq<char> {
    match outcome {
        MatchOutcome::Victory => "Vittoria!"@,
        MatchOutcome::Defeat => "Sconfitta..."@,
        MatchOutcome::Clash => "Derby"@,
    }
}

pub open spec fn role_lane_rank(role: Option<Role>, lane: Option<Lane>) -> u8 {
    match (role, lane) {
        (Some(Role::CORE), Some(Lane::SAFE_LANE)) => 1,
        (Some(Role::CORE), Some(Lane::MID_LANE)) => 2,
        (Some(Role::CORE), Some(Lane::OFF_LANE)) => 3,
        (_, Some(Lane::ROAMING)) => 4,
        (_, Some(Lane::JUNGLE)) => 5,
        (Some(Role::LIGHT_SUPPORT), _) => 6,
        (Some(Role::HARD_SUPPORT), _) => 7,
        (_, _) => 8,
    }
}

pub open spec fn role_lane_label(role: Role, lane: Lane) -> Seq<char> {
    match (role, lane) {
        (Role::CORE, Lane::SAFE_LANE) => "1️⃣ Safe Carry"@,
        (Role::CORE, Lane::MID_LANE) => "2️⃣ Mid Carry"@,
        (Role::CORE, Lane::OFF_LANE) => "3️⃣ Off Tank"@,
        (_, Lane::ROAMING) => "🔀 Roaming"@,
        (_, Lane::JUNGLE) => "⏫ Jungle"@,
        (Role::LIGHT_SUPPORT, _) => "4️⃣ Soft Support"@,
        (Role::HARD_SUPPORT, _) => "5️⃣ Hard Support"@,
        (_, _) => "🆕 Sconosciuto"@,
    }
}

pub open spec fn imp_emoji(imp: int) -> Seq<char> {
    if imp <= -49 {
        "🟧"@
    } else if imp <= -25 {
        "🔶"@
    } else if imp <= -1 {
        "🔸"@
    } else if imp <= 24 {
        "🔹"@
    } else if imp <= 48 {
        "🔷️"@
    } else {
        "🟦"@
    }
}

pub open spec fn kda_score(kills: int, deaths: int, assists: int) -> int {
    kills + assists / 2 - deaths
}

/// `a / b` rounded towards zero, as Rust divides integers.
pub open spec fn trunc_div(a: int, b: int) -> int {
    if a >= 0 {
        a / b
    } else {
        -((-a) / b)
    }
}

/// The remainder of `a / b` rounded towards zero, as Rust's `%` gives it.
pub open spec fn trunc_rem(a: int, b: int) -> int {
    if a >= 0 {
        a % b
    } else {
        -((-a) % b)
    }
}

pub open spec fn duration_text(secs: int) -> Seq<char> {
    padded2(trunc_div(secs, 60)) + ":"@ + padded2(trunc_rem(secs, 60))
}


/// How long ago something happened: whole seconds and nanoseconds.
#[derive(Debug, Clone, Copy, PartialEq, Eq, Structural)]
pub struct Elapsed {
    pub secs: i128,
    pub nanos: u32,
}

/// Whether `e` is longer than `secs` whole seconds.
pub open spec fn elapsed_exceeds(e: Elapsed, secs: int) -> bool {
    e.secs > secs || (e.secs == secs && e.nanos > 0)
}

/// The items that are present, in order.
pub open spec fn flatten<T>(s: Seq<Option<T>>) -> Seq<T>
    decreases s.len(),
{
    if s.len() == 0 {
        Seq::empty()
    } else {
        match s[0] {
            Some(x) => seq![x] + flatten(s.drop_first()),
            None => flatten(s.drop_first()),
        }
    }
}

/// The items that are present, in order (`into_iter().flatten().collect()`).
pub fn flatten_options<T>(items: Vec<Option<T>>) -> (r: Vec<T>)
    ensures
        r@ == flatten(items@),
{
    let mut rest = items;
    let mut out: Vec<T> = Vec::new();
    while rest.len() > 0
        invariant
            out@ + flatten(rest@) == flatten(items@),
        decreases rest.len(),
    {
        let ghost old_rest = rest@;
        let x = rest.remove(0);
        assert(old_rest.drop_first() =~= rest@);
        let ghost old_out = out@;
        match x {
            Some(v) => {
                out.push(v);
                assert(out@ + flatten(rest@) =~= old_out + (seq![v] + flatten(rest@)));
            },
            None => {},
        }
    }
    assert(out@ + flatten(rest@) =~= out@);
    out
}

/// The rank by which matches are ordered: their end time, 0 where unknown.
pub open spec fn match_end_rank() -> spec_fn(Match) -> int {
    |m: Match| match m.end_date_time {
        Some(t) => t as int,
        None => 0,
    }
}

/// The rank by which players are first ordered: Radiant before Dire.
pub open spec fn side_rank() -> spec_fn(Player) -> int {
    |p: Player| if p.is_radiant == Some(true) {
        1
    } else {
        2
    }
}

/// The details of a match that are read before its players are all present
/// and valid: its end, its lobby type, its game mode and its duration.
pub open spec fn reaches_players(m: Match) -> bool {
    &&& m.end_date_time matches Some(end) && chrono_timestamp_valid(end as int)
    &&& m.lobby_type is Some
    &&& m.game_mode is Some
    &&& m.duration_seconds matches Some(d) && time_delta_secs_valid(d as int)
}

/// The players can be ordered by side: where there are two or more, each
/// one's side is known.
pub open spec fn sortable_by_side(players: Seq<Player>) -> bool {
    players.len() >= 2 ==> sides_known(players)
}

/// Every player's side is known.
pub open spec fn sides_known(players: Seq<Player>) -> bool {
    forall|i: int| 0 <= i < players.len() ==> (#[trigger] players[i]).is_radiant is Some
}

/// Every player's IMP is known.
pub open spec fn imp_known(players: Seq<Player>) -> bool {
    forall|i: int| 0 <= i < players.len() ==> (#[trigger] players[i]).imp is Some
}

pub open spec fn next_side(side: Option<MatchSide>, is_radiant: bool) -> MatchSide {
    match side {
        None => if is_radiant {
            MatchSide::Radiant
        } else {
            MatchSide::Dire
        },
        Some(MatchSide::Radiant) => if is_radiant {
            MatchSide::Radiant
        } else {
            MatchSide::Both
        },
        Some(MatchSide::Dire) => if is_radiant {
            MatchSide::Both
        } else {
            MatchSide::Dire
        },
        Some(MatchSide::Both) => MatchSide::Both,
    }
}

/// The side reached from `side` by going through `players` in order,
/// stopping once both sides have been seen; `None` when a player whose side
/// is unknown comes first.
pub open spec fn side_from(side: Option<MatchSide>, players: Seq<Player>) -> Option<Option<MatchSide>>
    decreases players.len(),
{
    if players.len() == 0 {
        Some(side)
    } else {
        match players[0].is_radiant {
            None => None,
            Some(r) => if side == Some(MatchSide::Both) {
                Some(side)
            } else {
                side_from(Some(next_side(side, r)), players.drop_first())
            },
        }
    }
}

pub open spec fn next_outcome(outcome: Option<MatchOutcome>, is_victory: bool) -> MatchOutcome {
    match outcome {
        None => if is_victory {
            MatchOutcome::Victory
        } else {
            MatchOutcome::Defeat
        },
        Some(MatchOutcome::Victory) => if is_victory {
            MatchOutcome::Victory
        } else {
            MatchOutcome::Clash
        },
        Some(MatchOutcome::Defeat) => if is_victory {
            MatchOutcome::Clash
        } else {
            MatchOutcome::Defeat
        },
        Some(MatchOutcome::Clash) => MatchOutcome::Clash,
    }
}

/// The outcome reached from `outcome` by going through `players` in order,
/// stopping once both a victory and a defeat have been seen; `None` when a
/// player whose result is unknown comes first.
pub open spec fn outcome_from(outcome: Option<MatchOutcome>, players: Seq<Player>) -> Option<Option<MatchOutcome>>
    decreases players.len(),
{
    if players.len() == 0 {
        Some(outcome)
    } else {
        match players[0].is_victory {
            None => None,
            Some(v) => if outcome == Some(MatchOutcome::Clash) {
                Some(outcome)
            } else {
                outcome_from(Some(next_outcome(outcome, v)), players.drop_first())
            },
        }
    }
}


/// The offset from a Steam account number to its SteamID (`0x0110_0001_0000_0000`).
pub const STEAM_ID_Y0: i64 = 0x0110_0001_0000_0000;

/// The SteamIDs of the account fit in an `i64`.
pub open spec fn steam_id_fits(steam: Steam) -> bool {
    steam.id matches Some(id) ==> id + STEAM_ID_Y0 + 1 <= i64::MAX
}

/// The first line about a player: name and hero, linked to the Telegram
/// account where one is known.
pub open spec fn player_heading(telegram_id: Option<TelegramUserId>, name: Seq<char>, hero: Seq<char>) -> Seq<char> {
    match telegram_id {
        None => "<u><b>"@ + escape_html(name) + "</b> ("@ + escape_html(hero) + ")</u>"@,
        Some(id) => "<u><a href=\"tg://user?id="@ + escape_html(int_decimal(id.0 as int)) + "\"><b>"@
            + escape_html(name) + "</b></a> ("@ + escape_html(hero) + ")</u>"@,
    }
}

/// The lines about a player, once its name, hero and outcome are known.
pub open spec fn player_lines(
    player: Player,
    telegram_id: Option<TelegramUserId>,
    show_outcome: bool,
    name: Seq<char>,
    hero: Seq<char>,
    outcome: MatchOutcome,
) -> Seq<Seq<char>> {
    seq![player_heading(telegram_id, name, hero)]
    + (if show_outcome { seq!["— "@ + outcome_label(outcome)] } else { Seq::empty() })
    + (match (player.role, player.lane) {
        (Some(role), Some(lane)) => seq!["— "@ + role_lane_label(role, lane)],
        _ => Seq::empty(),
    })
    + (match (player.kills, player.deaths, player.assists) {
        (Some(k), Some(d), Some(a)) => seq![
            "— "@ + (if kda_score(k as int, d as int, a as int) < 0 { "➖"@ } else { "➕"@ })
            + " "@ + int_decimal(k as int) + " K / "@ + int_decimal(d as int) + " D / "@
            + int_decimal(a as int) + " A"@,
        ],
        _ => Seq::empty(),
    })
    + (match player.imp {
        Some(imp) => seq!["— "@ + imp_emoji(imp as int) + " "@ + int_decimal(imp as int) + " IMP"@],
        None => Seq::empty(),
    })
}

/// The text about a player in a notification, or why it cannot be written.
pub open spec fn player_text(player: Player, telegram_id: Option<TelegramUserId>, show_outcome: bool) -> Result<Seq<char>, BroochError> {
    match player.steam_account {
        None => Err(BroochError::NoSteamAccount),
        Some(steam) => match steam.name {
            None => Err(BroochError::NoSteamName),
            Some(name) => if steam.id is None {
                Err(BroochError::NoSteamId)
            } else {
                match player.hero {
                    None => Err(BroochError::NoHero),
                    Some(hero) => match hero.display_name {
                        None => Err(BroochError::NoHeroName),
                        Some(hero_name) => match player.is_victory {
                            None => Err(BroochError::NoPlayerOutcome),
                            Some(v) => Ok(join_lines(player_lines(
                                player,
                                telegram_id,
                                show_outcome,
                                name@,
                                hero_name@,
                                if v { MatchOutcome::Victory } else { MatchOutcome::Defeat },
                            ))),
                        },
                    },
                }
            },
        },
    }
}


/// A match that is to be notified, with its players in the order in which
/// they are shown.
#[derive(Debug)]
pub struct PreparedMatch {
    pub lobby_type: LobbyType,
    pub game_mode: GameMode,
    pub duration_secs: i64,
    pub players: Vec<Player>,
}

/// The players of a match that are present.
pub open spec fn present_players(m: Match) -> Seq<Player> {
    match m.players {
        Some(ps) => flatten(ps@),
        None => Seq::empty(),
    }
}

/// What a result of preparing a match says of the decision about it.
pub open spec fn agrees_with_verdict(r: Result<Option<PreparedMatch>, BroochError>, verdict: Result<bool, BroochError>) -> bool {
    match r {
        Err(e) => verdict == Err::<bool, BroochError>(e),
        Ok(None) => verdict == Ok::<bool, BroochError>(false),
        Ok(Some(_)) => verdict == Ok::<bool, BroochError>(true),
    }
}

/// The rank by which players are shown: their role and lane.
pub open spec fn role_lane_order() -> spec_fn(Player) -> int {
    |p: Player| role_lane_rank(p.role, p.lane) as int
}

proof fn lemma_same_items(a: Seq<Player>, b: Seq<Player>)
    requires
        a.to_multiset() == b.to_multiset(),
    ensures
        a.len() == b.len(),
        sides_known(b) ==> sides_known(a),
        imp_known(a) == imp_known(b),
{
    broadcast use vstd::seq_lib::group_to_multiset_ensures;

    assert(a.to_multiset().len() == a.len());
    assert(b.to_multiset().len() == b.len());
    assert forall|x: Player| a.contains(x) <==> b.contains(x) by {
        assert(a.contains(x) <==> a.to_multiset().count(x) > 0);
        assert(b.contains(x) <==> b.to_multiset().count(x) > 0);
    }
    if sides_known(b) {
        assert forall|i: int| 0 <= i < a.len() implies (#[trigger] a[i]).is_radiant is Some by {
            assert(a.contains(a[i]));
            let j = choose|j: int| 0 <= j < b.len() && b[j] == a[i];
        }
    }
    if imp_known(b) {
        assert forall|i: int| 0 <= i < a.len() implies (#[trigger] a[i]).imp is Some by {
            assert(a.contains(a[i]));
            let j = choose|j: int| 0 <= j < b.len() && b[j] == a[i];
        }
    }
    if imp_known(a) {
        assert forall|i: int| 0 <= i < b.len() implies (#[trigger] b[i]).imp is Some by {
            assert(b.contains(b[i]));
            let j = choose|j: int| 0 <= j < a.len() && a[j] == b[i];
        }
    }
}

proof fn lemma_sides_known_side_from(side: Option<MatchSide>, players: Seq<Player>)
    requires
        sides_known(players),
    ensures
        side_from(side, players) is Some,
        players.len() > 0 ==> side_from(side, players) matches Some(Some(_)),
        side is Some ==> side_from(side, players) matches Some(Some(_)),
    decreases players.len(),
{
    if players.len() > 0 {
        assert(players[0].is_radiant is Some);
        let r = players[0].is_radiant.unwrap();
        assert forall|i: int| 0 <= i < players.drop_first().len() implies (#[trigger] players.drop_first()[i]).is_radiant is Some by {
            assert(players.drop_first()[i] == players[i + 1]);
        }
        lemma_sides_known_side_from(Some(next_side(side, r)), players.drop_first());
    }
}

/// The first lines of the notification of a match.
pub open spec fn match_heading(pm: PreparedMatch, outcome: MatchOutcome) -> Seq<Seq<char>> {
    seq![
        outcome_emoji(outcome) + " <u><b>"@ + outcome_label(outcome) + "</b></u>"@,
        "<b>"@ + lobby_type_label(pm.lobby_type) + "</b> · "@ + game_mode_label(pm.game_mode)
            + " · <i>"@ + duration_text(pm.duration_secs as int) + "</i>"@,
        Seq::empty(),
    ]
}

/// Each text followed by an empty line.
pub open spec fn spaced(texts: Seq<Seq<char>>) -> Seq<Seq<char>>
    decreases texts.len(),
{
    if texts.len() == 0 {
        Seq::empty()
    } else {
        spaced(texts.drop_last()) + seq![texts.last(), Seq::empty()]
    }
}

/// The last line of the notification of a match.
pub open spec fn match_footer(id: DotaMatchId) -> Seq<char> {
    "Partita <code>"@ + int_decimal(id.0 as int) + "</code>"@
}


/// Every player played on the Radiant side (`radiant`) or every player on the
/// Dire side (`!radiant`).
pub open spec fn all_on_side(players: Seq<Player>, radiant: bool) -> bool {
    forall|i: int| 0 <= i < players.len() ==> (#[trigger] players[i]).is_radiant == Some(radiant)
}

/// Every player won (`victory`) or every player lost (`!victory`).
pub open spec fn all_with_result(players: Seq<Player>, victory: bool) -> bool {
    forall|i: int| 0 <= i < players.len() ==> (#[trigger] players[i]).is_victory == Some(victory)
}

/// Every player's result is known.
pub open spec fn results_known(players: Seq<Player>) -> bool {
    forall|i: int| 0 <= i < players.len() ==> (#[trigger] players[i]).is_victory is Some
}

proof fn lemma_side_from_known(side: MatchSide, players: Seq<Player>)
    requires
        sides_known(players),
    ensures
        side_from(Some(side), players) == Some(Some(match side {
            MatchSide::Radiant => if all_on_side(players, true) {
                MatchSide::Radiant
            } else {
                MatchSide::Both
            },
            MatchSide::Dire => if all_on_side(players, false) {
                MatchSide::Dire
            } else {
                MatchSide::Both
            },
            MatchSide::Both => MatchSide::Both,
        })),
    decreases players.len(),
{
    if players.len() > 0 && side != MatchSide::Both {
        let rest = players.drop_first();
        assert forall|i: int| 0 <= i < rest.len() implies (#[trigger] rest[i]).is_radiant is Some by {
            assert(rest[i] == players[i + 1]);
        }
        let r = players[0].is_radiant.unwrap();
        lemma_side_from_known(next_side(Some(side), r), rest);
        assert(all_on_side(players, true) <==> (r && all_on_side(rest, true))) by {
            if r && all_on_side(rest, true) {
                assert forall|i: int| 0 <= i < players.len() implies (#[trigger] players[i]).is_radiant == Some(true) by {
                    if i > 0 {
                        assert(players[i] == rest[i - 1]);
                    }
                }
            }
            if all_on_side(players, true) {
                assert forall|i: int| 0 <= i < rest.len() implies (#[trigger] rest[i]).is_radiant == Some(true) by {
                    assert(rest[i] == players[i + 1]);
                }
            }
        }
        assert(all_on_side(players, false) <==> (!r && all_on_side(rest, false))) by {
            if !r && all_on_side(rest, false) {
                assert forall|i: int| 0 <= i < players.len() implies (#[trigger] players[i]).is_radiant == Some(false) by {
                    if i > 0 {
                        assert(players[i] == rest[i - 1]);
                    }
                }
            }
            if all_on_side(players, false) {
                assert forall|i: int| 0 <= i < rest.len() implies (#[trigger] rest[i]).is_radiant == Some(false) by {
                    assert(rest[i] == players[i + 1]);
                }
            }
        }
    }
}

/// The side of a match whose players' sides are all known is Radiant when
/// they all played Radiant, Dire when they all played Dire, and Both
/// otherwise.
pub proof fn law_match_side(players: Seq<Player>)
    requires
        players.len() > 0,
        sides_known(players),
    ensures
        side_from(None, players) == Some(Some(
            if all_on_side(players, true) {
                MatchSide::Radiant
            } else if all_on_side(players, false) {
                MatchSide::Dire
            } else {
                MatchSide::Both
            },
        )),
{
    let rest = players.drop_first();
    assert forall|i: int| 0 <= i < rest.len() implies (#[trigger] rest[i]).is_radiant is Some by {
        assert(rest[i] == players[i + 1]);
    }
    let r = players[0].is_radiant.unwrap();
    lemma_side_from_known(next_side(None, r), rest);
    if r {
        if all_on_side(rest, true) {
            assert forall|i: int| 0 <= i < players.len() implies (#[trigger] players[i]).is_radiant == Some(true) by {
                if i > 0 {
                    assert(players[i] == rest[i - 1]);
                }
            }
        } else {
            let k = choose|k: int| 0 <= k < rest.len() && rest[k].is_radiant != Some(true);
            assert(players[k + 1] == rest[k]);
            assert(!all_on_side(players, true));
            assert(!all_on_side(players, false));
        }
    } else {
        if all_on_side(rest, false) {
            assert forall|i: int| 0 <= i < players.len() implies (#[trigger] players[i]).is_radiant == Some(false) by {
                if i > 0 {
                    assert(players[i] == rest[i - 1]);
                }
            }
        } else {
            let k = choose|k: int| 0 <= k < rest.len() && rest[k].is_radiant != Some(false);
            assert(players[k + 1] == rest[k]);
            assert(!all_on_side(players, true));
            assert(!all_on_side(players, false));
        }
    }
}

proof fn lemma_outcome_from_known(outcome: MatchOutcome, players: Seq<Player>)
    requires
        results_known(players),
    ensures
        outcome_from(Some(outcome), players) == Some(Some(match outcome {
            MatchOutcome::Victory => if all_with_result(players, true) {
                MatchOutcome::Victory
            } else {
                MatchOutcome::Clash
            },
            MatchOutcome::Defeat => if all_with_result(players, false) {
                MatchOutcome::Defeat
            } else {
                MatchOutcome::Clash
            },
            MatchOutcome::Clash => MatchOutcome::Clash,
        })),
    decreases players.len(),
{
    if players.len() > 0 && outcome != MatchOutcome::Clash {
        let rest = players.drop_first();
        assert forall|i: int| 0 <= i < rest.len() implies (#[trigger] rest[i]).is_victory is Some by {
            assert(rest[i] == players[i + 1]);
        }
        let v = players[0].is_victory.unwrap();
        lemma_outcome_from_known(next_outcome(Some(outcome), v), rest);
        assert(all_with_result(players, true) <==> (v && all_with_result(rest, true))) by {
            if v && all_with_result(rest, true) {
                assert forall|i: int| 0 <= i < players.len() implies (#[trigger] players[i]).is_victory == Some(true) by {
                    if i > 0 {
                        assert(players[i] == rest[i - 1]);
                    }
                }
            }
            if all_with_result(players, true) {
                assert forall|i: int| 0 <= i < rest.len() implies (#[trigger] rest[i]).is_victory == Some(true) by {
                    assert(rest[i] == players[i + 1]);
                }
            }
        }
        assert(all_with_result(players, false) <==> (!v && all_with_result(rest, false))) by {
            if !v && all_with_result(rest, false) {
                assert forall|i: int| 0 <= i < players.len() implies (#[trigger] players[i]).is_victory == Some(false) by {
                    if i > 0 {
                        assert(players[i] == rest[i - 1]);
                    }
                }
            }
            if all_with_result(players, false) {
                assert forall|i: int| 0 <= i < rest.len() implies (#[trigger] rest[i]).is_victory == Some(false) by {
                    assert(rest[i] == players[i + 1]);
                }
            }
        }
    }
}

/// The outcome of a match whose players' results are all known is a victory
/// when they all won, a defeat when they all lost, and a clash (a derby)
/// otherwise.
pub proof fn law_match_outcome(players: Seq<Player>)
    requires
        players.len() > 0,
        results_known(players),
    ensures
        outcome_from(None, players) == Some(Some(
            if all_with_result(players, true) {
                MatchOutcome::Victory
            } else if all_with_result(players, false) {
                MatchOutcome::Defeat
            } else {
                MatchOutcome::Clash
            },
        )),
{
    let rest = players.drop_first();
    assert forall|i: int| 0 <= i < rest.len() implies (#[trigger] rest[i]).is_victory is Some by {
        assert(rest[i] == players[i + 1]);
    }
    let v = players[0].is_victory.unwrap();
    lemma_outcome_from_known(next_outcome(None, v), rest);
    if v {
        if all_with_result(rest, true) {
            assert forall|i: int| 0 <= i < players.len() implies (#[trigger] players[i]).is_victory == Some(true) by {
                if i > 0 {
                    assert(players[i] == rest[i - 1]);
                }
            }
        } else {
            let k = choose|k: int| 0 <= k < rest.len() && rest[k].is_victory != Some(true);
            assert(players[k + 1] == rest[k]);
            assert(!all_with_result(players, true));
            assert(!all_with_result(players, false));
        }
    } else {
        if all_with_result(rest, false) {
            assert forall|i: int| 0 <= i < players.len() implies (#[trigger] players[i]).is_victory == Some(false) by {
                if i > 0 {
                    assert(players[i] == rest[i - 1]);
                }
            }
        } else {
            let k = choose|k: int| 0 <= k < rest.len() && rest[k].is_victory != Some(false);
            assert(players[k + 1] == rest[k]);
            assert(!all_with_result(players, true));
            assert(!all_with_result(players, false));
        }
    }
}

/// The texts about the players, in order, or the first error among them;
/// `clash` says whether each shows its own outcome.
pub open spec fn player_texts_of(players: Seq<Player>, ids: Seq<Option<TelegramUserId>>, clash: bool) -> Result<
    Seq<Seq<char>>,
    BroochError,
>
    decreases players.len(),
{
    if players.len() == 0 {
        Ok(Seq::empty())
    } else {
        match player_text(players[0], ids[0], clash) {
            Err(e) => Err(e),
            Ok(t) => prepend_texts(seq![t], player_texts_of(players.drop_first(), ids.drop_first(), clash)),
        }
    }
}

/// The texts `first`, then the texts of `rest`, or the error of `rest`.
pub open spec fn prepend_texts(first: Seq<Seq<char>>, rest: Result<Seq<Seq<char>>, BroochError>) -> Result<
    Seq<Seq<char>>,
    BroochError,
> {
    match rest {
        Err(e) => Err(e),
        Ok(ts) => Ok(first + ts),
    }
}

/// The notification of a prepared match: the outcome is that of its players;
/// each player's text shows its own outcome where the match was a clash.
pub open spec fn notification_of(pm: PreparedMatch, ids: Seq<Option<TelegramUserId>>, id: DotaMatchId) -> Result<
    Seq<char>,
    BroochError,
> {
    match outcome_from(None, pm.players@) {
        None => Err(BroochError::NoPlayerVictory),
        Some(o) => match player_texts_of(pm.players@, ids, o.unwrap() == MatchOutcome::Clash) {
            Err(e) => Err(e),
            Ok(ts) => Ok(join_lines(match_heading(pm, o.unwrap()) + spaced(ts) + seq![match_footer(id)])),
        },
    }
}

/// The outcome of players, once found, is an outcome.
proof fn lemma_outcome_from_some(outcome: Option<MatchOutcome>, players: Seq<Player>)
    requires
        outcome is Some || players.len() > 0,
    ensures
        outcome_from(outcome, players) matches Some(o) ==> o is Some,
    decreases players.len(),
{
    if players.len() > 0 {
        match players[0].is_victory {
            None => {},
            Some(v) => {
                if outcome != Some(MatchOutcome::Clash) {
                    lemma_outcome_from_some(Some(next_outcome(outcome, v)), players.drop_first());
                }
            },
        }
    }
}

/// The label shown for each rank by which players are ordered.
pub open spec fn rank_label(rank: u8) -> Seq<char> {
    if rank == 1 {
        "1️⃣ Safe Carry"@
    } else if rank == 2 {
        "2️⃣ Mid Carry"@
    } else if rank == 3 {
        "3️⃣ Off Tank"@
    } else if rank == 4 {
        "🔀 Roaming"@
    } else if rank == 5 {
        "⏫ Jungle"@
    } else if rank == 6 {
        "4️⃣ Soft Support"@
    } else if rank == 7 {
        "5️⃣ Hard Support"@
    } else {
        "🆕 Sconosciuto"@
    }
}

/// The label shown for a player's role and lane is the one of the rank by
/// which the players are ordered: the two always agree.
pub proof fn law_role_lane_label_matches_rank(role: Role, lane: Lane)
    ensures
        role_lane_label(role, lane) == rank_label(role_lane_rank(Some(role), Some(lane))),
{
}

/// Why a notification could not be written: an error of the match's details,
/// or the error of looking up a player's Telegram account.
#[derive(Debug, Clone, PartialEq, Eq)]
pub enum NotificationError<E> {
    Brooch(BroochError),
    /// A player's SteamIDs do not fit in an `i64`: the notification cannot
    /// be written, and the accounts of such a player cannot be looked up.
    SteamIdOverflow,
    Lookup(E),
}

/// The first missing detail among a player's Steam account, its name and its
/// identifier, which are read before the player's account is looked up.
pub open spec fn steam_lookup_error(p: Player) -> Option<BroochError> {
    match p.steam_account {
        None => Some(BroochError::NoSteamAccount),
        Some(steam) => match steam.name {
            None => Some(BroochError::NoSteamName),
            Some(_) => if steam.id is None {
                Some(BroochError::NoSteamId)
            } else {
                None
            },
        },
    }
}

/// The accounts that the lookups found; a failed lookup finds none.
pub open spec fn looked_up_ids<E>(lookups: Seq<Result<Option<TelegramUserId>, E>>) -> Seq<Option<TelegramUserId>> {
    lookups.map_values(|l: Result<Option<TelegramUserId>, E>| match l {
        Ok(id) => id,
        Err(_) => None,
    })
}

/// The first error, player by player, among the Steam details, the lookup
/// and the rest of the player's details, or `None` where there is none.
pub open spec fn first_failure<E>(
    players: Seq<Player>,
    lookups: Seq<Result<Option<TelegramUserId>, E>>,
    clash: bool,
) -> Option<NotificationError<E>>
    decreases players.len(),
{
    if players.len() == 0 {
        None
    } else {
        match steam_lookup_error(players[0]) {
            Some(e) => Some(NotificationError::Brooch(e)),
            None => if !steam_id_fits(players[0].steam_account.unwrap()) {
                Some(NotificationError::SteamIdOverflow)
            } else {
                match lookups[0] {
                Err(e) => Some(NotificationError::Lookup(e)),
                Ok(telegram_id) => match player_text(players[0], telegram_id, clash) {
                    Err(e) => Some(NotificationError::Brooch(e)),
                    Ok(_) => first_failure(players.drop_first(), lookups.drop_first(), clash),
                },
                }
            },
        }
    }
}

proof fn lemma_no_failure_renders<E>(
    players: Seq<Player>,
    lookups: Seq<Result<Option<TelegramUserId>, E>>,
    clash: bool,
)
    requires
        lookups.len() == players.len(),
        first_failure(players, lookups, clash) is None,
    ensures
        player_texts_of(players, looked_up_ids(lookups), clash) is Ok,
    decreases players.len(),
{
    if players.len() > 0 {
        let ids = looked_up_ids(lookups);
        assert(looked_up_ids(lookups.drop_first()) =~= ids.drop_first());
        lemma_no_failure_renders(players.drop_first(), lookups.drop_first(), clash);
    }
}

} // verus!
