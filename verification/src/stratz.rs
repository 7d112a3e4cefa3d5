//! The data that the STRATZ GraphQL API returns about the matches of a guild.
use vstd::prelude::*;
use vstd::std_specs::convert::FromSpecImpl;
use vstd::string::StringExecFns;
use crate::text::same_text;

verus! {

/// The identifier of a Dota 2 guild.
#[derive(Debug, Clone, Copy, PartialEq, Eq, Structural)]
pub struct GuildId(pub i64);

impl From<i64> for GuildId {
    fn from(value: i64) -> (r: Self) {
        GuildId(value)
    }
}

impl FromSpecImpl<i64> for GuildId {
    open spec fn obeys_from_spec() -> bool {
        true
    }

    open spec fn from_spec(v: i64) -> Self {
        GuildId(v)
    }
}

/// The query for the latest matches of a guild.
#[derive(Debug, Clone, Copy, PartialEq, Eq, Structural)]
pub struct GuildMatchesQuery;

/// How a query to the STRATZ API can fail.
#[derive(Debug, Clone, Copy, PartialEq, Eq, Structural)]
pub enum QueryError {
    Requesting,
    Parsing,
}

impl QueryError {
    /// The message that describes the error.
    pub fn message(&self) -> (r: &'static str)
        ensures
            r@ == (match self {
                QueryError::Requesting => "GraphQL request failed"@,
                QueryError::Parsing => "GraphQL response parsing failed"@,
            }),
    {
        match self {
            QueryError::Requesting => "GraphQL request failed",
            QueryError::Parsing => "GraphQL response parsing failed",
        }
    }
}

/// The kind of lobby in which a match was played.
#[allow(non_camel_case_types)]
#[derive(Debug, PartialEq, Eq)]
pub enum LobbyType {
    UNRANKED,
    PRACTICE,
    TOURNAMENT,
    TUTORIAL,
    COOP_VS_BOTS,
    TEAM_MATCH,
    SOLO_QUEUE,
    RANKED,
    SOLO_MID,
    BATTLE_CUP,
    EVENT,
    DIRE_TIDE,
    Other(String),
}

/// The game mode of a match.
#[allow(non_camel_case_types)]
#[derive(Debug, PartialEq, Eq)]
pub enum GameMode {
    NONE,
    ALL_PICK,
    CAPTAINS_MODE,
    RANDOM_DRAFT,
    SINGLE_DRAFT,
    ALL_RANDOM,
    INTRO,
    THE_DIRETIDE,
    REVERSE_CAPTAINS_MODE,
    THE_GREEVILING,
    TUTORIAL,
    MID_ONLY,
    LEAST_PLAYED,
    NEW_PLAYER_POOL,
    COMPENDIUM_MATCHMAKING,
    CUSTOM,
    CAPTAINS_DRAFT,
    BALANCED_DRAFT,
    ABILITY_DRAFT,
    EVENT,
    ALL_RANDOM_DEATH_MATCH,
    SOLO_MID,
    ALL_PICK_RANKED,
    TURBO,
    MUTATION,
    UNKNOWN,
    Other(String),
}

/// The role that a player took in a match.
#[allow(non_camel_case_types)]
#[derive(Debug, PartialEq, Eq)]
pub enum Role {
    CORE,
    LIGHT_SUPPORT,
    HARD_SUPPORT,
    UNKNOWN,
    Other(String),
}

/// The lane that a player took in a match.
#[allow(non_camel_case_types)]
#[derive(Debug, PartialEq, Eq)]
pub enum Lane {
    UNKNOWN,
    SAFE_LANE,
    MID_LANE,
    OFF_LANE,
    JUNGLE,
    ROAMING,
    Other(String),
}

/// The hero that a player played.
#[derive(Debug, PartialEq, Eq)]
pub struct Hero {
    pub display_name: Option<String>,
}

/// The Steam account of a player.
#[derive(Debug, PartialEq, Eq)]
pub struct Steam {
    pub id: Option<i64>,
    pub name: Option<String>,
}

/// A player of a match.
#[derive(Debug, PartialEq, Eq)]
pub struct Player {
    pub is_radiant: Option<bool>,
    pub is_victory: Option<bool>,
    pub imp: Option<i16>,
    pub kills: Option<u8>,
    pub deaths: Option<u8>,
    pub assists: Option<u8>,
    pub role: Option<Role>,
    pub lane: Option<Lane>,
    pub steam_account: Option<Steam>,
    pub hero: Option<Hero>,
}

/// A match played by members of a guild.
#[derive(Debug, Clone, PartialEq, Eq)]
pub struct Match {
    pub id: Option<i64>,
    pub end_date_time: Option<i64>,
    pub lobby_type: Option<LobbyType>,
    pub game_mode: Option<GameMode>,
    pub duration_seconds: Option<i64>,
    pub players: Option<Vec<Option<Player>>>,
}

/// A guild and its latest matches.
#[derive(Debug, Clone, PartialEq, Eq)]
pub struct Guild {
    pub id: Option<i64>,
    pub matches: Option<Vec<Option<Match>>>,
}

/// The data of an answer to the guild matches query.
#[derive(Debug, Clone, PartialEq, Eq)]
pub struct ResponseData {
    pub guild: Option<Guild>,
}

/// An answer to the guild matches query.
#[derive(Debug, Clone, PartialEq, Eq)]
pub struct QueryResponse {
    pub data: Option<ResponseData>,
}


impl Clone for LobbyType {
    fn clone(&self) -> (r: Self)
        ensures
            r == *self,
    {
        match self {
            LobbyType::UNRANKED => LobbyType::UNRANKED,
            LobbyType::PRACTICE => LobbyType::PRACTICE,
            LobbyType::TOURNAMENT => LobbyType::TOURNAMENT,
            LobbyType::TUTORIAL => LobbyType::TUTORIAL,
            LobbyType::COOP_VS_BOTS => LobbyType::COOP_VS_BOTS,
            LobbyType::TEAM_MATCH => LobbyType::TEAM_MATCH,
            LobbyType::SOLO_QUEUE => LobbyType::SOLO_QUEUE,
            LobbyType::RANKED => LobbyType::RANKED,
            LobbyType::SOLO_MID => LobbyType::SOLO_MID,
            LobbyType::BATTLE_CUP => LobbyType::BATTLE_CUP,
            LobbyType::EVENT => LobbyType::EVENT,
            LobbyType::DIRE_TIDE => LobbyType::DIRE_TIDE,
            LobbyType::Other(t) => LobbyType::Other(t.clone()),
        }
    }
}

impl Clone for GameMode {
    fn clone(&self) -> (r: Self)
        ensures
            r == *self,
    {
        match self {
            GameMode::NONE => GameMode::NONE,
            GameMode::ALL_PICK => GameMode::ALL_PICK,
            GameMode::CAPTAINS_MODE => GameMode::CAPTAINS_MODE,
            GameMode::RANDOM_DRAFT => GameMode::RANDOM_DRAFT,
            GameMode::SINGLE_DRAFT => GameMode::SINGLE_DRAFT,
            GameMode::ALL_RANDOM => GameMode::ALL_RANDOM,
            GameMode::INTRO => GameMode::INTRO,
            GameMode::THE_DIRETIDE => GameMode::THE_DIRETIDE,
            GameMode::REVERSE_CAPTAINS_MODE => GameMode::REVERSE_CAPTAINS_MODE,
            GameMode::THE_GREEVILING => GameMode::THE_GREEVILING,
            GameMode::TUTORIAL => GameMode::TUTORIAL,
            GameMode::MID_ONLY => GameMode::MID_ONLY,
            GameMode::LEAST_PLAYED => GameMode::LEAST_PLAYED,
            GameMode::NEW_PLAYER_POOL => GameMode::NEW_PLAYER_POOL,
            GameMode::COMPENDIUM_MATCHMAKING => GameMode::COMPENDIUM_MATCHMAKING,
            GameMode::CUSTOM => GameMode::CUSTOM,
            GameMode::CAPTAINS_DRAFT => GameMode::CAPTAINS_DRAFT,
            GameMode::BALANCED_DRAFT => GameMode::BALANCED_DRAFT,
            GameMode::ABILITY_DRAFT => GameMode::ABILITY_DRAFT,
            GameMode::EVENT => GameMode::EVENT,
            GameMode::ALL_RANDOM_DEATH_MATCH => GameMode::ALL_RANDOM_DEATH_MATCH,
            GameMode::SOLO_MID => GameMode::SOLO_MID,
            GameMode::ALL_PICK_RANKED => GameMode::ALL_PICK_RANKED,
            GameMode::TURBO => GameMode::TURBO,
            GameMode::MUTATION => GameMode::MUTATION,
            GameMode::UNKNOWN => GameMode::UNKNOWN,
            GameMode::Other(t) => GameMode::Other(t.clone()),
        }
    }
}

impl Clone for Role {
    fn clone(&self) -> (r: Self)
        ensures
            r == *self,
    {
        match self {
            Role::CORE => Role::CORE,
            Role::LIGHT_SUPPORT => Role::LIGHT_SUPPORT,
            Role::HARD_SUPPORT => Role::HARD_SUPPORT,
            Role::UNKNOWN => Role::UNKNOWN,
            Role::Other(t) => Role::Other(t.clone()),
        }
    }
}

impl Clone for Lane {
    fn clone(&self) -> (r: Self)
        ensures
            r == *self,
    {
        match self {
            Lane::UNKNOWN => Lane::UNKNOWN,
            Lane::SAFE_LANE => Lane::SAFE_LANE,
            Lane::MID_LANE => Lane::MID_LANE,
            Lane::OFF_LANE => Lane::OFF_LANE,
            Lane::JUNGLE => Lane::JUNGLE,
            Lane::ROAMING => Lane::ROAMING,
            Lane::Other(t) => Lane::Other(t.clone()),
        }
    }
}

impl Clone for Player {
    fn clone(&self) -> (r: Self)
        ensures
            r == *self,
    {
        Player {
            is_radiant: self.is_radiant,
            is_victory: self.is_victory,
            imp: self.imp,
            kills: self.kills,
            deaths: self.deaths,
            assists: self.assists,
            role: match &self.role {
                Some(role) => Some(role.clone()),
                None => None,
            },
            lane: match &self.lane {
                Some(lane) => Some(lane.clone()),
                None => None,
            },
            steam_account: match &self.steam_account {
                Some(steam) => Some(steam.clone()),
                None => None,
            },
            hero: match &self.hero {
                Some(hero) => Some(hero.clone()),
                None => None,
            },
        }
    }
}

impl Clone for Hero {
    fn clone(&self) -> (r: Self)
        ensures
            r == *self,
    {
        Hero {
            display_name: match &self.display_name {
                Some(n) => Some(n.clone()),
                None => None,
            },
        }
    }
}

impl Clone for Steam {
    fn clone(&self) -> (r: Self)
        ensures
            r == *self,
    {
        Steam {
            id: self.id,
            name: match &self.name {
                Some(n) => Some(n.clone()),
                None => None,
            },
        }
    }
}

/// The name of a lobbytype as the STRATZ API writes it.
pub open spec fn lobby_type_name(t: LobbyType) -> Seq<char> {
    match t {
        LobbyType::UNRANKED => "UNRANKED"@,
        LobbyType::PRACTICE => "PRACTICE"@,
        LobbyType::TOURNAMENT => "TOURNAMENT"@,
        LobbyType::TUTORIAL => "TUTORIAL"@,
        LobbyType::COOP_VS_BOTS => "COOP_VS_BOTS"@,
        LobbyType::TEAM_MATCH => "TEAM_MATCH"@,
        LobbyType::SOLO_QUEUE => "SOLO_QUEUE"@,
        LobbyType::RANKED => "RANKED"@,
        LobbyType::SOLO_MID => "SOLO_MID"@,
        LobbyType::BATTLE_CUP => "BATTLE_CUP"@,
        LobbyType::EVENT => "EVENT"@,
        LobbyType::DIRE_TIDE => "DIRE_TIDE"@,
        LobbyType::Other(s) => s@,
    }
}

/// The name is one of the values that the library knows.
pub open spec fn lobby_type_name_known(s: Seq<char>) -> bool {
    s == "UNRANKED"@
    || s == "PRACTICE"@
    || s == "TOURNAMENT"@
    || s == "TUTORIAL"@
    || s == "COOP_VS_BOTS"@
    || s == "TEAM_MATCH"@
    || s == "SOLO_QUEUE"@
    || s == "RANKED"@
    || s == "SOLO_MID"@
    || s == "BATTLE_CUP"@
    || s == "EVENT"@
    || s == "DIRE_TIDE"@
}

impl LobbyType {
    /// The value that the STRATZ API names `name`; a name that the library
    /// does not know is kept as it is.
    pub fn from_name(name: &str) -> (r: Self)
        ensures
            lobby_type_name(r) == name@,
            r is Other <==> !lobby_type_name_known(name@),
    {
        proof {
            reveal_strlit("UNRANKED");
            reveal_strlit("PRACTICE");
            reveal_strlit("TOURNAMENT");
            reveal_strlit("TUTORIAL");
            reveal_strlit("COOP_VS_BOTS");
            reveal_strlit("TEAM_MATCH");
            reveal_strlit("SOLO_QUEUE");
            reveal_strlit("RANKED");
            reveal_strlit("SOLO_MID");
            reveal_strlit("BATTLE_CUP");
            reveal_strlit("EVENT");
            reveal_strlit("DIRE_TIDE");
        }
        if same_text(name, "UNRANKED") {
            LobbyType::UNRANKED
        } else if same_text(name, "PRACTICE") {
            LobbyType::PRACTICE
        } else if same_text(name, "TOURNAMENT") {
            LobbyType::TOURNAMENT
        } else if same_text(name, "TUTORIAL") {
            LobbyType::TUTORIAL
        } else if same_text(name, "COOP_VS_BOTS") {
            LobbyType::COOP_VS_BOTS
        } else if same_text(name, "TEAM_MATCH") {
            LobbyType::TEAM_MATCH
        } else if same_text(name, "SOLO_QUEUE") {
            LobbyType::SOLO_QUEUE
        } else if same_text(name, "RANKED") {
            LobbyType::RANKED
        } else if same_text(name, "SOLO_MID") {
            LobbyType::SOLO_MID
        } else if same_text(name, "BATTLE_CUP") {
            LobbyType::BATTLE_CUP
        } else if same_text(name, "EVENT") {
            LobbyType::EVENT
        } else if same_text(name, "DIRE_TIDE") {
            LobbyType::DIRE_TIDE
        } else {
            LobbyType::Other(String::from_str(name))
        }
    }
}

/// The name of a game mode as the STRATZ API writes it.
pub open spec fn game_mode_name(t: GameMode) -> Seq<char> {
    match t {
        GameMode::NONE => "NONE"@,
        GameMode::ALL_PICK => "ALL_PICK"@,
        GameMode::CAPTAINS_MODE => "CAPTAINS_MODE"@,
        GameMode::RANDOM_DRAFT => "RANDOM_DRAFT"@,
        GameMode::SINGLE_DRAFT => "SINGLE_DRAFT"@,
        GameMode::ALL_RANDOM => "ALL_RANDOM"@,
        GameMode::INTRO => "INTRO"@,
        GameMode::THE_DIRETIDE => "THE_DIRETIDE"@,
        GameMode::REVERSE_CAPTAINS_MODE => "REVERSE_CAPTAINS_MODE"@,
        GameMode::THE_GREEVILING => "THE_GREEVILING"@,
        GameMode::TUTORIAL => "TUTORIAL"@,
        GameMode::MID_ONLY => "MID_ONLY"@,
        GameMode::LEAST_PLAYED => "LEAST_PLAYED"@,
        GameMode::NEW_PLAYER_POOL => "NEW_PLAYER_POOL"@,
        GameMode::COMPENDIUM_MATCHMAKING => "COMPENDIUM_MATCHMAKING"@,
        GameMode::CUSTOM => "CUSTOM"@,
        GameMode::CAPTAINS_DRAFT => "CAPTAINS_DRAFT"@,
        GameMode::BALANCED_DRAFT => "BALANCED_DRAFT"@,
        GameMode::ABILITY_DRAFT => "ABILITY_DRAFT"@,
        GameMode::EVENT => "EVENT"@,
        GameMode::ALL_RANDOM_DEATH_MATCH => "ALL_RANDOM_DEATH_MATCH"@,
        GameMode::SOLO_MID => "SOLO_MID"@,
        GameMode::ALL_PICK_RANKED => "ALL_PICK_RANKED"@,
        GameMode::TURBO => "TURBO"@,
        GameMode::MUTATION => "MUTATION"@,
        GameMode::UNKNOWN => "UNKNOWN"@,
        GameMode::Other(s) => s@,
    }
}

/// The name is one of the values that the library knows.
pub open spec fn game_mode_name_known(s: Seq<char>) -> bool {
    s == "NONE"@
    || s == "ALL_PICK"@
    || s == "CAPTAINS_MODE"@
    || s == "RANDOM_DRAFT"@
    || s == "SINGLE_DRAFT"@
    || s == "ALL_RANDOM"@
    || s == "INTRO"@
    || s == "THE_DIRETIDE"@
    || s == "REVERSE_CAPTAINS_MODE"@
    || s == "THE_GREEVILING"@
    || s == "TUTORIAL"@
    || s == "MID_ONLY"@
    || s == "LEAST_PLAYED"@
    || s == "NEW_PLAYER_POOL"@
    || s == "COMPENDIUM_MATCHMAKING"@
    || s == "CUSTOM"@
    || s == "CAPTAINS_DRAFT"@
    || s == "BALANCED_DRAFT"@
    || s == "ABILITY_DRAFT"@
    || s == "EVENT"@
    || s == "ALL_RANDOM_DEATH_MATCH"@
    || s == "SOLO_MID"@
    || s == "ALL_PICK_RANKED"@
    || s == "TURBO"@
    || s == "MUTATION"@
    || s == "UNKNOWN"@
}

impl GameMode {
    /// The value that the STRATZ API names `name`; a name that the library
    /// does not know is kept as it is.
    pub fn from_name(name: &str) -> (r: Self)
        ensures
            game_mode_name(r) == name@,
            r is Other <==> !game_mode_name_known(name@),
    {
        proof {
            reveal_strlit("NONE");
            reveal_strlit("ALL_PICK");
            reveal_strlit("CAPTAINS_MODE");
            reveal_strlit("RANDOM_DRAFT");
            reveal_strlit("SINGLE_DRAFT");
            reveal_strlit("ALL_RANDOM");
            reveal_strlit("INTRO");
            reveal_strlit("THE_DIRETIDE");
            reveal_strlit("REVERSE_CAPTAINS_MODE");
            reveal_strlit("THE_GREEVILING");
            reveal_strlit("TUTORIAL");
            reveal_strlit("MID_ONLY");
            reveal_strlit("LEAST_PLAYED");
            reveal_strlit("NEW_PLAYER_POOL");
            reveal_strlit("COMPENDIUM_MATCHMAKING");
            reveal_strlit("CUSTOM");
            reveal_strlit("CAPTAINS_DRAFT");
            reveal_strlit("BALANCED_DRAFT");
            reveal_strlit("ABILITY_DRAFT");
            reveal_strlit("EVENT");
            reveal_strlit("ALL_RANDOM_DEATH_MATCH");
            reveal_strlit("SOLO_MID");
            reveal_strlit("ALL_PICK_RANKED");
            reveal_strlit("TURBO");
            reveal_strlit("MUTATION");
            reveal_strlit("UNKNOWN");
        }
        if same_text(name, "NONE") {
            GameMode::NONE
        } else if same_text(name, "ALL_PICK") {
            GameMode::ALL_PICK
        } else if same_text(name, "CAPTAINS_MODE") {
            GameMode::CAPTAINS_MODE
        } else if same_text(name, "RANDOM_DRAFT") {
            GameMode::RANDOM_DRAFT
        } else if same_text(name, "SINGLE_DRAFT") {
            GameMode::SINGLE_DRAFT
        } else if same_text(name, "ALL_RANDOM") {
            GameMode::ALL_RANDOM
        } else if same_text(name, "INTRO") {
            GameMode::INTRO
        } else if same_text(name, "THE_DIRETIDE") {
            GameMode::THE_DIRETIDE
        } else if same_text(name, "REVERSE_CAPTAINS_MODE") {
            GameMode::REVERSE_CAPTAINS_MODE
        } else if same_text(name, "THE_GREEVILING") {
            GameMode::THE_GREEVILING
        } else if same_text(name, "TUTORIAL") {
            GameMode::TUTORIAL
        } else if same_text(name, "MID_ONLY") {
            GameMode::MID_ONLY
        } else if same_text(name, "LEAST_PLAYED") {
            GameMode::LEAST_PLAYED
        } else if same_text(name, "NEW_PLAYER_POOL") {
            GameMode::NEW_PLAYER_POOL
        } else if same_text(name, "COMPENDIUM_MATCHMAKING") {
            GameMode::COMPENDIUM_MATCHMAKING
        } else if same_text(name, "CUSTOM") {
            GameMode::CUSTOM
        } else if same_text(name, "CAPTAINS_DRAFT") {
            GameMode::CAPTAINS_DRAFT
        } else if same_text(name, "BALANCED_DRAFT") {
            GameMode::BALANCED_DRAFT
        } else if same_text(name, "ABILITY_DRAFT") {
            GameMode::ABILITY_DRAFT
        } else if same_text(name, "EVENT") {
            GameMode::EVENT
        } else if same_text(name, "ALL_RANDOM_DEATH_MATCH") {
            GameMode::ALL_RANDOM_DEATH_MATCH
        } else if same_text(name, "SOLO_MID") {
            GameMode::SOLO_MID
        } else if same_text(name, "ALL_PICK_RANKED") {
            GameMode::ALL_PICK_RANKED
        } else if same_text(name, "TURBO") {
            GameMode::TURBO
        } else if same_text(name, "MUTATION") {
            GameMode::MUTATION
        } else if same_text(name, "UNKNOWN") {
            GameMode::UNKNOWN
        } else {
            GameMode::Other(String::from_str(name))
        }
    }
}

/// The name of a role as the STRATZ API writes it.
pub open spec fn role_name(t: Role) -> Seq<char> {
    match t {
        Role::CORE => "CORE"@,
        Role::LIGHT_SUPPORT => "LIGHT_SUPPORT"@,
        Role::HARD_SUPPORT => "HARD_SUPPORT"@,
        Role::UNKNOWN => "UNKNOWN"@,
        Role::Other(s) => s@,
    }
}

/// The name is one of the values that the library knows.
pub open spec fn role_name_known(s: Seq<char>) -> bool {
    s == "CORE"@
    || s == "LIGHT_SUPPORT"@
    || s == "HARD_SUPPORT"@
    || s == "UNKNOWN"@
}

impl Role {
    /// The value that the STRATZ API names `name`; a name that the library
    /// does not know is kept as it is.
    pub fn from_name(name: &str) -> (r: Self)
        ensures
            role_name(r) == name@,
            r is Other <==> !role_name_known(name@),
    {
        proof {
            reveal_strlit("CORE");
            reveal_strlit("LIGHT_SUPPORT");
            reveal_strlit("HARD_SUPPORT");
            reveal_strlit("UNKNOWN");
        }
        if same_text(name, "CORE") {
            Role::CORE
        } else if same_text(name, "LIGHT_SUPPORT") {
            Role::LIGHT_SUPPORT
        } else if same_text(name, "HARD_SUPPORT") {
            Role::HARD_SUPPORT
        } else if same_text(name, "UNKNOWN") {
            Role::UNKNOWN
        } else {
            Role::Other(String::from_str(name))
        }
    }
}

/// The name of a lane as the STRATZ API writes it.
pub open spec fn lane_name(t: Lane) -> Seq<char> {
    match t {
        Lane::UNKNOWN => "UNKNOWN"@,
        Lane::SAFE_LANE => "SAFE_LANE"@,
        Lane::MID_LANE => "MID_LANE"@,
        Lane::OFF_LANE => "OFF_LANE"@,
        Lane::JUNGLE => "JUNGLE"@,
        Lane::ROAMING => "ROAMING"@,
        Lane::Other(s) => s@,
    }
}

/// The name is one of the values that the library knows.
pub open spec fn lane_name_known(s: Seq<char>) -> bool {
    s == "UNKNOWN"@
    || s == "SAFE_LANE"@
    || s == "MID_LANE"@
    || s == "OFF_LANE"@
    || s == "JUNGLE"@
    || s == "ROAMING"@
}

impl Lane {
    /// The value that the STRATZ API names `name`; a name that the library
    /// does not know is kept as it is.
    pub fn from_name(name: &str) -> (r: Self)
        ensures
            lane_name(r) == name@,
            r is Other <==> !lane_name_known(name@),
    {
        proof {
            reveal_strlit("UNKNOWN");
            reveal_strlit("SAFE_LANE");
            reveal_strlit("MID_LANE");
            reveal_strlit("OFF_LANE");
            reveal_strlit("JUNGLE");
            reveal_strlit("ROAMING");
        }
        if same_text(name, "UNKNOWN") {
            Lane::UNKNOWN
        } else if same_text(name, "SAFE_LANE") {
            Lane::SAFE_LANE
        } else if same_text(name, "MID_LANE") {
            Lane::MID_LANE
        } else if same_text(name, "OFF_LANE") {
            Lane::OFF_LANE
        } else if same_text(name, "JUNGLE") {
            Lane::JUNGLE
        } else if same_text(name, "ROAMING") {
            Lane::ROAMING
        } else {
            Lane::Other(String::from_str(name))
        }
    }
}
} // verus!
