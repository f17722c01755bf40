use crate::util::decode::{mismatch, Decode, DecodeKey};
use crate::util::error::Error;
use crate::util::generic_json::{Json, JsonView};
use crate::util::text::text_eq;
use vstd::prelude::*;
use vstd::string::*;

verus! {

/// A game of the network. Each has a name on the wire, a name for
/// display, a name in the database and a numeric id; `UNKNOWN` stands for
/// every game that this table does not list.
#[allow(non_camel_case_types)]
#[derive(Clone, Copy, Debug, PartialEq, Eq, Hash, Structural)]
pub enum GameType {
    QUAKECRAFT,
    WALLS,
    PAINTBALL,
    SURVIVAL_GAMES,
    TNTGAMES,
    VAMPIREZ,
    WALLS3,
    ARCADE,
    ARENA,
    MCGO,
    UHC,
    BATTLEGROUND,
    SUPER_SMASH,
    GINGERBREAD,
    HOUSING,
    SKYWARS,
    TRUE_COMBAT,
    SPEED_UHC,
    SKYCLASH,
    LEGACY,
    PROTOTYPE,
    BEDWARS,
    MURDER_MYSTERY,
    BUILD_BATTLE,
    DUELS,
    SKYBLOCK,
    PIT,
    REPLAY,
    SMP,
    WOOL_GAMES,
    UNKNOWN,
}

impl GameType {
    /// The name that stands for the game in a document.
    pub open spec fn wire_name(self) -> Seq<char> {
        match self {
            GameType::QUAKECRAFT => "QUAKECRAFT"@,
            GameType::WALLS => "WALLS"@,
            GameType::PAINTBALL => "PAINTBALL"@,
            GameType::SURVIVAL_GAMES => "SURVIVAL_GAMES"@,
            GameType::TNTGAMES => "TNTGAMES"@,
            GameType::VAMPIREZ => "VAMPIREZ"@,
            GameType::WALLS3 => "WALLS3"@,
            GameType::ARCADE => "ARCADE"@,
            GameType::ARENA => "ARENA"@,
            GameType::MCGO => "MCGO"@,
            GameType::UHC => "UHC"@,
            GameType::BATTLEGROUND => "BATTLEGROUND"@,
            GameType::SUPER_SMASH => "SUPER_SMASH"@,
            GameType::GINGERBREAD => "GINGERBREAD"@,
            GameType::HOUSING => "HOUSING"@,
            GameType::SKYWARS => "SKYWARS"@,
            GameType::TRUE_COMBAT => "TRUE_COMBAT"@,
            GameType::SPEED_UHC => "SPEED_UHC"@,
            GameType::SKYCLASH => "SKYCLASH"@,
            GameType::LEGACY => "LEGACY"@,
            GameType::PROTOTYPE => "PROTOTYPE"@,
            GameType::BEDWARS => "BEDWARS"@,
            GameType::MURDER_MYSTERY => "MURDER_MYSTERY"@,
            GameType::BUILD_BATTLE => "BUILD_BATTLE"@,
            GameType::DUELS => "DUELS"@,
            GameType::SKYBLOCK => "SKYBLOCK"@,
            GameType::PIT => "PIT"@,
            GameType::REPLAY => "REPLAY"@,
            GameType::SMP => "SMP"@,
            GameType::WOOL_GAMES => "WOOL_GAMES"@,
            GameType::UNKNOWN => "UNKNOWN"@,
        }
    }

    /// The name for display.
    pub open spec fn clean_name(self) -> Seq<char> {
        match self {
            GameType::QUAKECRAFT => "Quakecraft"@,
            GameType::WALLS => "Walls"@,
            GameType::PAINTBALL => "Paintball"@,
            GameType::SURVIVAL_GAMES => "Blitz Survival Games"@,
            GameType::TNTGAMES => "The TNT Games"@,
            GameType::VAMPIREZ => "VampireZ"@,
            GameType::WALLS3 => "Mega Walls"@,
            GameType::ARCADE => "Arcade"@,
            GameType::ARENA => "Arena Brawl"@,
            GameType::MCGO => "Cops and Crims"@,
            GameType::UHC => "UHC Champions"@,
            GameType::BATTLEGROUND => "Warlords"@,
            GameType::SUPER_SMASH => "Smash Heroes"@,
            GameType::GINGERBREAD => "Turbo Kart Racers"@,
            GameType::HOUSING => "Housing"@,
            GameType::SKYWARS => "SkyWars"@,
            GameType::TRUE_COMBAT => "Crazy Walls"@,
            GameType::SPEED_UHC => "Speed UHC"@,
            GameType::SKYCLASH => "SkyClash"@,
            GameType::LEGACY => "Classic Games"@,
            GameType::PROTOTYPE => "Prototype"@,
            GameType::BEDWARS => "Bed Wars"@,
            GameType::MURDER_MYSTERY => "Murder Mystery"@,
            GameType::BUILD_BATTLE => "Build Battle"@,
            GameType::DUELS => "Duels"@,
            GameType::SKYBLOCK => "SkyBlock"@,
            GameType::PIT => "Pit"@,
            GameType::REPLAY => "Replay"@,
            GameType::SMP => "SMP"@,
            GameType::WOOL_GAMES => "Wool Wars"@,
            GameType::UNKNOWN => "Unknown"@,
        }
    }

    /// The name in the database.
    pub open spec fn database_name(self) -> Seq<char> {
        match self {
            GameType::QUAKECRAFT => "Quake"@,
            GameType::WALLS => "Walls"@,
            GameType::PAINTBALL => "Paintball"@,
            GameType::SURVIVAL_GAMES => "HungerGames"@,
            GameType::TNTGAMES => "TNTGames"@,
            GameType::VAMPIREZ => "VampireZ"@,
            GameType::WALLS3 => "Walls3"@,
            GameType::ARCADE => "Arcade"@,
            GameType::ARENA => "Arena"@,
            GameType::MCGO => "MCGO"@,
            GameType::UHC => "UHC"@,
            GameType::BATTLEGROUND => "Battleground"@,
            GameType::SUPER_SMASH => "SuperSmash"@,
            GameType::GINGERBREAD => "GingerBread"@,
            GameType::HOUSING => "Housing"@,
            GameType::SKYWARS => "SkyWars"@,
            GameType::TRUE_COMBAT => "TrueCombat"@,
            GameType::SPEED_UHC => "SpeedUHC"@,
            GameType::SKYCLASH => "SkyClash"@,
            GameType::LEGACY => "Legacy"@,
            GameType::PROTOTYPE => "Prototype"@,
            GameType::BEDWARS => "Bedwars"@,
            GameType::MURDER_MYSTERY => "MurderMystery"@,
            GameType::BUILD_BATTLE => "BuildBattle"@,
            GameType::DUELS => "Duels"@,
            GameType::SKYBLOCK => "SkyBlock"@,
            GameType::PIT => "Pit"@,
            GameType::REPLAY => "Replay"@,
            GameType::SMP => "SMP"@,
            GameType::WOOL_GAMES => "WoolGames"@,
            GameType::UNKNOWN => "Unknown"@,
        }
    }

    /// The numeric id; -1 for `UNKNOWN`.
    pub open spec fn numeric_id(self) -> i64 {
        match self {
            GameType::QUAKECRAFT => 2,
            GameType::WALLS => 3,
            GameType::PAINTBALL => 4,
            GameType::SURVIVAL_GAMES => 5,
            GameType::TNTGAMES => 6,
            GameType::VAMPIREZ => 7,
            GameType::WALLS3 => 13,
            GameType::ARCADE => 14,
            GameType::ARENA => 17,
            GameType::MCGO => 21,
            GameType::UHC => 20,
            GameType::BATTLEGROUND => 23,
            GameType::SUPER_SMASH => 24,
            GameType::GINGERBREAD => 25,
            GameType::HOUSING => 26,
            GameType::SKYWARS => 51,
            GameType::TRUE_COMBAT => 52,
            GameType::SPEED_UHC => 54,
            GameType::SKYCLASH => 55,
            GameType::LEGACY => 56,
            GameType::PROTOTYPE => 57,
            GameType::BEDWARS => 58,
            GameType::MURDER_MYSTERY => 59,
            GameType::BUILD_BATTLE => 60,
            GameType::DUELS => 61,
            GameType::SKYBLOCK => 63,
            GameType::PIT => 64,
            GameType::REPLAY => 65,
            GameType::SMP => 67,
            GameType::WOOL_GAMES => 68,
            GameType::UNKNOWN => -1i64,
        }
    }

    /// The game with a numeric id; `UNKNOWN` where the table has none.
    pub open spec fn of_id(id: int) -> GameType {
        if id == 2 {
            GameType::QUAKECRAFT
        } else if id == 3 {
            GameType::WALLS
        } else if id == 4 {
            GameType::PAINTBALL
        } else if id == 5 {
            GameType::SURVIVAL_GAMES
        } else if id == 6 {
            GameType::TNTGAMES
        } else if id == 7 {
            GameType::VAMPIREZ
        } else if id == 13 {
            GameType::WALLS3
        } else if id == 14 {
            GameType::ARCADE
        } else if id == 17 {
            GameType::ARENA
        } else if id == 21 {
            GameType::MCGO
        } else if id == 20 {
            GameType::UHC
        } else if id == 23 {
            GameType::BATTLEGROUND
        } else if id == 24 {
            GameType::SUPER_SMASH
        } else if id == 25 {
            GameType::GINGERBREAD
        } else if id == 26 {
            GameType::HOUSING
        } else if id == 51 {
            GameType::SKYWARS
        } else if id == 52 {
            GameType::TRUE_COMBAT
        } else if id == 54 {
            GameType::SPEED_UHC
        } else if id == 55 {
            GameType::SKYCLASH
        } else if id == 56 {
            GameType::LEGACY
        } else if id == 57 {
            GameType::PROTOTYPE
        } else if id == 58 {
            GameType::BEDWARS
        } else if id == 59 {
            GameType::MURDER_MYSTERY
        } else if id == 60 {
            GameType::BUILD_BATTLE
        } else if id == 61 {
            GameType::DUELS
        } else if id == 63 {
            GameType::SKYBLOCK
        } else if id == 64 {
            GameType::PIT
        } else if id == 65 {
            GameType::REPLAY
        } else if id == 67 {
            GameType::SMP
        } else if id == 68 {
            GameType::WOOL_GAMES
        } else {
            GameType::UNKNOWN
        }
    }

    /// The game with a name on the wire; `UNKNOWN` where the table has none.
    pub open spec fn of_name(name: Seq<char>) -> GameType {
        if name == "QUAKECRAFT"@ {
            GameType::QUAKECRAFT
        } else if name == "WALLS"@ {
            GameType::WALLS
        } else if name == "PAINTBALL"@ {
            GameType::PAINTBALL
        } else if name == "SURVIVAL_GAMES"@ {
            GameType::SURVIVAL_GAMES
        } else if name == "TNTGAMES"@ {
            GameType::TNTGAMES
        } else if name == "VAMPIREZ"@ {
            GameType::VAMPIREZ
        } else if name == "WALLS3"@ {
            GameType::WALLS3
        } else if name == "ARCADE"@ {
            GameType::ARCADE
        } else if name == "ARENA"@ {
            GameType::ARENA
        } else if name == "MCGO"@ {
            GameType::MCGO
        } else if name == "UHC"@ {
            GameType::UHC
        } else if name == "BATTLEGROUND"@ {
            GameType::BATTLEGROUND
        } else if name == "SUPER_SMASH"@ {
            GameType::SUPER_SMASH
        } else if name == "GINGERBREAD"@ {
            GameType::GINGERBREAD
        } else if name == "HOUSING"@ {
            GameType::HOUSING
        } else if name == "SKYWARS"@ {
            GameType::SKYWARS
        } else if name == "TRUE_COMBAT"@ {
            GameType::TRUE_COMBAT
        } else if name == "SPEED_UHC"@ {
            GameType::SPEED_UHC
        } else if name == "SKYCLASH"@ {
            GameType::SKYCLASH
        } else if name == "LEGACY"@ {
            GameType::LEGACY
        } else if name == "PROTOTYPE"@ {
            GameType::PROTOTYPE
        } else if name == "BEDWARS"@ {
            GameType::BEDWARS
        } else if name == "MURDER_MYSTERY"@ {
            GameType::MURDER_MYSTERY
        } else if name == "BUILD_BATTLE"@ {
            GameType::BUILD_BATTLE
        } else if name == "DUELS"@ {
            GameType::DUELS
        } else if name == "SKYBLOCK"@ {
            GameType::SKYBLOCK
        } else if name == "PIT"@ {
            GameType::PIT
        } else if name == "REPLAY"@ {
            GameType::REPLAY
        } else if name == "SMP"@ {
            GameType::SMP
        } else if name == "WOOL_GAMES"@ {
            GameType::WOOL_GAMES
        } else {
            GameType::UNKNOWN
        }
    }

    pub fn wire_str(&self) -> (r: &'static str)
        ensures
            r@ == self.wire_name(),
    {
        match self {
            GameType::QUAKECRAFT => "QUAKECRAFT",
            GameType::WALLS => "WALLS",
            GameType::PAINTBALL => "PAINTBALL",
            GameType::SURVIVAL_GAMES => "SURVIVAL_GAMES",
            GameType::TNTGAMES => "TNTGAMES",
            GameType::VAMPIREZ => "VAMPIREZ",
            GameType::WALLS3 => "WALLS3",
            GameType::ARCADE => "ARCADE",
            GameType::ARENA => "ARENA",
            GameType::MCGO => "MCGO",
            GameType::UHC => "UHC",
            GameType::BATTLEGROUND => "BATTLEGROUND",
            GameType::SUPER_SMASH => "SUPER_SMASH",
            GameType::GINGERBREAD => "GINGERBREAD",
            GameType::HOUSING => "HOUSING",
            GameType::SKYWARS => "SKYWARS",
            GameType::TRUE_COMBAT => "TRUE_COMBAT",
            GameType::SPEED_UHC => "SPEED_UHC",
            GameType::SKYCLASH => "SKYCLASH",
            GameType::LEGACY => "LEGACY",
            GameType::PROTOTYPE => "PROTOTYPE",
            GameType::BEDWARS => "BEDWARS",
            GameType::MURDER_MYSTERY => "MURDER_MYSTERY",
            GameType::BUILD_BATTLE => "BUILD_BATTLE",
            GameType::DUELS => "DUELS",
            GameType::SKYBLOCK => "SKYBLOCK",
            GameType::PIT => "PIT",
            GameType::REPLAY => "REPLAY",
            GameType::SMP => "SMP",
            GameType::WOOL_GAMES => "WOOL_GAMES",
            GameType::UNKNOWN => "UNKNOWN",
        }
    }

    pub fn clean_str(&self) -> (r: &'static str)
        ensures
            r@ == self.clean_name(),
    {
        match self {
            GameType::QUAKECRAFT => "Quakecraft",
            GameType::WALLS => "Walls",
            GameType::PAINTBALL => "Paintball",
            GameType::SURVIVAL_GAMES => "Blitz Survival Games",
            GameType::TNTGAMES => "The TNT Games",
            GameType::VAMPIREZ => "VampireZ",
            GameType::WALLS3 => "Mega Walls",
            GameType::ARCADE => "Arcade",
            GameType::ARENA => "Arena Brawl",
            GameType::MCGO => "Cops and Crims",
            GameType::UHC => "UHC Champions",
            GameType::BATTLEGROUND => "Warlords",
            GameType::SUPER_SMASH => "Smash Heroes",
            GameType::GINGERBREAD => "Turbo Kart Racers",
            GameType::HOUSING => "Housing",
            GameType::SKYWARS => "SkyWars",
            GameType::TRUE_COMBAT => "Crazy Walls",
            GameType::SPEED_UHC => "Speed UHC",
            GameType::SKYCLASH => "SkyClash",
            GameType::LEGACY => "Classic Games",
            GameType::PROTOTYPE => "Prototype",
            GameType::BEDWARS => "Bed Wars",
            GameType::MURDER_MYSTERY => "Murder Mystery",
            GameType::BUILD_BATTLE => "Build Battle",
            GameType::DUELS => "Duels",
            GameType::SKYBLOCK => "SkyBlock",
            GameType::PIT => "Pit",
            GameType::REPLAY => "Replay",
            GameType::SMP => "SMP",
            GameType::WOOL_GAMES => "Wool Wars",
            GameType::UNKNOWN => "Unknown",
        }
    }

    pub fn database_str(&self) -> (r: &'static str)
        ensures
            r@ == self.database_name(),
    {
        match self {
            GameType::QUAKECRAFT => "Quake",
            GameType::WALLS => "Walls",
            GameType::PAINTBALL => "Paintball",
            GameType::SURVIVAL_GAMES => "HungerGames",
            GameType::TNTGAMES => "TNTGames",
            GameType::VAMPIREZ => "VampireZ",
            GameType::WALLS3 => "Walls3",
            GameType::ARCADE => "Arcade",
            GameType::ARENA => "Arena",
            GameType::MCGO => "MCGO",
            GameType::UHC => "UHC",
            GameType::BATTLEGROUND => "Battleground",
            GameType::SUPER_SMASH => "SuperSmash",
            GameType::GINGERBREAD => "GingerBread",
            GameType::HOUSING => "Housing",
            GameType::SKYWARS => "SkyWars",
            GameType::TRUE_COMBAT => "TrueCombat",
            GameType::SPEED_UHC => "SpeedUHC",
            GameType::SKYCLASH => "SkyClash",
            GameType::LEGACY => "Legacy",
            GameType::PROTOTYPE => "Prototype",
            GameType::BEDWARS => "Bedwars",
            GameType::MURDER_MYSTERY => "MurderMystery",
            GameType::BUILD_BATTLE => "BuildBattle",
            GameType::DUELS => "Duels",
            GameType::SKYBLOCK => "SkyBlock",
            GameType::PIT => "Pit",
            GameType::REPLAY => "Replay",
            GameType::SMP => "SMP",
            GameType::WOOL_GAMES => "WoolGames",
            GameType::UNKNOWN => "Unknown",
        }
    }

    pub fn name(&self) -> (r: String)
        ensures
            r@ == self.clean_name(),
    {
        String::from_str(self.clean_str())
    }

    pub fn db_name(&self) -> (r: String)
        ensures
            r@ == self.database_name(),
    {
        String::from_str(self.database_str())
    }

    pub fn id(&self) -> (r: i64)
        ensures
            r == self.numeric_id(),
    {
        match self {
            GameType::QUAKECRAFT => 2,
            GameType::WALLS => 3,
            GameType::PAINTBALL => 4,
            GameType::SURVIVAL_GAMES => 5,
            GameType::TNTGAMES => 6,
            GameType::VAMPIREZ => 7,
            GameType::WALLS3 => 13,
            GameType::ARCADE => 14,
            GameType::ARENA => 17,
            GameType::MCGO => 21,
            GameType::UHC => 20,
            GameType::BATTLEGROUND => 23,
            GameType::SUPER_SMASH => 24,
            GameType::GINGERBREAD => 25,
            GameType::HOUSING => 26,
            GameType::SKYWARS => 51,
            GameType::TRUE_COMBAT => 52,
            GameType::SPEED_UHC => 54,
            GameType::SKYCLASH => 55,
            GameType::LEGACY => 56,
            GameType::PROTOTYPE => 57,
            GameType::BEDWARS => 58,
            GameType::MURDER_MYSTERY => 59,
            GameType::BUILD_BATTLE => 60,
            GameType::DUELS => 61,
            GameType::SKYBLOCK => 63,
            GameType::PIT => 64,
            GameType::REPLAY => 65,
            GameType::SMP => 67,
            GameType::WOOL_GAMES => 68,
            GameType::UNKNOWN => -1,
        }
    }

    /// The game with a numeric id; `UNKNOWN` where the table has none.
    pub fn from_id(id: u64) -> (r: GameType)
        ensures
            r == GameType::of_id(id as int),
    {
        if id == 2 {
            GameType::QUAKECRAFT
        } else if id == 3 {
            GameType::WALLS
        } else if id == 4 {
            GameType::PAINTBALL
        } else if id == 5 {
            GameType::SURVIVAL_GAMES
        } else if id == 6 {
            GameType::TNTGAMES
        } else if id == 7 {
            GameType::VAMPIREZ
        } else if id == 13 {
            GameType::WALLS3
        } else if id == 14 {
            GameType::ARCADE
        } else if id == 17 {
            GameType::ARENA
        } else if id == 21 {
            GameType::MCGO
        } else if id == 20 {
            GameType::UHC
        } else if id == 23 {
            GameType::BATTLEGROUND
        } else if id == 24 {
            GameType::SUPER_SMASH
        } else if id == 25 {
            GameType::GINGERBREAD
        } else if id == 26 {
            GameType::HOUSING
        } else if id == 51 {
            GameType::SKYWARS
        } else if id == 52 {
            GameType::TRUE_COMBAT
        } else if id == 54 {
            GameType::SPEED_UHC
        } else if id == 55 {
            GameType::SKYCLASH
        } else if id == 56 {
            GameType::LEGACY
        } else if id == 57 {
            GameType::PROTOTYPE
        } else if id == 58 {
            GameType::BEDWARS
        } else if id == 59 {
            GameType::MURDER_MYSTERY
        } else if id == 60 {
            GameType::BUILD_BATTLE
        } else if id == 61 {
            GameType::DUELS
        } else if id == 63 {
            GameType::SKYBLOCK
        } else if id == 64 {
            GameType::PIT
        } else if id == 65 {
            GameType::REPLAY
        } else if id == 67 {
            GameType::SMP
        } else if id == 68 {
            GameType::WOOL_GAMES
        } else {
            GameType::UNKNOWN
        }
    }

    /// The game with a name on the wire; `UNKNOWN` where the table has none.
    pub fn from_name(name: &str) -> (r: GameType)
        ensures
            r == GameType::of_name(name@),
    {
        if text_eq(name, "QUAKECRAFT") {
            GameType::QUAKECRAFT
        } else if text_eq(name, "WALLS") {
            GameType::WALLS
        } else if text_eq(name, "PAINTBALL") {
            GameType::PAINTBALL
        } else if text_eq(name, "SURVIVAL_GAMES") {
            GameType::SURVIVAL_GAMES
        } else if text_eq(name, "TNTGAMES") {
            GameType::TNTGAMES
        } else if text_eq(name, "VAMPIREZ") {
            GameType::VAMPIREZ
        } else if text_eq(name, "WALLS3") {
            GameType::WALLS3
        } else if text_eq(name, "ARCADE") {
            GameType::ARCADE
        } else if text_eq(name, "ARENA") {
            GameType::ARENA
        } else if text_eq(name, "MCGO") {
            GameType::MCGO
        } else if text_eq(name, "UHC") {
            GameType::UHC
        } else if text_eq(name, "BATTLEGROUND") {
            GameType::BATTLEGROUND
        } else if text_eq(name, "SUPER_SMASH") {
            GameType::SUPER_SMASH
        } else if text_eq(name, "GINGERBREAD") {
            GameType::GINGERBREAD
        } else if text_eq(name, "HOUSING") {
            GameType::HOUSING
        } else if text_eq(name, "SKYWARS") {
            GameType::SKYWARS
        } else if text_eq(name, "TRUE_COMBAT") {
            GameType::TRUE_COMBAT
        } else if text_eq(name, "SPEED_UHC") {
            GameType::SPEED_UHC
        } else if text_eq(name, "SKYCLASH") {
            GameType::SKYCLASH
        } else if text_eq(name, "LEGACY") {
            GameType::LEGACY
        } else if text_eq(name, "PROTOTYPE") {
            GameType::PROTOTYPE
        } else if text_eq(name, "BEDWARS") {
            GameType::BEDWARS
        } else if text_eq(name, "MURDER_MYSTERY") {
            GameType::MURDER_MYSTERY
        } else if text_eq(name, "BUILD_BATTLE") {
            GameType::BUILD_BATTLE
        } else if text_eq(name, "DUELS") {
            GameType::DUELS
        } else if text_eq(name, "SKYBLOCK") {
            GameType::SKYBLOCK
        } else if text_eq(name, "PIT") {
            GameType::PIT
        } else if text_eq(name, "REPLAY") {
            GameType::REPLAY
        } else if text_eq(name, "SMP") {
            GameType::SMP
        } else if text_eq(name, "WOOL_GAMES") {
            GameType::WOOL_GAMES
        } else {
            GameType::UNKNOWN
        }
    }
}

impl DeepView for GameType {
    type V = GameType;

    open spec fn deep_view(&self) -> GameType {
        *self
    }
}

impl GameType {
    /// The game as it stands in a document: its name on the wire.
    pub fn serialize(&self) -> (r: Json)
        ensures
            r@ == JsonView::Str(self.wire_name()),
    {
        Json::Str(String::from_str(self.wire_str()))
    }
}

impl Decode for GameType {
    /// A string is taken as a name on the wire, an integer as a numeric
    /// id; what the table does not list is `UNKNOWN`. Nothing else fits.
    open spec fn decoded(json: JsonView) -> Result<GameType, Seq<char>> {
        match json {
            JsonView::Str(name) => Ok(GameType::of_name(name)),
            JsonView::Int(id) => Ok(GameType::of_id(id as int)),
            _ => Err(Seq::empty()),
        }
    }

    fn decode(json: &Json) -> (r: Result<GameType, Error>) {
        match json {
            Json::Str(name) => Ok(GameType::from_name(name.as_str())),
            Json::Int(id) => Ok(
                if 0 <= *id && *id <= u64::MAX as i128 {
                    GameType::from_id(*id as u64)
                } else {
                    GameType::UNKNOWN
                },
            ),
            _ => mismatch(),
        }
    }
}

impl DecodeKey for GameType {
    /// Every name fits: one that the table does not list is `UNKNOWN`.
    open spec fn key_decoded(name: Seq<char>) -> Option<GameType> {
        Some(GameType::of_name(name))
    }

    fn decode_key(name: &str) -> (r: Option<GameType>) {
        Some(GameType::from_name(name))
    }
}

impl From<u64> for GameType {
    fn from(v: u64) -> (r: GameType) {
        GameType::from_id(v)
    }
}

impl vstd::std_specs::convert::FromSpecImpl<u64> for GameType {
    open spec fn obeys_from_spec() -> bool {
        true
    }

    open spec fn from_spec(v: u64) -> GameType {
        GameType::of_id(v as int)
    }
}

impl From<String> for GameType {
    fn from(v: String) -> (r: GameType) {
        GameType::from_name(v.as_str())
    }
}

impl vstd::std_specs::convert::FromSpecImpl<String> for GameType {
    open spec fn obeys_from_spec() -> bool {
        true
    }

    open spec fn from_spec(v: String) -> GameType {
        GameType::of_name(v@)
    }
}

/// Every listed game is found again by its numeric id.
pub proof fn lemma_id_round_trip(game: GameType)
    requires
        game != GameType::UNKNOWN,
    ensures
        GameType::of_id(game.numeric_id() as int) == game,
{
}

/// A game written to a document and read back is the same game.
pub proof fn lemma_serialize_round_trip(game: GameType)
    ensures
        GameType::decoded(JsonView::Str(game.wire_name())) == Ok::<GameType, Seq<char>>(game),
{
    lemma_name_round_trip(game);
}

/// A number or a name that the table does not list decodes to `UNKNOWN`,
/// and never to an error.
pub proof fn lemma_unlisted_is_unknown(json: JsonView)
    requires
        json is Int || json is Str,
    ensures
        GameType::decoded(json) is Ok,
        json is Int && (forall|game: GameType| game.numeric_id() != json->Int_0)
            ==> GameType::decoded(json) == Ok::<GameType, Seq<char>>(GameType::UNKNOWN),
        json is Str && (forall|game: GameType| game.wire_name() != json->Str_0)
            ==> GameType::decoded(json) == Ok::<GameType, Seq<char>>(GameType::UNKNOWN),
{
    if json is Int {
        let found = GameType::of_id(json->Int_0 as int);
        if found != GameType::UNKNOWN {
            assert(found.numeric_id() == json->Int_0);
        }
    }
    if json is Str {
        let found = GameType::of_name(json->Str_0);
        if found != GameType::UNKNOWN {
            assert(found.wire_name() == json->Str_0);
        }
    }
}

/// No two games share a name on the wire.
pub proof fn lemma_wire_names_differ(a: GameType, b: GameType)
    requires
        a.wire_name() == b.wire_name(),
    ensures
        a == b,
{
    reveal_strlit("QUAKECRAFT");
    reveal_strlit("WALLS");
    reveal_strlit("PAINTBALL");
    reveal_strlit("SURVIVAL_GAMES");
    reveal_strlit("TNTGAMES");
    reveal_strlit("VAMPIREZ");
    reveal_strlit("WALLS3");
    reveal_strlit("ARCADE");
    reveal_strlit("ARENA");
    reveal_strlit("MCGO");
    reveal_strlit("UHC");
    reveal_strlit("BATTLEGROUND");
    reveal_strlit("SUPER_SMASH");
    reveal_strlit("GINGERBREAD");
    reveal_strlit("HOUSING");
    reveal_strlit("SKYWARS");
    reveal_strlit("TRUE_COMBAT");
    reveal_strlit("SPEED_UHC");
    reveal_strlit("SKYCLASH");
    reveal_strlit("LEGACY");
    reveal_strlit("PROTOTYPE");
    reveal_strlit("BEDWARS");
    reveal_strlit("MURDER_MYSTERY");
    reveal_strlit("BUILD_BATTLE");
    reveal_strlit("DUELS");
    reveal_strlit("SKYBLOCK");
    reveal_strlit("PIT");
    reveal_strlit("REPLAY");
    reveal_strlit("SMP");
    reveal_strlit("WOOL_GAMES");
    reveal_strlit("UNKNOWN");
    assert("QUAKECRAFT"@.len() == 10);
    assert("WALLS"@.len() == 5);
    assert("PAINTBALL"@.len() == 9);
    assert("SURVIVAL_GAMES"@.len() == 14);
    assert("TNTGAMES"@.len() == 8);
    assert("VAMPIREZ"@.len() == 8);
    assert("WALLS3"@.len() == 6);
    assert("ARCADE"@.len() == 6);
    assert("ARENA"@.len() == 5);
    assert("MCGO"@.len() == 4);
    assert("UHC"@.len() == 3);
    assert("BATTLEGROUND"@.len() == 12);
    assert("SUPER_SMASH"@.len() == 11);
    assert("GINGERBREAD"@.len() == 11);
    assert("HOUSING"@.len() == 7);
    assert("SKYWARS"@.len() == 7);
    assert("TRUE_COMBAT"@.len() == 11);
    assert("SPEED_UHC"@.len() == 9);
    assert("SKYCLASH"@.len() == 8);
    assert("LEGACY"@.len() == 6);
    assert("PROTOTYPE"@.len() == 9);
    assert("BEDWARS"@.len() == 7);
    assert("MURDER_MYSTERY"@.len() == 14);
    assert("BUILD_BATTLE"@.len() == 12);
    assert("DUELS"@.len() == 5);
    assert("SKYBLOCK"@.len() == 8);
    assert("PIT"@.len() == 3);
    assert("REPLAY"@.len() == 6);
    assert("SMP"@.len() == 3);
    assert("WOOL_GAMES"@.len() == 10);
    assert("UNKNOWN"@.len() == 7);
    assert("QUAKECRAFT"@[0] == 'Q');
    assert("WOOL_GAMES"@[0] == 'W');
    assert("WALLS"@[0] == 'W');
    assert("ARENA"@[0] == 'A');
    assert("DUELS"@[0] == 'D');
    assert("PAINTBALL"@[0] == 'P');
    assert("SPEED_UHC"@[0] == 'S');
    assert("PAINTBALL"@[1] == 'A');
    assert("PROTOTYPE"@[1] == 'R');
    assert("SURVIVAL_GAMES"@[0] == 'S');
    assert("MURDER_MYSTERY"@[0] == 'M');
    assert("TNTGAMES"@[0] == 'T');
    assert("VAMPIREZ"@[0] == 'V');
    assert("SKYCLASH"@[0] == 'S');
    assert("SKYBLOCK"@[0] == 'S');
    assert("WALLS3"@[0] == 'W');
    assert("ARCADE"@[0] == 'A');
    assert("LEGACY"@[0] == 'L');
    assert("REPLAY"@[0] == 'R');
    assert("UHC"@[0] == 'U');
    assert("PIT"@[0] == 'P');
    assert("SMP"@[0] == 'S');
    assert("BATTLEGROUND"@[1] == 'A');
    assert("BUILD_BATTLE"@[1] == 'U');
    assert("SUPER_SMASH"@[0] == 'S');
    assert("GINGERBREAD"@[0] == 'G');
    assert("TRUE_COMBAT"@[0] == 'T');
    assert("HOUSING"@[0] == 'H');
    assert("SKYWARS"@[0] == 'S');
    assert("BEDWARS"@[0] == 'B');
    assert("UNKNOWN"@[0] == 'U');
    assert("PROTOTYPE"@[0] == 'P');
    assert("SKYCLASH"@[3] == 'C');
    assert("SKYBLOCK"@[3] == 'B');
}

/// Every game is found again by its name on the wire.
pub proof fn lemma_name_round_trip(game: GameType)
    ensures
        GameType::of_name(game.wire_name()) == game,
{
    let found = GameType::of_name(game.wire_name());
    if found != GameType::UNKNOWN {
        assert(found.wire_name() == game.wire_name());
        lemma_wire_names_differ(found, game);
    } else if game != GameType::UNKNOWN {
        assert(false);
    }
}

} // verus!
