use crate::util::text::has_prefix;
use vstd::prelude::*;
use vstd::string::*;

verus! {

/// One endpoint of the API: its path below the API's origin, and whether a
/// request to it must carry the key.
#[allow(non_camel_case_types)]
#[derive(Clone, Copy, Debug, PartialEq, Eq, Hash, Structural)]
pub enum HypixelEndpoint {
    KEY,
    BOOSTERS,
    LEADERBOARDS,
    PUNISHMENT_STATS,
    PLAYER,
    GUILD,
    COUNTS,
    STATUS,
    RECENT_GAMES,
    SKYBLOCK_PROFILES,
    SKYBLOCK_PROFILE,
    SKYBLOCK_BINGO,
    SKYBLOCK_NEWS,
    SKYBLOCK_AUCTION,
    SKYBLOCK_AUCTIONS,
    SKYBLOCK_AUCTIONS_ENDED,
    SKYBLOCK_BAZAAR,
    SKYBLOCK_FIRESALES,
    RESOURCES_GAMES,
    RESOURCES_ACHIEVEMENTS,
    RESOURCES_CHALLENGES,
    RESOURCES_QUESTS,
    RESOURCES_GUILD_ACHIEVEMENTS,
    RESOURCES_VANITY_PETS,
    RESOURCES_VANITY_COMPANIONS,
    RESOURCES_SKYBLOCK_COLLECTIONS,
    RESOURCES_SKYBLOCK_SKILLS,
    RESOURCES_SKYBLOCK_ITEMS,
    RESOURCES_SKYBLOCK_ELECTION,
    RESOURCES_SKYBLOCK_BINGO,
}

impl HypixelEndpoint {
    pub open spec fn path(self) -> Seq<char> {
        match self {
            HypixelEndpoint::KEY => "key"@,
            HypixelEndpoint::BOOSTERS => "boosters"@,
            HypixelEndpoint::LEADERBOARDS => "leaderboards"@,
            HypixelEndpoint::PUNISHMENT_STATS => "punishmentstats"@,
            HypixelEndpoint::PLAYER => "player"@,
            HypixelEndpoint::GUILD => "guild"@,
            HypixelEndpoint::COUNTS => "counts"@,
            HypixelEndpoint::STATUS => "status"@,
            HypixelEndpoint::RECENT_GAMES => "recentGames"@,
            HypixelEndpoint::SKYBLOCK_PROFILES => "skyblock/profiles"@,
            HypixelEndpoint::SKYBLOCK_PROFILE => "skyblock/profile"@,
            HypixelEndpoint::SKYBLOCK_BINGO => "skyblock/bingo"@,
            HypixelEndpoint::SKYBLOCK_NEWS => "skyblock/news"@,
            HypixelEndpoint::SKYBLOCK_AUCTION => "skyblock/auction"@,
            HypixelEndpoint::SKYBLOCK_AUCTIONS => "skyblock/auctions"@,
            HypixelEndpoint::SKYBLOCK_AUCTIONS_ENDED => "skyblock/auctions_ended"@,
            HypixelEndpoint::SKYBLOCK_BAZAAR => "skyblock/bazaar"@,
            HypixelEndpoint::SKYBLOCK_FIRESALES => "skyblock/firesales"@,
            HypixelEndpoint::RESOURCES_GAMES => "resources/games"@,
            HypixelEndpoint::RESOURCES_ACHIEVEMENTS => "resources/achievements"@,
            HypixelEndpoint::RESOURCES_CHALLENGES => "resources/challenges"@,
            HypixelEndpoint::RESOURCES_QUESTS => "resources/quests"@,
            HypixelEndpoint::RESOURCES_GUILD_ACHIEVEMENTS => "resources/guild/achievements"@,
            HypixelEndpoint::RESOURCES_VANITY_PETS => "resources/vanity/pets"@,
            HypixelEndpoint::RESOURCES_VANITY_COMPANIONS => "resources/vanity/companions"@,
            HypixelEndpoint::RESOURCES_SKYBLOCK_COLLECTIONS => "resources/skyblock/collections"@,
            HypixelEndpoint::RESOURCES_SKYBLOCK_SKILLS => "resources/skyblock/skills"@,
            HypixelEndpoint::RESOURCES_SKYBLOCK_ITEMS => "resources/skyblock/items"@,
            HypixelEndpoint::RESOURCES_SKYBLOCK_ELECTION => "resources/skyblock/election"@,
            HypixelEndpoint::RESOURCES_SKYBLOCK_BINGO => "resources/skyblock/bingo"@,
        }
    }

    /// Whether a request to this endpoint carries the API key.
    pub open spec fn requires_auth(self) -> bool {
        match self {
            HypixelEndpoint::KEY
            | HypixelEndpoint::BOOSTERS
            | HypixelEndpoint::LEADERBOARDS
            | HypixelEndpoint::PUNISHMENT_STATS
            | HypixelEndpoint::PLAYER
            | HypixelEndpoint::GUILD
            | HypixelEndpoint::COUNTS
            | HypixelEndpoint::STATUS
            | HypixelEndpoint::RECENT_GAMES
            | HypixelEndpoint::SKYBLOCK_PROFILES
            | HypixelEndpoint::SKYBLOCK_PROFILE
            | HypixelEndpoint::SKYBLOCK_BINGO
            | HypixelEndpoint::SKYBLOCK_NEWS
            | HypixelEndpoint::SKYBLOCK_AUCTION => true,
            _ => false,
        }
    }

    /// Whether this is one of the endpoints for the game's static resources,
    /// which are those whose path begins with `resources/`.
    pub open spec fn is_resource_endpoint(self) -> bool {
        match self {
            HypixelEndpoint::RESOURCES_GAMES
            | HypixelEndpoint::RESOURCES_ACHIEVEMENTS
            | HypixelEndpoint::RESOURCES_CHALLENGES
            | HypixelEndpoint::RESOURCES_QUESTS
            | HypixelEndpoint::RESOURCES_GUILD_ACHIEVEMENTS
            | HypixelEndpoint::RESOURCES_VANITY_PETS
            | HypixelEndpoint::RESOURCES_VANITY_COMPANIONS
            | HypixelEndpoint::RESOURCES_SKYBLOCK_COLLECTIONS
            | HypixelEndpoint::RESOURCES_SKYBLOCK_SKILLS
            | HypixelEndpoint::RESOURCES_SKYBLOCK_ITEMS
            | HypixelEndpoint::RESOURCES_SKYBLOCK_ELECTION
            | HypixelEndpoint::RESOURCES_SKYBLOCK_BINGO => true,
            _ => false,
        }
    }

    /// An endpoint is known by its path: no two endpoints share one.
    pub proof fn lemma_path_identifies(self, other: HypixelEndpoint)
        requires
            self.path() == other.path(),
        ensures
            self == other,
    {
        reveal_strlit("key");
        reveal_strlit("boosters");
        reveal_strlit("leaderboards");
        reveal_strlit("punishmentstats");
        reveal_strlit("player");
        reveal_strlit("guild");
        reveal_strlit("counts");
        reveal_strlit("status");
        reveal_strlit("recentGames");
        reveal_strlit("skyblock/profiles");
        reveal_strlit("skyblock/profile");
        reveal_strlit("skyblock/bingo");
        reveal_strlit("skyblock/news");
        reveal_strlit("skyblock/auction");
        reveal_strlit("skyblock/auctions");
        reveal_strlit("skyblock/auctions_ended");
        reveal_strlit("skyblock/bazaar");
        reveal_strlit("skyblock/firesales");
        reveal_strlit("resources/games");
        reveal_strlit("resources/achievements");
        reveal_strlit("resources/challenges");
        reveal_strlit("resources/quests");
        reveal_strlit("resources/guild/achievements");
        reveal_strlit("resources/vanity/pets");
        reveal_strlit("resources/vanity/companions");
        reveal_strlit("resources/skyblock/collections");
        reveal_strlit("resources/skyblock/skills");
        reveal_strlit("resources/skyblock/items");
        reveal_strlit("resources/skyblock/election");
        reveal_strlit("resources/skyblock/bingo");
        assert("key"@.len() == 3);
        assert("boosters"@.len() == 8);
        assert("leaderboards"@.len() == 12);
        assert("punishmentstats"@.len() == 15);
        assert("player"@.len() == 6);
        assert("guild"@.len() == 5);
        assert("counts"@.len() == 6);
        assert("status"@.len() == 6);
        assert("recentGames"@.len() == 11);
        assert("skyblock/profiles"@.len() == 17);
        assert("skyblock/profile"@.len() == 16);
        assert("skyblock/bingo"@.len() == 14);
        assert("skyblock/news"@.len() == 13);
        assert("skyblock/auction"@.len() == 16);
        assert("skyblock/auctions"@.len() == 17);
        assert("skyblock/auctions_ended"@.len() == 23);
        assert("skyblock/bazaar"@.len() == 15);
        assert("skyblock/firesales"@.len() == 18);
        assert("resources/games"@.len() == 15);
        assert("resources/achievements"@.len() == 22);
        assert("resources/challenges"@.len() == 20);
        assert("resources/quests"@.len() == 16);
        assert("resources/guild/achievements"@.len() == 28);
        assert("resources/vanity/pets"@.len() == 21);
        assert("resources/vanity/companions"@.len() == 27);
        assert("resources/skyblock/collections"@.len() == 30);
        assert("resources/skyblock/skills"@.len() == 25);
        assert("resources/skyblock/items"@.len() == 24);
        assert("resources/skyblock/election"@.len() == 27);
        assert("resources/skyblock/bingo"@.len() == 24);
        assert("punishmentstats"@[0] == 'p');
        assert("skyblock/bazaar"@[0] == 's');
        assert("resources/games"@[0] == 'r');
        assert("player"@[0] == 'p');
        assert("counts"@[0] == 'c');
        assert("status"@[0] == 's');
        assert("skyblock/profiles"@[9] == 'p');
        assert("skyblock/auctions"@[9] == 'a');
        assert("skyblock/profile"@[9] == 'p');
        assert("skyblock/auction"@[9] == 'a');
        assert("skyblock/profile"@[0] == 's');
        assert("resources/quests"@[0] == 'r');
        assert("skyblock/auction"@[0] == 's');
        assert("resources/vanity/companions"@[10] == 'v');
        assert("resources/skyblock/election"@[10] == 's');
        assert("resources/skyblock/items"@[19] == 'i');
        assert("resources/skyblock/bingo"@[19] == 'b');
    }

    /// An endpoint is a resource exactly if its path begins with `resources/`.
    pub proof fn lemma_resource_paths(self)
        ensures
            self.is_resource_endpoint() == has_prefix(self.path(), "resources/"@),
    {
        reveal_strlit("resources/");
        assert("resources/"@[0] == 'r');
        assert("resources/"@[1] == 'e');
        assert("resources/"@[2] == 's');
        assert("resources/"@[3] == 'o');
        assert("resources/"@[4] == 'u');
        assert("resources/"@[5] == 'r');
        assert("resources/"@[6] == 'c');
        assert("resources/"@[7] == 'e');
        assert("resources/"@[8] == 's');
        assert("resources/"@[9] == '/');
        assert("resources/"@.len() == 10);
        match self {
            HypixelEndpoint::KEY => {
                reveal_strlit("key");
                assert("key"@.len() == 3);
            },
            HypixelEndpoint::BOOSTERS => {
                reveal_strlit("boosters");
                assert("boosters"@.len() == 8);
            },
            HypixelEndpoint::LEADERBOARDS => {
                reveal_strlit("leaderboards");
                assert("leaderboards"@[0] == 'l');
                assert("leaderboards"@.take(10)[0] == 'l');
            },
            HypixelEndpoint::PUNISHMENT_STATS => {
                reveal_strlit("punishmentstats");
                assert("punishmentstats"@[0] == 'p');
                assert("punishmentstats"@.take(10)[0] == 'p');
            },
            HypixelEndpoint::PLAYER => {
                reveal_strlit("player");
                assert("player"@.len() == 6);
            },
            HypixelEndpoint::GUILD => {
                reveal_strlit("guild");
                assert("guild"@.len() == 5);
            },
            HypixelEndpoint::COUNTS => {
                reveal_strlit("counts");
                assert("counts"@.len() == 6);
            },
            HypixelEndpoint::STATUS => {
                reveal_strlit("status");
                assert("status"@.len() == 6);
            },
            HypixelEndpoint::RECENT_GAMES => {
                reveal_strlit("recentGames");
                assert("recentGames"@[2] == 'c');
                assert("recentGames"@.take(10)[2] == 'c');
            },
            HypixelEndpoint::SKYBLOCK_PROFILES => {
                reveal_strlit("skyblock/profiles");
                assert("skyblock/profiles"@[0] == 's');
                assert("skyblock/profiles"@.take(10)[0] == 's');
            },
            HypixelEndpoint::SKYBLOCK_PROFILE => {
                reveal_strlit("skyblock/profile");
                assert("skyblock/profile"@[0] == 's');
                assert("skyblock/profile"@.take(10)[0] == 's');
            },
            HypixelEndpoint::SKYBLOCK_BINGO => {
                reveal_strlit("skyblock/bingo");
                assert("skyblock/bingo"@[0] == 's');
                assert("skyblock/bingo"@.take(10)[0] == 's');
            },
            HypixelEndpoint::SKYBLOCK_NEWS => {
                reveal_strlit("skyblock/news");
                assert("skyblock/news"@[0] == 's');
                assert("skyblock/news"@.take(10)[0] == 's');
            },
            HypixelEndpoint::SKYBLOCK_AUCTION => {
                reveal_strlit("skyblock/auction");
                assert("skyblock/auction"@[0] == 's');
                assert("skyblock/auction"@.take(10)[0] == 's');
            },
            HypixelEndpoint::SKYBLOCK_AUCTIONS => {
                reveal_strlit("skyblock/auctions");
                assert("skyblock/auctions"@[0] == 's');
                assert("skyblock/auctions"@.take(10)[0] == 's');
            },
            HypixelEndpoint::SKYBLOCK_AUCTIONS_ENDED => {
                reveal_strlit("skyblock/auctions_ended");
                assert("skyblock/auctions_ended"@[0] == 's');
                assert("skyblock/auctions_ended"@.take(10)[0] == 's');
            },
            HypixelEndpoint::SKYBLOCK_BAZAAR => {
                reveal_strlit("skyblock/bazaar");
                assert("skyblock/bazaar"@[0] == 's');
                assert("skyblock/bazaar"@.take(10)[0] == 's');
            },
            HypixelEndpoint::SKYBLOCK_FIRESALES => {
                reveal_strlit("skyblock/firesales");
                assert("skyblock/firesales"@[0] == 's');
                assert("skyblock/firesales"@.take(10)[0] == 's');
            },
            HypixelEndpoint::RESOURCES_GAMES => {
                reveal_strlit("resources/games");
                assert("resources/games"@[0] == 'r');
                assert("resources/games"@[1] == 'e');
                assert("resources/games"@[2] == 's');
                assert("resources/games"@[3] == 'o');
                assert("resources/games"@[4] == 'u');
                assert("resources/games"@[5] == 'r');
                assert("resources/games"@[6] == 'c');
                assert("resources/games"@[7] == 'e');
                assert("resources/games"@[8] == 's');
                assert("resources/games"@[9] == '/');
                assert("resources/games"@.take(10) =~= "resources/"@);
            },
            HypixelEndpoint::RESOURCES_ACHIEVEMENTS => {
                reveal_strlit("resources/achievements");
                assert("resources/achievements"@[0] == 'r');
                assert("resources/achievements"@[1] == 'e');
                assert("resources/achievements"@[2] == 's');
                assert("resources/achievements"@[3] == 'o');
                assert("resources/achievements"@[4] == 'u');
                assert("resources/achievements"@[5] == 'r');
                assert("resources/achievements"@[6] == 'c');
                assert("resources/achievements"@[7] == 'e');
                assert("resources/achievements"@[8] == 's');
                assert("resources/achievements"@[9] == '/');
                assert("resources/achievements"@.take(10) =~= "resources/"@);
            },
            HypixelEndpoint::RESOURCES_CHALLENGES => {
                reveal_strlit("resources/challenges");
                assert("resources/challenges"@[0] == 'r');
                assert("resources/challenges"@[1] == 'e');
                assert("resources/challenges"@[2] == 's');
                assert("resources/challenges"@[3] == 'o');
                assert("resources/challenges"@[4] == 'u');
                assert("resources/challenges"@[5] == 'r');
                assert("resources/challenges"@[6] == 'c');
                assert("resources/challenges"@[7] == 'e');
                assert("resources/challenges"@[8] == 's');
                assert("resources/challenges"@[9] == '/');
                assert("resources/challenges"@.take(10) =~= "resources/"@);
            },
            HypixelEndpoint::RESOURCES_QUESTS => {
                reveal_strlit("resources/quests");
                assert("resources/quests"@[0] == 'r');
                assert("resources/quests"@[1] == 'e');
                assert("resources/quests"@[2] == 's');
                assert("resources/quests"@[3] == 'o');
                assert("resources/quests"@[4] == 'u');
                assert("resources/quests"@[5] == 'r');
                assert("resources/quests"@[6] == 'c');
                assert("resources/quests"@[7] == 'e');
                assert("resources/quests"@[8] == 's');
                assert("resources/quests"@[9] == '/');
                assert("resources/quests"@.take(10) =~= "resources/"@);
            },
            HypixelEndpoint::RESOURCES_GUILD_ACHIEVEMENTS => {
                reveal_strlit("resources/guild/achievements");
                assert("resources/guild/achievements"@[0] == 'r');
                assert("resources/guild/achievements"@[1] == 'e');
                assert("resources/guild/achievements"@[2] == 's');
                assert("resources/guild/achievements"@[3] == 'o');
                assert("resources/guild/achievements"@[4] == 'u');
                assert("resources/guild/achievements"@[5] == 'r');
                assert("resources/guild/achievements"@[6] == 'c');
                assert("resources/guild/achievements"@[7] == 'e');
                assert("resources/guild/achievements"@[8] == 's');
                assert("resources/guild/achievements"@[9] == '/');
                assert("resources/guild/achievements"@.take(10) =~= "resources/"@);
            },
            HypixelEndpoint::RESOURCES_VANITY_PETS => {
                reveal_strlit("resources/vanity/pets");
                assert("resources/vanity/pets"@[0] == 'r');
                assert("resources/vanity/pets"@[1] == 'e');
                assert("resources/vanity/pets"@[2] == 's');
                assert("resources/vanity/pets"@[3] == 'o');
                assert("resources/vanity/pets"@[4] == 'u');
                assert("resources/vanity/pets"@[5] == 'r');
                assert("resources/vanity/pets"@[6] == 'c');
                assert("resources/vanity/pets"@[7] == 'e');
                assert("resources/vanity/pets"@[8] == 's');
                assert("resources/vanity/pets"@[9] == '/');
                assert("resources/vanity/pets"@.take(10) =~= "resources/"@);
            },
            HypixelEndpoint::RESOURCES_VANITY_COMPANIONS => {
                reveal_strlit("resources/vanity/companions");
                assert("resources/vanity/companions"@[0] == 'r');
                assert("resources/vanity/companions"@[1] == 'e');
                assert("resources/vanity/companions"@[2] == 's');
                assert("resources/vanity/companions"@[3] == 'o');
                assert("resources/vanity/companions"@[4] == 'u');
                assert("resources/vanity/companions"@[5] == 'r');
                assert("resources/vanity/companions"@[6] == 'c');
                assert("resources/vanity/companions"@[7] == 'e');
                assert("resources/vanity/companions"@[8] == 's');
                assert("resources/vanity/companions"@[9] == '/');
                assert("resources/vanity/companions"@.take(10) =~= "resources/"@);
            },
            HypixelEndpoint::RESOURCES_SKYBLOCK_COLLECTIONS => {
                reveal_strlit("resources/skyblock/collections");
                assert("resources/skyblock/collections"@[0] == 'r');
                assert("resources/skyblock/collections"@[1] == 'e');
                assert("resources/skyblock/collections"@[2] == 's');
                assert("resources/skyblock/collections"@[3] == 'o');
                assert("resources/skyblock/collections"@[4] == 'u');
                assert("resources/skyblock/collections"@[5] == 'r');
                assert("resources/skyblock/collections"@[6] == 'c');
                assert("resources/skyblock/collections"@[7] == 'e');
                assert("resources/skyblock/collections"@[8] == 's');
                assert("resources/skyblock/collections"@[9] == '/');
                assert("resources/skyblock/collections"@.take(10) =~= "resources/"@);
            },
            HypixelEndpoint::RESOURCES_SKYBLOCK_SKILLS => {
                reveal_strlit("resources/skyblock/skills");
                assert("resources/skyblock/skills"@[0] == 'r');
                assert("resources/skyblock/skills"@[1] == 'e');
                assert("resources/skyblock/skills"@[2] == 's');
                assert("resources/skyblock/skills"@[3] == 'o');
                assert("resources/skyblock/skills"@[4] == 'u');
                assert("resources/skyblock/skills"@[5] == 'r');
                assert("resources/skyblock/skills"@[6] == 'c');
                assert("resources/skyblock/skills"@[7] == 'e');
                assert("resources/skyblock/skills"@[8] == 's');
                assert("resources/skyblock/skills"@[9] == '/');
                assert("resources/skyblock/skills"@.take(10) =~= "resources/"@);
            },
            HypixelEndpoint::RESOURCES_SKYBLOCK_ITEMS => {
                reveal_strlit("resources/skyblock/items");
                assert("resources/skyblock/items"@[0] == 'r');
                assert("resources/skyblock/items"@[1] == 'e');
                assert("resources/skyblock/items"@[2] == 's');
                assert("resources/skyblock/items"@[3] == 'o');
                assert("resources/skyblock/items"@[4] == 'u');
                assert("resources/skyblock/items"@[5] == 'r');
                assert("resources/skyblock/items"@[6] == 'c');
                assert("resources/skyblock/items"@[7] == 'e');
                assert("resources/skyblock/items"@[8] == 's');
                assert("resources/skyblock/items"@[9] == '/');
                assert("resources/skyblock/items"@.take(10) =~= "resources/"@);
            },
            HypixelEndpoint::RESOURCES_SKYBLOCK_ELECTION => {
                reveal_strlit("resources/skyblock/election");
                assert("resources/skyblock/election"@[0] == 'r');
                assert("resources/skyblock/election"@[1] == 'e');
                assert("resources/skyblock/election"@[2] == 's');
                assert("resources/skyblock/election"@[3] == 'o');
                assert("resources/skyblock/election"@[4] == 'u');
                assert("resources/skyblock/election"@[5] == 'r');
                assert("resources/skyblock/election"@[6] == 'c');
                assert("resources/skyblock/election"@[7] == 'e');
                assert("resources/skyblock/election"@[8] == 's');
                assert("resources/skyblock/election"@[9] == '/');
                assert("resources/skyblock/election"@.take(10) =~= "resources/"@);
            },
            HypixelEndpoint::RESOURCES_SKYBLOCK_BINGO => {
                reveal_strlit("resources/skyblock/bingo");
                assert("resources/skyblock/bingo"@[0] == 'r');
                assert("resources/skyblock/bingo"@[1] == 'e');
                assert("resources/skyblock/bingo"@[2] == 's');
                assert("resources/skyblock/bingo"@[3] == 'o');
                assert("resources/skyblock/bingo"@[4] == 'u');
                assert("resources/skyblock/bingo"@[5] == 'r');
                assert("resources/skyblock/bingo"@[6] == 'c');
                assert("resources/skyblock/bingo"@[7] == 'e');
                assert("resources/skyblock/bingo"@[8] == 's');
                assert("resources/skyblock/bingo"@[9] == '/');
                assert("resources/skyblock/bingo"@.take(10) =~= "resources/"@);
            },
        }
    }

    pub fn get_path(&self) -> (r: String)
        ensures
            r@ == self.path(),
    {
        String::from_str(self.path_str())
    }

    pub fn path_str(&self) -> (r: &'static str)
        ensures
            r@ == self.path(),
    {
        match self {
            HypixelEndpoint::KEY => "key",
            HypixelEndpoint::BOOSTERS => "boosters",
            HypixelEndpoint::LEADERBOARDS => "leaderboards",
            HypixelEndpoint::PUNISHMENT_STATS => "punishmentstats",
            HypixelEndpoint::PLAYER => "player",
            HypixelEndpoint::GUILD => "guild",
            HypixelEndpoint::COUNTS => "counts",
            HypixelEndpoint::STATUS => "status",
            HypixelEndpoint::RECENT_GAMES => "recentGames",
            HypixelEndpoint::SKYBLOCK_PROFILES => "skyblock/profiles",
            HypixelEndpoint::SKYBLOCK_PROFILE => "skyblock/profile",
            HypixelEndpoint::SKYBLOCK_BINGO => "skyblock/bingo",
            HypixelEndpoint::SKYBLOCK_NEWS => "skyblock/news",
            HypixelEndpoint::SKYBLOCK_AUCTION => "skyblock/auction",
            HypixelEndpoint::SKYBLOCK_AUCTIONS => "skyblock/auctions",
            HypixelEndpoint::SKYBLOCK_AUCTIONS_ENDED => "skyblock/auctions_ended",
            HypixelEndpoint::SKYBLOCK_BAZAAR => "skyblock/bazaar",
            HypixelEndpoint::SKYBLOCK_FIRESALES => "skyblock/firesales",
            HypixelEndpoint::RESOURCES_GAMES => "resources/games",
            HypixelEndpoint::RESOURCES_ACHIEVEMENTS => "resources/achievements",
            HypixelEndpoint::RESOURCES_CHALLENGES => "resources/challenges",
            HypixelEndpoint::RESOURCES_QUESTS => "resources/quests",
            HypixelEndpoint::RESOURCES_GUILD_ACHIEVEMENTS => "resources/guild/achievements",
            HypixelEndpoint::RESOURCES_VANITY_PETS => "resources/vanity/pets",
            HypixelEndpoint::RESOURCES_VANITY_COMPANIONS => "resources/vanity/companions",
            HypixelEndpoint::RESOURCES_SKYBLOCK_COLLECTIONS => "resources/skyblock/collections",
            HypixelEndpoint::RESOURCES_SKYBLOCK_SKILLS => "resources/skyblock/skills",
            HypixelEndpoint::RESOURCES_SKYBLOCK_ITEMS => "resources/skyblock/items",
            HypixelEndpoint::RESOURCES_SKYBLOCK_ELECTION => "resources/skyblock/election",
            HypixelEndpoint::RESOURCES_SKYBLOCK_BINGO => "resources/skyblock/bingo",
        }
    }

    pub fn is_resource(&self) -> (r: bool)
        ensures
            r == self.is_resource_endpoint(),
            r == has_prefix(self.path(), "resources/"@),
    {
        proof {
            self.lemma_resource_paths();
        }
        match self {
            HypixelEndpoint::RESOURCES_GAMES
            | HypixelEndpoint::RESOURCES_ACHIEVEMENTS
            | HypixelEndpoint::RESOURCES_CHALLENGES
            | HypixelEndpoint::RESOURCES_QUESTS
            | HypixelEndpoint::RESOURCES_GUILD_ACHIEVEMENTS
            | HypixelEndpoint::RESOURCES_VANITY_PETS
            | HypixelEndpoint::RESOURCES_VANITY_COMPANIONS
            | HypixelEndpoint::RESOURCES_SKYBLOCK_COLLECTIONS
            | HypixelEndpoint::RESOURCES_SKYBLOCK_SKILLS
            | HypixelEndpoint::RESOURCES_SKYBLOCK_ITEMS
            | HypixelEndpoint::RESOURCES_SKYBLOCK_ELECTION
            | HypixelEndpoint::RESOURCES_SKYBLOCK_BINGO => true,
            _ => false,
        }
    }

    pub fn needs_key(&self) -> (r: bool)
        ensures
            r == self.requires_auth(),
    {
        match self {
            HypixelEndpoint::KEY
            | HypixelEndpoint::BOOSTERS
            | HypixelEndpoint::LEADERBOARDS
            | HypixelEndpoint::PUNISHMENT_STATS
            | HypixelEndpoint::PLAYER
            | HypixelEndpoint::GUILD
            | HypixelEndpoint::COUNTS
            | HypixelEndpoint::STATUS
            | HypixelEndpoint::RECENT_GAMES
            | HypixelEndpoint::SKYBLOCK_PROFILES
            | HypixelEndpoint::SKYBLOCK_PROFILE
            | HypixelEndpoint::SKYBLOCK_BINGO
            | HypixelEndpoint::SKYBLOCK_NEWS
            | HypixelEndpoint::SKYBLOCK_AUCTION => true,
            _ => false,
        }
    }
}

} // verus!
