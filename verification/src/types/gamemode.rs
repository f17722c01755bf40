use crate::util::decode::{mismatch, Decode};
use crate::util::error::Error;
use crate::util::generic_json::{Json, JsonView};
use crate::util::text::text_eq;
use vstd::prelude::*;
use vstd::string::*;

verus! {

/// The mode in which a profile is played.
#[derive(Clone, Copy, Debug, PartialEq, Eq, Hash, Structural)]
pub enum Gamemode {
    Regular,
    Ironman,
    Stranded,
    Bingo,
}

impl Default for Gamemode {
    fn default() -> (r: Gamemode)
        ensures
            r == Gamemode::Regular,
    {
        Gamemode::Regular
    }
}

impl DeepView for Gamemode {
    type V = Gamemode;

    open spec fn deep_view(&self) -> Gamemode {
        *self
    }
}

impl Gamemode {
    /// The name that stands for the mode in a document; the regular mode
    /// has the empty name.
    pub open spec fn wire_name(self) -> Seq<char> {
        match self {
            Gamemode::Regular => ""@,
            Gamemode::Ironman => "ironman"@,
            Gamemode::Stranded => "island"@,
            Gamemode::Bingo => "bingo"@,
        }
    }

    /// The mode with a name on the wire; every other name means the
    /// regular mode.
    pub open spec fn of_name(name: Seq<char>) -> Gamemode {
        if name == "ironman"@ {
            Gamemode::Ironman
        } else if name == "island"@ {
            Gamemode::Stranded
        } else if name == "bingo"@ {
            Gamemode::Bingo
        } else {
            Gamemode::Regular
        }
    }

    pub fn wire_str(&self) -> (r: &'static str)
        ensures
            r@ == self.wire_name(),
    {
        match self {
            Gamemode::Regular => "",
            Gamemode::Ironman => "ironman",
            Gamemode::Stranded => "island",
            Gamemode::Bingo => "bingo",
        }
    }

    /// The mode as it stands in a document.
    pub fn serialize(&self) -> (r: Json)
        ensures
            r@ == JsonView::Str(self.wire_name()),
    {
        Json::Str(String::from_str(self.wire_str()))
    }

    pub fn from_name(name: &str) -> (r: Gamemode)
        ensures
            r == Gamemode::of_name(name@),
    {
        if text_eq(name, "ironman") {
            Gamemode::Ironman
        } else if text_eq(name, "island") {
            Gamemode::Stranded
        } else if text_eq(name, "bingo") {
            Gamemode::Bingo
        } else {
            Gamemode::Regular
        }
    }
}

impl Decode for Gamemode {
    /// Null means the regular mode, a string the mode of that name.
    open spec fn decoded(json: JsonView) -> Result<Gamemode, Seq<char>> {
        match json {
            JsonView::Null => Ok(Gamemode::Regular),
            JsonView::Str(name) => Ok(Gamemode::of_name(name)),
            _ => Err(Seq::empty()),
        }
    }

    fn decode(json: &Json) -> (r: Result<Gamemode, Error>) {
        match json {
            Json::Null => Ok(Gamemode::Regular),
            Json::Str(name) => Ok(Gamemode::from_name(name.as_str())),
            _ => mismatch(),
        }
    }
}

/// Every mode is found again by its name on the wire.
pub proof fn lemma_gamemode_round_trip(mode: Gamemode)
    ensures
        Gamemode::decoded(JsonView::Str(mode.wire_name())) == Ok::<Gamemode, Seq<char>>(mode),
{
    reveal_strlit("");
    reveal_strlit("ironman");
    reveal_strlit("island");
    reveal_strlit("bingo");
    assert(""@.len() == 0);
    assert("ironman"@.len() == 7);
    assert("island"@.len() == 6);
    assert("bingo"@.len() == 5);
}

} // verus!
