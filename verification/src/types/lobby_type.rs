use crate::util::text::text_eq;
use vstd::prelude::*;
use vstd::string::*;

verus! {

/// A lobby of the network; `UNKNOWN` stands for every lobby not listed.
#[allow(non_camel_case_types)]
#[derive(Clone, Copy, Debug, PartialEq, Eq, Hash, Structural)]
pub enum LobbyType {
    MAIN,
    TOURNAMENT,
    UNKNOWN,
}

impl LobbyType {
    /// The name for display.
    pub open spec fn clean_name(self) -> Seq<char> {
        match self {
            LobbyType::MAIN => "Main Lobby"@,
            LobbyType::TOURNAMENT => "Tournament Hall"@,
            LobbyType::UNKNOWN => "Unknown"@,
        }
    }

    /// The lobby with a name on the wire; `UNKNOWN` where none has it.
    pub open spec fn of_name(name: Seq<char>) -> LobbyType {
        if name == "MAIN"@ {
            LobbyType::MAIN
        } else if name == "TOURNAMENT"@ {
            LobbyType::TOURNAMENT
        } else {
            LobbyType::UNKNOWN
        }
    }

    pub fn clean_str(&self) -> (r: &'static str)
        ensures
            r@ == self.clean_name(),
    {
        match self {
            LobbyType::MAIN => "Main Lobby",
            LobbyType::TOURNAMENT => "Tournament Hall",
            LobbyType::UNKNOWN => "Unknown",
        }
    }

    pub fn name(&self) -> (r: String)
        ensures
            r@ == self.clean_name(),
    {
        String::from_str(self.clean_str())
    }

    /// The lobby with a name on the wire; `UNKNOWN` where none has it.
    pub fn from_name(name: &str) -> (r: LobbyType)
        ensures
            r == LobbyType::of_name(name@),
    {
        if text_eq(name, "MAIN") {
            LobbyType::MAIN
        } else if text_eq(name, "TOURNAMENT") {
            LobbyType::TOURNAMENT
        } else {
            LobbyType::UNKNOWN
        }
    }
}

impl From<String> for LobbyType {
    fn from(v: String) -> (r: LobbyType) {
        LobbyType::from_name(v.as_str())
    }
}

impl vstd::std_specs::convert::FromSpecImpl<String> for LobbyType {
    open spec fn obeys_from_spec() -> bool {
        true
    }

    open spec fn from_spec(v: String) -> LobbyType {
        LobbyType::of_name(v@)
    }
}

} // verus!
