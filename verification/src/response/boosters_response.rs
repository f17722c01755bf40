use crate::util::decode::{decoded_items, decoded_member, member, mismatch, Decode};
use crate::util::error::Error;
use crate::util::generic_json::{Json, JsonView};
use vstd::prelude::*;

verus! {

/// How a booster stands in the queue: either a flag that says whether it
/// waits to be stacked, or the ids of those whose boosters are stacked on it.
#[derive(Debug, PartialEq, Eq)]
pub enum Stacked {
    QueuedToStack(bool),
    Stacked(Vec<String>),
}

pub enum StackedView {
    QueuedToStack(bool),
    Stacked(Seq<Seq<char>>),
}

impl DeepView for Stacked {
    type V = StackedView;

    open spec fn deep_view(&self) -> StackedView {
        match self {
            Stacked::QueuedToStack(queued) => StackedView::QueuedToStack(*queued),
            Stacked::Stacked(ids) => StackedView::Stacked(ids.deep_view()),
        }
    }
}

impl Default for Stacked {
    fn default() -> (r: Stacked)
        ensures
            r == Stacked::QueuedToStack(false),
    {
        Stacked::QueuedToStack(false)
    }
}

impl Stacked {
    pub fn get_queued_to_stack(&self) -> (r: Option<&bool>)
        ensures
            r == match *self {
                Stacked::QueuedToStack(queued) => Some(&queued),
                _ => None,
            },
    {
        if let Stacked::QueuedToStack(v) = self {
            Some(v)
        } else {
            None
        }
    }

    pub fn get_stacked(&self) -> (r: Option<&Vec<String>>)
        ensures
            r == match *self {
                Stacked::Stacked(ids) => Some(&ids),
                _ => None,
            },
    {
        if let Stacked::Stacked(v) = self {
            Some(v)
        } else {
            None
        }
    }
}

impl Decode for Stacked {
    /// A boolean is the flag, an array of strings the ids. Nothing else
    /// fits, and nothing is turned into one of the two.
    open spec fn decoded(json: JsonView) -> Result<StackedView, Seq<char>> {
        match json {
            JsonView::Bool(queued) => Ok(StackedView::QueuedToStack(queued)),
            JsonView::Array(items) => match decoded_items::<String>(items) {
                Ok(ids) => Ok(StackedView::Stacked(ids)),
                Err(path) => Err(path),
            },
            _ => Err(Seq::empty()),
        }
    }

    fn decode(json: &Json) -> (r: Result<Stacked, Error>) {
        match json {
            Json::Bool(queued) => Ok(Stacked::QueuedToStack(*queued)),
            Json::Array(_) => match Vec::<String>::decode(json) {
                Ok(ids) => Ok(Stacked::Stacked(ids)),
                Err(error) => Err(error),
            },
            _ => mismatch(),
        }
    }
}

/// Whether boosters are counting down.
#[derive(Debug, PartialEq, Eq)]
pub struct BoosterState {
    pub decrementing: bool,
}

pub struct BoosterStateView {
    pub decrementing: bool,
}

impl DeepView for BoosterState {
    type V = BoosterStateView;

    open spec fn deep_view(&self) -> BoosterStateView {
        BoosterStateView {
            decrementing: self.decrementing.deep_view(),
        }
    }
}

impl Decode for BoosterState {
    open spec fn decoded(json: JsonView) -> Result<BoosterStateView, Seq<char>> {
        let decrementing = decoded_member::<bool>(json, "decrementing"@);
        if decrementing is Err {
            Err(decrementing->Err_0)
        } else {
            Ok(
                BoosterStateView {
                    decrementing: decrementing->Ok_0,
                },
            )
        }
    }

    fn decode(json: &Json) -> (r: Result<BoosterState, Error>) {
        let decrementing: bool = match member::<bool>(json, "decrementing") {
            Ok(value) => value,
            Err(error) => {
                return Err(error);
            },
        };
        Ok(BoosterState { decrementing })
    }
}

} // verus!
