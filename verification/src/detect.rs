//! Finding the input method framework that is there: Fcitx5 before Fcitx 4
//! before IBus.

use vstd::prelude::*;

#[allow(unused_imports)]
use crate::types::BackendKind;

verus! {

/// The frameworks that can be talked to.
#[derive(Debug, Clone, Copy, PartialEq, Eq, Structural)]
pub enum Framework {
    Fcitx5,
    Fcitx4,
    IBus,
}

impl Framework {
    /// The kind of this framework's backend.
    pub open spec fn backend(self) -> BackendKind {
        match self {
            Framework::Fcitx5 => BackendKind::Fcitx5,
            Framework::Fcitx4 => BackendKind::Fcitx4,
            Framework::IBus => BackendKind::IBus,
        }
    }

    /// The kind of this framework's backend.
    pub fn backend_kind(self) -> (kind: BackendKind)
        ensures
            kind == self.backend(),
    {
        match self {
            Framework::Fcitx5 => BackendKind::Fcitx5,
            Framework::Fcitx4 => BackendKind::Fcitx4,
            Framework::IBus => BackendKind::IBus,
        }
    }

    /// The framework's name in messages.
    pub open spec fn label(self) -> Seq<char> {
        match self {
            Framework::Fcitx5 => "Fcitx5"@,
            Framework::Fcitx4 => "Fcitx 4"@,
            Framework::IBus => "IBus"@,
        }
    }

    /// The framework's name in messages.
    pub fn name(self) -> (name: &'static str)
        ensures
            name@ == self.label(),
    {
        match self {
            Framework::Fcitx5 => "Fcitx5",
            Framework::Fcitx4 => "Fcitx 4",
            Framework::IBus => "IBus",
        }
    }
}

/// How far the search has come.
#[derive(Debug, Clone, Copy, PartialEq, Eq, Structural)]
pub enum Search {
    /// This framework is to be tried next.
    Try(Framework),
    /// This framework answered.
    Found(Framework),
    /// No framework answered.
    NoneFound,
}

/// Where the search goes after `framework` has been tried.
pub open spec fn search_after(framework: Framework, answered: bool) -> Search {
    if answered {
        Search::Found(framework)
    } else {
        match framework {
            Framework::Fcitx5 => Search::Try(Framework::Fcitx4),
            Framework::Fcitx4 => Search::Try(Framework::IBus),
            Framework::IBus => Search::NoneFound,
        }
    }
}

/// The start of the search.
pub fn search_first() -> (first: Search)
    ensures
        first == Search::Try(Framework::Fcitx5),
{
    Search::Try(Framework::Fcitx5)
}

/// Where the search goes after `framework` has been tried.
pub fn search_next(framework: Framework, answered: bool) -> (next: Search)
    ensures
        next == search_after(framework, answered),
{
    if answered {
        Search::Found(framework)
    } else {
        match framework {
            Framework::Fcitx5 => Search::Try(Framework::Fcitx4),
            Framework::Fcitx4 => Search::Try(Framework::IBus),
            Framework::IBus => Search::NoneFound,
        }
    }
}

/// How many frameworks are left to try.
pub open spec fn left_to_try(search: Search) -> nat {
    match search {
        Search::Try(Framework::Fcitx5) => 3,
        Search::Try(Framework::Fcitx4) => 2,
        Search::Try(Framework::IBus) => 1,
        _ => 0,
    }
}

/// Where a search ends up, given which frameworks answer.
pub open spec fn search_end(search: Search, answers: spec_fn(Framework) -> bool) -> Search
    decreases left_to_try(search),
{
    match search {
        Search::Try(framework) => search_end(
            search_after(framework, answers(framework)),
            answers,
        ),
        _ => search,
    }
}

/// A search finds the first framework that answers, in the order Fcitx5,
/// Fcitx 4, IBus, and none only where none answers.
pub proof fn first_to_answer_is_found(answers: spec_fn(Framework) -> bool)
    ensures
        search_end(Search::Try(Framework::Fcitx5), answers) == (if answers(Framework::Fcitx5) {
            Search::Found(Framework::Fcitx5)
        } else if answers(Framework::Fcitx4) {
            Search::Found(Framework::Fcitx4)
        } else if answers(Framework::IBus) {
            Search::Found(Framework::IBus)
        } else {
            Search::NoneFound
        }),
{
    reveal_with_fuel(search_end, 5);
}

} // verus!
