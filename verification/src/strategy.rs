//! Resolution strategies: how a transaction ends, by its position in a round.

use vstd::prelude::*;
use vstd::string::StringExecFns;

verus! {

/// What a lifecycle does with its open transaction once its operations are issued.
#[derive(Clone, Copy, Debug, PartialEq, Eq, Structural)]
pub enum Resolution {
    /// Issue a commit call.
    Commit,
    /// Issue a rollback call.
    Rollback,
    /// Issue no resolving call: the client disappears and the transaction stays open.
    Abandon,
}

/// The rule that picks a [`Resolution`] for each lifecycle of a round.
#[derive(Clone, Copy, Debug, PartialEq, Eq, Structural)]
pub enum Strategy {
    /// Every lifecycle commits.
    AlwaysCommit,
    /// Even positions roll back; of the odd ones, multiples of three abandon; the rest commit.
    Mixed,
}

impl Strategy {
    /// The resolution of the lifecycle at position `index` of its round.
    ///
    /// Under `Mixed` the parity test comes first, so a position divisible by
    /// both two and three rolls back.
    pub open spec fn resolution(self, index: u32) -> Resolution {
        match self {
            Strategy::AlwaysCommit => Resolution::Commit,
            Strategy::Mixed => if index % 2 == 0 {
                Resolution::Rollback
            } else if index % 3 == 0 {
                Resolution::Abandon
            } else {
                Resolution::Commit
            },
        }
    }

    /// The strategy selected by a configured name: `"mixed"` selects `Mixed`,
    /// every other name selects `AlwaysCommit`.
    pub open spec fn named(name: Seq<char>) -> Strategy {
        if name == "mixed"@ {
            Strategy::Mixed
        } else {
            Strategy::AlwaysCommit
        }
    }

    /// Decides how the lifecycle at position `index` of its round resolves.
    pub fn decide(&self, index: u32) -> (r: Resolution)
        ensures
            r == self.resolution(index),
            *self == Strategy::AlwaysCommit ==> r == Resolution::Commit,
    {
        match self {
            Strategy::AlwaysCommit => Resolution::Commit,
            Strategy::Mixed => {
                if index % 2 == 0 {
                    Resolution::Rollback
                } else if index % 3 == 0 {
                    Resolution::Abandon
                } else {
                    Resolution::Commit
                }
            },
        }
    }

    /// Selects the strategy for a configured name.
    pub fn from_name(name: &str) -> (s: Strategy)
        ensures
            s == Strategy::named(name@),
    {
        let given = name.to_owned();
        let mixed = String::from_str("mixed");
        if given == mixed {
            Strategy::Mixed
        } else {
            Strategy::AlwaysCommit
        }
    }
}

/// Under `Mixed`, the resolution depends only on the position modulo six:
/// residues 0, 2 and 4 roll back, residue 3 abandons, residues 1 and 5 commit.
pub proof fn lemma_mixed_by_residue(index: u32)
    ensures
        Strategy::Mixed.resolution(index) == (if index % 6 == 3 {
            Resolution::Abandon
        } else if index % 6 == 1 || index % 6 == 5 {
            Resolution::Commit
        } else {
            Resolution::Rollback
        }),
{
}

} // verus!
