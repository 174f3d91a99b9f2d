//! The configuration of a run.

use crate::strategy::Strategy;
use vstd::prelude::*;
use vstd::string::StringExecFns;

verus! {

/// The options of one run. They stay fixed while the run lasts.
#[derive(Clone, Debug)]
pub struct Opts {
    /// Name of the resolution strategy: `"mixed"`, or anything else for always-commit.
    pub name: String,
    /// Number of lifecycles launched in each round, all of which may be in flight together.
    pub concurrency: u32,
    /// Number of rounds.
    pub iterations: u32,
    /// How long the backend may wait for a free connection when a transaction starts, in milliseconds.
    pub wait: u32,
    /// How long the backend keeps a started transaction open, in milliseconds.
    pub timeout: u32,
}

impl Default for Opts {
    /// The options of a run for which nothing was configured.
    fn default() -> (opts: Opts)
        ensures
            opts.name@ == "simple"@,
            opts.concurrency == 10,
            opts.iterations == 1,
            opts.wait == 5000,
            opts.timeout == 1000,
    {
        Opts {
            name: String::from_str("simple"),
            concurrency: 10,
            iterations: 1,
            wait: 5000,
            timeout: 1000,
        }
    }
}

impl Opts {
    /// The number of lifecycles that a run with these options creates.
    pub open spec fn planned_lifecycles(&self) -> nat {
        self.iterations as nat * self.concurrency as nat
    }

    /// The resolution strategy that the configured name selects.
    pub fn strategy(&self) -> (s: Strategy)
        ensures
            s == Strategy::named(self.name@),
    {
        Strategy::from_name(self.name.as_str())
    }

    /// Computes the number of lifecycles that a run with these options creates.
    pub fn lifecycle_count(&self) -> (n: u64)
        ensures
            n == self.planned_lifecycles(),
    {
        proof {
            lemma_product_fits(self.iterations, self.concurrency);
        }
        let rounds: u64 = self.iterations as u64;
        let per_round: u64 = self.concurrency as u64;
        rounds * per_round
    }
}

/// The product of two 32-bit counts fits in 64 bits.
pub proof fn lemma_product_fits(a: u32, b: u32)
    ensures
        a as nat * b as nat <= u64::MAX,
{
    assert(a as nat * b as nat <= 0xffff_ffff * 0xffff_ffff) by (nonlinear_arith)
        requires
            a as nat <= 0xffff_ffff,
            b as nat <= 0xffff_ffff,
    ;
}

} // verus!
