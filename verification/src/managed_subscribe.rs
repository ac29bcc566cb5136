//! The managed subscribe consumer's request: the frequency it asks for,
//! taken from its command line, and the constraint that carries it.

use vstd::prelude::*;
use crate::constants::constraint_type;
use crate::uri::{contains_text, occurs_in, replace, spec_replace};

verus! {

/// The command line flag that sets the requested frequency.
pub const FREQUENCY_MS_FLAG: &'static str = "freq_ms=";

/// The frequency asked for when the command line sets none.
pub const DEFAULT_FREQUENCY_MS: &'static str = "10000";

/// A constraint on a managed topic.
#[derive(Debug)]
pub struct Constraint {
    /// The constraint's type.
    pub constraint_type: String,
    /// The constraint's value.
    pub value: String,
}

/// `args[i]` is the first argument that holds the frequency flag.
pub open spec fn is_first_frequency_argument(args: Seq<String>, i: int) -> bool {
    &&& 0 <= i < args.len()
    &&& occurs_in(args[i]@, FREQUENCY_MS_FLAG@)
    &&& forall|k: int| 0 <= k < i ==> !occurs_in(#[trigger] args[k]@, FREQUENCY_MS_FLAG@)
}

/// The requested frequency: the first argument that holds the flag, with the
/// flag removed, or the default where no argument holds it.
///
/// # Arguments
/// * `args` - The command line arguments.
pub fn frequency_ms_argument(args: &Vec<String>) -> (r: String)
    ensures
        forall|i: int| is_first_frequency_argument(args@, i)
            ==> r@ == spec_replace(#[trigger] args@[i]@, FREQUENCY_MS_FLAG@, Seq::empty()),
        (forall|i: int| 0 <= i < args@.len() ==> !occurs_in(#[trigger] args@[i]@, FREQUENCY_MS_FLAG@))
            ==> r@ == DEFAULT_FREQUENCY_MS@,
{
    let mut i: usize = 0;
    while i < args.len()
        invariant
            i <= args@.len(),
            forall|k: int| 0 <= k < i ==> !occurs_in(#[trigger] args@[k]@, FREQUENCY_MS_FLAG@),
        decreases args@.len() - i,
    {
        if contains_text(args[i].as_str(), FREQUENCY_MS_FLAG) {
            proof {
                reveal_strlit("");
                assert(""@ =~= Seq::<char>::empty());
                assert forall|j: int| is_first_frequency_argument(args@, j) implies j == i by {
                    if j < i {
                        assert(!occurs_in(args@[j]@, FREQUENCY_MS_FLAG@));
                    } else if j > i {
                        assert(!occurs_in(args@[i as int]@, FREQUENCY_MS_FLAG@));
                    }
                }
            }
            return replace(args[i].as_str(), FREQUENCY_MS_FLAG, "");
        }
        i = i + 1;
    }
    String::from_str(DEFAULT_FREQUENCY_MS)
}

/// The constraint that asks for updates at the given frequency.
///
/// # Arguments
/// * `frequency_ms` - The frequency, in milliseconds.
pub fn frequency_constraint(frequency_ms: &str) -> (c: Constraint)
    ensures
        c.constraint_type@ == constraint_type::FREQUENCY_MS@,
        c.value@ == frequency_ms@,
{
    Constraint { constraint_type: String::from_str(constraint_type::FREQUENCY_MS), value: String::from_str(frequency_ms) }
}

} // verus!
