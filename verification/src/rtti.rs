//! The outcome of registering a native function with the game's RTTI.
use vstd::prelude::*;

use crate::text::{decimal, push_decimal};

verus! {

/// The indexes of the parameters of a registered function whose types the
/// game could not resolve.
#[derive(Debug)]
pub struct FailedBindings(Vec<usize>);

/// The text of each index, preceded by a space.
pub open spec fn spaced_indexes(indexes: Seq<usize>) -> Seq<char>
    decreases indexes.len(),
{
    if indexes.len() == 0 {
        Seq::empty()
    } else {
        spaced_indexes(indexes.drop_last()) + " "@ + decimal(indexes.last() as nat)
    }
}

/// The text that reports failed bindings.
pub open spec fn spec_failed_bindings_text(indexes: Seq<usize>) -> Seq<char> {
    "failed to bind arguments at indexes:"@ + spaced_indexes(indexes)
        + ", this is only an issue if you don't define this function in redscript"@
}

impl View for FailedBindings {
    type V = Seq<usize>;

    closed spec fn view(&self) -> Seq<usize> {
        self.0@
    }
}

impl FailedBindings {
    /// Describes the failed bindings.
    pub fn message(&self) -> (text: String)
        ensures
            text@ == spec_failed_bindings_text(self@),
    {
        let mut s = String::from_str("failed to bind arguments at indexes:");
        let ghost start = s@;
        let mut i: usize = 0;
        while i < self.0.len()
            invariant
                i <= self.0@.len(),
                s@ == start + spaced_indexes(self.0@.take(i as int)),
            decreases self.0@.len() - i,
        {
            s.append(" ");
            push_decimal(&mut s, self.0[i]);
            proof {
                assert(self.0@.take(i + 1).drop_last() =~= self.0@.take(i as int));
            }
            i = i + 1;
        }
        proof {
            assert(self.0@.take(self.0@.len() as int) =~= self.0@);
        }
        s.append(", this is only an issue if you don't define this function in redscript");
        s
    }
}

/// The outcome of a registration in which the parameters at `failed` could
/// not be bound: success when there are none.
pub fn registration_result(failed: Vec<usize>) -> (res: Result<(), FailedBindings>)
    ensures
        res is Ok <==> failed@.len() == 0,
        res matches Err(f) ==> f@ == failed@,
{
    if failed.len() == 0 {
        Ok(())
    } else {
        Err(FailedBindings(failed))
    }
}

} // verus!
