//! Fail-fast check of what a build was expected to install: the caller probes
//! the paths, the library names the first that is absent.

use vstd::prelude::*;
use crate::error::{ErrorView, PipelineError};

verus! {

/// Path `i` was probed and found.
pub open spec fn reported(present: Seq<bool>, i: int) -> bool {
    0 <= i < present.len() && present[i]
}

/// The first of the paths `0..n` that was not reported as present. A path
/// for which the probe gave no answer counts as absent.
pub open spec fn first_absent(present: Seq<bool>, n: nat) -> Option<int>
    decreases n,
{
    if n == 0 {
        None
    } else {
        match first_absent(present, (n - 1) as nat) {
            Some(i) => Some(i),
            None => if reported(present, n - 1) {
                None
            } else {
                Some(n - 1)
            },
        }
    }
}

/// The failure that the probe of `paths` calls for, if any: the first absent
/// path is a missing artifact.
pub open spec fn missing_artifact(paths: Seq<Seq<char>>, present: Seq<bool>) -> Option<ErrorView> {
    match first_absent(present, paths.len()) {
        Some(i) => Some(ErrorView::MissingArtifact { path: paths[i] }),
        None => None,
    }
}

/// `first_absent` is the least index that was not reported, and there is none
/// exactly when every path was reported.
pub proof fn first_absent_is_least(present: Seq<bool>, n: nat)
    ensures
        match first_absent(present, n) {
            Some(i) => {
                &&& 0 <= i < n
                &&& !reported(present, i)
                &&& forall|j: int| 0 <= j < i ==> reported(present, j)
            },
            None => forall|j: int| 0 <= j < n ==> reported(present, j),
        },
    decreases n,
{
    if n > 0 {
        first_absent_is_least(present, (n - 1) as nat);
    }
}

/// Checks the answers of a probe against the paths that were probed: `Ok` when
/// every path is present, else the missing-artifact failure that names the
/// first absent path.
pub fn check_artifacts(paths: &Vec<String>, present: &Vec<bool>) -> (r: Result<(), PipelineError>)
    ensures
        match r {
            Ok(_) => missing_artifact(paths.deep_view(), present@) is None,
            Err(e) => missing_artifact(paths.deep_view(), present@) == Some(e@),
        },
{
    let mut i: usize = 0;
    while i < paths.len()
        invariant
            i <= paths.len(),
            first_absent(present@, i as nat) is None,
        decreases paths.len() - i,
    {
        if i >= present.len() || !present[i] {
            assert(first_absent(present@, (i + 1) as nat) == Some(i as int));
            proof {
                absent_stays_first(present@, (i + 1) as nat, paths.len() as nat);
            }
            return Err(PipelineError::MissingArtifact { path: paths[i].clone() });
        }
        i += 1;
    }
    Ok(())
}

/// Once an absent path is found among the first `n`, it stays the answer for
/// every longer list.
proof fn absent_stays_first(present: Seq<bool>, n: nat, m: nat)
    requires
        n <= m,
        first_absent(present, n) is Some,
    ensures
        first_absent(present, m) == first_absent(present, n),
    decreases m,
{
    if n < m {
        absent_stays_first(present, n, (m - 1) as nat);
    }
}

} // verus!
