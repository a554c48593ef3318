//! Choosing the executable of a process: the one that the settings name,
//! or else the first that the search path offers.

use vstd::prelude::*;
use vstd::string::*;
use crate::outcome::Failure;

verus! {

/// The first path that was found among `found`, in order.
pub open spec fn first_found(found: Seq<Option<Seq<char>>>) -> Option<Seq<char>>
    decreases found.len(),
{
    if found.len() == 0 {
        None
    } else {
        match found.first() {
            Some(path) => Some(path),
            None => first_found(found.drop_first()),
        }
    }
}

/// The executable to start: the configured one where there is one, else
/// the first that was found on the search path.
pub open spec fn located(configured: Option<Seq<char>>, found: Seq<Option<Seq<char>>>) -> Option<
    Seq<char>,
> {
    match configured {
        Some(path) => Some(path),
        None => first_found(found),
    }
}

/// Chooses the executable to start. `configured` is the path from the
/// settings, and `found` holds, for each name under which the executable is
/// looked up on the search path, in order of preference, where it was
/// found.
pub fn locate(configured: &Option<String>, found: &Vec<Option<String>>) -> (r: Result<
    String,
    Failure,
>)
    ensures
        match r {
            Ok(path) => located(configured.deep_view(), found.deep_view()) == Some(path@),
            Err(failure) => located(configured.deep_view(), found.deep_view()) is None && failure
                == Failure::ExecutableNotFound,
        },
{
    if let Some(path) = configured {
        return Ok(path.clone());
    }
    let mut i: usize = 0;
    assert(found.deep_view().skip(0) =~= found.deep_view());
    while i < found.len()
        invariant
            i <= found.len(),
            configured is None,
            first_found(found.deep_view()) == first_found(found.deep_view().skip(i as int)),
        decreases found.len() - i,
    {
        proof {
            let rest = found.deep_view().skip(i as int);
            assert(rest.first() == found[i as int].deep_view());
            assert(rest.drop_first() =~= found.deep_view().skip(i + 1));
        }
        if let Some(path) = &found[i] {
            return Ok(path.clone());
        }
        i += 1;
    }
    assert(found.deep_view().skip(found.len() as int).len() == 0);
    Err(Failure::ExecutableNotFound)
}

} // verus!
