use vstd::prelude::*;
use vstd::string::*;

verus! {

/// What precedes the host framework's description when minimizing fails.
pub open spec fn minimize_failure_prefix() -> Seq<char> {
    "Failed to minimize window: "@
}

/// The result of a minimize request, given the host framework's answer.
pub open spec fn minimize_result(host: Result<(), String>) -> Result<(), Seq<char>> {
    match host {
        Ok(_) => Ok(()),
        Err(why) => Err(minimize_failure_prefix() + why@),
    }
}

/// Turns the host framework's answer to a minimize request into the caller's
/// result.
pub fn minimize_outcome(host: Result<(), String>) -> (r: Result<(), String>)
    ensures
        match r {
            Ok(_) => minimize_result(host) == Ok::<(), Seq<char>>(()),
            Err(e) => minimize_result(host) == Err::<(), Seq<char>>(e@),
        },
{
    match host {
        Ok(_) => Ok(()),
        Err(why) => Err(String::from_str("Failed to minimize window: ").concat(why.as_str())),
    }
}

/// A minimize request succeeds exactly when the host framework performed it,
/// and a refusal always reaches the caller with a non-empty description.
pub proof fn minimize_fails_only_with_a_description(host: Result<(), String>)
    ensures
        host is Ok <==> minimize_result(host) is Ok,
        minimize_result(host) is Err ==> minimize_result(host)->Err_0.len() > 0,
{
    reveal_strlit("Failed to minimize window: ");
}

} // verus!
