//! What holds of every guest, and of the greeting guest in particular.

use vstd::prelude::*;
use crate::guest::{result_view, Guest, SayHello, GREETING_PREFIX, SENTINEL};
use crate::output::Output;

verus! {

/// An invocation of the greeting guest ends in a success or in a failure:
/// never in both, never in neither. It fails on the sentinel and on no other
/// name.
pub proof fn lemma_success_xor_failure(name: String, res: Result<Output, String>)
    requires
        call_ensures(SayHello::sayhello, (name,), res),
    ensures
        (res is Ok) != (res is Err),
        res is Err <==> name@ == SENTINEL@,
        res is Ok <==> name@ != SENTINEL@,
{
}

/// Two invocations of a guest on the same name end alike, whatever the guest
/// and whatever happened between them.
pub proof fn lemma_same_name_same_result<G: Guest>(
    first: String,
    second: String,
    first_res: Result<Output, String>,
    second_res: Result<Output, String>,
)
    requires
        call_ensures(G::sayhello, (first,), first_res),
        call_ensures(G::sayhello, (second,), second_res),
        first@ == second@,
    ensures
        result_view(first_res) == result_view(second_res),
{
}

/// In a history of invocations of any length, in which names may come in any
/// order and any number of times, every two invocations on the same name have
/// the same result.
pub proof fn lemma_history_is_consistent<G: Guest>(
    names: Seq<String>,
    results: Seq<Result<Output, String>>,
    i: int,
    j: int,
)
    requires
        names.len() == results.len(),
        forall|k: int|
            0 <= k < names.len() ==> call_ensures(G::sayhello, (#[trigger] names[k],), results[k]),
        0 <= i < names.len(),
        0 <= j < names.len(),
        names[i]@ == names[j]@,
    ensures
        result_view(results[i]) == result_view(results[j]),
{
    lemma_same_name_same_result::<G>(names[i], names[j], results[i], results[j]);
}

/// The empty name is not the sentinel: it is greeted, and its greeting is the
/// bare prefix.
pub proof fn lemma_empty_name_is_greeted()
    ensures
        SayHello::answer(Seq::empty()) matches Ok(out) && out.greet == GREETING_PREFIX@,
{
    reveal_strlit("oops");
    assert(SENTINEL@.len() == 4);
    assert(GREETING_PREFIX@ + Seq::<char>::empty() =~= GREETING_PREFIX@);
}

/// A greeting holds the name as it came: the prefix, then every character of
/// the name in its place, and nothing after it.
pub proof fn lemma_greeting_holds_the_name(name: Seq<char>)
    requires
        name != SENTINEL@,
    ensures
        SayHello::answer(name) matches Ok(out) && out.greet.len() == GREETING_PREFIX@.len()
            + name.len(),
        SayHello::answer(name) matches Ok(out) && out.greet.take(GREETING_PREFIX@.len() as int)
            == GREETING_PREFIX@,
        SayHello::answer(name) matches Ok(out) && out.greet.skip(GREETING_PREFIX@.len() as int)
            == name,
{
    let greet = GREETING_PREFIX@ + name;
    assert(greet.take(GREETING_PREFIX@.len() as int) =~= GREETING_PREFIX@);
    assert(greet.skip(GREETING_PREFIX@.len() as int) =~= name);
}

} // verus!
