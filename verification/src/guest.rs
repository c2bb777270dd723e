//! The capability interface and its one implementation.

use vstd::prelude::*;
use crate::output::{Output, OutputView};

verus! {

/// The one name that is answered with a failure. The comparison is exact:
/// no trimming and no folding of case.
pub const SENTINEL: &'static str = "oops";

/// What the failure says.
pub const FAILURE_MESSAGE: &'static str = "Ooops. Something went wrong.";

/// What every greeting starts with.
pub const GREETING_PREFIX: &'static str = "Hello, ";

/// The mathematical value of an invocation result: the view of the payload
/// on success, the characters of the message on failure.
pub open spec fn result_view(res: Result<Output, String>) -> Result<OutputView, Seq<char>> {
    match res {
        Ok(out) => Ok(out@),
        Err(msg) => Err(msg@),
    }
}

/// The capability: one operation from a text to a success or a failure.
///
/// A guest keeps no state. What it answers is a function of the name alone,
/// and `answer` is that function.
pub trait Guest {
    /// What this guest answers to `name`.
    spec fn answer(name: Seq<char>) -> Result<OutputView, Seq<char>>;

    /// Answers one invocation.
    fn sayhello(name: String) -> (res: Result<Output, String>)
        ensures
            result_view(res) == Self::answer(name@),
    ;
}

/// The guest that greets.
pub struct SayHello;

impl Guest for SayHello {
    open spec fn answer(name: Seq<char>) -> Result<OutputView, Seq<char>> {
        if name == SENTINEL@ {
            Err(FAILURE_MESSAGE@)
        } else {
            Ok(OutputView { greet: GREETING_PREFIX@ + name })
        }
    }

    /// Greets `name`, unless it is the sentinel, which gets the failure
    /// message. The name goes into the greeting as it came.
    fn sayhello(name: String) -> (res: Result<Output, String>)
        ensures
            name@ == SENTINEL@ ==> (res matches Err(msg) && msg@ == FAILURE_MESSAGE@),
            name@ != SENTINEL@ ==> (res matches Ok(out) && out@.greet == GREETING_PREFIX@ + name@),
    {
        if name == SENTINEL.to_owned() {
            Err(FAILURE_MESSAGE.to_owned())
        } else {
            Ok(Output { greet: GREETING_PREFIX.to_owned().concat(name.as_str()) })
        }
    }
}

} // verus!
