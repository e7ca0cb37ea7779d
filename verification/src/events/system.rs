//! The two ends of a tick: the events that came in, and the scripts that go
//! out to the webviews.

use super::error::Error;
use super::{MessageBus, OutWryEvent};
use crate::components::webview::WebViews;
use vstd::prelude::*;

verus! {

/// Takes the events that are queued, oldest first, for the host to send on.
pub fn consume_in_events<T>(message_bus: &mut MessageBus<T>) -> (messages: Vec<T>)
    ensures
        messages@ == old(message_bus)@,
        final(message_bus)@ == Seq::<T>::empty(),
{
    message_bus.drain()
}

/// A script for a webview to evaluate.
#[derive(Clone, Debug, PartialEq, Eq)]
pub struct ScriptCall {
    pub webview: String,
    pub script: String,
}

/// The calls as plain values: the name of each webview and its script.
pub open spec fn plain_calls(calls: Seq<ScriptCall>) -> Seq<(Seq<char>, Seq<char>)> {
    Seq::new(calls.len(), |i: int| (calls[i].webview@, calls[i].script@))
}

/// The name that a target holds.
pub open spec fn target_name(target: Option<String>) -> Option<Seq<char>> {
    match target {
        Some(name) => Some(name@),
        None => None,
    }
}

/// The calls that deliver `script` to `target`: one call to the webview of
/// that name, or none where no webview has it; without a target, one call to
/// every registered webview, in the order of the registry's names.
pub open spec fn calls_for<H>(
    webviews: WebViews<H>,
    target: Option<Seq<char>>,
    script: Seq<char>,
) -> Seq<(Seq<char>, Seq<char>)> {
    match target {
        Some(name) => if webviews@.contains_key(name) {
            seq![(name, script)]
        } else {
            Seq::empty()
        },
        None => Seq::new(webviews.names().len(), |i: int| (webviews.names()[i], script)),
    }
}

/// The calls that deliver a run of scripts, each to its target, in order.
pub open spec fn calls_for_all<H>(
    webviews: WebViews<H>,
    scripts: Seq<(Option<Seq<char>>, Seq<char>)>,
) -> Seq<(Seq<char>, Seq<char>)>
    decreases scripts.len(),
{
    if scripts.len() == 0 {
        Seq::empty()
    } else {
        calls_for_all(webviews, scripts.drop_last()) + calls_for(
            webviews,
            scripts.last().0,
            scripts.last().1,
        )
    }
}

/// Adds to `calls` the calls that deliver `script` to `target`.
pub fn send_script<H>(
    webviews: &WebViews<H>,
    target: &Option<String>,
    script: &String,
    calls: &mut Vec<ScriptCall>,
)
    ensures
        plain_calls(final(calls)@) == plain_calls(old(calls)@) + calls_for(
            *webviews,
            target_name(*target),
            script@,
        ),
{
    let ghost before = plain_calls(calls@);
    match target {
        Some(webview_name) => {
            if webviews.contains(webview_name) {
                calls.push(ScriptCall { webview: webview_name.clone(), script: script.clone() });
                assert(plain_calls(calls@) =~= before + seq![(webview_name@, script@)]);
            } else {
                assert(plain_calls(calls@) =~= before + Seq::empty());
            }
        },
        None => {
            let names = webviews.get_all_names();
            let ghost all = calls_for(*webviews, None, script@);
            let mut i: usize = 0;
            assert(plain_calls(calls@) =~= before + all.take(0));
            while i < names.len()
                invariant
                    i <= names.len(),
                    names.len() == webviews.names().len(),
                    forall|j: int| 0 <= j < names.len() ==> (#[trigger] names[j])@
                        == webviews.names()[j],
                    all == calls_for(*webviews, None, script@),
                    plain_calls(calls@) == before + all.take(i as int),
                decreases names.len() - i,
            {
                let ghost so_far = plain_calls(calls@);
                calls.push(ScriptCall { webview: names[i].clone(), script: script.clone() });
                assert(plain_calls(calls@) =~= so_far.push(all[i as int]));
                assert(plain_calls(calls@) =~= before + all.take(i + 1));
                i += 1;
            }
            assert(all.take(i as int) =~= all);
        },
    }
}

/// The scripts to evaluate for the events of a tick, in order: each event's
/// script goes to the webview that the event names, or to every registered
/// webview where it names none. An event for a webview that is not registered
/// gives no call.
pub fn send_out_events<H, T: OutWryEvent>(webviews: &WebViews<H>, events: &Vec<&T>) -> (calls: Vec<
    ScriptCall,
>)
    ensures
        exists|scripts: Seq<(Option<String>, String)>|
            {
                &&& scripts.len() == events.len()
                &&& forall|i: int|
                    0 <= i < events.len() ==> call_ensures(
                        T::target_webview,
                        (events[i],),
                        (#[trigger] scripts[i]).0,
                    ) && call_ensures(T::to_script, (events[i],), scripts[i].1)
                &&& plain_calls(calls@) == calls_for_all(
                    *webviews,
                    Seq::new(scripts.len(), |i: int| (target_name(scripts[i].0), scripts[i].1@)),
                )
            },
{
    let mut calls: Vec<ScriptCall> = Vec::new();
    let ghost mut scripts: Seq<(Option<String>, String)> = Seq::empty();
    let mut i: usize = 0;
    assert(plain_calls(calls@) =~= Seq::empty());
    while i < events.len()
        invariant
            i <= events.len(),
            scripts.len() == i,
            forall|j: int|
                0 <= j < i ==> call_ensures(
                    T::target_webview,
                    (events[j],),
                    (#[trigger] scripts[j]).0,
                ) && call_ensures(T::to_script, (events[j],), scripts[j].1),
            plain_calls(calls@) == calls_for_all(
                *webviews,
                Seq::new(scripts.len(), |k: int| (target_name(scripts[k].0), scripts[k].1@)),
            ),
        decreases events.len() - i,
    {
        let target = events[i].target_webview();
        let script = events[i].to_script();
        send_script(webviews, &target, &script, &mut calls);
        proof {
            let before = Seq::new(
                scripts.len(),
                |k: int| (target_name(scripts[k].0), scripts[k].1@),
            );
            scripts = scripts.push((target, script));
            let after = Seq::new(
                scripts.len(),
                |k: int| (target_name(scripts[k].0), scripts[k].1@),
            );
            assert(after.drop_last() =~= before);
        }
        i += 1;
    }
    calls
}

/// What an evaluation of a script came to: whatever went wrong in the
/// webview, it is the error `EvaluateScript`.
pub open spec fn evaluation<E>(outcome: Result<(), E>) -> Result<(), Error> {
    match outcome {
        Ok(()) => Ok(()),
        Err(_) => Err(Error::EvaluateScript),
    }
}

/// What an evaluation of a script came to, with the webview's own error
/// replaced by `EvaluateScript`.
pub fn script_evaluated<E>(outcome: Result<(), E>) -> (evaluated: Result<(), Error>)
    ensures
        evaluated == evaluation(outcome),
{
    match outcome {
        Ok(()) => Ok(()),
        Err(_) => Err(Error::EvaluateScript),
    }
}

/// What follows in a run of script calls: `made` calls have been made, and
/// `last` is what the last of them came to (`Ok` where none was made yet).
/// After a failure the run ends with the error `EvaluateScript`. Else the call
/// to make next is the one at `made`, or there is none left.
pub open spec fn step_of_run(calls: nat, made: nat, last: Result<(), Error>) -> Result<
    Option<nat>,
    Error,
> {
    match last {
        Err(_) => Err(Error::EvaluateScript),
        Ok(()) => Ok(
            if made < calls {
                Some(made)
            } else {
                None
            },
        ),
    }
}

/// The index that a step names, as a plain number.
pub open spec fn index_of_step(next: Result<Option<usize>, Error>) -> Result<Option<nat>, Error> {
    match next {
        Ok(Some(index)) => Ok(Some(index as nat)),
        Ok(None) => Ok(None),
        Err(error) => Err(error),
    }
}

/// One step of a run of script calls: which call the host makes next, after
/// it has made `made` of `calls` and the last one came to `last`.
///
/// A failed call ends the run with the error `EvaluateScript`: no later call
/// is made. After a call that succeeded, and before the first, the next call
/// is the one at `made`; when all are made the run is over, with `Ok(None)`.
pub fn next_script(calls: &Vec<ScriptCall>, made: usize, last: Result<(), Error>) -> (next: Result<
    Option<usize>,
    Error,
>)
    ensures
        index_of_step(next) == step_of_run(calls.len() as nat, made as nat, last),
        last is Err ==> next == Err::<Option<usize>, Error>(Error::EvaluateScript),
        last is Ok ==> next == Ok::<Option<usize>, Error>(
            if made < calls.len() {
                Some(made)
            } else {
                None
            },
        ),
{
    match last {
        Err(_) => Err(Error::EvaluateScript),
        Ok(()) => Ok(
            if made < calls.len() {
                Some(made)
            } else {
                None
            },
        ),
    }
}

/// A run of script calls from a step on: how many calls are made in the end,
/// and what the run comes to. `taken(i)` says whether the webview takes the
/// call at `i`. The host makes the call that a step names, and steps again
/// with what the call came to.
pub open spec fn run_of_calls(
    calls: nat,
    made: nat,
    last: Result<(), Error>,
    taken: spec_fn(nat) -> bool,
) -> (nat, Result<(), Error>)
    decreases calls - made,
{
    match step_of_run(calls, made, last) {
        Err(error) => (made, Err(error)),
        Ok(None) => (made, Ok(())),
        Ok(Some(index)) => run_of_calls(
            calls,
            index + 1,
            if taken(index) {
                Ok(())
            } else {
                Err(Error::EvaluateScript)
            },
            taken,
        ),
    }
}

/// A run that goes on after `made` calls that the webviews took stops at the
/// first call that a webview does not take.
proof fn lemma_run_stops_at_the_first_failure(
    calls: nat,
    made: nat,
    taken: spec_fn(nat) -> bool,
)
    requires
        made <= calls,
        forall|i: nat| i < made ==> #[trigger] taken(i),
    ensures
        ({
            let (count, result) = run_of_calls(calls, made, Ok(()), taken);
            &&& made <= count <= calls
            &&& result is Ok <==> forall|i: nat| i < calls ==> #[trigger] taken(i)
            &&& result is Ok ==> count == calls
            &&& result is Err ==> result == Err::<(), Error>(Error::EvaluateScript) && count > 0
                && !taken((count - 1) as nat)
            &&& forall|i: nat| i + 1 < count ==> #[trigger] taken(i)
        }),
    decreases calls - made,
{
    if made < calls {
        if taken(made) {
            lemma_run_stops_at_the_first_failure(calls, made + 1, taken);
        } else {
            let stopped = run_of_calls(calls, made + 1, Err(Error::EvaluateScript), taken);
            assert(stopped == (made + 1, Err::<(), Error>(Error::EvaluateScript)));
        }
    }
}

/// The scripts of a tick are evaluated in order, up to the first one that a
/// webview does not take: that call is the last one made, and the run comes
/// to the error `EvaluateScript`. The run comes to `Ok` if and only if no call
/// failed, and then every call was made.
pub proof fn lemma_script_run_stops_at_the_first_failure(calls: nat, taken: spec_fn(nat) -> bool)
    ensures
        ({
            let (count, result) = run_of_calls(calls, 0, Ok(()), taken);
            &&& count <= calls
            &&& result is Ok <==> forall|i: nat| i < calls ==> #[trigger] taken(i)
            &&& result is Ok ==> count == calls
            &&& result is Err ==> result == Err::<(), Error>(Error::EvaluateScript) && count > 0
                && !taken((count - 1) as nat)
            &&& forall|i: nat| i + 1 < count ==> #[trigger] taken(i)
        }),
{
    lemma_run_stops_at_the_first_failure(calls, 0, taken);
}

} // verus!
