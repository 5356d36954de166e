//! Process singleton guard: only one instance of the application runs.
//! A later invocation does not get a window of its own; its command-line
//! arguments and working directory are forwarded to the running
//! instance as one `newInstance` event, and the later invocation exits
//! with status 0.

use vstd::prelude::*;

verus! {

/// Arguments and working directory of a forwarded invocation.
#[derive(Clone, Debug)]
pub struct SingleInstancePayload {
    pub args: Vec<String>,
    pub cwd: String,
}

#[verifier::ext_equal]
pub ghost struct SingleInstancePayloadView {
    pub args: Seq<Seq<char>>,
    pub cwd: Seq<char>,
}

impl View for SingleInstancePayload {
    type V = SingleInstancePayloadView;

    open spec fn view(&self) -> SingleInstancePayloadView {
        SingleInstancePayloadView {
            args: self.args@.map_values(|s: String| s@),
            cwd: self.cwd@,
        }
    }
}

impl SingleInstancePayload {
    pub fn new(args: Vec<String>, cwd: String) -> (r: SingleInstancePayload)
        ensures
            r@ == (SingleInstancePayloadView {
                args: args@.map_values(|s: String| s@),
                cwd: cwd@,
            }),
    {
        SingleInstancePayload { args, cwd }
    }
}

/// What a fresh invocation does after probing the instance lock.
#[derive(Clone, Debug)]
pub enum LaunchDecision {
    /// The lock was acquired: this invocation is the single instance
    /// and startup continues.
    Proceed,
    /// Another instance holds the lock: forward the payload to it and
    /// terminate with the given status, creating no window.
    ForwardAndExit { payload: SingleInstancePayload, exit_code: i32 },
}

/// Decides a fresh invocation's fate from the instance-lock outcome.
/// Exactly when the lock is already held, the invocation forwards its
/// literal argument list and working directory and exits with status 0;
/// a failed delivery is not distinguished from success, it terminates
/// either way.
pub fn decide_launch(lock_acquired: bool, args: Vec<String>, cwd: String) -> (r: LaunchDecision)
    ensures
        lock_acquired <==> r is Proceed,
        !lock_acquired ==> (r matches LaunchDecision::ForwardAndExit { payload, exit_code }
            && payload@ == (SingleInstancePayloadView {
            args: args@.map_values(|s: String| s@),
            cwd: cwd@,
        }) && exit_code == 0),
{
    if lock_acquired {
        LaunchDecision::Proceed
    } else {
        LaunchDecision::ForwardAndExit {
            payload: SingleInstancePayload::new(args, cwd),
            exit_code: 0,
        }
    }
}

/// The one event the running instance raises when a forwarded
/// invocation reaches it: the event name and the payload carrying that
/// invocation's literal arguments and working directory, unchanged.
pub fn on_second_instance(args: Vec<String>, cwd: String) -> (r: (String, SingleInstancePayload))
    ensures
        r.0@ == "newInstance"@,
        r.1@ == (SingleInstancePayloadView {
            args: args@.map_values(|s: String| s@),
            cwd: cwd@,
        }),
{
    ("newInstance".to_owned(), SingleInstancePayload::new(args, cwd))
}

} // verus!
