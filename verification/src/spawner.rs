//! The injected capability that runs a unit of work somewhere else.

use orphan_crippler::Receiver;
use vstd::prelude::*;

verus! {

/// `orphan_crippler::Receiver`, the completion handle through which a spawned
/// unit of work delivers its one result. It is opaque here: this library only
/// hands such handles on and never waits on one.
#[verifier::external_type_specification]
#[verifier::external_body]
#[verifier::reject_recursive_types(R)]
pub struct ExReceiver<R>(Receiver<R>);

/// A trait representing a smart pointer to a thread pool that blocking tasks
/// can be spawned on.
///
/// An implementation runs the work it is given once, at or after the call, on
/// a worker of its choosing, and delivers what the work produced through the
/// handle it returns. Two units of work are not ordered against each other:
/// only a spawner that runs one unit at a time, in the order of submission,
/// makes the second see what the first has done.
pub trait Spawner {
    /// `value` is what `handle`, a handle that this spawner returned,
    /// delivers to whoever waits on it.
    ///
    /// An implementation that says nothing of its handles keeps this body:
    /// it then claims no delivery, and the promise of `spawn_blocking` is
    /// empty for it.
    open spec fn delivers<T>(&self, handle: Receiver<T>, value: T) -> bool {
        false
    }

    /// Submits `f` and returns at once with the handle of its result.
    ///
    /// The work must be callable as it stands. Whatever the handle delivers
    /// is a result of running `f`, and it delivers no second value.
    fn spawn_blocking<T: Send + Sync + 'static, F: FnOnce() -> T + Send + Sync + 'static>(
        &self,
        f: F,
    ) -> (r: Receiver<T>)
        requires
            call_requires(f, ()),
        ensures
            forall|value: T| #[trigger] self.delivers(r, value) ==> call_ensures(f, (), value),
            forall|first: T, second: T|
                #[trigger] self.delivers(r, first) && #[trigger] self.delivers(r, second) ==> first
                    == second,
    ;
}

} // verus!
