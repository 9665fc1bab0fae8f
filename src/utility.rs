//! Small helpers shared by the modules.

use vstd::prelude::*;

verus! {

/// Runs a side effect on the error of a result, for cleanup on the error
/// path, and hands the result on unchanged.
pub trait OnErr<T, E>: Sized {
    /// The result that `self` stands for.
    spec fn as_result(self) -> Result<T, E>;

    fn on_err<O: FnOnce(&E)>(self, op: O) -> (r: Result<T, E>)
        requires
            forall|e: &E| #[trigger] op.requires((e,)),
        ensures
            r == self.as_result(),
    ;
}

impl<T, E> OnErr<T, E> for Result<T, E> {
    open spec fn as_result(self) -> Result<T, E> {
        self
    }

    fn on_err<O: FnOnce(&E)>(self, op: O) -> (r: Result<T, E>) {
        if let Err(e) = &self {
            op(e);
        }
        self
    }
}

} // verus!
