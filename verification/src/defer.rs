//! Work put off until a scope is left
use vstd::prelude::*;

verus! {

/// A piece of work put off until [`Defer::run`] is called
pub struct Defer<F: FnOnce()> {
    func: Option<F>,
}

impl<F: FnOnce()> Defer<F> {
    /// The work to be done
    pub closed spec fn func_view(&self) -> Option<F> {
        self.func
    }

    /// Put off `func`
    pub fn new(func: F) -> (r: Defer<F>)
        ensures
            r.func_view() == Some(func),
    {
        Defer { func: Some(func) }
    }

    /// Do the work that was put off
    pub fn run(self)
        requires
            self.func_view() matches Some(f) ==> f.requires(()),
        ensures
            self.func_view() matches Some(f) ==> f.ensures((), ()),
    {
        match self.func {
            Some(f) => f(),
            None => {},
        }
    }
}

} // verus!
