//! Running a piece of work exactly once, and values built by such work
use vstd::prelude::*;
use core::marker::PhantomData;
use crate::exclusive_lock::RawExclusiveLock;

pub mod local;

verus! {

/// A lock that also records whether the work it guards is done, and whether
/// a run of that work panicked (poisoned it)
pub trait Finish: RawExclusiveLock {
    /// Whether the work is done
    spec fn done(&self) -> bool;

    /// Whether a run of the work panicked
    spec fn poisoned(&self) -> bool;

    /// Whether the work is done
    fn is_done(&self) -> (r: bool)
        ensures
            r == self.done(),
    ;

    /// Record that the work is done
    fn mark_done(&mut self)
        requires
            old(self).exc_wf(),
        ensures
            final(self).exc_wf(),
            final(self).done(),
            final(self).poisoned() == old(self).poisoned(),
            final(self).exc_count() == old(self).exc_count(),
            final(self).exc_available() == old(self).exc_available(),
    ;

    /// Whether a run of the work panicked
    fn is_poisoned(&self) -> (r: bool)
        ensures
            r == self.poisoned(),
    ;

    /// Record that a run of the work panicked
    fn mark_poisoned(&mut self)
        requires
            old(self).exc_wf(),
        ensures
            final(self).exc_wf(),
            final(self).poisoned(),
            final(self).done() == old(self).done(),
            final(self).exc_count() == old(self).exc_count(),
            final(self).exc_available() == old(self).exc_available(),
    ;

    /// Acquire the lock, leaving the flags alone
    fn lock_once(&mut self)
        requires
            old(self).exc_wf(),
            old(self).exc_available(),
        ensures
            final(self).exc_wf(),
            final(self).exc_count() == old(self).exc_count() + 1,
            final(self).done() == old(self).done(),
            final(self).poisoned() == old(self).poisoned(),
    ;

    /// Release the lock, leaving the flags alone
    fn unlock_once(&mut self)
        requires
            old(self).exc_wf(),
            old(self).exc_count() > 0,
        ensures
            final(self).exc_wf(),
            final(self).exc_count() == old(self).exc_count() - 1,
            final(self).exc_count() == 0 ==> final(self).exc_available(),
            final(self).done() == old(self).done(),
            final(self).poisoned() == old(self).poisoned(),
    ;
}

/// The state handed to the work of [`Once::force_call_once`]
pub struct OnceState(bool);

impl OnceState {
    /// The state of a run that follows a panicked one, or not
    pub closed spec fn with_poison(poisoned: bool) -> OnceState {
        OnceState(poisoned)
    }

    /// Whether an earlier run panicked
    pub closed spec fn poisoned_view(&self) -> bool {
        self.0
    }

    /// Whether an earlier run panicked
    pub fn is_poisoned(&self) -> (r: bool)
        ensures
            r == self.poisoned_view(),
    {
        self.0
    }
}

/// The state handed to the work tells the truth about the poison: the state
/// made for a run after a panicked one reports the poison, and the state made
/// for any other run reports none
pub proof fn state_reports_poison(poisoned: bool)
    ensures
        poisoned ==> OnceState::with_poison(poisoned).poisoned_view(),
        !poisoned ==> !OnceState::with_poison(poisoned).poisoned_view(),
{
}

/// A lock guarding a piece of work that runs once
pub struct Once<L> {
    lock: L,
}

impl<L> Once<L> {
    /// The lock and its flags
    pub closed spec fn lock_view(&self) -> L {
        self.lock
    }

    /// A `Once` over a fresh lock
    pub fn from_raw(lock: L) -> (r: Self)
        ensures
            r.lock_view() == lock,
    {
        Once { lock }
    }
}

impl<L: Finish + crate::Init> crate::Init for Once<L> {
    open spec fn is_init(&self) -> bool {
        self.lock_view().is_init()
    }

    fn init() -> (r: Self) {
        Once { lock: L::init() }
    }
}

/// What a call of [`Once::call_once`] or [`Once::force_call_once`] leaves
/// behind, given the `Once` it found: the work is done, and a `Once` whose
/// work was already done is left as it was
pub open spec fn called_once<L: Finish>(before: Once<L>, after: Once<L>) -> bool {
    &&& after.lock_view().exc_wf()
    &&& after.lock_view().done()
    &&& before.lock_view().done() ==> after == before
}

/// Once the work has run, calling the `Once` again changes nothing: `a` is the
/// `Once` before a first call, `b` after it, `c` after a second call
pub proof fn later_calls_change_nothing<L: Finish>(a: Once<L>, b: Once<L>, c: Once<L>)
    requires
        called_once(a, b),
        called_once(b, c),
    ensures
        c == b,
{
}

/// Runs the work, then records that it is done
fn run_once_unchecked<L: Finish, F: FnOnce(&OnceState)>(lock: &mut L, f: F)
    requires
        old(lock).exc_wf(),
        f.requires((&OnceState::with_poison(old(lock).poisoned()),)),
    ensures
        final(lock).exc_wf(),
        f.ensures((&OnceState::with_poison(old(lock).poisoned()),), ()),
        final(lock).done(),
        final(lock).poisoned() == old(lock).poisoned(),
        final(lock).exc_count() == old(lock).exc_count(),
        final(lock).exc_available() == old(lock).exc_available(),
{
    let is_poisoned = lock.is_poisoned();
    let state = OnceState(is_poisoned);
    f(&state);
    lock.mark_done();
}

impl<L: Finish> Once<L> {
    /// Runs `f` unless the work is already done
    ///
    /// A poisoned `Once` that is not done panics.
    pub fn call_once<F: FnOnce()>(&mut self, f: F)
        requires
            old(self).lock_view().exc_wf(),
            !old(self).lock_view().done() ==> old(self).lock_view().exc_available()
                && !old(self).lock_view().poisoned() && f.requires(()),
        ensures
            called_once(*old(self), *final(self)),
            final(self).lock_view().exc_wf(),
            final(self).lock_view().done(),
            old(self).lock_view().done() ==> *final(self) == *old(self),
            !old(self).lock_view().done() ==> f.ensures((), ())
                && !final(self).lock_view().poisoned()
                && final(self).lock_view().exc_count() == old(self).lock_view().exc_count()
                && final(self).lock_view().exc_available(),
    {
        if !self.lock.is_done() {
            proof {
                self.lock.lemma_available_unheld();
            }
            self.lock.lock_once();
            if !self.lock.is_done() {
                f();
                self.lock.mark_done();
            }
            self.lock.unlock_once();
        }
    }

    /// Runs `f` unless the work is already done, without locking: the
    /// mutable borrow already rules out any other caller
    ///
    /// A poisoned `Once` that is not done panics.
    pub fn call_once_mut<F: FnOnce()>(&mut self, f: F)
        requires
            old(self).lock_view().exc_wf(),
            !old(self).lock_view().done() ==> !old(self).lock_view().poisoned() && f.requires(()),
        ensures
            called_once(*old(self), *final(self)),
            final(self).lock_view().exc_wf(),
            final(self).lock_view().done(),
            old(self).lock_view().done() ==> *final(self) == *old(self),
            !old(self).lock_view().done() ==> f.ensures((), ())
                && !final(self).lock_view().poisoned()
                && final(self).lock_view().exc_count() == old(self).lock_view().exc_count(),
    {
        if !self.lock.is_done() {
            f();
            self.lock.mark_done();
        }
    }

    /// Runs `f` unless the work is already done, telling it whether an
    /// earlier run panicked
    pub fn force_call_once<F: FnOnce(&OnceState)>(&mut self, f: F)
        requires
            old(self).lock_view().exc_wf(),
            !old(self).lock_view().done() ==> old(self).lock_view().exc_available()
                && f.requires((&OnceState::with_poison(old(self).lock_view().poisoned()),)),
        ensures
            called_once(*old(self), *final(self)),
            final(self).lock_view().exc_wf(),
            final(self).lock_view().done(),
            old(self).lock_view().done() ==> *final(self) == *old(self),
            !old(self).lock_view().done() ==> f.ensures((&OnceState::with_poison(old(self).lock_view().poisoned()),), ())
                && final(self).lock_view().poisoned() == old(self).lock_view().poisoned()
                && final(self).lock_view().exc_count() == old(self).lock_view().exc_count()
                && final(self).lock_view().exc_available(),
    {
        if !self.lock.is_done() {
            proof {
                self.lock.lemma_available_unheld();
            }
            self.lock.lock_once();
            if !self.lock.is_done() {
                run_once_unchecked(&mut self.lock, f);
            }
            self.lock.unlock_once();
        }
    }

    /// Runs `f` unless the work is already done, without locking
    pub fn force_call_once_mut<F: FnOnce(&OnceState)>(&mut self, f: F)
        requires
            old(self).lock_view().exc_wf(),
            !old(self).lock_view().done() ==> f.requires((&OnceState::with_poison(old(self).lock_view().poisoned()),)),
        ensures
            called_once(*old(self), *final(self)),
            final(self).lock_view().exc_wf(),
            final(self).lock_view().done(),
            old(self).lock_view().done() ==> *final(self) == *old(self),
            !old(self).lock_view().done() ==> f.ensures((&OnceState::with_poison(old(self).lock_view().poisoned()),), ())
                && final(self).lock_view().poisoned() == old(self).lock_view().poisoned()
                && final(self).lock_view().exc_count() == old(self).lock_view().exc_count(),
    {
        if !self.lock.is_done() {
            run_once_unchecked(&mut self.lock, f);
        }
    }
}

/// A value built, at most once, by a piece of work
pub struct OnceCell<L, T> {
    once: Once<L>,
    value: Option<T>,
}

impl<L: Finish, T> OnceCell<L, T> {
    /// The `Once` that guards the value
    pub closed spec fn once_view(&self) -> Once<L> {
        self.once
    }

    /// The value, once built
    pub closed spec fn value_view(&self) -> Option<T> {
        self.value
    }

    /// The lock is usable and the value is there exactly when the work is done
    pub open spec fn wf(&self) -> bool {
        &&& self.once_view().lock_view().exc_wf()
        &&& self.once_view().lock_view().done() == self.value_view() is Some
    }

    /// An empty cell over a `Once` whose work is not done
    pub fn from_once(once: Once<L>) -> (r: Self)
        ensures
            r.once_view() == once,
            r.value_view() is None,
    {
        OnceCell { once, value: None }
    }

    /// The value, if it was built
    pub fn get(&self) -> (r: Option<&T>)
        requires
            self.wf(),
        ensures
            r is Some <==> self.once_view().lock_view().done(),
            r matches Some(v) ==> *v == self.value_view()->0,
    {
        if self.once.lock.is_done() {
            match &self.value {
                Some(v) => Some(v),
                None => None,
            }
        } else {
            None
        }
    }

    /// The value, if it was built, to change it
    pub fn get_mut(&mut self) -> (r: Option<&mut T>)
        requires
            old(self).wf(),
        ensures
            r is Some <==> old(self).once_view().lock_view().done(),
            r matches Some(v) ==> *v == old(self).value_view()->0
                && final(self).value_view() == Some(*final(v)),
            r is None ==> final(self).value_view() == old(self).value_view(),
            final(self).once_view() == old(self).once_view(),
    {
        if self.once.lock.is_done() {
            match &mut self.value {
                Some(v) => Some(v),
                None => None,
            }
        } else {
            None
        }
    }

    /// The value of a cell whose work is done
    pub fn get_unchecked(&self) -> (r: &T)
        requires
            self.wf(),
            self.once_view().lock_view().done(),
        ensures
            self.value_view() == Some(*r),
    {
        match &self.value {
            Some(v) => v,
            None => vstd::pervasive::unreached(),
        }
    }

    /// The value of a cell whose work is done, to change it
    pub fn get_unchecked_mut(&mut self) -> (r: &mut T)
        requires
            old(self).wf(),
            old(self).once_view().lock_view().done(),
        ensures
            old(self).value_view() == Some(*r),
            final(self).value_view() == Some(*final(r)),
            final(self).once_view() == old(self).once_view(),
    {
        match &mut self.value {
            Some(v) => v,
            None => vstd::pervasive::unreached(),
        }
    }

    /// The value, built by `f` first if it was not built yet
    pub fn get_or_init<F: FnOnce() -> T>(&mut self, f: F) -> (r: &T)
        requires
            old(self).wf(),
            !old(self).once_view().lock_view().done() ==> old(self).once_view().lock_view().exc_available()
                && f.requires(()),
        ensures
            final(self).wf(),
            final(self).value_view() == Some(*r),
            old(self).once_view().lock_view().done() ==> *final(self) == *old(self),
            !old(self).once_view().lock_view().done() ==> f.ensures((), *r)
                && final(self).once_view().lock_view().exc_count() == old(self).once_view().lock_view().exc_count()
                && final(self).once_view().lock_view().exc_available(),
    {
        if !self.once.lock.is_done() {
            proof {
                self.once.lock.lemma_available_unheld();
            }
            self.once.lock.lock_once();
            if !self.once.lock.is_done() {
                let v = f();
                self.value = Some(v);
                self.once.lock.mark_done();
            }
            self.once.lock.unlock_once();
        }
        match &self.value {
            Some(v) => v,
            None => vstd::pervasive::unreached(),
        }
    }

    /// The value, built by `f` first if it was not built yet, without
    /// locking: the mutable borrow already rules out any other caller
    pub fn get_or_init_mut<F: FnOnce() -> T>(&mut self, f: F) -> (r: &mut T)
        requires
            old(self).wf(),
            !old(self).once_view().lock_view().done() ==> f.requires(()),
        ensures
            final(self).wf(),
            final(self).value_view() == Some(*final(r)),
            old(self).once_view().lock_view().done() ==> *r == old(self).value_view()->0
                && final(self).once_view() == old(self).once_view(),
            !old(self).once_view().lock_view().done() ==> f.ensures((), *r)
                && final(self).once_view().lock_view().exc_count() == old(self).once_view().lock_view().exc_count(),
    {
        if !self.once.lock.is_done() {
            let v = f();
            self.value = Some(v);
            self.once.lock.mark_done();
        }
        match &mut self.value {
            Some(v) => v,
            None => vstd::pervasive::unreached(),
        }
    }

    /// The value, built by `f` first if it was not built yet; `f` runs before
    /// the lock is taken, so racing callers may each run it and only the
    /// first value is kept
    pub fn get_or_init_racy<F: FnOnce() -> T>(&mut self, f: F) -> (r: &T)
        requires
            old(self).wf(),
            !old(self).once_view().lock_view().done() ==> old(self).once_view().lock_view().exc_available()
                && f.requires(()),
        ensures
            final(self).wf(),
            final(self).value_view() == Some(*r),
            old(self).once_view().lock_view().done() ==> *final(self) == *old(self),
            !old(self).once_view().lock_view().done() ==> f.ensures((), *r)
                && final(self).once_view().lock_view().exc_count() == old(self).once_view().lock_view().exc_count()
                && final(self).once_view().lock_view().exc_available(),
    {
        if !self.once.lock.is_done() {
            let v = f();
            proof {
                self.once.lock.lemma_available_unheld();
            }
            self.once.lock.lock_once();
            if !self.once.lock.is_done() {
                self.value = Some(v);
                self.once.lock.mark_done();
            }
            self.once.lock.unlock_once();
        }
        match &self.value {
            Some(v) => v,
            None => vstd::pervasive::unreached(),
        }
    }
}

impl<L: Finish + crate::Init, T> OnceCell<L, T> {
    /// An empty cell
    pub fn new() -> (r: Self)
        ensures
            r.once_view().lock_view().is_init(),
            r.value_view() is None,
    {
        OnceCell { once: Once { lock: L::init() }, value: None }
    }
}

/// The strategy of a [`Lazy`] whose work panics on a poisoned `Once`
pub struct Panic;

/// The strategy of a [`Lazy`] whose work runs again after a panicked run
pub struct Retry;

/// What a [`Lazy`] holds: the work, or its value
pub enum LazyInner<F, T> {
    /// The work, not run yet
    Func(F),
    /// The value the work built
    Value(T),
    /// The work is running
    Empty,
}

/// A value built, the first time it is needed, by the work it holds
pub struct Lazy<L, T, F, S> {
    once: Once<L>,
    inner: LazyInner<F, T>,
    strategy: PhantomData<S>,
}

impl<L: Finish, T, F, S> Lazy<L, T, F, S> {
    /// The `Once` that guards the work
    pub closed spec fn once_view(&self) -> Once<L> {
        self.once
    }

    /// The work or its value
    pub closed spec fn inner_view(&self) -> LazyInner<F, T> {
        self.inner
    }

    /// The lock is usable, the value is there exactly when the work is done,
    /// and the work is there otherwise
    pub open spec fn wf(&self) -> bool {
        &&& self.once_view().lock_view().exc_wf()
        &&& self.once_view().lock_view().done() ==> self.inner_view() is Value
        &&& !self.once_view().lock_view().done() ==> self.inner_view() is Func
    }

    /// A lazy value over a `Once` whose work is not done
    pub fn from_raw_parts(once: Once<L>, func: F) -> (r: Self)
        ensures
            r.once_view() == once,
            r.inner_view() == LazyInner::<F, T>::Func(func),
    {
        Lazy { once, inner: LazyInner::Func(func), strategy: PhantomData }
    }

    /// The value of a lazy value whose work is done
    pub fn get_unchecked(this: &Self) -> (r: &T)
        requires
            this.wf(),
            this.once_view().lock_view().done(),
        ensures
            this.inner_view() == LazyInner::<F, T>::Value(*r),
    {
        match &this.inner {
            LazyInner::Value(v) => v,
            _ => vstd::pervasive::unreached(),
        }
    }

    /// The value of a lazy value whose work is done, to change it
    pub fn get_unchecked_mut(this: &mut Self) -> (r: &mut T)
        requires
            old(this).wf(),
            old(this).once_view().lock_view().done(),
        ensures
            old(this).inner_view() == LazyInner::<F, T>::Value(*r),
            final(this).inner_view() == LazyInner::<F, T>::Value(*final(r)),
            final(this).once_view() == old(this).once_view(),
    {
        match &mut this.inner {
            LazyInner::Value(v) => v,
            _ => vstd::pervasive::unreached(),
        }
    }
}

impl<L: Finish + crate::Init, T, F: FnOnce() -> T> Lazy<L, T, F, Panic> {
    /// A lazy value that will run `func`
    pub fn new(func: F) -> (r: Self)
        ensures
            r.once_view().lock_view().is_init(),
            r.inner_view() == LazyInner::<F, T>::Func(func),
    {
        Lazy { once: Once { lock: L::init() }, inner: LazyInner::Func(func), strategy: PhantomData }
    }
}

impl<L: Finish + crate::Init, T, F: FnMut(&OnceState) -> T> Lazy<L, T, F, Retry> {
    /// A lazy value that will run `func`, again after a panicked run
    pub fn new_retry(func: F) -> (r: Self)
        ensures
            r.once_view().lock_view().is_init(),
            r.inner_view() == LazyInner::<F, T>::Func(func),
    {
        Lazy { once: Once { lock: L::init() }, inner: LazyInner::Func(func), strategy: PhantomData }
    }
}

impl<L: Finish, T, F: FnOnce() -> T> Lazy<L, T, F, Panic> {
    /// The value, built by the work first if it was not built yet
    ///
    /// A poisoned lazy value that is not built yet panics.
    pub fn force(this: &mut Self) -> (r: &T)
        requires
            old(this).wf(),
            !old(this).once_view().lock_view().done() ==> old(this).once_view().lock_view().exc_available()
                && !old(this).once_view().lock_view().poisoned()
                && old(this).inner_view()->Func_0.requires(()),
        ensures
            final(this).wf(),
            final(this).inner_view() == LazyInner::<F, T>::Value(*r),
            old(this).once_view().lock_view().done() ==> *final(this) == *old(this),
            !old(this).once_view().lock_view().done() ==> old(this).inner_view()->Func_0.ensures((), *r)
                && final(this).once_view().lock_view().exc_available(),
    {
        if !this.once.lock.is_done() {
            proof {
                this.once.lock.lemma_available_unheld();
            }
            this.once.lock.lock_once();
            if !this.once.lock.is_done() {
                let mut inner = LazyInner::Empty;
                core::mem::swap(&mut this.inner, &mut inner);
                match inner {
                    LazyInner::Func(func) => {
                        let v = func();
                        this.inner = LazyInner::Value(v);
                    },
                    _ => {},
                }
                this.once.lock.mark_done();
            }
            this.once.lock.unlock_once();
        }
        match &this.inner {
            LazyInner::Value(v) => v,
            _ => vstd::pervasive::unreached(),
        }
    }

    /// The value, built by the work first if it was not built yet, to change it
    ///
    /// A poisoned lazy value that is not built yet panics.
    pub fn force_mut(this: &mut Self) -> (r: &mut T)
        requires
            old(this).wf(),
            !old(this).once_view().lock_view().done() ==> old(this).once_view().lock_view().exc_available()
                && !old(this).once_view().lock_view().poisoned()
                && old(this).inner_view()->Func_0.requires(()),
        ensures
            final(this).wf(),
            final(this).inner_view() == LazyInner::<F, T>::Value(*final(r)),
            old(this).once_view().lock_view().done() ==> old(this).inner_view() == LazyInner::<F, T>::Value(*r),
            !old(this).once_view().lock_view().done() ==> old(this).inner_view()->Func_0.ensures((), *r),
    {
        Self::force(this);
        Self::get_unchecked_mut(this)
    }
}

impl<L: Finish, T, F: FnMut(&OnceState) -> T> Lazy<L, T, F, Retry> {
    /// The value, built by the work first if it was not built yet; the work is
    /// told whether an earlier run panicked
    pub fn force(this: &mut Self) -> (r: &T)
        requires
            old(this).wf(),
            !old(this).once_view().lock_view().done() ==> old(this).once_view().lock_view().exc_available()
                && old(this).inner_view()->Func_0.requires(
                (&OnceState::with_poison(old(this).once_view().lock_view().poisoned()),),
            ),
        ensures
            final(this).wf(),
            final(this).inner_view() == LazyInner::<F, T>::Value(*r),
            old(this).once_view().lock_view().done() ==> *final(this) == *old(this),
            !old(this).once_view().lock_view().done() ==> old(this).inner_view()->Func_0.ensures(
                (&OnceState::with_poison(old(this).once_view().lock_view().poisoned()),), *r)
                && final(this).once_view().lock_view().exc_available(),
    {
        if !this.once.lock.is_done() {
            proof {
                this.once.lock.lemma_available_unheld();
            }
            this.once.lock.lock_once();
            if !this.once.lock.is_done() {
                let is_poisoned = this.once.lock.is_poisoned();
                let state = OnceState(is_poisoned);
                let mut inner = LazyInner::Empty;
                core::mem::swap(&mut this.inner, &mut inner);
                match inner {
                    LazyInner::Func(mut func) => {
                        let v = func(&state);
                        this.inner = LazyInner::Value(v);
                    },
                    _ => {},
                }
                this.once.lock.mark_done();
            }
            this.once.lock.unlock_once();
        }
        match &this.inner {
            LazyInner::Value(v) => v,
            _ => vstd::pervasive::unreached(),
        }
    }

    /// The value, built by the work first if it was not built yet, to change it
    pub fn force_mut(this: &mut Self) -> (r: &mut T)
        requires
            old(this).wf(),
            !old(this).once_view().lock_view().done() ==> old(this).once_view().lock_view().exc_available()
                && old(this).inner_view()->Func_0.requires(
                (&OnceState::with_poison(old(this).once_view().lock_view().poisoned()),),
            ),
        ensures
            final(this).wf(),
            final(this).inner_view() == LazyInner::<F, T>::Value(*final(r)),
            old(this).once_view().lock_view().done() ==> old(this).inner_view() == LazyInner::<F, T>::Value(*r),
            !old(this).once_view().lock_view().done() ==> old(this).inner_view()->Func_0.ensures(
                (&OnceState::with_poison(old(this).once_view().lock_view().poisoned()),), *r),
    {
        Self::force(this);
        Self::get_unchecked_mut(this)
    }
}

/// A value built, the first time it is needed, by a function it keeps;
/// racing callers may each run the function, and only the first value is kept
pub struct RacyLazy<L, T, F> {
    once: OnceCell<L, T>,
    func: F,
}

/// What [`RacyLazy::force`] leaves behind, given the value it found, and the
/// value `r` it gives: the value is built and is `r`, and a value that was
/// already built is left as it was
pub open spec fn forced<L: Finish, T, F: Fn() -> T>(before: RacyLazy<L, T, F>, after: RacyLazy<L, T, F>, r: T) -> bool {
    &&& after.cell_view().wf()
    &&& after.cell_view().value_view() == Some(r)
    &&& before.cell_view().once_view().lock_view().done() ==> after == before
}

/// Forcing a racy lazy value again gives the value the first force gave and
/// changes nothing: `a` is the lazy value before a first force, `b` after it
/// and `first` what it gave; `c` is the lazy value after a second force and
/// `second` what that gave
pub proof fn force_again_gives_the_same<L: Finish, T, F: Fn() -> T>(
    a: RacyLazy<L, T, F>,
    b: RacyLazy<L, T, F>,
    c: RacyLazy<L, T, F>,
    first: T,
    second: T,
)
    requires
        forced(a, b, first),
        forced(b, c, second),
    ensures
        c == b,
        second == first,
{
}

impl<L: Finish, T, F: Fn() -> T> RacyLazy<L, T, F> {
    /// The cell of the value
    pub closed spec fn cell_view(&self) -> OnceCell<L, T> {
        self.once
    }

    /// The function that builds the value
    pub closed spec fn func_view(&self) -> F {
        self.func
    }

    /// A racy lazy value from an empty cell and a function
    pub fn from_parts(once: OnceCell<L, T>, func: F) -> (r: Self)
        ensures
            r.cell_view() == once,
            r.func_view() == func,
    {
        RacyLazy { once, func }
    }

    /// The value of a racy lazy value that was built
    pub fn get_unchecked(this: &Self) -> (r: &T)
        requires
            this.cell_view().wf(),
            this.cell_view().once_view().lock_view().done(),
        ensures
            this.cell_view().value_view() == Some(*r),
    {
        this.once.get_unchecked()
    }

    /// The value of a racy lazy value that was built, to change it
    pub fn get_unchecked_mut(this: &mut Self) -> (r: &mut T)
        requires
            old(this).cell_view().wf(),
            old(this).cell_view().once_view().lock_view().done(),
        ensures
            old(this).cell_view().value_view() == Some(*r),
            final(this).cell_view().value_view() == Some(*final(r)),
            final(this).cell_view().once_view() == old(this).cell_view().once_view(),
            final(this).func_view() == old(this).func_view(),
    {
        this.once.get_unchecked_mut()
    }

    /// The value, built by the function first if it was not built yet
    pub fn force(this: &mut Self) -> (r: &T)
        requires
            old(this).cell_view().wf(),
            !old(this).cell_view().once_view().lock_view().done()
                ==> old(this).cell_view().once_view().lock_view().exc_available()
                && old(this).func_view().requires(()),
        ensures
            forced(*old(this), *final(this), *r),
            final(this).cell_view().wf(),
            final(this).cell_view().value_view() == Some(*r),
            final(this).func_view() == old(this).func_view(),
            old(this).cell_view().once_view().lock_view().done() ==> *final(this) == *old(this),
            !old(this).cell_view().once_view().lock_view().done() ==> old(this).func_view().ensures((), *r),
    {
        let RacyLazy { once, func } = this;
        let f: &F = &*func;
        once.get_or_init_racy(move || -> (v: T)
            requires
                f.requires(()),
            ensures
                f.ensures((), v),
            { f() })
    }

    /// The value, built by the function first if it was not built yet,
    /// without locking
    pub fn force_mut(this: &mut Self) -> (r: &mut T)
        requires
            old(this).cell_view().wf(),
            !old(this).cell_view().once_view().lock_view().done() ==> old(this).func_view().requires(()),
        ensures
            final(this).cell_view().wf(),
            final(this).cell_view().value_view() == Some(*final(r)),
            final(this).func_view() == old(this).func_view(),
            old(this).cell_view().once_view().lock_view().done() ==> *r == old(this).cell_view().value_view()->0,
            !old(this).cell_view().once_view().lock_view().done() ==> old(this).func_view().ensures((), *r),
    {
        let RacyLazy { once, func } = this;
        let f: &F = &*func;
        once.get_or_init_mut(move || -> (v: T)
            requires
                f.requires(()),
            ensures
                f.ensures((), v),
            { f() })
    }
}

impl<L: Finish + crate::Init, T, F: Fn() -> T> RacyLazy<L, T, F> {
    /// A racy lazy value that will run `func`
    pub fn new(func: F) -> (r: Self)
        ensures
            r.cell_view().once_view().lock_view().is_init(),
            r.cell_view().value_view() is None,
            r.func_view() == func,
    {
        RacyLazy { once: OnceCell::new(), func }
    }
}

impl<L: Finish + crate::Init> Default for Once<L> {
    /// A `Once` whose work is not done
    fn default() -> (r: Self)
        ensures
            r.lock_view().is_init(),
    {
        Once { lock: L::init() }
    }
}

impl<L: Finish + crate::Init, T> Default for OnceCell<L, T> {
    /// An empty cell
    fn default() -> (r: Self)
        ensures
            r.once_view().lock_view().is_init(),
            r.value_view() is None,
    {
        OnceCell::new()
    }
}

} // verus!
