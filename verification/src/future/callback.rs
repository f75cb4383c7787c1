//! One-shot callbacks that can be kept in a shared state and called later
//! from another thread.

use vstd::prelude::*;

verus! {

/// A value that can be called once, from a box, with an argument.
pub trait Receive<A>: Send {
    /// Whether the value may be called with `a`.
    spec fn accepts(&self, a: A) -> bool;

    /// What holds once the value has been called with `a`.
    spec fn served(&self, a: A) -> bool;

    fn receive(self: Box<Self>, a: A)
        requires
            self.accepts(a),
        ensures
            self.served(a),
    ;
}

impl<A, F: FnOnce(A) + Send> Receive<A> for F {
    open spec fn accepts(&self, a: A) -> bool {
        self.requires((a,))
    }

    open spec fn served(&self, a: A) -> bool {
        self.ensures((a,), ())
    }

    fn receive(self: Box<Self>, a: A) {
        (*self)(a)
    }
}

/// A boxed one-shot function that may be called with any argument. Calling
/// it consumes it, so it runs at most once.
#[verifier::reject_recursive_types(A)]
pub struct Callback<A> {
    f: Box<dyn Receive<A>>,
}

impl<A> Callback<A> {
    #[verifier::type_invariant]
    spec fn total(self) -> bool {
        forall|a: A| self.f.accepts(a)
    }

    /// What holds once the callback has been called with `a`: what the
    /// function that it was made of ensures of that call.
    pub closed spec fn served(self, a: A) -> bool {
        self.f.served(a)
    }

    /// The callback that calls `f`.
    pub fn new<F>(f: F) -> (cb: Callback<A>) where F: FnOnce(A) + Send + 'static
        requires
            forall|a: A| f.requires((a,)),
        ensures
            forall|a: A| cb.served(a) == f.ensures((a,), ()),
    {
        let boxed: Box<F> = Box::new(f);
        assert(forall|a: A| boxed.accepts(a));
        assert(forall|a: A| boxed.served(a) == f.ensures((a,), ()));
        let erased: Box<dyn Receive<A>> = boxed;
        assert(forall|a: A| erased.accepts(a));
        assert(forall|a: A| erased.served(a) == f.ensures((a,), ()));
        Callback { f: erased }
    }

    /// Calls the function with `a`.
    pub fn call(self, a: A)
        ensures
            self.served(a),
    {
        proof {
            use_type_invariant(&self);
        }
        self.f.receive(a)
    }
}

/// What a transition of a shared state asks its caller to do once the lock
/// is released.
#[verifier::reject_recursive_types(A)]
pub enum Notify<A> {
    /// Call the callback with the argument.
    Invoke(Callback<A>, A),
    /// Wake the thread that sleeps on the state's condition variable.
    Signal,
    /// Nothing: nobody waits.
    Nothing,
}

} // verus!
