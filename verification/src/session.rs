//! A session: one execution environment together with the module identity
//! under which its bindings live.

use vstd::prelude::*;

verus! {

/// What a session is, for contracts: the environment it owns and the name of
/// its module.
pub ghost struct SessionView<E> {
    pub environment: E,
    pub module: Seq<char>,
}

/// One environment bound to one module identity. The identity is fixed when
/// the session is made; the environment is lent out to whoever runs the
/// pipeline and is never replaced by this library.
pub struct Session<E> {
    environment: E,
    module: String,
}

impl<E> View for Session<E> {
    type V = SessionView<E>;

    closed spec fn view(&self) -> SessionView<E> {
        SessionView { environment: self.environment, module: self.module@ }
    }
}

impl<E> Session<E> {
    /// Binds `environment` to the module called `module`.
    pub fn new(environment: E, module: String) -> (session: Self)
        ensures
            session@.environment == environment,
            session@.module == module@,
    {
        Session { environment, module }
    }

    /// The module identity.
    pub fn module(&self) -> (name: &str)
        ensures
            name@ == self@.module,
    {
        self.module.as_str()
    }

    /// Lends the environment to one pipeline invocation. Whatever the
    /// borrower leaves in it is the session's environment afterwards; the
    /// module identity is untouched.
    pub fn environment(&mut self) -> (lent: &mut E)
        ensures
            *lent == old(self)@.environment,
            final(self)@.environment == *final(lent),
            final(self)@.module == old(self)@.module,
    {
        &mut self.environment
    }

    /// Ends the session and gives the environment back.
    pub fn close(self) -> (environment: E)
        ensures
            environment == self@.environment,
    {
        self.environment
    }
}

} // verus!
