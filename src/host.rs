//! The module host: owner of the single active module of a slot.

use vstd::prelude::*;

verus! {

/// Why a module could not be loaded.
#[derive(Clone, Copy, Debug, PartialEq, Eq, Structural)]
pub enum LoadError {
    /// The artifact is not a loadable module.
    OpenFailed,
    /// The artifact loads but lacks one of the required entry points.
    MissingSymbol,
}

/// Why a call could not be forwarded to the module.
#[derive(Clone, Copy, Debug, PartialEq, Eq, Structural)]
pub enum HostError {
    /// The slot holds no module: the last load failed or the slot was halted.
    NoActiveModule,
}

/// Owns at most one loaded module `M` at a time.
pub struct ModuleHost<M> {
    module: Option<M>,
}

impl<M> ModuleHost<M> {
    /// The module the host holds, if any.
    pub closed spec fn module(&self) -> Option<M> {
        self.module
    }

    /// A host that holds the freshly loaded `module`.
    pub fn new(module: M) -> (r: ModuleHost<M>)
        ensures
            r.module() == Some(module),
    {
        ModuleHost { module: Some(module) }
    }

    /// A host that holds no module.
    pub fn empty() -> (r: ModuleHost<M>)
        ensures
            r.module() is None,
    {
        ModuleHost { module: None }
    }

    /// Whether a module is active.
    pub fn is_active(&self) -> (r: bool)
        ensures
            r == self.module() is Some,
    {
        self.module.is_some()
    }

    /// The active module, to forward `tick`, `render`, `capture_state` or
    /// `restore_state` to; fails when no module is active.
    pub fn active(&self) -> (r: Result<&M, HostError>)
        ensures
            self.module() is Some ==> r == Ok::<&M, HostError>(&self.module()->0),
            self.module() is None ==> r == Err::<&M, HostError>(HostError::NoActiveModule),
    {
        match &self.module {
            Some(m) => Ok(m),
            None => Err(HostError::NoActiveModule),
        }
    }

    /// Hands the active module out to be unloaded; the host is then empty.
    pub fn take(&mut self) -> (r: Option<M>)
        ensures
            r == old(self).module(),
            final(self).module() is None,
    {
        self.module.take()
    }

    /// Makes a freshly loaded module the active one.
    pub fn install(&mut self, module: M)
        requires
            old(self).module() is None,
        ensures
            final(self).module() == Some(module),
    {
        self.module = Some(module);
    }
}

} // verus!
