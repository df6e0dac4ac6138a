use std::path::PathBuf;
use vstd::prelude::*;

verus! {

/// What a handle is, mathematically: its path, the value in its slot paired
/// with the number of the fill that produced it, and how many fills the slot
/// has seen.
///
/// Each fill makes a new shared allocation, so the stamp stands for the
/// identity of a shared reference: two references handed out for the same
/// handle point to the same allocation exactly when their stamps agree.
pub struct HandleState<A> {
    pub path: PathBuf,
    pub held: Option<(A, nat)>,
    pub fills: nat,
}

impl<A> HandleState<A> {
    /// A held value comes from a fill that has already happened.
    pub open spec fn wf(self) -> bool {
        self.held is Some ==> (self.held->0).1 < self.fills
    }

    /// A fresh handle: nothing held, nothing ever filled.
    pub open spec fn empty(path: PathBuf) -> Self {
        HandleState { path, held: None, fills: 0 }
    }

    /// What a peek sees: the held value and its stamp.
    pub open spec fn peek(self) -> Option<(A, nat)> {
        self.held
    }

    /// Whether a load has to consult the loader.
    pub open spec fn needs_loader(self) -> bool {
        self.held is None
    }

    /// The slot after `v` is put into it by a new fill.
    pub open spec fn filled(self, v: A) -> Self {
        HandleState { path: self.path, held: Some((v, self.fills)), fills: self.fills + 1 }
    }

    /// The slot after it is emptied.
    pub open spec fn unloaded(self) -> Self {
        HandleState { path: self.path, held: None, fills: self.fills }
    }

    /// The handle after a load in which the loader, if consulted, produced
    /// `loaded`. A full slot is kept; an empty one takes a loaded value.
    pub open spec fn after_load<E>(self, loaded: Result<A, E>) -> Self {
        match self.held {
            Some(_) => self,
            None => match loaded {
                Ok(v) => self.filled(v),
                Err(_) => self,
            },
        }
    }

    /// What such a load returns: the held value with its stamp, or the
    /// loader's error.
    pub open spec fn load_result<E>(self, loaded: Result<A, E>) -> Result<(A, nat), E> {
        match self.held {
            Some(x) => Ok(x),
            None => match loaded {
                Ok(v) => Ok((v, self.fills)),
                Err(e) => Err(e),
            },
        }
    }
}

} // verus!
