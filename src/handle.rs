use crate::state::HandleState;
use std::path::PathBuf;
use std::sync::Arc;
use vstd::prelude::*;

verus! {

/// `PathBuf` is carried through the handle unchanged; nothing here looks inside it.
#[verifier::external_type_specification]
#[verifier::external_body]
pub struct ExPathBuf(PathBuf);

/// Relies on `PathBuf::clone`: the copy names the same path.
pub assume_specification[ <PathBuf as Clone>::clone ](p: &PathBuf) -> (r: PathBuf)
    ensures
        r == *p,
;

/// A path together with a slot that is either empty or holds one shared asset.
///
/// The ghost counter `fills` numbers the fills of the slot, and `stamp`
/// records which fill produced the value now held (see `HandleState`).
pub struct AssetHandle<A> {
    path: PathBuf,
    asset: Option<Arc<A>>,
    fills: Ghost<nat>,
    stamp: Ghost<nat>,
}

impl<A> View for AssetHandle<A> {
    type V = HandleState<A>;

    closed spec fn view(&self) -> HandleState<A> {
        HandleState {
            path: self.path,
            held: match self.asset {
                Some(a) => Some((*a, self.stamp@)),
                None => None,
            },
            fills: self.fills@,
        }
    }
}

/// `r` is a shared reference to the value of `x`, the reference of fill `x.1`.
pub open spec fn refers_to<A>(r: Arc<A>, x: (A, nat)) -> bool {
    *r == x.0
}

impl<A> AssetHandle<A> {
    /// Every handle is well formed: a held value comes from a fill that has
    /// already happened.
    #[verifier::type_invariant]
    spec fn inv(&self) -> bool {
        self@.wf()
    }

    /// Makes an empty handle for `path`. No I/O is performed.
    pub fn new(path: PathBuf) -> (r: Self)
        ensures
            r@ == HandleState::<A>::empty(path),
            r@.wf(),
    {
        AssetHandle { path, asset: None, fills: Ghost(0), stamp: Ghost(0) }
    }

    /// Peeks at the slot: the held shared reference, or `None` when empty.
    /// Never runs the loader.
    pub fn get(&self) -> (r: Option<&Arc<A>>)
        ensures
            r is Some <==> self@.peek() is Some,
            r is Some ==> refers_to(*r->0, self@.peek()->0),
            self@.wf(),
    {
        proof {
            use_type_invariant(self);
        }
        self.asset.as_ref()
    }

    /// The path the handle loads from.
    pub fn path(&self) -> (r: &PathBuf)
        ensures
            *r == self@.path,
            self@.wf(),
    {
        proof {
            use_type_invariant(self);
        }
        &self.path
    }

    /// Puts `asset` into the slot behind a new shared reference, replacing
    /// whatever was held. The loader is not involved.
    pub fn set_raw(&mut self, asset: A)
        ensures
            final(self)@ == old(self)@.filled(asset),
            final(self)@.wf(),
    {
        proof {
            use_type_invariant(&*self);
        }
        let ghost n = self.fills@;
        self.fills = Ghost(n + 1);
        self.stamp = Ghost(n);
        self.asset = Some(Arc::new(asset));
    }

    /// Drops the handle's shared reference and leaves the slot empty.
    /// References already handed out stay valid.
    pub fn unload(&mut self)
        ensures
            final(self)@ == old(self)@.unloaded(),
            final(self)@.wf(),
    {
        proof {
            use_type_invariant(&*self);
        }
        self.asset = None;
    }

    /// The first half of a load: a new shared reference to the held value
    /// when the slot is full, so that no loader needs to run; `None` when
    /// the loader has to be consulted.
    pub fn load_cached(&self) -> (r: Option<Arc<A>>)
        ensures
            r is None <==> self@.needs_loader(),
            r is Some ==> refers_to(r->0, self@.peek()->0),
            self@.wf(),
    {
        proof {
            use_type_invariant(self);
        }
        match &self.asset {
            Some(a) => Some(a.clone()),
            None => None,
        }
    }

    /// The second half of a load, given what the loader produced for this
    /// handle's path. A full slot is returned as it is and `loaded` is
    /// dropped. An empty slot takes a loaded value behind a new shared
    /// reference and returns it; a loader error is passed on and the slot
    /// stays empty.
    pub fn load_with<E>(&mut self, loaded: Result<A, E>) -> (r: Result<Arc<A>, E>)
        ensures
            final(self)@ == old(self)@.after_load(loaded),
            final(self)@.wf(),
            match (r, old(self)@.load_result(loaded)) {
                (Ok(a), Ok(x)) => refers_to(a, x),
                (Err(e), Err(f)) => e == f,
                _ => false,
            },
    {
        proof {
            use_type_invariant(&*self);
        }
        if let Some(a) = &self.asset {
            return Ok(a.clone());
        }
        match loaded {
            Ok(v) => {
                let a = Arc::new(v);
                let ghost n = self.fills@;
                self.fills = Ghost(n + 1);
                self.stamp = Ghost(n);
                self.asset = Some(a.clone());
                Ok(a)
            },
            Err(e) => Err(e),
        }
    }
}

/// Duplicating a handle copies its path and its slot. The copy's slot is its
/// own: later loads and unloads on one handle are not seen by the other, while
/// a value held at the time of the copy is shared, not copied.
impl<A> Clone for AssetHandle<A> {
    fn clone(&self) -> (r: Self)
        ensures
            r@ == self@,
            r@.wf(),
    {
        proof {
            use_type_invariant(self);
        }
        let asset = match &self.asset {
            Some(a) => Some(a.clone()),
            None => None,
        };
        AssetHandle { path: self.path.clone(), asset, fills: self.fills, stamp: self.stamp }
    }
}

} // verus!
