use vstd::prelude::*;

verus! {

/// A scoped slot for a mutable reference to a `T`.
///
/// A slot is either empty or holds one reference that it does not own.
/// `set` publishes a reference for the extent of a callback, which receives
/// the slot that holds it; `with` lends the published value to a callback.
/// The slot that `set` is called on is only read, never written, so once the
/// callback is done, by returning or by unwinding, it reads as it did before:
/// nested scopes restore in strict last-in, first-out order.
///
/// A slot is a plain value with no shared storage behind it: each thread
/// that makes one has a slot of its own.
#[derive(Debug)]
pub struct ScopedMutKey<'a, T> {
    cur: Option<&'a mut T>,
}

impl<'a, T> ScopedMutKey<'a, T> {
    /// The reference the slot holds, if any.
    pub closed spec fn slot(&self) -> Option<&'a mut T> {
        self.cur
    }

    /// Whether a reference is published in the slot.
    pub open spec fn occupied(&self) -> bool {
        self.slot() is Some
    }

    /// The value behind the published reference, as it is now.
    pub open spec fn value(&self) -> T
        recommends
            self.occupied(),
    {
        *self.slot().unwrap()
    }

    /// Makes an empty slot.
    pub fn new() -> (r: Self)
        ensures
            !r.occupied(),
    {
        ScopedMutKey { cur: None }
    }

    /// Publishes `t` for the extent of `f`.
    ///
    /// `f` receives a slot that holds `t`, and may nest further `set` calls
    /// on it. Its result is returned unchanged. Whatever `f` leaves behind
    /// the reference to `t` is what the owner of `t` sees afterwards, and
    /// `self` is left as it was, on every exit path.
    pub fn set<'b, R, F>(&self, t: &'b mut T, f: F) -> (r: R) where
        F: FnOnce(&mut ScopedMutKey<'b, T>) -> R,
        requires
            forall|k: &mut ScopedMutKey<'b, T>|
                (*k).occupied() && (*k).value() == *old(t) ==> #[trigger] f.requires((k,)),
        ensures
            exists|k: &mut ScopedMutKey<'b, T>|
                {
                    &&& (*k).occupied()
                    &&& (*k).value() == *old(t)
                    &&& *final((*k).slot().unwrap()) == *final(t)
                    &&& #[trigger] f.ensures((k,), r)
                    &&& final(k).occupied() && *final(final(k).slot().unwrap()) == *final(t)
                        ==> final(k).value() == *final(t)
                },
    {
        let ghost t0 = t;
        let mut inner = ScopedMutKey { cur: Some(t) };
        let k = &mut inner;
        assert((*k).occupied() && (*k).value() == *t0);
        f(k)
    }

    /// Lends the published value to `f` and returns what `f` returns.
    ///
    /// The slot must be occupied: reading an empty slot is a usage error.
    /// `f` sees the value as it is now, and what `f` leaves in it stays
    /// published behind the same reference.
    pub fn with<R, F>(&mut self, f: F) -> (r: R) where F: FnOnce(&mut T) -> R,
        requires
            old(self).occupied(),
            forall|v: &mut T| *v == old(self).value() ==> #[trigger] f.requires((v,)),
        ensures
            final(self).occupied(),
            *final(final(self).slot().unwrap()) == *final(old(self).slot().unwrap()),
            exists|v: &mut T|
                {
                    &&& *v == old(self).value()
                    &&& *final(v) == final(self).value()
                    &&& #[trigger] f.ensures((v,), r)
                },
    {
        let v = self.cur.as_mut().expect("cannot access a scoped slot without calling `set` first");
        f(&mut **v)
    }

    /// Tells whether a reference is published in the slot.
    pub fn is_set(&self) -> (r: bool)
        ensures
            r == self.occupied(),
    {
        self.cur.is_some()
    }
}

} // verus!
