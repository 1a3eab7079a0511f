//! Storage cells of a register block.
//!
//! A cell holds one register word. Every store to a cell is one bus transaction, so a cell
//! counts its stores: the contracts below say exactly how many each operation makes.
use vstd::prelude::*;

verus! {

/// A slot of a register block that is never accessed; it only keeps the layout.
pub struct ReservedCell<T>(T);

impl<T> ReservedCell<T> {
    pub fn new(v: T) -> (r: Self) {
        ReservedCell(v)
    }
}

/// A register that can be read and never written.
pub struct RoRegisterCell<T>(T);

impl<T: Copy> RoRegisterCell<T> {
    /// The word the register holds.
    pub closed spec fn spec_value(&self) -> T {
        self.0
    }

    pub fn new(v: T) -> (r: Self)
        ensures
            r.spec_value() == v,
    {
        RoRegisterCell(v)
    }

    /// Reads the whole word.
    pub fn get(&self) -> (r: T)
        ensures
            r == self.spec_value(),
    {
        self.0
    }
}

/// A register that can be read and written.
pub struct RegisterCell<T> {
    value: T,
    stores: Ghost<nat>,
}

impl<T: Copy> RegisterCell<T> {
    /// The word the register holds.
    pub closed spec fn spec_value(&self) -> T {
        self.value
    }

    /// How many stores the register has seen.
    pub closed spec fn stores(&self) -> nat {
        self.stores@
    }

    pub fn new(v: T) -> (r: Self)
        ensures
            r.spec_value() == v,
            r.stores() == 0,
    {
        RegisterCell { value: v, stores: Ghost(0) }
    }

    /// Reads the whole word.
    pub fn get(&self) -> (r: T)
        ensures
            r == self.spec_value(),
    {
        self.value
    }

    /// Stores the whole word: exactly one store.
    pub fn set(&mut self, v: T)
        ensures
            final(self).spec_value() == v,
            final(self).stores() == old(self).stores() + 1,
        opens_invariants none
        no_unwind
    {
        self.value = v;
        self.stores = Ghost(self.stores@ + 1);
    }

    /// A proxy that holds a copy of the word and stores it back once: on `release`, or when it
    /// is dropped.
    pub fn get_mut(&mut self) -> (p: RegisterCellProxy<'_, T>)
        ensures
            p.live(),
            p.cache == old(self).spec_value(),
            p.cell() == *old(self),
            *final(p.vc->0) == *final(self),
    {
        let v = self.get();
        RegisterCellProxy::new(self, v)
    }

    /// Reads the word, hands it to `f`, and stores what `f` returns: exactly one store.
    pub fn update<F: FnOnce(T) -> T>(&mut self, f: F)
        requires
            f.requires((old(self).spec_value(),)),
        ensures
            f.ensures((old(self).spec_value(),), final(self).spec_value()),
            final(self).stores() == old(self).stores() + 1,
    {
        let v = self.get();
        let n = f(v);
        self.set(n);
    }
}

/// A copy of a register's word, taken from the register and stored back to it once.
///
/// The proxy borrows its register for as long as it lives, so nothing else reaches the register
/// in that time; changes to the copy touch the register only when the copy is stored back. That
/// store happens once: in `release`, or, for a proxy that goes out of scope without `release`
/// (an early return, an error passed up with `?`), when the proxy is dropped.
/// The fields are public so that contracts can relate the register to the proxy; code that uses
/// a proxy stores to the register only through `release` or the drop.
pub struct RegisterCellProxy<'a, T: Copy> {
    /// The borrowed register; `None` once the copy has been stored back.
    pub vc: Option<&'a mut RegisterCell<T>>,
    /// The copy of the register's word.
    pub cache: T,
}

impl<'a, T: Copy> Drop for RegisterCellProxy<'a, T> {
    /// Stores the copy back, unless `release` already did.
    fn drop(&mut self)
        opens_invariants none
        no_unwind
    {
        let c = self.cache;
        match &mut self.vc {
            Some(vc) => vc.set(c),
            None => {},
        }
    }
}

impl<'a, T: Copy> core::ops::Deref for RegisterCellProxy<'a, T> {
    type Target = T;

    /// The cached word.
    fn deref(&self) -> (r: &T)
        ensures
            *r == self.cache,
    {
        &self.cache
    }
}

impl<'a, T: Copy> RegisterCellProxy<'a, T> {
    /// The proxy still holds its register: the copy has not been stored back.
    pub open spec fn live(&self) -> bool {
        self.vc is Some
    }

    /// The register, as it is while the proxy is live.
    pub open spec fn cell(&self) -> RegisterCell<T> {
        *self.vc->0
    }

    fn new(v: &'a mut RegisterCell<T>, t: T) -> (r: RegisterCellProxy<'a, T>)
        ensures
            r.live(),
            r.cache == t,
            r.cell() == *old(v),
            *final(r.vc->0) == *final(v),
    {
        RegisterCellProxy { vc: Some(v), cache: t }
    }

    /// The cached word.
    pub fn value(&self) -> (r: T)
        ensures
            r == self.cache,
    {
        self.cache
    }

    /// Replaces the cached word; the register is not touched.
    pub fn set_value(&mut self, v: T)
        ensures
            final(self).cache == v,
            final(self).vc == old(self).vc,
    {
        self.cache = v;
    }

    /// The cached word, to be changed in place; the register is not touched.
    pub fn value_mut(&mut self) -> (r: &mut T)
        ensures
            *r == old(self).cache,
            final(self).cache == *final(r),
            final(self).vc == old(self).vc,
    {
        &mut self.cache
    }

    /// Stores the cached word into the register: exactly one store.
    pub fn release(self)
        requires
            self.live(),
        ensures
            final(self.vc->0).spec_value() == self.cache,
            final(self.vc->0).stores() == self.cell().stores() + 1,
    {
        let mut p = self;
        match p.vc.take() {
            Some(vc) => vc.set(p.cache),
            None => {},
        }
    }
}

} // verus!
