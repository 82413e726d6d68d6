//! The bounded connection pool: the only component that reaches the
//! persistence backend. It lends connections up to a fixed bound and takes
//! them back; when the bound is reached an acquire fails at once rather than
//! waiting without bound.

use vstd::prelude::*;
use vstd::string::*;

verus! {

/// A connection lent by the pool; handing it back releases the slot.
pub struct Connection {}

/// A bounded pool of connections to the persistence backend.
pub struct StoragePool {
    locator: String,
    size: usize,
    in_use: usize,
}

impl StoragePool {
    /// The backend locator the pool was built for.
    pub closed spec fn locator(&self) -> Seq<char> {
        self.locator@
    }

    /// The bound on concurrently lent connections.
    pub closed spec fn capacity(&self) -> int {
        self.size as int
    }

    /// How many connections are lent out.
    pub closed spec fn lent(&self) -> int {
        self.in_use as int
    }

    /// The pool never lends beyond its bound.
    pub open spec fn inv(&self) -> bool {
        0 <= self.lent() <= self.capacity()
    }

    /// No connection is out.
    pub open spec fn idle(&self) -> bool {
        self.lent() == 0
    }

    /// Whether an idle pool can lend at all.
    pub open spec fn can_connect(&self) -> bool {
        self.capacity() > 0
    }

    /// A fresh pool for the given backend locator and bound.
    pub fn new(locator: String, size: usize) -> (p: Self)
        ensures
            p.inv(),
            p.idle(),
            p.locator() == locator@,
            p.capacity() == size as int,
    {
        StoragePool { locator, size, in_use: 0 }
    }

    /// Lends a connection; fails at once when the pool is exhausted.
    pub fn acquire(&mut self) -> (r: Option<Connection>)
        requires
            old(self).inv(),
        ensures
            final(self).inv(),
            final(self).locator() == old(self).locator(),
            final(self).capacity() == old(self).capacity(),
            old(self).lent() < old(self).capacity() ==> (r is Some && final(self).lent() == old(
                self,
            ).lent() + 1),
            old(self).lent() == old(self).capacity() ==> (r is None && final(self).lent() == old(
                self,
            ).lent()),
    {
        if self.in_use < self.size {
            self.in_use = self.in_use + 1;
            Some(Connection {  })
        } else {
            None
        }
    }

    /// Takes a lent connection back.
    pub fn release(&mut self, c: Connection)
        requires
            old(self).inv(),
            old(self).lent() >= 1,
        ensures
            final(self).inv(),
            final(self).locator() == old(self).locator(),
            final(self).capacity() == old(self).capacity(),
            final(self).lent() == old(self).lent() - 1,
    {
        let _ = c;
        self.in_use = self.in_use - 1;
    }
}

/// Builds the pool for a backend locator, with the customary default bound
/// of ten connections.
pub fn conn(database_url: &str) -> (p: StoragePool)
    ensures
        p.inv(),
        p.idle(),
        p.locator() == database_url@,
        p.capacity() == 10,
        p.can_connect(),
{
    StoragePool::new(String::from_str(database_url), 10)
}

} // verus!
