//! The registry of named servers: one server per universe name, created
//! lazily and never removed.  The embedder wraps the registry in whatever
//! locking discipline it needs (typically a reader-writer lock, with each
//! server behind mutual exclusion); the mapping itself lives here.

use vstd::prelude::*;
use crate::ids::{bytes_eq, clone_bytes};
use crate::server::InMemoryServer;
use crate::state::{ServerView, empty_server};

verus! {

/// Whether some server in the registry serves the universe called `name`.
pub open spec fn has_server(rv: Seq<ServerView>, name: Seq<u8>) -> bool {
    exists|i: int| 0 <= i < rv.len() && (#[trigger] rv[i]).name == name
}

/// The servers of a process, viewed as the sequence of their states.  A
/// handle into the registry is an index; it stays valid for the registry's
/// life, since servers are never removed.
pub struct ServerRegistry {
    servers: Vec<InMemoryServer>,
}

impl View for ServerRegistry {
    type V = Seq<ServerView>;

    closed spec fn view(&self) -> Seq<ServerView> {
        Seq::new(self.servers@.len(), |i: int| self.servers@[i]@)
    }
}

impl ServerRegistry {
    /// An empty registry.
    pub fn new() -> (r: Self)
        ensures
            r@ == Seq::<ServerView>::empty(),
    {
        let r = ServerRegistry { servers: Vec::new() };
        proof {
            assert(r@ =~= Seq::<ServerView>::empty());
        }
        r
    }

    /// The handle of the server named `name`, if one exists.  A miss tells
    /// the caller to create the server (see [`Self::get_or_create`]).
    pub fn lookup(&self, name: &Vec<u8>) -> (r: Option<usize>)
        ensures
            match r {
                Some(h) => h < self@.len() && self@[h as int].name == name@,
                None => !has_server(self@, name@),
            },
    {
        let mut i: usize = 0;
        while i < self.servers.len()
            invariant
                i <= self@.len(),
                self@.len() == self.servers@.len(),
                forall|j: int| 0 <= j < self@.len() ==> (#[trigger] self@[j]).name
                    == self.servers@[j]@.name,
                forall|j: int| 0 <= j < i ==> (#[trigger] self@[j]).name != name@,
            decreases self@.len() - i,
        {
            if bytes_eq(self.servers[i].name(), name) {
                return Some(i);
            }
            i = i + 1;
        }
        None
    }

    /// The handle of the server named `name`, creating the server when the
    /// lookup misses.  An existing registry entry is never disturbed.
    pub fn get_or_create(&mut self, name: &Vec<u8>) -> (h: usize)
        ensures
            h < final(self)@.len(),
            final(self)@[h as int].name == name@,
            has_server(old(self)@, name@) ==> final(self)@ == old(self)@,
            !has_server(old(self)@, name@) ==> final(self)@ == old(self)@.push(
                empty_server(name@),
            ) && h == old(self)@.len(),
    {
        match self.lookup(name) {
            Some(h) => {
                proof {
                    assert(has_server(self@, name@));
                }
                h
            }
            None => {
                let h = self.servers.len();
                self.servers.push(InMemoryServer::new(clone_bytes(name)));
                proof {
                    assert(self@ =~= old(self)@.push(empty_server(name@)));
                }
                h
            }
        }
    }

    /// How many servers the registry holds.
    pub fn len(&self) -> (r: usize)
        ensures
            r == self@.len(),
    {
        self.servers.len()
    }

    /// Exclusive access to the server under handle `h`.
    pub fn server_mut(&mut self, h: usize) -> (s: &mut InMemoryServer)
        requires
            h < old(self)@.len(),
        ensures
            (*s)@ == old(self)@[h as int],
            final(self)@.len() == old(self)@.len(),
            forall|j: int|
                0 <= j < old(self)@.len() && j != h ==> final(self)@[j] == old(self)@[j],
            final(self)@[h as int] == (*final(s))@,
    {
        &mut self.servers[h]
    }

    /// Shared access to the server under handle `h`.
    pub fn server(&self, h: usize) -> (s: &InMemoryServer)
        requires
            h < self@.len(),
        ensures
            (*s)@ == self@[h as int],
    {
        &self.servers[h]
    }
}

} // verus!
