//! The handlers that listen to the events of other nodes.
use crate::text::same_text;
use vstd::prelude::*;
use vstd::string::*;

verus! {

/// The handler for a field of a node, if there is one.
pub open spec fn handler_for(
    handlers: Map<(Seq<char>, Seq<char>), u64>,
    gid: Seq<char>,
    fid: Seq<char>,
) -> Option<u64> {
    if handlers.contains_key((gid, fid)) {
        Some(handlers[(gid, fid)])
    } else {
        None
    }
}

/// A handler for the events of one field of one node.
#[derive(Debug)]
struct Listener {
    gid: String,
    fid: String,
    handler: u64,
}

/// The handlers by node and field, each by the number under which the caller keeps it.
#[derive(Debug)]
pub struct EventHandlers {
    listeners: Vec<Listener>,
}

impl View for EventHandlers {
    type V = Map<(Seq<char>, Seq<char>), u64>;

    closed spec fn view(&self) -> Map<(Seq<char>, Seq<char>), u64> {
        Map::new(
            |key: (Seq<char>, Seq<char>)|
                exists|i: int| 0 <= i < self.listeners@.len() && self.key_at(i) == key,
            |key: (Seq<char>, Seq<char>)| self.listeners@[self.index_of(key)].handler,
        )
    }
}

impl EventHandlers {
    spec fn key_at(self, i: int) -> (Seq<char>, Seq<char>) {
        (self.listeners@[i].gid@, self.listeners@[i].fid@)
    }

    spec fn index_of(self, key: (Seq<char>, Seq<char>)) -> int {
        choose|i: int| 0 <= i < self.listeners@.len() && self.key_at(i) == key
    }

    /// What every collection keeps: there is at most one handler for a field of a node.
    pub closed spec fn wf(self) -> bool {
        forall|i: int, j: int|
            0 <= i < j < self.listeners@.len() ==> #[trigger] self.key_at(i)
                != #[trigger] self.key_at(j)
    }

    proof fn lemma_listener(self, i: int)
        requires
            self.wf(),
            0 <= i < self.listeners@.len(),
        ensures
            self@.contains_key(self.key_at(i)),
            self@[self.key_at(i)] == self.listeners@[i].handler,
    {
        let j = self.index_of(self.key_at(i));
        assert(0 <= j < self.listeners@.len() && self.key_at(j) == self.key_at(i));
    }

    /// No handlers.
    pub fn new() -> (handlers: Self)
        ensures
            handlers.wf(),
            handlers@ == Map::<(Seq<char>, Seq<char>), u64>::empty(),
    {
        let handlers = EventHandlers { listeners: Vec::new() };
        assert(handlers@ =~= Map::<(Seq<char>, Seq<char>), u64>::empty());
        handlers
    }

    fn find(&self, gid: &str, fid: &str) -> (found: Option<usize>)
        ensures
            match found {
                Some(i) => i < self.listeners@.len() && self.key_at(i as int) == (gid@, fid@),
                None => !self@.contains_key((gid@, fid@)),
            },
    {
        let mut i: usize = 0;
        while i < self.listeners.len()
            invariant
                i <= self.listeners@.len(),
                forall|j: int| 0 <= j < i ==> #[trigger] self.key_at(j) != (gid@, fid@),
            decreases self.listeners@.len() - i,
        {
            let listener = &self.listeners[i];
            if same_text(listener.gid.as_str(), gid) && same_text(listener.fid.as_str(), fid) {
                return Some(i);
            }
            assert(self.key_at(i as int) != (gid@, fid@));
            i = i + 1;
        }
        None
    }

    /// The handler for a field of a node.
    pub fn get(&self, gid: &str, fid: &str) -> (handler: Option<u64>)
        requires
            self.wf(),
        ensures
            handler == handler_for(self@, gid@, fid@),
    {
        match self.find(gid, fid) {
            Some(i) => {
                proof {
                    self.lemma_listener(i as int);
                }
                Some(self.listeners[i].handler)
            },
            None => None,
        }
    }

    /// Removes the handler for a field of a node, and says which it was.
    pub fn remove(&mut self, gid: &str, fid: &str) -> (removed: Option<u64>)
        requires
            old(self).wf(),
        ensures
            final(self).wf(),
            final(self)@ == old(self)@.remove((gid@, fid@)),
            removed == handler_for(old(self)@, gid@, fid@),
    {
        let ghost key = (gid@, fid@);
        match self.find(gid, fid) {
            Some(i) => {
                let ghost before = *self;
                proof {
                    before.lemma_listener(i as int);
                }
                let listener = self.listeners.remove(i);
                proof {
                    assert forall|a: int| 0 <= a < self.listeners@.len() implies #[trigger] self.key_at(
                        a,
                    ) == before.key_at(
                        if a < i {
                            a
                        } else {
                            a + 1
                        },
                    ) by {}
                    assert forall|a: int, b: int|
                        0 <= a < b < self.listeners@.len() implies #[trigger] self.key_at(a)
                        != #[trigger] self.key_at(b) by {
                        let c = if a < i {
                            a
                        } else {
                            a + 1
                        };
                        let d = if b < i {
                            b
                        } else {
                            b + 1
                        };
                        assert(before.key_at(c) != before.key_at(d));
                    }
                    assert(self.wf());
                    assert forall|k: (Seq<char>, Seq<char>)|
                        self@.contains_key(k) <==> before@.remove(key).contains_key(k) by {
                        if self@.contains_key(k) {
                            let a = self.index_of(k);
                            assert(0 <= a < self.listeners@.len() && self.key_at(a) == k);
                            let c = if a < i {
                                a
                            } else {
                                a + 1
                            };
                            assert(before.key_at(c) == k);
                            assert(before.key_at(i as int) == key);
                        }
                        if before@.contains_key(k) && k != key {
                            let a = before.index_of(k);
                            assert(0 <= a < before.listeners@.len() && before.key_at(a) == k);
                            let c = if a < i {
                                a
                            } else {
                                a - 1
                            };
                            assert(self.key_at(c) == k);
                        }
                    }
                    assert forall|k: (Seq<char>, Seq<char>)|
                        self@.contains_key(k) implies self@[k] == before@.remove(key)[k] by {
                        let a = self.index_of(k);
                        assert(0 <= a < self.listeners@.len() && self.key_at(a) == k);
                        self.lemma_listener(a);
                        let c = if a < i {
                            a
                        } else {
                            a + 1
                        };
                        before.lemma_listener(c);
                        assert(before.key_at(c) == k);
                    }
                    assert(self@ =~= before@.remove(key));
                }
                Some(listener.handler)
            },
            None => {
                assert(self@ =~= self@.remove(key));
                None
            },
        }
    }

    /// Sets the handler for a field of a node, and says in place of which.
    pub fn insert(&mut self, gid: &str, fid: &str, handler: u64) -> (replaced: Option<u64>)
        requires
            old(self).wf(),
        ensures
            final(self).wf(),
            final(self)@ == old(self)@.insert((gid@, fid@), handler),
            replaced == handler_for(old(self)@, gid@, fid@),
    {
        let ghost key = (gid@, fid@);
        let ghost start = self@;
        let replaced = self.remove(gid, fid);
        let ghost before = *self;
        self.listeners.push(Listener { gid: gid.to_owned(), fid: fid.to_owned(), handler });
        proof {
            let n = before.listeners@.len() as int;
            assert forall|a: int| 0 <= a < n implies #[trigger] self.key_at(a) == before.key_at(a)
                && before.key_at(a) != key by {
                before.lemma_listener(a);
            }
            assert(self.key_at(n) == key);
            assert(self.wf());
            assert forall|k: (Seq<char>, Seq<char>)|
                self@.contains_key(k) <==> start.insert(key, handler).contains_key(k) by {
                if self@.contains_key(k) {
                    let a = self.index_of(k);
                    assert(0 <= a < self.listeners@.len() && self.key_at(a) == k);
                    if a < n {
                        before.lemma_listener(a);
                    }
                }
                if before@.contains_key(k) {
                    let a = before.index_of(k);
                    assert(0 <= a < n && before.key_at(a) == k);
                    assert(self.key_at(a) == k);
                }
            }
            assert forall|k: (Seq<char>, Seq<char>)|
                self@.contains_key(k) implies self@[k] == start.insert(key, handler)[k] by {
                let a = self.index_of(k);
                assert(0 <= a < self.listeners@.len() && self.key_at(a) == k);
                self.lemma_listener(a);
                if a < n {
                    before.lemma_listener(a);
                }
            }
            assert(self@ =~= start.insert(key, handler));
        }
        replaced
    }
}

} // verus!
