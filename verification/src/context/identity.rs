//! Synthetic identities for the entities the context tracks.
//!
//! Operating-system identifiers (PIDs, TIDs, handle values) are recycled; these keys are
//! not. Each key is drawn from an [`IdCounter`], which hands out every value once.
use vstd::prelude::*;

verus! {

/// Source of fresh synthetic keys: hands out `next` and then advances it.
#[derive(Debug)]
pub struct IdCounter {
    next: u64,
}

impl IdCounter {
    /// A counter whose first key is 1 (0 is reserved for "unknown").
    pub fn new() -> (c: Self)
        ensures
            c.peek() == 1,
    {
        IdCounter { next: 1 }
    }

    /// The value the next key will carry.
    pub closed spec fn peek(&self) -> u64 {
        self.next
    }

    /// The value the next key will carry.
    pub fn next_value(&self) -> (v: u64)
        ensures
            v == self.peek(),
    {
        self.next
    }

    /// Takes the next value, advancing the counter (wrapping after `u64::MAX`).
    pub fn take(&mut self) -> (v: u64)
        ensures
            v == old(self).peek(),
            final(self).peek() == vstd::wrapping::u64_specs::wrapping_add(old(self).peek(), 1),
            old(self).peek() < u64::MAX ==> final(self).peek() == old(self).peek() + 1,
    {
        let v = self.next;
        self.next = self.next.wrapping_add(1);
        v
    }
}

/// Keys drawn from one counter increase: `trace` holds the counter's state before each of a
/// run of draws, none of which wraps it (each state is one more than the one before), and a
/// key drawn earlier in the run is smaller than, so different from, every key drawn later.
pub proof fn lemma_draws_increase(trace: Seq<IdCounter>, i: int, j: int)
    requires
        0 <= i < j < trace.len(),
        forall|n: int| 0 <= n < trace.len() - 1 ==> #[trigger] trace[n + 1].peek() == trace[n].peek() + 1,
    ensures
        trace[i].peek() < trace[j].peek(),
    decreases j - i,
{
    assert(trace[i + 1].peek() == trace[i].peek() + 1);
    if i + 1 < j {
        lemma_draws_increase(trace, i + 1, j);
    }
}

/// Synthetic key of one process lifetime.
#[derive(Debug, Clone, Copy, PartialEq, Eq, Structural, PartialOrd, Ord, Hash)]
pub struct ProcessKey(pub u64);

impl ProcessKey {
    /// A fresh key drawn from `counter`.
    pub fn new(counter: &mut IdCounter) -> (k: Self)
        ensures
            k.0 == old(counter).peek(),
            final(counter).peek() == vstd::wrapping::u64_specs::wrapping_add(old(counter).peek(), 1),
    {
        ProcessKey(counter.take())
    }

    /// The key with this raw value.
    pub fn from_raw(raw: u64) -> (k: Self)
        ensures
            k.0 == raw,
    {
        ProcessKey(raw)
    }

    /// The raw value of the key.
    pub fn as_u64(&self) -> (v: u64)
        ensures
            v == self.0,
    {
        self.0
    }
}

/// Synthetic key of one thread lifetime.
#[derive(Debug, Clone, Copy, PartialEq, Eq, Structural, PartialOrd, Ord, Hash)]
pub struct ThreadKey(pub u64);

impl ThreadKey {
    /// A fresh key drawn from `counter`.
    pub fn new(counter: &mut IdCounter) -> (k: Self)
        ensures
            k.0 == old(counter).peek(),
            final(counter).peek() == vstd::wrapping::u64_specs::wrapping_add(old(counter).peek(), 1),
    {
        ThreadKey(counter.take())
    }

    /// The key with this raw value.
    pub fn from_raw(raw: u64) -> (k: Self)
        ensures
            k.0 == raw,
    {
        ThreadKey(raw)
    }

    /// The raw value of the key.
    pub fn as_u64(&self) -> (v: u64)
        ensures
            v == self.0,
    {
        self.0
    }
}

/// Synthetic key of one file (by normalized path).
#[derive(Debug, Clone, Copy, PartialEq, Eq, Structural, PartialOrd, Ord, Hash)]
pub struct FileKey(pub u64);

impl FileKey {
    /// A fresh key drawn from `counter`.
    pub fn new(counter: &mut IdCounter) -> (k: Self)
        ensures
            k.0 == old(counter).peek(),
            final(counter).peek() == vstd::wrapping::u64_specs::wrapping_add(old(counter).peek(), 1),
    {
        FileKey(counter.take())
    }

    /// The key with this raw value.
    pub fn from_raw(raw: u64) -> (k: Self)
        ensures
            k.0 == raw,
    {
        FileKey(raw)
    }

    /// The raw value of the key.
    pub fn as_u64(&self) -> (v: u64)
        ensures
            v == self.0,
    {
        self.0
    }
}

/// Synthetic key of one network connection.
#[derive(Debug, Clone, Copy, PartialEq, Eq, Structural, PartialOrd, Ord, Hash)]
pub struct ConnectionKey(pub u64);

impl ConnectionKey {
    /// A fresh key drawn from `counter`.
    pub fn new(counter: &mut IdCounter) -> (k: Self)
        ensures
            k.0 == old(counter).peek(),
            final(counter).peek() == vstd::wrapping::u64_specs::wrapping_add(old(counter).peek(), 1),
    {
        ConnectionKey(counter.take())
    }

    /// The key with this raw value.
    pub fn from_raw(raw: u64) -> (k: Self)
        ensures
            k.0 == raw,
    {
        ConnectionKey(raw)
    }

    /// The raw value of the key.
    pub fn as_u64(&self) -> (v: u64)
        ensures
            v == self.0,
    {
        self.0
    }
}

/// Identifier of one recorded cross-entity interaction.
#[derive(Debug, Clone, Copy, PartialEq, Eq, Structural, PartialOrd, Ord, Hash)]
pub struct InteractionId(pub u64);

impl InteractionId {
    /// A fresh identifier drawn from `counter`.
    pub fn new(counter: &mut IdCounter) -> (k: Self)
        ensures
            k.0 == old(counter).peek(),
            final(counter).peek() == vstd::wrapping::u64_specs::wrapping_add(old(counter).peek(), 1),
    {
        InteractionId(counter.take())
    }

    /// The identifier with this raw value.
    pub fn from_raw(raw: u64) -> (k: Self)
        ensures
            k.0 == raw,
    {
        InteractionId(raw)
    }

    /// The raw value of the identifier.
    pub fn as_u64(&self) -> (v: u64)
        ensures
            v == self.0,
    {
        self.0
    }
}

/// Any entity an interaction can start from or land on.
#[derive(Debug, Clone, Copy, PartialEq, Eq, Structural, Hash)]
pub enum EntityId {
    /// A process.
    Process(ProcessKey),
    /// A thread.
    Thread(ThreadKey),
    /// A file.
    File(FileKey),
    /// A network connection.
    Network(ConnectionKey),
    /// A memory region: owning process and base address.
    Memory(ProcessKey, u64),
}

impl EntityId {
    /// The process key, when this entity is a process.
    pub fn as_process(&self) -> (r: Option<ProcessKey>)
        ensures
            r == (match *self {
                EntityId::Process(k) => Some(k),
                _ => None,
            }),
    {
        match self {
            EntityId::Process(k) => Some(*k),
            _ => None,
        }
    }
}

} // verus!
