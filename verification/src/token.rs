//! The token codec: how a tagged payload `{slot, data}` survives the round
//! trip through the kernel as a raw 64-bit user-data word.
//!
//! The kernel carries only a scalar, so payloads live in a slab owned by the
//! ring and the word is a key into it: encoding allocates a slab cell and
//! returns its key, decoding consumes the cell and hands the payload back.
//! Key `0` is reserved to mean "no payload; drop this completion", so every
//! allocated key is non-zero. A key is never handed out twice over the life
//! of the table, and decoding a key kills it: a second decode of the same
//! key returns nothing. This is the ground for the ring's ownership
//! invariant that no token is ever decoded more than once.

use vstd::prelude::*;

verus! {

/// What a user-data word stands for once decoded.
pub enum Token<D> {
    /// An operation submitted on behalf of handler slot `slot`, carrying
    /// that handler's payload.
    Op { slot: usize, data: D },
    /// A control submission of the shutdown coordinator. The distinguished
    /// value `Cancel(u64::MAX)` marks the drain barrier.
    Cancel(u64),
}

/// The slab of live tokens. Cells are never reused: a freed cell stays dead
/// and fresh keys count upward, so keys are unique over the table's life.
pub struct TokenTable<D> {
    cells: Vec<Option<Token<D>>>,
}

impl<D> TokenTable<D> {
    /// The token a key currently stands for, if the key is live.
    pub closed spec fn spec_get(self, key: u64) -> Option<Token<D>> {
        if 1 <= key && key <= self.cells@.len() {
            self.cells@[key as int - 1]
        } else {
            None
        }
    }

    /// The key the next allocation will receive.
    pub closed spec fn next_key(self) -> int {
        self.cells@.len() as int + 1
    }

    /// Whether `n` more keys can be allocated before the key space is
    /// exhausted.
    pub closed spec fn can_allocate(self, n: int) -> bool {
        self.cells@.len() + n <= u64::MAX
    }

    /// No key is live.
    pub closed spec fn is_clear(self) -> bool {
        forall|k: u64| self.spec_get(k) is None
    }

    /// Whether a key has ever been allocated by this table.
    pub closed spec fn in_range(self, key: u64) -> bool {
        1 <= key && key <= self.cells@.len()
    }

    pub fn new() -> (t: Self)
        ensures
            t.is_clear(),
            t.next_key() == 1,
    {
        TokenTable { cells: Vec::new() }
    }

    /// Whether `n` more keys can be allocated right now.
    pub fn can_allocate_many(&self, n: u64) -> (r: bool)
        ensures
            r == self.can_allocate(n as int),
    {
        self.cells.len() as u64 <= u64::MAX - n
    }

    /// Allocate a cell for `t` and return its key: fresh, non-zero, and
    /// live for exactly `t` afterwards. Fails only when the key space is
    /// exhausted.
    pub fn encode(&mut self, t: Token<D>) -> (r: Option<u64>)
        ensures
            match r {
                Some(k) => {
                    &&& old(self).can_allocate(1)
                    &&& k as int == old(self).next_key()
                    &&& k != 0
                    &&& old(self).spec_get(k) is None
                    &&& final(self).spec_get(k) == Some(t)
                    &&& forall|k2: u64| k2 != k ==> final(self).spec_get(k2) == old(self).spec_get(
                        k2,
                    )
                    &&& final(self).next_key() == old(self).next_key() + 1
                    &&& forall|m: int| final(self).can_allocate(m) == old(self).can_allocate(m + 1)
                },
                None => {
                    &&& !old(self).can_allocate(1)
                    &&& *final(self) == *old(self)
                },
            },
    {
        if (self.cells.len() as u64) < u64::MAX {
            let key: u64 = (self.cells.len() as u64) + 1;
            self.cells.push(Some(t));
            Some(key)
        } else {
            None
        }
    }

    /// Look a key up and consume it: afterwards the key is dead, whatever
    /// it was before, and every other key is untouched.
    pub fn decode(&mut self, key: u64) -> (r: Option<Token<D>>)
        ensures
            r == old(self).spec_get(key),
            final(self).spec_get(key) is None,
            forall|k2: u64| k2 != key ==> final(self).spec_get(k2) == old(self).spec_get(k2),
            final(self).next_key() == old(self).next_key(),
            final(self).can_allocate(1) == old(self).can_allocate(1),
    {
        if key == 0 || key > self.cells.len() as u64 {
            return None;
        }
        let idx: usize = (key - 1) as usize;
        let cell = self.cells.remove(idx);
        self.cells.insert(idx, None);
        proof {
            assert(self.cells@ =~= old(self).cells@.update(key as int - 1, None));
        }
        cell
    }

    /// Re-arm a key that this table once allocated, installing `t` as its
    /// token. This backs the handler resubmission optimization: the cell of
    /// a just-decoded key is reused for the follow-up submission. Returns
    /// false, touching nothing, when the key was never allocated here.
    pub fn install(&mut self, key: u64, t: Token<D>) -> (r: bool)
        ensures
            r == old(self).in_range(key),
            r ==> final(self).spec_get(key) == Some(t),
            r ==> forall|k2: u64| k2 != key ==> final(self).spec_get(k2) == old(self).spec_get(k2),
            !r ==> *final(self) == *old(self),
            final(self).next_key() == old(self).next_key(),
            final(self).can_allocate(1) == old(self).can_allocate(1),
    {
        if key == 0 || key > self.cells.len() as u64 {
            return false;
        }
        let idx: usize = (key - 1) as usize;
        let _ = self.cells.remove(idx);
        self.cells.insert(idx, Some(t));
        proof {
            assert(self.cells@ =~= old(self).cells@.update(key as int - 1, Some(t)));
        }
        true
    }

    /// Room for a larger allocation is room for a smaller one.
    pub proof fn lemma_can_allocate_mono(self, m1: int, m2: int)
        requires
            m1 <= m2,
            self.can_allocate(m2),
        ensures
            self.can_allocate(m1),
    {
    }

    /// Free every live token. The final stage of every termination path:
    /// whatever a faulty handler or an interrupted drain left behind is
    /// released here, so the ring never leaks a payload.
    pub fn clear(&mut self)
        ensures
            final(self).is_clear(),
    {
        self.cells.clear();
    }
}

} // verus!
