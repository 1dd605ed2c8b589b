//! The ownership-transfer protocol that the emitted wrapper code implements,
//! stated over a model of one wrapper instance: its storage bytes plus, for
//! move-only types, the initialisation flag. The contracts here are the
//! properties the generated lifecycle operations are built to uphold:
//! moving clears the source's flag, destruction drops only what is
//! initialised, duplication of a `Copy` value is byte identity, and
//! marshaling round-trips the bytes.

use vstd::prelude::*;

verus! {

/// A move-only owning value: storage bytes and the initialisation flag.
pub struct OwnedValue {
    pub bytes: Vec<u8>,
    pub initialized: bool,
}

/// A `Copy` value: storage bytes and no flag at all.
pub struct CopyValue {
    pub bytes: Vec<u8>,
}

/// A borrow view: an address word, no ownership and no flag.
pub struct RefValue {
    pub addr: usize,
}

fn copy_bytes(dst: &mut Vec<u8>, src: &Vec<u8>)
    ensures
        final(dst)@ == src@,
{
    dst.clear();
    let n: usize = src.len();
    let mut i: usize = 0;
    proof {
        assert(dst@ =~= src@.take(0));
    }
    while i < n
        invariant
            0 <= i <= n,
            n == src@.len(),
            dst@ == src@.take(i as int),
        decreases n - i,
    {
        proof {
            assert(src@.take(i + 1) =~= src@.take(i as int).push(src@[i as int]));
        }
        dst.push(src[i]);
        i = i + 1;
    }
    proof {
        assert(src@.take(n as int) =~= src@);
    }
}

impl OwnedValue {
    /// Default construction: storage exists, the flag starts clear.
    pub fn new(size: usize) -> (v: OwnedValue)
        ensures
            v.bytes@.len() == size,
            !v.initialized,
    {
        let mut b: Vec<u8> = Vec::new();
        let mut i: usize = 0;
        while i < size
            invariant
                0 <= i <= size,
                b@.len() == i,
            decreases size - i,
        {
            b.push(0);
            i = i + 1;
        }
        OwnedValue { bytes: b, initialized: false }
    }

    /// The "check initialized" customization point: using an uninitialised
    /// or moved-from value is a contract violation, so callers must prove
    /// the flag.
    pub fn check_init(&self)
        requires
            self.initialized,
    {
    }

    /// The "assume initialized" customization point.
    pub fn assume_init(&mut self)
        ensures
            final(self).initialized,
            final(self).bytes@ == old(self).bytes@,
    {
        self.initialized = true;
    }

    /// The "assume deinitialized" customization point; the generated code
    /// checks the flag first.
    pub fn assume_deinit(&mut self)
        requires
            old(self).initialized,
        ensures
            !final(self).initialized,
            final(self).bytes@ == old(self).bytes@,
    {
        self.initialized = false;
    }

    /// Move-assignment: the destination takes the source's bytes and flag,
    /// and the source observably becomes uninitialised.
    pub fn move_assign_from(&mut self, src: &mut OwnedValue)
        ensures
            final(self).bytes@ == old(src).bytes@,
            final(self).initialized == old(src).initialized,
            final(src).bytes@ == old(src).bytes@,
            !final(src).initialized,
    {
        copy_bytes(&mut self.bytes, &src.bytes);
        self.initialized = src.initialized;
        src.initialized = false;
    }

    /// Destruction: the drop function runs exactly when the flag is set, so
    /// destructing an uninitialised value never invokes it.
    pub fn destruct(self) -> (dropped: bool)
        ensures
            dropped == self.initialized,
    {
        self.initialized
    }

    /// Marshaling to raw bytes: the slot receives the bytes and the source
    /// is deinitialised.
    pub fn marshal(&mut self) -> (out: Vec<u8>)
        requires
            old(self).initialized,
        ensures
            out@ == old(self).bytes@,
            final(self).bytes@ == old(self).bytes@,
            !final(self).initialized,
    {
        let mut out: Vec<u8> = Vec::new();
        copy_bytes(&mut out, &self.bytes);
        self.initialized = false;
        out
    }

    /// Unmarshaling from raw bytes: the value takes the bytes and reports
    /// initialised.
    pub fn unmarshal(raw: Vec<u8>) -> (v: OwnedValue)
        ensures
            v.bytes@ == raw@,
            v.initialized,
    {
        OwnedValue { bytes: raw, initialized: true }
    }

    /// Marshaling a value to raw bytes and unmarshaling it back yields a
    /// value with identical bytes whose state is initialised.
    pub fn round_trip(&mut self) -> (r: OwnedValue)
        requires
            old(self).initialized,
        ensures
            r.bytes@ == old(self).bytes@,
            r.initialized,
    {
        let raw = self.marshal();
        OwnedValue::unmarshal(raw)
    }
}

/// The bytes copy-construction leaves in the destination.
pub open spec fn copy_outcome(src: CopyValue) -> Seq<u8> {
    src.bytes@
}

/// The bytes move-construction leaves in the destination.
pub open spec fn move_outcome(src: CopyValue) -> Seq<u8> {
    src.bytes@
}

/// For `Copy` types, copying and moving are observably identical: both are
/// byte-for-byte duplication, and no initialisation flag exists to consult.
pub proof fn lemma_copy_move_identical(src: CopyValue)
    ensures
        copy_outcome(src) == move_outcome(src),
{
}

impl CopyValue {
    /// Copy-assignment: byte duplication; the source is untouched.
    pub fn copy_from(&mut self, src: &CopyValue)
        ensures
            final(self).bytes@ == copy_outcome(*src),
    {
        copy_bytes(&mut self.bytes, &src.bytes);
    }

    /// Move-assignment: for a `Copy` type, the same byte duplication; the
    /// source stays valid.
    pub fn move_from(&mut self, src: &CopyValue)
        ensures
            final(self).bytes@ == move_outcome(*src),
    {
        self.copy_from(src);
    }

    /// Destruction of a `Copy` value never runs a drop function.
    pub fn destruct(self) -> (dropped: bool)
        ensures
            !dropped,
    {
        false
    }
}

impl RefValue {
    /// The "check initialized" customization point of a view is a no-op for
    /// every referenced type: no flag exists and nothing is demanded.
    pub fn check_init(&self) {
    }

    /// The "assume initialized" customization point is a no-op.
    pub fn assume_init(&mut self)
        ensures
            final(self).addr == old(self).addr,
    {
    }

    /// The "assume deinitialized" customization point is a no-op.
    pub fn assume_deinit(&mut self)
        ensures
            final(self).addr == old(self).addr,
    {
    }

    /// A view never participates in destruction: the drop function is never
    /// invoked through it.
    pub fn destruct(self) -> (dropped: bool)
        ensures
            !dropped,
    {
        false
    }
}

} // verus!
