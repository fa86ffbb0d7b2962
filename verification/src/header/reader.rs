//! An in-memory byte source that is read front to back.

use vstd::prelude::*;

verus! {

/// Bytes that arrived from a client, with the position up to which they have
/// been taken.
pub struct Reader {
    bytes: Vec<u8>,
    pos: usize,
}

/// Copies `bytes[start..end]` into a vector of its own.
pub(crate) fn copy_range(bytes: &[u8], start: usize, end: usize) -> (out: Vec<u8>)
    requires
        start <= end <= bytes@.len(),
    ensures
        out@ == bytes@.subrange(start as int, end as int),
{
    let mut out: Vec<u8> = Vec::new();
    let mut i: usize = start;
    while i < end
        invariant
            start <= i <= end <= bytes@.len(),
            out@ == bytes@.subrange(start as int, i as int),
        decreases end - i,
    {
        out.push(bytes[i]);
        i += 1;
    }
    out
}

impl Reader {
    #[verifier::type_invariant]
    spec fn in_bounds(self) -> bool {
        self.pos <= self.bytes@.len()
    }

    /// All the bytes of the source, taken or not.
    pub closed spec fn bytes(self) -> Seq<u8> {
        self.bytes@
    }

    /// How many bytes have been taken.
    pub closed spec fn taken(self) -> nat {
        self.pos as nat
    }

    /// The bytes that have not been taken yet.
    pub open spec fn rest(self) -> Seq<u8> {
        self.bytes().skip(self.taken() as int)
    }

    /// A reader at the start of `bytes`.
    pub fn new(bytes: Vec<u8>) -> (reader: Reader)
        ensures
            reader.bytes() == bytes@,
            reader.taken() == 0,
    {
        Reader { bytes, pos: 0 }
    }

    /// How many bytes have been taken.
    pub fn position(&self) -> (pos: usize)
        ensures
            pos == self.taken(),
            pos <= self.bytes().len(),
    {
        proof {
            use_type_invariant(self);
        }
        self.pos
    }

    /// A copy of the bytes that have not been taken yet.
    pub fn remaining(&self) -> (out: Vec<u8>)
        ensures
            out@ == self.rest(),
    {
        proof {
            use_type_invariant(self);
        }
        copy_range(self.bytes.as_slice(), self.pos, self.bytes.len())
    }

    /// The bytes that have not been taken yet.
    pub fn peek(&self) -> (out: &[u8])
        ensures
            out@ == self.rest(),
    {
        proof {
            use_type_invariant(self);
        }
        vstd::slice::slice_subrange(self.bytes.as_slice(), self.pos, self.bytes.len())
    }

    /// Takes the next `n` bytes without copying them, or none at all where
    /// fewer are left.
    pub fn advance(&mut self, n: usize) -> (done: bool)
        ensures
            final(self).bytes() == old(self).bytes(),
            done == (n <= old(self).rest().len()),
            done ==> final(self).taken() == old(self).taken() + n,
            !done ==> final(self).taken() == old(self).taken(),
    {
        proof {
            use_type_invariant(&*self);
        }
        if n > self.bytes.len() - self.pos {
            return false;
        }
        self.pos = self.pos + n;
        true
    }

    /// Takes the next `n` bytes, or none at all where fewer are left.
    pub fn read_exact(&mut self, n: usize) -> (out: Option<Vec<u8>>)
        ensures
            final(self).bytes() == old(self).bytes(),
            match out {
                Some(v) => n <= old(self).rest().len()
                    && v@ == old(self).rest().take(n as int)
                    && final(self).taken() == old(self).taken() + n,
                None => n > old(self).rest().len()
                    && final(self).taken() == old(self).taken(),
            },
    {
        proof {
            use_type_invariant(&*self);
        }
        if n > self.bytes.len() - self.pos {
            return None;
        }
        let out = copy_range(self.bytes.as_slice(), self.pos, self.pos + n);
        self.pos = self.pos + n;
        Some(out)
    }
}

} // verus!
