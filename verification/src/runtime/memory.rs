use crate::from_le::FromLe;
use crate::runtime::error::RuntimeError;
use vstd::prelude::*;
use vstd::slice::slice_subrange;

verus! {

/// The length that a memory of `len` bytes grows to so that it holds `need`
/// bytes: it doubles until it does, an empty one starting at one byte.
pub open spec fn grown_len(len: nat, need: nat) -> nat
    decreases (if len >= need { 0 } else { need - len }),
{
    if len >= need {
        len
    } else if len == 0 {
        grown_len(1, need)
    } else {
        grown_len(2 * len, need)
    }
}

/// `n` bytes that are zero.
pub open spec fn zeros(n: nat) -> Seq<u8> {
    Seq::new(n, |i: int| 0u8)
}

/// What `bytes` is after it has grown to hold `need` bytes: itself, then
/// zeros. There is none where the new length does not fit the machine.
pub open spec fn grown(bytes: Seq<u8>, need: nat) -> Option<Seq<u8>> {
    let n = grown_len(bytes.len(), need);
    if n <= usize::MAX {
        Some(bytes + zeros((n - bytes.len()) as nat))
    } else {
        None
    }
}

/// A length never shrinks by growing, and reaches what is needed.
pub proof fn lemma_grown_len(len: nat, need: nat)
    ensures
        grown_len(len, need) >= len,
        grown_len(len, need) >= need,
    decreases (if len >= need { 0 } else { need - len }),
{
    if len >= need {
    } else if len == 0 {
        lemma_grown_len(1, need);
    } else {
        lemma_grown_len(2 * len, need);
    }
}

/// The linear memory of an instance: bytes that only ever grow.
#[derive(Debug)]
pub struct Memory(pub Vec<u8>);

impl View for Memory {
    type V = Seq<u8>;

    open spec fn view(&self) -> Seq<u8> {
        self.0@
    }
}

impl Memory {
    pub fn new(byte: Vec<u8>) -> (r: Self)
        ensures
            r@ == byte@,
    {
        Self(byte)
    }

    /// Reads the value at `addr`, growing the memory where the bytes of the
    /// value reach past its end.
    ///
    /// The memory keeps its bytes and gets zeros behind them; the value is
    /// read from the memory as it then is. Where the length that is needed
    /// does not fit the machine, nothing changes and the access is refused.
    #[verifier::loop_isolation(false)]
    pub fn load<T>(&mut self, addr: usize) -> (r: Result<T, RuntimeError>) where T: FromLe
        ensures
            match grown(old(self)@, addr as nat + T::width()) {
                Some(bytes) => final(self)@ == bytes && r is Ok && r->Ok_0 == T::of_bytes(
                    bytes.subrange(addr as int, addr as int + T::width() as int),
                ),
                None => final(self)@ == old(self)@ && r is Err && r->Err_0
                    == RuntimeError::MemoryOutOfBounds,
            },
            final(self)@.len() >= old(self)@.len(),
            final(self)@.take(old(self)@.len() as int) == old(self)@,
            forall|i: int| old(self)@.len() <= i < final(self)@.len() ==> final(self)@[i] == 0,
            r is Ok ==> final(self)@.len() >= addr + T::width(),
    {
        let size = T::byte_width();
        let ghost need = addr as nat + T::width();
        let ghost len = self.0@.len();
        assert(self.0@.take(len as int) =~= self.0@);
        let end = match addr.checked_add(size) {
            Some(end) => end,
            None => {
                proof {
                    lemma_grown_len(len, need);
                }
                return Err(RuntimeError::MemoryOutOfBounds);
            },
        };
        let mut n = self.0.len();
        while n < end
            invariant
                end == need,
                grown_len(n as nat, need) == grown_len(len, need),
                n >= len,
                self.0@.len() == len,
            decreases (if n >= end { 0 } else { end - n }),
        {
            if n == 0 {
                n = 1;
            } else {
                n = match n.checked_mul(2) {
                    Some(d) => d,
                    None => {
                        proof {
                            lemma_grown_len(2 * (n as nat), need);
                            assert(grown_len(n as nat, need) == grown_len(2 * (n as nat), need));
                        }
                        return Err(RuntimeError::MemoryOutOfBounds);
                    },
                };
            }
        }
        if n > self.0.len() {
            self.0.resize(n, 0u8);
        }
        assert(self.0@ =~= old(self)@ + zeros((n - len) as nat));
        assert(self.0@.take(len as int) =~= old(self)@);
        let buf = slice_subrange(self.0.as_slice(), addr, end);
        Ok(T::from_le_bytes(buf))
    }
}

} // verus!
