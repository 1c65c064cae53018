use vstd::prelude::*;
use crate::command::Command;

verus! {

/// The number that `s` spells in little-endian order, one byte per base-256 digit.
pub open spec fn le_value(s: Seq<u8>) -> nat
    decreases s.len(),
{
    if s.len() == 0 {
        0
    } else {
        s[0] as nat + 256 * le_value(s.drop_first())
    }
}

pub open spec fn pow256(n: nat) -> nat
    decreases n,
{
    if n == 0 {
        1
    } else {
        256 * pow256((n - 1) as nat)
    }
}

/// The `j`-th word write of the expansion of `bytes` at `address`.
pub open spec fn word_write(address: u32, bytes: Seq<u8>, j: int) -> Command {
    Command::MsgWrite64 {
        mem: (address + 8 * j) as u32,
        val: le_value(bytes.subrange(8 * j, 8 * j + 8)) as u64,
    }
}

/// What expanding `bytes` at `address` gives: the word writes, or why there are none.
pub open spec fn write_expansion(address: u32, bytes: Seq<u8>) -> Result<Seq<Command>, BufferError> {
    if bytes.len() % 8 != 0 {
        Err(BufferError::PartialWord)
    } else if past_address_space(address, bytes.len()) {
        Err(BufferError::PastAddressSpace)
    } else {
        Ok(Seq::new(bytes.len() / 8, |j: int| word_write(address, bytes, j)))
    }
}

/// A buffer write that cannot be expanded into whole words.
#[derive(Clone, Copy, Debug, PartialEq, Eq, Structural)]
pub enum BufferError {
    /// The buffer's length is not a multiple of eight bytes.
    PartialWord,
    /// The last word would start beyond the 32-bit address space.
    PastAddressSpace,
}

/// The buffer's last word would start past the largest 32-bit address.
pub open spec fn past_address_space(address: u32, len: nat) -> bool {
    len > 0 && address + len - 8 > u32::MAX
}

/// The 64-bit word stored little-endian in `b[start..start + 8]`.
pub fn le_word(b: &Vec<u8>, start: usize) -> (w: u64)
    requires
        start + 8 <= b@.len(),
    ensures
        w as nat == le_value(b@.subrange(start as int, start + 8)),
{
    let n = b.len();
    let mut w: u64 = 0;
    let mut k: usize = 8;
    assert(b@.subrange(start + 8, start + 8) =~= Seq::<u8>::empty());
    while k > 0
        invariant
            k <= 8,
            n == b@.len(),
            start + 8 <= n,
            w as nat == le_value(b@.subrange(start + k, start + 8)),
            (w as nat) < pow256((8 - k) as nat),
        decreases k,
    {
        let ghost prev = b@.subrange(start + k, start + 8);
        k = k - 1;
        let ghost cur = b@.subrange(start + k, start + 8);
        assert(cur.drop_first() =~= prev);
        proof {
            reveal_with_fuel(pow256, 9);
            lemma_pow256_mono((7 - k) as nat, 7);
            lemma_pow256_mono((8 - k) as nat, 8);
        }
        w = w * 256 + b[start + k] as u64;
    }
    w
}

proof fn lemma_pow256_mono(m: nat, n: nat)
    requires
        m <= n,
    ensures
        pow256(m) <= pow256(n),
    decreases n - m,
{
    if m < n {
        lemma_pow256_mono(m, (n - 1) as nat);
    }
}

/// Splits a buffer written at `address` into 64-bit word writes: the `j`-th
/// writes the little-endian word of bytes `8j .. 8j + 8` to `address + 8j`.
pub fn expand_write_buffer(address: u32, buffer: &Vec<u8>) -> (r: Result<Vec<Command>, BufferError>)
    ensures
        buffer@.len() % 8 != 0 <==> r == Err::<Vec<Command>, BufferError>(BufferError::PartialWord),
        r == Err::<Vec<Command>, BufferError>(BufferError::PastAddressSpace) <==> (buffer@.len() % 8 == 0
            && past_address_space(address, buffer@.len())),
        r is Ok ==> r->Ok_0@.len() == buffer@.len() / 8,
        r is Ok ==> forall|j: int|
            0 <= j < r->Ok_0@.len() ==> #[trigger] r->Ok_0@[j] == word_write(address, buffer@, j),
        match r {
            Ok(v) => write_expansion(address, buffer@) == Ok::<Seq<Command>, BufferError>(v@),
            Err(e) => write_expansion(address, buffer@) == Err::<Seq<Command>, BufferError>(e),
        },
{
    let len = buffer.len();
    if len % 8 != 0 {
        return Err(BufferError::PartialWord);
    }
    if len > 0 && (len - 8) as u64 > (u32::MAX - address) as u64 {
        return Err(BufferError::PastAddressSpace);
    }
    proof {
        reveal_with_fuel(pow256, 9);
    }
    let mut out: Vec<Command> = Vec::new();
    let mut i: usize = 0;
    while i < len
        invariant
            len == buffer@.len(),
            len % 8 == 0,
            !past_address_space(address, len as nat),
            i % 8 == 0,
            i <= len,
            out@.len() * 8 == i,
            pow256(8) == 0x1_0000_0000_0000_0000,
            forall|j: int| 0 <= j < out@.len() ==> #[trigger] out@[j] == word_write(address, buffer@, j),
        decreases len - i,
    {
        let val = le_word(buffer, i);
        let cmd = Command::MsgWrite64 { mem: address + i as u32, val };
        assert(cmd == word_write(address, buffer@, out@.len() as int));
        out.push(cmd);
        i = i + 8;
    }
    assert(out@ =~= Seq::new(len as nat / 8, |j: int| word_write(address, buffer@, j)));
    Ok(out)
}

} // verus!
