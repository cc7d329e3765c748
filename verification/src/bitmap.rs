//! The bitmap and its two bit-set strategies. The bitmap is a contiguous,
//! zero-initialized byte buffer; a bit index addresses byte `index / 8`,
//! bit `index % 8` within that byte. Both strategies set the addressed bit
//! and leave every other bit unchanged; they differ only in how the store
//! happens. The atomic strategy models a hardware read-modify-write that
//! always stores; the manual strategy loads the byte, tests the bit in a
//! register, and skips the store when the bit was already set. Absent
//! concurrency the two are observably equivalent, which is the premise the
//! benchmark's comparison rests on.
use vstd::prelude::*;

use crate::BITMAP_SIZE;

verus! {

/// Whether bit `idx` is set in the buffer: bit `idx % 8` of byte `idx / 8`.
pub open spec fn bit_is_set(bytes: Seq<u8>, idx: int) -> bool
    recommends
        0 <= idx < bytes.len() * 8,
{
    (bytes[idx / 8] >> ((idx % 8) as u8)) & 1 == 1
}

/// The buffer after unconditionally setting bit `idx`: byte `idx / 8` is
/// ORed with the single-bit mask for `idx % 8`, every other byte stays.
pub open spec fn set_bit_spec(bytes: Seq<u8>, idx: int) -> Seq<u8>
    recommends
        0 <= idx < bytes.len() * 8,
{
    bytes.update(idx / 8, bytes[idx / 8] | (1u8 << ((idx % 8) as u8)))
}

/// The buffer after the manual strategy's conditional store: unchanged when
/// bit `idx` was already set, otherwise the same result as `set_bit_spec`.
pub open spec fn set_bit_manual_spec(bytes: Seq<u8>, idx: int) -> Seq<u8>
    recommends
        0 <= idx < bytes.len() * 8,
{
    if bit_is_set(bytes, idx) {
        bytes
    } else {
        set_bit_spec(bytes, idx)
    }
}

/// ORing a single-bit mask into a byte sets that bit and no other.
proof fn lemma_or_mask_bits(b: u8, i: u8, j: u8)
    by (bit_vector)
    requires
        i < 8,
        j < 8,
    ensures
        ((b | (1u8 << i)) >> i) & 1 == 1,
        i != j ==> ((b | (1u8 << i)) >> j) & 1 == (b >> j) & 1,
        (b >> i) & 1 == 1 ==> (b | (1u8 << i)) == b,
        ((b | (1u8 << i)) | (1u8 << i)) == (b | (1u8 << i)),
{
}

/// The byte holding bit `bit_index` lies inside a buffer of `len` bytes.
proof fn lemma_byte_index_bound(bit_index: u64, len: int)
    requires
        0 <= len,
        bit_index < len * 8,
    ensures
        0 <= bit_index as int / 8 < len,
        0 <= bit_index as int % 8 < 8,
{
    vstd::arithmetic::div_mod::lemma_fundamental_div_mod(bit_index as int, 8);
    let q = bit_index as int / 8;
    let r = bit_index as int % 8;
    assert(q < len) by (nonlinear_arith)
        requires
            bit_index as int == 8 * q + r,
            0 <= r < 8,
            bit_index < len * 8,
    ;
}

/// Two bit indices over the same byte buffer are equal exactly when they
/// pick the same byte and the same bit within it.
proof fn lemma_bit_index_parts(idx: int, j: int)
    requires
        0 <= idx,
        0 <= j,
        idx / 8 == j / 8,
        idx % 8 == j % 8,
    ensures
        idx == j,
{
    vstd::arithmetic::div_mod::lemma_fundamental_div_mod(idx, 8);
    vstd::arithmetic::div_mod::lemma_fundamental_div_mod(j, 8);
}

/// How `set_bit_spec` acts bit by bit: the addressed bit is set afterwards,
/// every other bit keeps its value, and the length does not change.
pub proof fn lemma_set_bit_spec_bits(bytes: Seq<u8>, idx: int)
    requires
        0 <= idx < bytes.len() * 8,
    ensures
        set_bit_spec(bytes, idx).len() == bytes.len(),
        bit_is_set(set_bit_spec(bytes, idx), idx),
        forall|j: int|
            0 <= j < bytes.len() * 8 && j != idx ==> bit_is_set(set_bit_spec(bytes, idx), j)
                == bit_is_set(bytes, j),
{
    let updated = set_bit_spec(bytes, idx);
    let i_byte = idx / 8;
    let i_bit = (idx % 8) as u8;
    assert(0 <= i_byte < bytes.len()) by {
        vstd::arithmetic::div_mod::lemma_fundamental_div_mod(idx, 8);
    }
    lemma_or_mask_bits(bytes[i_byte], i_bit, i_bit);
    assert forall|j: int| 0 <= j < bytes.len() * 8 && j != idx implies bit_is_set(updated, j)
        == bit_is_set(bytes, j) by {
        assert(0 <= j / 8 < bytes.len()) by {
            vstd::arithmetic::div_mod::lemma_fundamental_div_mod(j, 8);
        }
        if j / 8 == i_byte {
            assert(j % 8 != idx % 8) by {
                if j % 8 == idx % 8 {
                    lemma_bit_index_parts(idx, j);
                }
            }
            lemma_or_mask_bits(bytes[i_byte], i_bit, (j % 8) as u8);
        }
    }
}

/// Setting a bit is idempotent: setting an already-set bit changes nothing
/// observable, so applying `set_bit_spec` twice equals applying it once.
pub proof fn lemma_set_bit_idempotent(bytes: Seq<u8>, idx: int)
    requires
        0 <= idx < bytes.len() * 8,
    ensures
        set_bit_spec(set_bit_spec(bytes, idx), idx) =~= set_bit_spec(bytes, idx),
{
    let i_byte = idx / 8;
    let i_bit = (idx % 8) as u8;
    assert(0 <= i_byte < bytes.len()) by {
        vstd::arithmetic::div_mod::lemma_fundamental_div_mod(idx, 8);
    }
    lemma_or_mask_bits(bytes[i_byte], i_bit, i_bit);
}

/// Single-threaded, the manual strategy and the atomic strategy produce the
/// same buffer: skipping the store when the bit is already set changes
/// nothing, since storing would have written the byte back unchanged.
pub proof fn lemma_strategies_agree(bytes: Seq<u8>, idx: int)
    requires
        0 <= idx < bytes.len() * 8,
    ensures
        set_bit_manual_spec(bytes, idx) =~= set_bit_spec(bytes, idx),
{
    let i_byte = idx / 8;
    let i_bit = (idx % 8) as u8;
    assert(0 <= i_byte < bytes.len()) by {
        vstd::arithmetic::div_mod::lemma_fundamental_div_mod(idx, 8);
    }
    if bit_is_set(bytes, idx) {
        lemma_or_mask_bits(bytes[i_byte], i_bit, i_bit);
        assert(bytes =~= set_bit_spec(bytes, idx));
    }
}

/// A large, fixed-size, zero-initialized bitmap. The buffer is never
/// resized after creation; bit `idx` lives in byte `idx / 8`.
pub struct BitMap {
    /// Memory for the bitmap.
    backing: Vec<u8>,
}

impl View for BitMap {
    type V = Seq<u8>;

    closed spec fn view(&self) -> Seq<u8> {
        self.backing@
    }
}

impl BitMap {
    /// Allocate a zero-filled bitmap of exactly `size_in_bytes` bytes,
    /// addressable as `size_in_bytes * 8` bits. Allocation failure aborts
    /// the process: the benchmark is meaningless without the full buffer.
    pub fn create(size_in_bytes: usize) -> (bitmap: Self)
        ensures
            bitmap@.len() == size_in_bytes,
            forall|i: int| 0 <= i < size_in_bytes ==> bitmap@[i] == 0u8,
    {
        let backing: Vec<u8> = vec![0u8; size_in_bytes];
        Self { backing }
    }

    /// Allocate the bitmap at the benchmark's default size.
    pub fn new() -> (bitmap: Self)
        ensures
            bitmap@.len() == BITMAP_SIZE,
            forall|i: int| 0 <= i < BITMAP_SIZE ==> bitmap@[i] == 0u8,
    {
        Self::create(BITMAP_SIZE)
    }

    /// Number of bytes in the buffer.
    pub fn len_bytes(&self) -> (n: usize)
        ensures
            n == self@.len(),
    {
        self.backing.len()
    }

    /// Read the byte at `byte_index`.
    pub fn byte_at(&self, byte_index: usize) -> (b: u8)
        requires
            byte_index < self@.len(),
        ensures
            b == self@[byte_index as int],
    {
        self.backing[byte_index]
    }

    /// Whether bit `bit_index` is currently set.
    pub fn bit_at(&self, bit_index: u64) -> (set: bool)
        requires
            bit_index < self@.len() * 8,
        ensures
            set == bit_is_set(self@, bit_index as int),
    {
        let n: usize = self.backing.len();
        proof {
            lemma_byte_index_bound(bit_index, n as int);
        }
        let byte_index: usize = (bit_index / 8) as usize;
        let bit: u8 = (bit_index % 8) as u8;
        (self.backing[byte_index] >> bit) & 1 == 1
    }

    /// The atomic memory-operand strategy: one read-modify-write that
    /// unconditionally sets bit `bit_index`. The addressed bit is set
    /// afterwards and every other bit is unchanged, whatever its prior
    /// state.
    pub fn set_bit_atomic(&mut self, bit_index: u64)
        requires
            bit_index < old(self)@.len() * 8,
        ensures
            final(self)@ == set_bit_spec(old(self)@, bit_index as int),
            final(self)@.len() == old(self)@.len(),
            bit_is_set(final(self)@, bit_index as int),
            forall|j: int|
                0 <= j < old(self)@.len() * 8 && j != bit_index ==> bit_is_set(final(self)@, j)
                    == bit_is_set(old(self)@, j),
    {
        let n: usize = self.backing.len();
        proof {
            lemma_byte_index_bound(bit_index, n as int);
        }
        let byte_index: usize = (bit_index / 8) as usize;
        let bit: u8 = (bit_index % 8) as u8;
        let loaded: u8 = self.backing[byte_index];
        self.backing.set(byte_index, loaded | (1u8 << bit));
        proof {
            lemma_set_bit_spec_bits(old(self)@, bit_index as int);
        }
    }

    /// The manual load-modify-conditional-store strategy: loads the
    /// containing byte, tests and sets the bit in a register, and writes
    /// the byte back only when the bit was previously clear. Not atomic
    /// under concurrency; single-threaded it leaves the buffer exactly as
    /// the atomic strategy would.
    pub fn set_bit_manual(&mut self, bit_index: u64)
        requires
            bit_index < old(self)@.len() * 8,
        ensures
            final(self)@ == set_bit_manual_spec(old(self)@, bit_index as int),
            final(self)@ == set_bit_spec(old(self)@, bit_index as int),
            final(self)@.len() == old(self)@.len(),
            bit_is_set(final(self)@, bit_index as int),
            forall|j: int|
                0 <= j < old(self)@.len() * 8 && j != bit_index ==> bit_is_set(final(self)@, j)
                    == bit_is_set(old(self)@, j),
    {
        let n: usize = self.backing.len();
        proof {
            lemma_byte_index_bound(bit_index, n as int);
        }
        let byte_index: usize = (bit_index / 8) as usize;
        let bit: u8 = (bit_index % 8) as u8;
        let loaded: u8 = self.backing[byte_index];
        let with_bit: u8 = loaded | (1u8 << bit);
        // The register-level test: the carry the hardware bit-test leaves.
        let was_set: bool = (loaded >> bit) & 1 == 1;
        if !was_set {
            self.backing.set(byte_index, with_bit);
        }
        proof {
            lemma_strategies_agree(old(self)@, bit_index as int);
            lemma_set_bit_spec_bits(old(self)@, bit_index as int);
            if was_set {
                lemma_or_mask_bits(old(self)@[bit_index as int / 8], bit, bit);
                assert(old(self)@ =~= set_bit_spec(old(self)@, bit_index as int));
            }
        }
    }
}

} // verus!
