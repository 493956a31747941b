//! The memory a machine loads from and stores to.
use vstd::prelude::*;
use crate::error::{Error, OutOfBoundKind};
use vstd::arithmetic::div_mod::lemma_mod_breakdown;
use crate::instructions::register::Register;

verus! {

/// `x` rounded down to the start of its page.
pub open spec fn spec_round_page_down(x: u64) -> u64 {
    x & !0xfffu64
}

/// `x` rounded up to a page boundary, modulo 2^64.
pub open spec fn spec_round_page_up(x: u64) -> u64 {
    spec_round_page_down(x.wrapping_add(0xfff))
}

/// Rounds `x` down to the start of its page.
pub fn round_page_down(x: u64) -> (r: u64)
    ensures
        r == spec_round_page_down(x),
        r == x / 4096 * 4096,
{
    assert(x & !0xfffu64 == x / 4096 * 4096) by (bit_vector);
    x & !0xfffu64
}

/// Rounds `x` up to a page boundary; past the last page it wraps to zero.
pub fn round_page_up(x: u64) -> (r: u64)
    ensures
        r == spec_round_page_up(x),
        x <= u64::MAX - 0xfff ==> r == (x + 0xfff) / 4096 * 4096,
{
    round_page_down(x.wrapping_add(0xfff))
}

/// A byte-addressed memory. What a load returns, and what a store leaves
/// behind, are given by `spec_load` and `spec_store`, which each
/// implementation defines; a load leaves the memory as it was, and a store
/// that fails changes nothing.
pub trait Memory: Sized {
    type REG: Register;

    /// The value of the `bytes` bytes at `addr`, little endian and zero
    /// extended, or the error that a load of them raises.
    spec fn spec_load(&self, addr: Self::REG, bytes: nat) -> Result<Self::REG, Error>;

    /// The memory after the low `bytes` bytes of `value` are stored at
    /// `addr`, or the error that the store raises.
    spec fn spec_store(&self, addr: Self::REG, bytes: nat, value: Self::REG) -> Result<Self, Error>;

    /// What fetching `bytes` bytes of code at `addr` returns.
    spec fn spec_execute_load(&self, addr: u64, bytes: nat) -> Result<u64, Error>;

    /// The address reserved by the last load-reserved instruction.
    spec fn spec_lr(&self) -> Self::REG;

    /// The memory with its reservation replaced by `value`.
    spec fn spec_with_lr(&self, value: Self::REG) -> Self;

    fn load8(&mut self, addr: &Self::REG) -> (r: Result<Self::REG, Error>)
        ensures
            r == old(self).spec_load(*addr, 1),
            *final(self) == *old(self),
    ;

    fn load16(&mut self, addr: &Self::REG) -> (r: Result<Self::REG, Error>)
        ensures
            r == old(self).spec_load(*addr, 2),
            *final(self) == *old(self),
    ;

    fn load32(&mut self, addr: &Self::REG) -> (r: Result<Self::REG, Error>)
        ensures
            r == old(self).spec_load(*addr, 4),
            *final(self) == *old(self),
    ;

    fn load64(&mut self, addr: &Self::REG) -> (r: Result<Self::REG, Error>)
        ensures
            r == old(self).spec_load(*addr, 8),
            *final(self) == *old(self),
    ;

    fn store8(&mut self, addr: &Self::REG, value: &Self::REG) -> (r: Result<(), Error>)
        ensures
            match old(self).spec_store(*addr, 1, *value) {
                Ok(m) => r is Ok && *final(self) == m,
                Err(e) => r == Err::<(), Error>(e) && *final(self) == *old(self),
            },
    ;

    fn store16(&mut self, addr: &Self::REG, value: &Self::REG) -> (r: Result<(), Error>)
        ensures
            match old(self).spec_store(*addr, 2, *value) {
                Ok(m) => r is Ok && *final(self) == m,
                Err(e) => r == Err::<(), Error>(e) && *final(self) == *old(self),
            },
    ;

    fn store32(&mut self, addr: &Self::REG, value: &Self::REG) -> (r: Result<(), Error>)
        ensures
            match old(self).spec_store(*addr, 4, *value) {
                Ok(m) => r is Ok && *final(self) == m,
                Err(e) => r == Err::<(), Error>(e) && *final(self) == *old(self),
            },
    ;

    fn store64(&mut self, addr: &Self::REG, value: &Self::REG) -> (r: Result<(), Error>)
        ensures
            match old(self).spec_store(*addr, 8, *value) {
                Ok(m) => r is Ok && *final(self) == m,
                Err(e) => r == Err::<(), Error>(e) && *final(self) == *old(self),
            },
    ;

    fn execute_load16(&mut self, addr: u64) -> (r: Result<u16, Error>)
        ensures
            match old(self).spec_execute_load(addr, 2) {
                Ok(v) => r == Ok::<u16, Error>(v as u16),
                Err(e) => r == Err::<u16, Error>(e),
            },
            *final(self) == *old(self),
    ;

    fn execute_load32(&mut self, addr: u64) -> (r: Result<u32, Error>)
        ensures
            match old(self).spec_execute_load(addr, 4) {
                Ok(v) => r == Ok::<u32, Error>(v as u32),
                Err(e) => r == Err::<u32, Error>(e),
            },
            *final(self) == *old(self),
    ;

    fn lr(&self) -> (r: &Self::REG)
        ensures
            *r == self.spec_lr(),
    ;

    fn set_lr(&mut self, value: &Self::REG)
        ensures
            *final(self) == old(self).spec_with_lr(*value),
    ;
}


/// The little endian value of the bytes `s`.
pub open spec fn le_value(s: Seq<u8>) -> nat
    decreases s.len(),
{
    if s.len() == 0 {
        0
    } else {
        s[0] as nat + 256 * le_value(s.drop_first())
    }
}

/// 256 to the power `n`.
pub open spec fn pow256(n: nat) -> nat
    decreases n,
{
    if n == 0 {
        1
    } else {
        256 * pow256((n - 1) as nat)
    }
}

/// The `n` low bytes of `v`, least significant first.
pub open spec fn le_bytes(v: nat, n: nat) -> Seq<u8>
    decreases n,
{
    if n == 0 {
        Seq::empty()
    } else {
        seq![(v % 256) as u8] + le_bytes(v / 256, (n - 1) as nat)
    }
}

/// `data` with the bytes `bs` written from `at` on.
pub open spec fn write_bytes<const N: usize>(data: [u8; N], at: int, bs: Seq<u8>) -> [u8; N]
    decreases bs.len(),
{
    if bs.len() == 0 {
        data
    } else {
        write_bytes(vstd::array::spec_array_update(data, at, bs[0]), at + 1, bs.drop_first())
    }
}

/// The value of a little endian group of bytes is below 256 to the power of
/// their number.
proof fn lemma_le_value_bound(s: Seq<u8>)
    ensures
        le_value(s) < pow256(s.len()),
    decreases s.len(),
{
    if s.len() > 0 {
        lemma_le_value_bound(s.drop_first());
    }
}

/// Reading back the `n` low bytes of `v` gives `v` modulo 256^n.
pub proof fn lemma_le_value_of_bytes(v: nat, n: nat)
    ensures
        le_bytes(v, n).len() == n,
        le_value(le_bytes(v, n)) == v % pow256(n),
    decreases n,
{
    if n > 0 {
        lemma_le_value_of_bytes(v / 256, (n - 1) as nat);
        let bs = le_bytes(v, n);
        assert(bs.drop_first() =~= le_bytes(v / 256, (n - 1) as nat));
        lemma_pow256_positive((n - 1) as nat);
        lemma_mod_breakdown(v as int, 256, pow256((n - 1) as nat) as int);
    }
}

proof fn lemma_pow256_positive(n: nat)
    ensures
        pow256(n) > 0,
    decreases n,
{
    if n > 0 {
        lemma_pow256_positive((n - 1) as nat);
    }
}

proof fn lemma_pow256_small(n: nat)
    requires
        n <= 8,
    ensures
        pow256(n) <= 0x1_0000_0000_0000_0000,
        n == 1 ==> pow256(n) == 0x100,
        n == 2 ==> pow256(n) == 0x1_0000,
        n == 4 ==> pow256(n) == 0x1_0000_0000,
        n == 8 ==> pow256(n) == 0x1_0000_0000_0000_0000,
{
    reveal_with_fuel(pow256, 9);
}

/// Writing bytes changes those bytes to the ones written and no others.
proof fn lemma_write_bytes<const N: usize>(data: [u8; N], at: int, bs: Seq<u8>)
    requires
        0 <= at,
        at + bs.len() <= N,
    ensures
        write_bytes(data, at, bs)@.len() == N,
        write_bytes(data, at, bs)@.subrange(at, at + bs.len()) =~= bs,
        forall|k: int|
            0 <= k < N && !(at <= k < at + bs.len()) ==> #[trigger] write_bytes(data, at, bs)@[k]
                == data@[k],
    decreases bs.len(),
{
    broadcast use vstd::array::group_array_axioms;

    if bs.len() > 0 {
        let next = vstd::array::spec_array_update(data, at, bs[0]);
        lemma_write_bytes(next, at + 1, bs.drop_first());
        let w = write_bytes(data, at, bs);
        assert forall|k: int| at <= k < at + bs.len() implies w@[k] == bs[k - at] by {
            if k > at {
                assert(w@.subrange(at + 1, at + bs.len())[k - at - 1] == bs.drop_first()[k - at - 1]);
            }
        }
    }
}

/// A memory of `N` bytes, addressed from zero. Accesses are little endian;
/// one that reaches past the end fails with an out of bound error at its
/// address.
pub struct FlatMemory<R, const N: usize> {
    data: [u8; N],
    load_reservation_address: R,
}

/// A load of `bytes` bytes at `addr` from `data`, widened to a register.
pub open spec fn flat_load<R: Register, const N: usize>(data: [u8; N], addr: u64, bytes: nat) -> Result<R, Error> {
    if addr + bytes > N {
        Err(Error::MemOutOfBound(addr, OutOfBoundKind::Memory))
    } else {
        let v: nat = le_value(data@.subrange(addr as int, addr + bytes));
        Ok(if bytes == 1 {
            R::spec_from_u8(v as u8)
        } else if bytes == 2 {
            R::spec_from_u16(v as u16)
        } else if bytes == 4 {
            R::spec_from_u32(v as u32)
        } else {
            R::spec_from_u64(v as u64)
        })
    }
}

impl<R: Register, const N: usize> FlatMemory<R, N> {
    /// The bytes of the memory.
    pub closed spec fn spec_data(&self) -> Seq<u8> {
        self.data@
    }

    /// A memory of zero bytes, with no address reserved.
    pub fn new() -> (r: Self)
        ensures
            r.spec_data() == Seq::new(N as nat, |i: int| 0u8),
            r.spec_lr() == R::spec_max_value(),
    {
        let data: [u8; N] = [0u8; N];
        assert(data@ =~= Seq::new(N as nat, |i: int| 0u8));
        FlatMemory { data, load_reservation_address: R::max_value() }
    }

    fn load_bytes(&self, addr: u64, bytes: usize) -> (r: Result<u64, Error>)
        requires
            bytes == 1 || bytes == 2 || bytes == 4 || bytes == 8,
        ensures
            match r {
                Ok(v) => addr + bytes <= N && v == le_value(self.data@.subrange(addr as int, addr + bytes)),
                Err(e) => addr + bytes > N && e == Error::MemOutOfBound(addr, OutOfBoundKind::Memory),
            },
    {
        if addr >= N as u64 || (N as u64) - addr < bytes as u64 {
            return Err(Error::MemOutOfBound(addr, OutOfBoundKind::Memory));
        }
        let start: usize = addr as usize;
        let mut v: u64 = 0;
        let mut i: usize = bytes;
        proof {
            lemma_pow256_small(bytes as nat);
        }
        while i > 0
            invariant
                i <= bytes,
                bytes <= 8,
                start + bytes <= N,
                start == addr,
                v == le_value(self.data@.subrange(start + i, start + bytes)),
                v < pow256((bytes - i) as nat),
                pow256(bytes as nat) <= 0x1_0000_0000_0000_0000,
            decreases i,
        {
            let ghost prev = self.data@.subrange(start + i, start + bytes);
            proof {
                lemma_pow256_small((bytes - i + 1) as nat);
                let cur = self.data@.subrange(start + i - 1, start + bytes);
                assert(cur.drop_first() =~= prev);
            }
            v = v * 256 + self.data[start + i - 1] as u64;
            i = i - 1;
        }
        Ok(v)
    }

    fn store_bytes(&mut self, addr: u64, bytes: usize, value: u64) -> (r: Result<(), Error>)
        requires
            bytes == 1 || bytes == 2 || bytes == 4 || bytes == 8,
        ensures
            addr + bytes > N ==> r == Err::<(), Error>(Error::MemOutOfBound(addr, OutOfBoundKind::Memory))
                && *final(self) == *old(self),
            addr + bytes <= N ==> r is Ok && final(self).data == write_bytes(
                old(self).data,
                addr as int,
                le_bytes(value as nat, bytes as nat),
            ) && final(self).load_reservation_address == old(self).load_reservation_address,
    {
        if addr >= N as u64 || (N as u64) - addr < bytes as u64 {
            return Err(Error::MemOutOfBound(addr, OutOfBoundKind::Memory));
        }
        broadcast use vstd::array::group_array_axioms;

        let start: usize = addr as usize;
        let ghost all = le_bytes(value as nat, bytes as nat);
        proof {
            lemma_le_value_of_bytes(value as nat, bytes as nat);
        }
        let mut v: u64 = value;
        let mut i: usize = 0;
        assert(all.skip(0) =~= all);
        while i < bytes
            invariant
                i <= bytes,
                start + bytes <= N,
                start == addr,
                all == le_bytes(value as nat, bytes as nat),
                all.len() == bytes,
                all.skip(i as int) == le_bytes(v as nat, (bytes - i) as nat),
                write_bytes(old(self).data, start as int, all) == write_bytes(
                    self.data,
                    start + i,
                    all.skip(i as int),
                ),
                self.load_reservation_address == old(self).load_reservation_address,
            decreases bytes - i,
        {
            let ghost before = self.data;
            let byte: u8 = (v % 256) as u8;
            self.data[start + i] = byte;
            proof {
                assert(all.skip(i as int)[0] == byte);
                assert(all.skip(i as int).drop_first() =~= all.skip(i + 1));
                assert(self.data =~= vstd::array::spec_array_update(before, start + i, byte));
            }
            v = v / 256;
            i = i + 1;
        }
        proof {
            assert(all.skip(bytes as int) =~= Seq::<u8>::empty());
        }
        Ok(())
    }
}

impl<R: Register, const N: usize> Default for FlatMemory<R, N> {
    fn default() -> (r: Self)
        ensures
            r.spec_data() == Seq::new(N as nat, |i: int| 0u8),
            r.spec_lr() == R::spec_max_value(),
    {
        Self::new()
    }
}

impl<R: Register, const N: usize> Memory for FlatMemory<R, N> {
    type REG = R;

    closed spec fn spec_load(&self, addr: R, bytes: nat) -> Result<R, Error> {
        flat_load::<R, N>(self.data, R::spec_to_u64(addr), bytes)
    }

    closed spec fn spec_store(&self, addr: R, bytes: nat, value: R) -> Result<Self, Error> {
        let a: u64 = R::spec_to_u64(addr);
        if a + bytes > N {
            Err(Error::MemOutOfBound(a, OutOfBoundKind::Memory))
        } else {
            Ok(FlatMemory {
                data: write_bytes(self.data, a as int, le_bytes(R::spec_to_u64(value) as nat, bytes)),
                load_reservation_address: self.load_reservation_address,
            })
        }
    }

    closed spec fn spec_execute_load(&self, addr: u64, bytes: nat) -> Result<u64, Error> {
        if addr + bytes > N {
            Err(Error::MemOutOfBound(addr, OutOfBoundKind::Memory))
        } else {
            Ok(le_value(self.data@.subrange(addr as int, addr + bytes)) as u64)
        }
    }

    closed spec fn spec_lr(&self) -> R {
        self.load_reservation_address
    }

    closed spec fn spec_with_lr(&self, value: R) -> Self {
        FlatMemory { data: self.data, load_reservation_address: value }
    }

    fn load8(&mut self, addr: &R) -> (r: Result<R, Error>) {
        let v = self.load_bytes(addr.to_u64(), 1)?;
        Ok(R::from_u8(v as u8))
    }

    fn load16(&mut self, addr: &R) -> (r: Result<R, Error>) {
        let v = self.load_bytes(addr.to_u64(), 2)?;
        Ok(R::from_u16(v as u16))
    }

    fn load32(&mut self, addr: &R) -> (r: Result<R, Error>) {
        let v = self.load_bytes(addr.to_u64(), 4)?;
        Ok(R::from_u32(v as u32))
    }

    fn load64(&mut self, addr: &R) -> (r: Result<R, Error>) {
        let v = self.load_bytes(addr.to_u64(), 8)?;
        Ok(R::from_u64(v))
    }

    fn store8(&mut self, addr: &R, value: &R) -> (r: Result<(), Error>) {
        self.store_bytes(addr.to_u64(), 1, value.to_u64())
    }

    fn store16(&mut self, addr: &R, value: &R) -> (r: Result<(), Error>) {
        self.store_bytes(addr.to_u64(), 2, value.to_u64())
    }

    fn store32(&mut self, addr: &R, value: &R) -> (r: Result<(), Error>) {
        self.store_bytes(addr.to_u64(), 4, value.to_u64())
    }

    fn store64(&mut self, addr: &R, value: &R) -> (r: Result<(), Error>) {
        self.store_bytes(addr.to_u64(), 8, value.to_u64())
    }

    fn execute_load16(&mut self, addr: u64) -> (r: Result<u16, Error>) {
        let v = self.load_bytes(addr, 2)?;
        Ok(v as u16)
    }

    fn execute_load32(&mut self, addr: u64) -> (r: Result<u32, Error>) {
        let v = self.load_bytes(addr, 4)?;
        Ok(v as u32)
    }

    fn lr(&self) -> (r: &R) {
        &self.load_reservation_address
    }

    fn set_lr(&mut self, value: &R) {
        self.load_reservation_address = *value;
    }
}

/// A load reads back what a store of the same width at the same address
/// wrote: the low bytes of the value stored, widened to a register.
pub proof fn lemma_flat_load_after_store<R: Register, const N: usize>(
    m: FlatMemory<R, N>,
    addr: R,
    bytes: nat,
    value: R,
)
    requires
        bytes == 1 || bytes == 2 || bytes == 4 || bytes == 8,
        m.spec_store(addr, bytes, value) is Ok,
    ensures
        m.spec_store(addr, bytes, value)->Ok_0.spec_load(addr, bytes) == Ok::<R, Error>(
            if bytes == 1 {
                R::spec_from_u8(R::spec_to_u64(value) as u8)
            } else if bytes == 2 {
                R::spec_from_u16(R::spec_to_u64(value) as u16)
            } else if bytes == 4 {
                R::spec_from_u32(R::spec_to_u64(value) as u32)
            } else {
                R::spec_from_u64(R::spec_to_u64(value))
            },
        ),
{
    let a: u64 = R::spec_to_u64(addr);
    let v: u64 = R::spec_to_u64(value);
    let bs = le_bytes(v as nat, bytes);
    lemma_le_value_of_bytes(v as nat, bytes);
    lemma_write_bytes(m.data, a as int, bs);
    lemma_pow256_small(bytes);
    let stored = write_bytes(m.data, a as int, bs);
    assert(stored@.subrange(a as int, a + bytes) =~= bs);
    let lv: nat = le_value(stored@.subrange(a as int, a + bytes));
    assert(lv == v as nat % pow256(bytes));
    if bytes == 8 {
        vstd::arithmetic::div_mod::lemma_small_mod(v as nat, pow256(bytes));
    }
    assert((v % 0x100) as u8 == v as u8 && (v % 0x1_0000) as u16 == v as u16 && (v % 0x1_0000_0000)
        as u32 == v as u32) by (bit_vector);
}

/// A store leaves every load of other bytes as it was.
pub proof fn lemma_flat_store_keeps_other_loads<R: Register, const N: usize>(
    m: FlatMemory<R, N>,
    addr: R,
    bytes: nat,
    value: R,
    other: R,
    other_bytes: nat,
)
    requires
        bytes == 1 || bytes == 2 || bytes == 4 || bytes == 8,
        m.spec_store(addr, bytes, value) is Ok,
        R::spec_to_u64(other) + other_bytes <= R::spec_to_u64(addr) || R::spec_to_u64(addr) + bytes
            <= R::spec_to_u64(other),
    ensures
        m.spec_store(addr, bytes, value)->Ok_0.spec_load(other, other_bytes) == m.spec_load(
            other,
            other_bytes,
        ),
{
    let a: u64 = R::spec_to_u64(addr);
    let o: u64 = R::spec_to_u64(other);
    let bs = le_bytes(R::spec_to_u64(value) as nat, bytes);
    lemma_le_value_of_bytes(R::spec_to_u64(value) as nat, bytes);
    lemma_write_bytes(m.data, a as int, bs);
    let stored = write_bytes(m.data, a as int, bs);
    if o + other_bytes <= N {
        assert(stored@.subrange(o as int, o + other_bytes) =~= m.data@.subrange(o as int, o + other_bytes));
    }
}

} // verus!
