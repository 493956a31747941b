//! Scratch register allocation for the emitter.
use vstd::prelude::*;
use crate::definitions::registers::A0;
use crate::definitions::RISCV_GENERAL_REGISTER_NUMBER;
use crate::instructions::ast::Value;

verus! {

/// Hands out registers from `A0` upward, skipping the ones to avoid.
pub struct RegisterAllocator {
    current: usize,
    avoids: Vec<usize>,
}

/// The registers `v` reads directly, which an expression computed into a
/// scratch register must not clobber.
pub open spec fn registers_read(values: Seq<Value>) -> Seq<usize>
    decreases values.len(),
{
    if values.len() == 0 {
        Seq::empty()
    } else {
        let rest = registers_read(values.drop_last());
        match values.last() {
            Value::Register(r) => rest.push(r),
            _ => rest,
        }
    }
}

impl RegisterAllocator {
    /// The next register the allocator would consider.
    pub closed spec fn spec_current(&self) -> usize {
        self.current
    }

    /// The registers it never hands out.
    pub closed spec fn spec_avoids(&self) -> Seq<usize> {
        self.avoids@
    }

    pub fn new_with_avoids(avoids: &[usize]) -> (r: Self)
        ensures
            r.spec_current() == A0,
            r.spec_avoids() == avoids@,
    {
        let mut copy: Vec<usize> = Vec::new();
        let mut i: usize = 0;
        while i < avoids.len()
            invariant
                i <= avoids.len(),
                copy@ == avoids@.take(i as int),
            decreases avoids.len() - i,
        {
            copy.push(avoids[i]);
            proof {
                assert(avoids@.take(i + 1) =~= avoids@.take(i as int).push(avoids@[i as int]));
            }
            i = i + 1;
        }
        proof {
            assert(avoids@.take(avoids.len() as int) =~= avoids@);
        }
        Self { current: A0, avoids: copy }
    }

    /// An allocator that avoids every register that one of `values` is.
    pub fn new_with_values(values: &[&Value]) -> (r: Self)
        ensures
            r.spec_current() == A0,
            r.spec_avoids() == registers_read(values@.map_values(|v: &Value| *v)),
    {
        let mut avoids: Vec<usize> = Vec::new();
        let mut i: usize = 0;
        while i < values.len()
            invariant
                i <= values.len(),
                avoids@ == registers_read(values@.take(i as int).map_values(|v: &Value| *v)),
            decreases values.len() - i,
        {
            let value: &Value = values[i];
            if let Value::Register(r) = value {
                avoids.push(*r);
            }
            proof {
                assert(values@.take(i + 1).map_values(|v: &Value| *v).drop_last() =~= values@.take(
                    i as int,
                ).map_values(|v: &Value| *v));
            }
            i = i + 1;
        }
        proof {
            assert(values@.take(values.len() as int) =~= values@);
        }
        Self::new_with_avoids(avoids.as_slice())
    }

    /// The lowest register from the current one up that is not avoided, or
    /// `None` when every remaining register is; the allocator then moves past
    /// the register handed out, or, when none is left, stays past the last
    /// register, so that every later call gives `None` too.
    pub fn next(&mut self) -> (r: Option<usize>)
        ensures
            spec_next(*old(self), *final(self), r),
    {
        let ghost start = self.current;
        while self.current < RISCV_GENERAL_REGISTER_NUMBER && contains(&self.avoids, self.current)
            invariant
                start <= self.current,
                self.avoids@ == old(self).avoids@,
                start == old(self).current,
                forall|j: usize| start <= j < self.current ==> self.avoids@.contains(j),
                start < self.current ==> self.current <= RISCV_GENERAL_REGISTER_NUMBER,
            decreases RISCV_GENERAL_REGISTER_NUMBER - self.current,
        {
            self.current = self.current + 1;
        }
        if self.current < RISCV_GENERAL_REGISTER_NUMBER {
            let value = self.current;
            self.current = self.current + 1;
            Some(value)
        } else {
            None
        }
    }
}

/// What one call of `next` does, from allocator `a` to `b` with result
/// `r`: the lowest register from the current one up that is not avoided is
/// handed out and the allocator moves past it; where none is left, nothing
/// is handed out and the allocator stays past the last register.
pub open spec fn spec_next(a: RegisterAllocator, b: RegisterAllocator, r: Option<usize>) -> bool {
    &&& b.spec_avoids() == a.spec_avoids()
    &&& match r {
        Some(reg) => {
            &&& a.spec_current() <= reg < RISCV_GENERAL_REGISTER_NUMBER
            &&& !a.spec_avoids().contains(reg)
            &&& forall|j: usize| a.spec_current() <= j < reg ==> a.spec_avoids().contains(j)
            &&& b.spec_current() == reg + 1
        },
        None => {
            &&& forall|j: usize|
                a.spec_current() <= j < RISCV_GENERAL_REGISTER_NUMBER ==> a.spec_avoids().contains(j)
            &&& b.spec_current() == if a.spec_current() < RISCV_GENERAL_REGISTER_NUMBER {
                RISCV_GENERAL_REGISTER_NUMBER
            } else {
                a.spec_current()
            }
        },
    }
}

/// The registers from `c` up to the last that `avoids` does not hold, in
/// increasing order: what an allocator at `c` still hands out.
pub open spec fn spec_free_from(c: nat, avoids: Seq<usize>) -> Seq<usize>
    decreases RISCV_GENERAL_REGISTER_NUMBER - c,
{
    if c >= RISCV_GENERAL_REGISTER_NUMBER {
        Seq::empty()
    } else if avoids.contains(c as usize) {
        spec_free_from(c + 1, avoids)
    } else {
        seq![c as usize] + spec_free_from(c + 1, avoids)
    }
}

/// What is left to hand out skips the avoided registers from `c` to `d`.
proof fn lemma_free_skips(c: nat, d: nat, avoids: Seq<usize>)
    requires
        c <= d <= RISCV_GENERAL_REGISTER_NUMBER,
        forall|j: usize| c <= j < d ==> avoids.contains(j),
    ensures
        spec_free_from(c, avoids) == spec_free_from(d, avoids),
    decreases d - c,
{
    if c < d {
        assert(avoids.contains(c as usize));
        lemma_free_skips(c + 1, d, avoids);
    }
}

/// Nothing is left to hand out past the last register.
proof fn lemma_free_past_end(c: nat, avoids: Seq<usize>)
    requires
        c >= RISCV_GENERAL_REGISTER_NUMBER,
    ensures
        spec_free_from(c, avoids).len() == 0,
{
}

/// What an allocator at `c` hands out is every register from `c` to the
/// last that it does not avoid, each once, in increasing order.
pub proof fn lemma_free_from_members(c: nat, avoids: Seq<usize>)
    ensures
        forall|i: int|
            0 <= i < spec_free_from(c, avoids).len() ==> c <= #[trigger] spec_free_from(c, avoids)[i]
                < RISCV_GENERAL_REGISTER_NUMBER && !avoids.contains(spec_free_from(c, avoids)[i]),
        forall|i: int, k: int|
            0 <= i < k < spec_free_from(c, avoids).len() ==> #[trigger] spec_free_from(c, avoids)[i]
                < #[trigger] spec_free_from(c, avoids)[k],
        forall|x: usize|
            c <= x < RISCV_GENERAL_REGISTER_NUMBER && !avoids.contains(x) ==> #[trigger] spec_free_from(
                c,
                avoids,
            ).contains(x),
    decreases RISCV_GENERAL_REGISTER_NUMBER - c,
{
    if c < RISCV_GENERAL_REGISTER_NUMBER {
        lemma_free_from_members(c + 1, avoids);
        let rest = spec_free_from(c + 1, avoids);
        if !avoids.contains(c as usize) {
            let all = seq![c as usize] + rest;
            assert forall|x: usize|
                c <= x < RISCV_GENERAL_REGISTER_NUMBER && !avoids.contains(x) implies all.contains(x) by {
                if x == c {
                    assert(all[0] == x);
                } else {
                    assert(spec_free_from((c + 1) as nat, avoids).contains(x));
                    let k = choose|k: int| 0 <= k < rest.len() && rest[k] == x;
                    assert(all[k + 1] == x);
                }
            }
        }
    }
}

/// Calling `next` again and again hands out the registers that are left,
/// lowest first, each once, and then nothing: each call gives the first
/// register left, or `None` where none is, and leaves the rest.
pub proof fn lemma_next_hands_out_in_order(a: RegisterAllocator, b: RegisterAllocator, r: Option<usize>)
    requires
        spec_next(a, b, r),
    ensures
        b.spec_avoids() == a.spec_avoids(),
        spec_free_from(a.spec_current() as nat, a.spec_avoids()).len() > 0 ==> {
            &&& r == Some(spec_free_from(a.spec_current() as nat, a.spec_avoids())[0])
            &&& spec_free_from(b.spec_current() as nat, b.spec_avoids()) == spec_free_from(
                a.spec_current() as nat,
                a.spec_avoids(),
            ).drop_first()
        },
        spec_free_from(a.spec_current() as nat, a.spec_avoids()).len() == 0 ==> {
            &&& r is None
            &&& spec_free_from(b.spec_current() as nat, b.spec_avoids()).len() == 0
        },
{
    let avoids = a.spec_avoids();
    let c = a.spec_current() as nat;
    match r {
        Some(reg) => {
            lemma_free_skips(c, reg as nat, avoids);
            assert(spec_free_from(reg as nat, avoids) == seq![reg] + spec_free_from((reg + 1) as nat, avoids));
            assert((seq![reg] + spec_free_from((reg + 1) as nat, avoids)).drop_first() =~= spec_free_from(
                (reg + 1) as nat,
                avoids,
            ));
        },
        None => {
            if c < RISCV_GENERAL_REGISTER_NUMBER {
                lemma_free_skips(c, RISCV_GENERAL_REGISTER_NUMBER as nat, avoids);
            }
            lemma_free_past_end(b.spec_current() as nat, avoids);
        },
    }
}

/// What an allocator still hands out.
pub open spec fn spec_left(a: RegisterAllocator) -> Seq<usize> {
    spec_free_from(a.spec_current() as nat, a.spec_avoids())
}

/// After `n` calls of `next` from `states[0]`, what is left is what was
/// left at first, without its first `n` registers.
proof fn lemma_left_after(states: Seq<RegisterAllocator>, results: Seq<Option<usize>>, n: int)
    requires
        states.len() == results.len() + 1,
        forall|k: int| 0 <= k < results.len() ==> #[trigger] spec_next(states[k], states[k + 1], results[k]),
        0 <= n <= results.len(),
    ensures
        spec_left(states[n]) == if n <= spec_left(states[0]).len() {
            spec_left(states[0]).skip(n)
        } else {
            Seq::<usize>::empty()
        },
    decreases n,
{
    if n > 0 {
        lemma_left_after(states, results, n - 1);
        let k = n - 1;
        assert(spec_next(states[k], states[k + 1], results[k]));
        lemma_next_hands_out_in_order(states[k], states[k + 1], results[k]);
        let first = spec_left(states[0]);
        if n <= first.len() {
            assert(first.skip(n - 1).drop_first() =~= first.skip(n));
        }
    } else {
        assert(spec_left(states[0]).skip(0) =~= spec_left(states[0]));
    }
}

/// Calling `next` again and again, the call numbered `k` from allocator
/// `states[k]` to `states[k + 1]` with result `results[k]`, hands out the
/// registers that the first allocator had left, in their order (lowest
/// first, each once, see `lemma_free_from_members`), and after them nothing.
pub proof fn lemma_next_sequence(states: Seq<RegisterAllocator>, results: Seq<Option<usize>>)
    requires
        states.len() == results.len() + 1,
        forall|k: int| 0 <= k < results.len() ==> #[trigger] spec_next(states[k], states[k + 1], results[k]),
    ensures
        forall|k: int|
            0 <= k < results.len() ==> #[trigger] results[k] == if k < spec_left(states[0]).len() {
                Some(spec_left(states[0])[k])
            } else {
                None
            },
{
    assert forall|k: int| 0 <= k < results.len() implies #[trigger] results[k] == if k < spec_left(
        states[0],
    ).len() {
        Some(spec_left(states[0])[k])
    } else {
        None
    } by {
        lemma_left_after(states, results, k);
        assert(spec_next(states[k], states[k + 1], results[k]));
        lemma_next_hands_out_in_order(states[k], states[k + 1], results[k]);
    }
}

/// Whether `v` holds `x`.
fn contains(v: &Vec<usize>, x: usize) -> (r: bool)
    ensures
        r == v@.contains(x),
{
    let mut i: usize = 0;
    while i < v.len()
        invariant
            i <= v.len(),
            forall|j: int| 0 <= j < i ==> v@[j] != x,
        decreases v.len() - i,
    {
        if v[i] == x {
            return true;
        }
        i = i + 1;
    }
    false
}

} // verus!
