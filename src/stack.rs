use vstd::prelude::*;

use crate::constant::SP_BASE_ADDRESS;

verus! {

/// The stack pointer after a push: one less, wrapping from 0 to 255.
pub open spec fn sp_dec(sp: u8) -> u8 {
    ((sp as int + 255) % 256) as u8
}

/// The stack pointer before a pop reads: one more, wrapping from 255 to 0.
pub open spec fn sp_inc(sp: u8) -> u8 {
    ((sp as int + 1) % 256) as u8
}

/// The address of the stack slot that `sp` designates.
pub open spec fn slot(sp: u8) -> int {
    0x100 + sp as int
}

/// Pointer and memory after pushing `v`: write at the slot, then decrement.
pub open spec fn push_spec(sp: u8, m: Seq<u8>, v: u8) -> (u8, Seq<u8>) {
    (sp_dec(sp), m.update(slot(sp), v))
}

/// The byte that a pop returns: increment, then read at the slot.
pub open spec fn pop_value(sp: u8, m: Seq<u8>) -> u8 {
    m[slot(sp_inc(sp))]
}

/// Pointer and memory after pushing each byte of `s`, first to last.
pub open spec fn push_all(sp: u8, m: Seq<u8>, s: Seq<u8>) -> (u8, Seq<u8>)
    decreases s.len(),
{
    if s.len() == 0 {
        (sp, m)
    } else {
        let (sp1, m1) = push_spec(sp, m, s[0]);
        push_all(sp1, m1, s.drop_first())
    }
}

/// The bytes that `n` pops return, in the order they come out.
pub open spec fn pop_all(sp: u8, m: Seq<u8>, n: nat) -> Seq<u8>
    decreases n,
{
    if n == 0 {
        Seq::empty()
    } else {
        seq![pop_value(sp, m)] + pop_all(sp_inc(sp), m, (n - 1) as nat)
    }
}

/// Pointer and memory after pushing a 16-bit value: high byte, then low.
pub open spec fn push16_spec(sp: u8, m: Seq<u8>, v: u16) -> (u8, Seq<u8>) {
    let (sp1, m1) = push_spec(sp, m, (v as int / 256) as u8);
    push_spec(sp1, m1, (v as int % 256) as u8)
}

/// The 16-bit value that two pops return: low byte first, then high.
pub open spec fn pop16_value(sp: u8, m: Seq<u8>) -> u16 {
    (pop_value(sp_inc(sp), m) as int * 256 + pop_value(sp, m) as int) as u16
}

/// Stack address of the slot that the pointer `sp` designates.
pub fn get_sp_offset(sp: u8) -> (r: u16)
    ensures
        r as int == slot(sp),
{
    assert(0x100u16 | (sp as u16) == 0x100u16 + (sp as u16)) by (bit_vector)
        requires
            sp < 256,
    ;
    SP_BASE_ADDRESS | (sp as u16)
}

/// A LIFO over the stack page.
pub trait Stacked: Sized {
    /// The stack is usable: its memory holds 65536 bytes.
    spec fn stack_ready(&self) -> bool;

    /// The stack pointer.
    spec fn stack_pointer(&self) -> u8;

    /// The raw memory that holds the stack page.
    spec fn stack_bytes(&self) -> Seq<u8>;

    /// `self` holds what `o` holds apart from the stack pointer and memory.
    spec fn stack_rest_same(&self, o: &Self) -> bool;

    /// Keeping everything but the stack pointer and memory is transitive.
    proof fn lemma_stack_rest_trans(a: &Self, b: &Self, c: &Self)
        requires
            b.stack_rest_same(a),
            c.stack_rest_same(b),
        ensures
            c.stack_rest_same(a),
    ;

    /// Push a byte onto the stack.
    fn push_stack(&mut self, val: u8)
        requires
            old(self).stack_ready(),
        ensures
            final(self).stack_ready(),
            final(self).stack_rest_same(old(self)),
            (final(self).stack_pointer(), final(self).stack_bytes()) == push_spec(
                old(self).stack_pointer(),
                old(self).stack_bytes(),
                val,
            ),
    ;

    /// Pop a byte from the stack.
    fn pop_stack(&mut self) -> (r: u8)
        requires
            old(self).stack_ready(),
        ensures
            final(self).stack_ready(),
            final(self).stack_rest_same(old(self)),
            final(self).stack_pointer() == sp_inc(old(self).stack_pointer()),
            final(self).stack_bytes() == old(self).stack_bytes(),
            r == pop_value(old(self).stack_pointer(), old(self).stack_bytes()),
    ;

    /// Push a 16-bit value: high byte first, so the low byte is popped first.
    fn push_stack16(&mut self, val: u16)
        requires
            old(self).stack_ready(),
        ensures
            final(self).stack_ready(),
            final(self).stack_rest_same(old(self)),
            (final(self).stack_pointer(), final(self).stack_bytes()) == push16_spec(
                old(self).stack_pointer(),
                old(self).stack_bytes(),
                val,
            ),
    {
        let hi = ((val & 0xFF00) >> 8) as u8;
        let lo = (val & 0xFF) as u8;
        assert((val & 0xFF00) >> 8 == val / 256 && val & 0xFF == val % 256) by (bit_vector);
        self.push_stack(hi);
        let ghost mid = *self;
        self.push_stack(lo);
        proof {
            Self::lemma_stack_rest_trans(old(self), &mid, self);
        }
    }

    /// Pop a 16-bit value: low byte, then high byte.
    fn pop_stack16(&mut self) -> (r: u16)
        requires
            old(self).stack_ready(),
        ensures
            final(self).stack_ready(),
            final(self).stack_rest_same(old(self)),
            final(self).stack_pointer() == sp_inc(sp_inc(old(self).stack_pointer())),
            final(self).stack_bytes() == old(self).stack_bytes(),
            r == pop16_value(old(self).stack_pointer(), old(self).stack_bytes()),
    {
        let lo = self.pop_stack() as u16;
        let ghost mid = *self;
        let hi = self.pop_stack() as u16;
        proof {
            Self::lemma_stack_rest_trans(old(self), &mid, self);
        }
        assert((hi << 8) | lo == hi * 256 + lo) by (bit_vector)
            requires
                hi < 256,
                lo < 256,
        ;
        (hi << 8) | lo
    }
}

/// What pushing `s` leaves: the pointer moved down by `|s|`, the byte pushed
/// `d` places back at the slot `d` below the start, other slots untouched.
proof fn lemma_push_all_layout(sp: u8, m: Seq<u8>, s: Seq<u8>)
    requires
        m.len() == 0x10000,
        s.len() <= 256,
    ensures
        push_all(sp, m, s).1.len() == m.len(),
        push_all(sp, m, s).0 as int == (sp as int - s.len()) % 256,
        forall|d: int|
            0 <= d < 256 ==> #[trigger] push_all(sp, m, s).1[0x100 + (sp as int - d) % 256] == (
            if d < s.len() {
                s[d]
            } else {
                m[0x100 + (sp as int - d) % 256]
            }),
    decreases s.len(),
{
    if s.len() > 0 {
        let (sp1, m1) = push_spec(sp, m, s[0]);
        let t = s.drop_first();
        lemma_push_all_layout(sp1, m1, t);
        let r = push_all(sp1, m1, t).1;
        assert forall|d: int| 0 <= d < 256 implies #[trigger] r[0x100 + (sp as int - d) % 256] == (
        if d < s.len() {
            s[d]
        } else {
            m[0x100 + (sp as int - d) % 256]
        }) by {
            let e = if d == 0 { 255 } else { d - 1 };
            assert((sp1 as int - e) % 256 == (sp as int - d) % 256);
            assert(r[0x100 + (sp1 as int - e) % 256] == if e < t.len() {
                t[e]
            } else {
                m1[0x100 + (sp1 as int - e) % 256]
            });
        }
    }
}

/// The `k`-th pop of `n` reads the slot `k + 1` above the start.
proof fn lemma_pop_all_layout(sp: u8, m: Seq<u8>, n: nat)
    ensures
        pop_all(sp, m, n).len() == n,
        forall|k: int|
            0 <= k < n ==> #[trigger] pop_all(sp, m, n)[k] == m[0x100 + (sp as int + 1 + k) % 256],
    decreases n,
{
    if n > 0 {
        lemma_pop_all_layout(sp_inc(sp), m, (n - 1) as nat);
        let p = pop_all(sp, m, n);
        let q = pop_all(sp_inc(sp), m, (n - 1) as nat);
        assert forall|k: int| 0 <= k < n implies #[trigger] p[k] == m[0x100 + (sp as int + 1 + k)
            % 256] by {
            if k > 0 {
                assert(p[k] == q[k - 1]);
                assert((sp_inc(sp) as int + 1 + (k - 1)) % 256 == (sp as int + 1 + k) % 256);
            }
        }
    }
}

/// Pushing up to 256 bytes and popping as many returns them in reverse
/// order, from any starting pointer, across the wrap from 0 to 255 too.
pub proof fn lemma_push_pop_reverse(sp: u8, m: Seq<u8>, s: Seq<u8>)
    requires
        m.len() == 0x10000,
        s.len() <= 256,
    ensures
        pop_all(push_all(sp, m, s).0, push_all(sp, m, s).1, s.len()) == s.reverse(),
{
    let (sp2, m2) = push_all(sp, m, s);
    let n = s.len();
    lemma_push_all_layout(sp, m, s);
    lemma_pop_all_layout(sp2, m2, n);
    let p = pop_all(sp2, m2, n);
    assert(sp2 as int == if sp >= n { sp as int - n } else { sp as int - n + 256 });
    assert forall|k: int| 0 <= k < n implies #[trigger] p[k] == s.reverse()[k] by {
        let d = n - 1 - k;
        let x = sp as int - d;
        assert(x % 256 == (x + 256) % 256);
        assert((sp2 as int + 1 + k) % 256 == x % 256);
        assert(m2[0x100 + (sp as int - d) % 256] == s[d]);
    }
    assert(p =~= s.reverse());
}

/// A 16-bit push followed by a 16-bit pop returns the value and restores the
/// pointer.
pub proof fn lemma_push16_pop16(sp: u8, m: Seq<u8>, v: u16)
    requires
        m.len() == 0x10000,
    ensures
        pop16_value(push16_spec(sp, m, v).0, push16_spec(sp, m, v).1) == v,
        sp_inc(sp_inc(push16_spec(sp, m, v).0)) == sp,
{
}

} // verus!
