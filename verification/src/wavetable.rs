//! One-time construction of the oscillator's lookup tables.
//!
//! The table holds one period of a sine wave, sampled at `TABLE_LEN` points.
//! Samples are carried as the bit patterns of 32-bit floats (`u32`), so that
//! the table construction and every later lookup is verified; only the
//! evaluation of the sine itself is delegated to `libm` behind a trusted
//! wrapper.

use vstd::prelude::*;

verus! {

/// Number of samples in one period of the wavetable.
pub const TABLE_LEN: usize = 65536;

/// Bit pattern of the 32-bit float `sin(k * 2 * pi / 65536)`, for a phase
/// index `k` in `[0, 65536)`; a fixed function of `k` alone.
pub uninterp spec fn sine_sample_bits(k: nat) -> u32;

/// Bit pattern of the 32-bit float `sin(k * 2 * pi / 65536) / 5`, the sine
/// sample with the oscillator's fixed output gain of one fifth applied; a
/// fixed function of `k` alone.
pub uninterp spec fn scaled_sine_bits(k: nat) -> u32;

/// Relies on libm::sinf, with libm::atanf, libm::fabsf and libm::scalbnf
/// forming the angle `k * 2 * pi / 65536` from the integer index (atanf(1)
/// is a quarter pi, fabsf of the nonnegative index is the index itself, and
/// the scalbnf call divides by 8192): all are deterministic pure-Rust
/// routines, so the returned bit pattern is a function of `k` alone.
/// At `k == 0` the angle is a positive zero and sinf returns it unchanged,
/// so the result is exactly the bits of positive zero.
#[verifier::external_body]
fn sine_sample(k: u32) -> (r: u32)
    requires
        k < 65536,
    ensures
        r == sine_sample_bits(k as nat),
        k == 0 ==> r == 0,
{
    let quarter_pi = libm::atanf(1u8.into());
    let kf = libm::fabsf((k as u16).into());
    let angle = libm::scalbnf(quarter_pi * kf, -13);
    libm::sinf(angle).to_bits()
}

/// Relies on libm::sinf, libm::atanf, libm::fabsf and libm::scalbnf exactly
/// as `sine_sample` does, dividing the sine by 5 before taking the bits:
/// the returned bit pattern is a function of `k` alone. At `k == 0` the
/// sine is a positive zero and so is its fifth, so the result is exactly
/// the bits of positive zero.
#[verifier::external_body]
fn scaled_sine_sample(k: u32) -> (r: u32)
    requires
        k < 65536,
    ensures
        r == scaled_sine_bits(k as nat),
        k == 0 ==> r == 0,
{
    let quarter_pi = libm::atanf(1u8.into());
    let kf = libm::fabsf((k as u16).into());
    let angle = libm::scalbnf(quarter_pi * kf, -13);
    let five = libm::fabsf(5u8.into());
    (libm::sinf(angle) / five).to_bits()
}

/// The signal generator that fills the wavetable: a two-slot delay line of
/// an integer phase counter advancing by 1 modulo the table length, so that
/// no floating-point phase accumulation can drift across the table.
pub struct mydspSIG0 {
    pub iVec0: [i32; 2],
    pub iRec0: [i32; 2],
}

impl mydspSIG0 {
    /// Both delay lines hold values the generator can have produced:
    /// `iVec0` is the 0/1 "started" flag, `iRec0` the phase counter.
    pub open spec fn inv(self) -> bool {
        &&& self.iVec0[1] == 0 || self.iVec0[1] == 1
        &&& 0 <= self.iRec0[1] < 65536
    }

    /// The phase index the next produced sample will use.
    pub open spec fn phase(self) -> int {
        (self.iVec0[1] + self.iRec0[1]) % 65536
    }

    pub fn get_num_inputsmydspSIG0(&self) -> (n: i32)
        ensures
            n == 0,
    {
        0
    }

    pub fn get_num_outputsmydspSIG0(&self) -> (n: i32)
        ensures
            n == 1,
    {
        1
    }

    /// Zero both delay lines, so that the next fill starts at phase 0.
    /// The sample rate plays no part in table generation.
    #[allow(unused_variables)]
    pub fn instance_initmydspSIG0(&mut self, sample_rate: i32)
        ensures
            final(self).iVec0[0] == 0,
            final(self).iVec0[1] == 0,
            final(self).iRec0[0] == 0,
            final(self).iRec0[1] == 0,
            final(self).inv(),
            final(self).phase() == 0,
    {
        let mut l0: i32 = 0;
        while l0 < 2
            invariant
                0 <= l0 <= 2,
                l0 >= 1 ==> self.iVec0[0] == 0,
                l0 >= 2 ==> self.iVec0[1] == 0,
            decreases 2 - l0,
        {
            self.iVec0[l0 as usize] = 0;
            l0 = l0 + 1;
        }
        let mut l1: i32 = 0;
        while l1 < 2
            invariant
                0 <= l1 <= 2,
                self.iVec0[0] == 0,
                self.iVec0[1] == 0,
                l1 >= 1 ==> self.iRec0[0] == 0,
                l1 >= 2 ==> self.iRec0[1] == 0,
            decreases 2 - l1,
        {
            self.iRec0[l1 as usize] = 0;
            l1 = l1 + 1;
        }
    }

    /// Write the next `count` sine samples into the front of `table`,
    /// advancing the integer phase counter by 1 (modulo the table length)
    /// for each one; entries past `count` are left as they were.
    pub fn fillmydspSIG0(&mut self, count: i32, table: &mut Vec<u32>)
        requires
            old(self).inv(),
            0 <= count <= old(table)@.len(),
        ensures
            final(self).inv(),
            final(self).phase() == (old(self).phase() + count) % 65536,
            final(table)@.len() == old(table)@.len(),
            forall|j: int|
                0 <= j < count ==> final(table)@[j] == sine_sample_bits(
                    ((old(self).phase() + j) % 65536) as nat,
                ),
            forall|j: int|
                count <= j < final(table)@.len() ==> final(table)@[j] == old(table)@[j],
            old(self).phase() == 0 && count > 0 ==> final(table)@[0] == 0,
    {
        let n: usize = count as usize;
        let mut i: usize = 0;
        while i < n
            invariant
                i <= n,
                n <= table@.len(),
                self.inv(),
                self.phase() == (old(self).phase() + i) % 65536,
                table@.len() == old(table)@.len(),
                forall|j: int|
                    0 <= j < i ==> table@[j] == sine_sample_bits(
                        ((old(self).phase() + j) % 65536) as nat,
                    ),
                forall|j: int| i <= j < table@.len() ==> table@[j] == old(table)@[j],
                old(self).phase() == 0 && i > 0 ==> table@[0] == 0,
            decreases n - i,
        {
            self.iVec0[0] = 1;
            let r: i32 = (self.iVec0[1] + self.iRec0[1]) % 65536;
            self.iRec0[0] = r;
            let s: u32 = sine_sample(r as u32);
            table[i] = s;
            self.iVec0[1] = self.iVec0[0];
            self.iRec0[1] = self.iRec0[0];
            proof {
                vstd::arithmetic::div_mod::lemma_add_mod_noop(
                    old(self).phase() + i,
                    1,
                    65536,
                );
            }
            i = i + 1;
        }
    }
}

pub fn newmydspSIG0() -> (sig: mydspSIG0)
    ensures
        sig.iVec0[0] == 0,
        sig.iVec0[1] == 0,
        sig.iRec0[0] == 0,
        sig.iRec0[1] == 0,
        sig.inv(),
        sig.phase() == 0,
{
    mydspSIG0 { iVec0: [0, 0], iRec0: [0, 0] }
}

/// The frozen, process-wide lookup tables: one period of the sine wave, and
/// the same period with the output gain already applied so that the audio
/// path is a pure table lookup. Built once, before any audio processing,
/// and only ever read afterwards (callers share it by immutable borrow).
pub struct Wavetable {
    pub sine: Vec<u32>,
    pub scaled: Vec<u32>,
}

impl Wavetable {
    /// Fully generated: every entry of both tables holds its sample.
    pub open spec fn wf(self) -> bool {
        &&& self.sine@.len() == 65536
        &&& self.scaled@.len() == 65536
        &&& forall|k: int| 0 <= k < 65536 ==> self.sine@[k] == sine_sample_bits(k as nat)
        &&& forall|k: int| 0 <= k < 65536 ==> self.scaled@[k] == scaled_sine_bits(k as nat)
        &&& self.sine@[0] == 0
        &&& self.scaled@[0] == 0
    }

    /// Read one sine sample (as 32-bit float bits) from the table.
    pub fn sine_at(&self, k: usize) -> (r: u32)
        requires
            self.wf(),
            k < 65536,
        ensures
            r == sine_sample_bits(k as nat),
    {
        self.sine[k]
    }

    /// Read one gain-scaled sample (as 32-bit float bits) from the table.
    pub fn scaled_at(&self, k: usize) -> (r: u32)
        requires
            self.wf(),
            k < 65536,
        ensures
            r == scaled_sine_bits(k as nat),
    {
        self.scaled[k]
    }
}

/// Build the gain-scaled copy of the wavetable.
pub(crate) fn build_scaled_table() -> (t: Vec<u32>)
    ensures
        t@.len() == 65536,
        forall|k: int| 0 <= k < 65536 ==> t@[k] == scaled_sine_bits(k as nat),
        t@[0] == 0,
{
    let mut t: Vec<u32> = Vec::new();
    let mut k: usize = 0;
    while k < TABLE_LEN
        invariant
            k <= 65536,
            t@.len() == k,
            forall|j: int| 0 <= j < k ==> t@[j] == scaled_sine_bits(j as nat),
            k > 0 ==> t@[0] == 0,
        decreases 65536 - k,
    {
        let s: u32 = scaled_sine_sample(k as u32);
        t.push(s);
        k = k + 1;
    }
    t
}

} // verus!
