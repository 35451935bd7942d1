//! The oscillator core and the real-time block adapter.
//!
//! The oscillator advances its phase once per sample by taking the
//! fractional part of `increment + previous phase`, with
//! `increment = 440 / clamp(sample rate, 1, 192000)`. Both the phase and
//! the increment are exact rationals whose denominator is the clamped sample
//! rate, so the oscillator tracks the phase as an integer numerator in
//! `[0, rate)` and the wraparound becomes addition modulo the rate. Every
//! step of the audio path — phase advance, table indexing, block
//! processing — is verified and performs no allocation and no floating-point
//! work; the output sample is a pure lookup in the gain-scaled wavetable.

use crate::control::Meta;
use crate::control::ParamIndex;
use crate::control::UI;
use crate::control::UiEvent;
use crate::wavetable::Wavetable;
use crate::wavetable::build_scaled_table;
use crate::wavetable::newmydspSIG0;
use crate::wavetable::scaled_sine_bits;
use crate::wavetable::mydspSIG0;
use vstd::prelude::*;

verus! {

/// The compiled-in target frequency, in cycles per second.
pub const TARGET_FREQ: u32 = 440;

/// The highest sample rate the increment computation supports.
pub const MAX_RATE: u32 = 192000;

/// The sample rate after clamping to the supported range `[1, 192000]`:
/// the denominator of the phase increment.
pub open spec fn clamp_rate(sample_rate: int) -> int {
    if sample_rate < 1 {
        1
    } else if sample_rate > 192000 {
        192000
    } else {
        sample_rate
    }
}

/// One phase advance: add the increment numerator (the target frequency, or
/// 0 before configuration) and wrap modulo the clamped rate `rc`. When the
/// rate is below the target frequency the increment exceeds one cycle per
/// sample; the modulo is exact, so the phase wraps as many times as needed
/// and stays normalized.
pub open spec fn next_phase(p: int, freq: int, rc: int) -> int {
    (p + freq) % rc
}

/// The phase numerator after `n` advances from `p`.
pub open spec fn phase_at(p: int, freq: int, rc: int, n: nat) -> int
    decreases n,
{
    if n == 0 {
        p
    } else {
        next_phase(phase_at(p, freq, rc, (n - 1) as nat), freq, rc)
    }
}

/// The wavetable index for phase numerator `p` over rate `rc`:
/// `floor(65536 * p / rc)`, the integer form of `floor(tableLength * phase)`.
pub open spec fn table_index(p: int, rc: int) -> int {
    (65536 * p) / rc
}

/// The sample a step emits when it starts from phase numerator `p`: the
/// gain-scaled table entry at the freshly advanced phase.
pub open spec fn output_bits(p: int, freq: int, rc: int) -> u32 {
    scaled_sine_bits(table_index(next_phase(p, freq, rc), rc) as nat)
}

/// The block of `n` samples emitted by `n` consecutive steps starting from
/// phase numerator `p`: a pure function of the oscillator state.
pub open spec fn output_seq(p: int, freq: int, rc: int, n: nat) -> Seq<u32> {
    Seq::new(n, |i: int| output_bits(phase_at(p, freq, rc, i as nat), freq, rc))
}

/// Why a `compute` call was rejected instead of processed: the supplied
/// buffers do not match the declared channel topology, which is fatal for
/// the block (nothing is written, nothing advances).
#[derive(Clone, Copy, PartialEq, Eq, Structural, Debug)]
pub enum ProcessError {
    /// The number of output buffers differs from the declared output
    /// channel count (one).
    MissingOutput,
    /// The output buffer is shorter than the requested sample count.
    ShortBuffer,
}

/// Why a configuration call was rejected: supplying a valid rate again is
/// the host's responsibility.
#[derive(Clone, Copy, PartialEq, Eq, Structural, Debug)]
pub enum ConfigError {
    /// The sample rate is zero or negative: a configuration error, rejected
    /// before it can reach the increment's divisor.
    NonPositiveRate,
}

/// The generic interface a host uses to drive any DSP of this family:
/// lifecycle, introspection, parameter access and block processing.
/// Implementations live with the host; the reference instance `mydsp`
/// exposes the same operations as inherent methods with full contracts.
pub trait FaustDsp {
    type T;

    /// What a well-formed state of this DSP is; `compute` demands and
    /// preserves it.
    spec fn valid(&self) -> bool;

    fn new() -> (r: Self) where Self: Sized
        ensures
            r.valid(),
    ;

    fn metadata<M: Meta>(&self, m: &mut M);

    fn get_sample_rate(&self) -> i32;

    fn get_num_inputs(&self) -> i32;

    fn get_num_outputs(&self) -> i32;

    fn instance_reset_params(&mut self);

    fn instance_clear(&mut self);

    fn instance_constants(&mut self, sample_rate: i32) -> Result<(), ConfigError>;

    fn instance_init(&mut self, sample_rate: i32) -> (r: Result<(), ConfigError>)
        ensures
            r is Ok ==> final(self).valid(),
    ;

    fn class_init(sample_rate: i32) -> (table: Wavetable) where Self: Sized
        ensures
            table.wf(),
    ;

    fn init(&mut self, sample_rate: i32) -> (r: Result<Wavetable, ConfigError>)
        ensures
            r matches Ok(table) ==> final(self).valid() && table.wf(),
    ;

    fn build_user_interface<U: UI<Self::T>>(&self, ui_interface: &mut U);

    fn build_user_interface_static<U: UI<Self::T>>(ui_interface: &mut U) where Self: Sized;

    fn get_param(&self, param: ParamIndex) -> Option<Self::T>;

    fn set_param(&mut self, param: ParamIndex, value: Self::T);

    fn compute(
        &mut self,
        table: &Wavetable,
        count: i32,
        inputs: &Vec<Vec<Self::T>>,
        outputs: &mut Vec<Vec<Self::T>>,
    ) -> (r: Result<(), ProcessError>)
        requires
            old(self).valid(),
            table.wf(),
            0 <= count,
        ensures
            final(self).valid(),
    ;
}

/// The reference oscillator instance: a 440 Hz sine at gain one fifth.
///
/// `phase_cur` and `phase_prev` are the two slots of the phase delay line,
/// holding the numerators of the current and previous normalized phase over
/// `rate_clamped`.
pub struct mydsp {
    pub sample_rate: i32,
    /// Numerator of the phase increment: 0 until the instance is
    /// configured, the target frequency afterwards.
    pub freq_num: u32,
    /// Denominator of the phase increment: `clamp(sample_rate, 1, 192000)`.
    pub rate_clamped: u32,
    pub phase_cur: u32,
    pub phase_prev: u32,
}

impl mydsp {
    /// The increment fields hold values `instance_constants` can produce.
    pub open spec fn rate_wf(self) -> bool {
        &&& self.freq_num == 0 || self.freq_num == TARGET_FREQ
        &&& 1 <= self.rate_clamped <= 192000
    }

    /// Well-formed state: both phase slots are normalized, i.e. in `[0, 1)`
    /// as fractions over the clamped rate.
    pub open spec fn wf(self) -> bool {
        &&& self.rate_wf()
        &&& self.phase_cur < self.rate_clamped
        &&& self.phase_prev < self.rate_clamped
    }

    pub fn new() -> (dsp: mydsp)
        ensures
            dsp.wf(),
            dsp.sample_rate == 0,
            dsp.freq_num == 0,
            dsp.rate_clamped == 1,
            dsp.phase_cur == 0,
            dsp.phase_prev == 0,
    {
        mydsp { sample_rate: 0, freq_num: 0, rate_clamped: 1, phase_cur: 0, phase_prev: 0 }
    }

    /// The exact metadata this DSP declares, in order: the authorship,
    /// versioning and naming of the DSP and of the libraries it was built
    /// from.
    pub open spec fn metadata_pairs() -> Seq<(Seq<char>, Seq<char>)> {
        seq![
            ("basics.lib/name"@, "Faust Basic Element Library"@),
            ("basics.lib/version"@, "0.1"@),
            ("filename"@, "exfaust1.dsp"@),
            ("maths.lib/author"@, "GRAME"@),
            ("maths.lib/copyright"@, "GRAME"@),
            ("maths.lib/license"@, "LGPL with exception"@),
            ("maths.lib/name"@, "Faust Math Library"@),
            ("maths.lib/version"@, "2.3"@),
            ("name"@, "exfaust1"@),
            ("oscillators.lib/name"@, "Faust Oscillator Library"@),
            ("oscillators.lib/version"@, "0.1"@),
            ("platform.lib/name"@, "Generic Platform Library"@),
            ("platform.lib/version"@, "0.1"@),
        ]
    }

    /// Declare the authorship and naming metadata of this DSP to a host:
    /// exactly `metadata_pairs`, in order, appended to whatever the host
    /// has already recorded.
    pub fn metadata<M: Meta>(&self, m: &mut M)
        ensures
            final(m).log() == old(m).log() + mydsp::metadata_pairs(),
    {
        m.declare("basics.lib/name", "Faust Basic Element Library");
        m.declare("basics.lib/version", "0.1");
        m.declare("filename", "exfaust1.dsp");
        m.declare("maths.lib/author", "GRAME");
        m.declare("maths.lib/copyright", "GRAME");
        m.declare("maths.lib/license", "LGPL with exception");
        m.declare("maths.lib/name", "Faust Math Library");
        m.declare("maths.lib/version", "2.3");
        m.declare("name", "exfaust1");
        m.declare("oscillators.lib/name", "Faust Oscillator Library");
        m.declare("oscillators.lib/version", "0.1");
        m.declare("platform.lib/name", "Generic Platform Library");
        m.declare("platform.lib/version", "0.1");
        proof {
            assert(m.log() =~= old(m).log() + mydsp::metadata_pairs());
        }
    }

    pub fn get_sample_rate(&self) -> (r: i32)
        ensures
            r == self.sample_rate,
    {
        self.sample_rate
    }

    pub fn get_num_inputs(&self) -> (n: i32)
        ensures
            n == 0,
    {
        0
    }

    pub fn get_num_outputs(&self) -> (n: i32)
        ensures
            n == 1,
    {
        1
    }

    /// Build the process-wide wavetable: run the signal generator once over
    /// the whole table, then fold the output gain into a second copy. Must
    /// complete before the first `compute` call; the `Wavetable` ownership
    /// discipline (built here, then only shared borrows) enforces that.
    pub fn class_init(sample_rate: i32) -> (table: Wavetable)
        ensures
            table.wf(),
    {
        let mut sig0: mydspSIG0 = newmydspSIG0();
        sig0.instance_initmydspSIG0(sample_rate);
        let mut sine: Vec<u32> = Vec::new();
        let mut k: usize = 0;
        while k < 65536
            invariant
                k <= 65536,
                sine@.len() == k,
            decreases 65536 - k,
        {
            sine.push(0);
            k = k + 1;
        }
        sig0.fillmydspSIG0(65536, &mut sine);
        let scaled: Vec<u32> = build_scaled_table();
        Wavetable { sine, scaled }
    }

    /// Parameter state reset: this instance has no parameters, so nothing
    /// changes.
    pub fn instance_reset_params(&mut self)
        ensures
            *final(self) == *old(self),
    {
    }

    /// Reset: zero both phase-delay slots.
    pub fn instance_clear(&mut self)
        ensures
            final(self).phase_cur == 0,
            final(self).phase_prev == 0,
            final(self).sample_rate == old(self).sample_rate,
            final(self).freq_num == old(self).freq_num,
            final(self).rate_clamped == old(self).rate_clamped,
    {
        self.phase_cur = 0;
        self.phase_prev = 0;
    }

    /// Configure: a non-positive sample rate is a configuration error on
    /// the host's side and is rejected with nothing changed, before it can
    /// reach the increment's divisor. A valid rate is stored and the phase
    /// increment `440 / clamp(sample_rate, 1, 192000)` derived, the clamp
    /// bounding the increment at absurdly high rates. The phase slots are
    /// untouched; callers that change the rate re-establish normalization
    /// with `instance_clear` (as `instance_init` does).
    pub fn instance_constants(&mut self, sample_rate: i32) -> (r: Result<(), ConfigError>)
        ensures
            match r {
                Ok(()) => {
                    &&& sample_rate >= 1
                    &&& final(self).sample_rate == sample_rate
                    &&& final(self).freq_num == TARGET_FREQ
                    &&& final(self).rate_clamped == clamp_rate(sample_rate as int)
                    &&& final(self).rate_wf()
                    &&& final(self).phase_cur == old(self).phase_cur
                    &&& final(self).phase_prev == old(self).phase_prev
                },
                Err(ConfigError::NonPositiveRate) => {
                    &&& sample_rate < 1
                    &&& *final(self) == *old(self)
                },
            },
    {
        if sample_rate < 1 {
            return Err(ConfigError::NonPositiveRate);
        }
        self.sample_rate = sample_rate;
        self.rate_clamped = if sample_rate > MAX_RATE as i32 {
            MAX_RATE
        } else {
            sample_rate as u32
        };
        self.freq_num = TARGET_FREQ;
        Ok(())
    }

    /// Initialize the instance for a sample rate: derive the increment and
    /// zero the phase. A non-positive rate is rejected with nothing
    /// changed.
    pub fn instance_init(&mut self, sample_rate: i32) -> (r: Result<(), ConfigError>)
        ensures
            match r {
                Ok(()) => {
                    &&& sample_rate >= 1
                    &&& final(self).wf()
                    &&& final(self).sample_rate == sample_rate
                    &&& final(self).freq_num == TARGET_FREQ
                    &&& final(self).rate_clamped == clamp_rate(sample_rate as int)
                    &&& final(self).phase_cur == 0
                    &&& final(self).phase_prev == 0
                },
                Err(ConfigError::NonPositiveRate) => {
                    &&& sample_rate < 1
                    &&& *final(self) == *old(self)
                },
            },
    {
        self.instance_constants(sample_rate)?;
        self.instance_reset_params();
        self.instance_clear();
        Ok(())
    }

    /// Full initialization: build the wavetable and initialize the
    /// instance. A non-positive rate is rejected before anything is built.
    /// The returned table must be kept by the caller and passed to every
    /// `compute` call.
    pub fn init(&mut self, sample_rate: i32) -> (r: Result<Wavetable, ConfigError>)
        ensures
            match r {
                Ok(table) => {
                    &&& sample_rate >= 1
                    &&& table.wf()
                    &&& final(self).wf()
                    &&& final(self).sample_rate == sample_rate
                    &&& final(self).freq_num == TARGET_FREQ
                    &&& final(self).rate_clamped == clamp_rate(sample_rate as int)
                    &&& final(self).phase_cur == 0
                    &&& final(self).phase_prev == 0
                },
                Err(ConfigError::NonPositiveRate) => {
                    &&& sample_rate < 1
                    &&& *final(self) == *old(self)
                },
            },
    {
        if sample_rate < 1 {
            return Err(ConfigError::NonPositiveRate);
        }
        let table = mydsp::class_init(sample_rate);
        match self.instance_init(sample_rate) {
            Ok(()) => Ok(table),
            Err(e) => Err(e),
        }
    }

    /// Declare the widget layout to a host: exactly one vertical group,
    /// opened and closed with nothing inside, since this instance has no
    /// controllable parameters.
    pub fn build_user_interface<U: UI<u32>>(&self, ui_interface: &mut U)
        ensures
            final(ui_interface).events() == old(ui_interface).events().push(
                UiEvent::OpenVerticalBox("exfaust1"@),
            ).push(UiEvent::CloseBox),
    {
        mydsp::build_user_interface_static(ui_interface);
    }

    pub fn build_user_interface_static<U: UI<u32>>(ui_interface: &mut U)
        ensures
            final(ui_interface).events() == old(ui_interface).events().push(
                UiEvent::OpenVerticalBox("exfaust1"@),
            ).push(UiEvent::CloseBox),
    {
        ui_interface.open_vertical_box("exfaust1");
        ui_interface.close_box();
    }

    /// Look a parameter up: this instance has none, so every index reports
    /// absent rather than defaulting to a bogus value.
    pub fn get_param(&self, param: ParamIndex) -> (r: Option<u32>)
        ensures
            r is None,
    {
        match param.0 {
            _ => None,
        }
    }

    /// Write a parameter: this instance has none, so every write is a
    /// no-op.
    pub fn set_param(&mut self, param: ParamIndex, value: u32)
        ensures
            *final(self) == *old(self),
    {
        match param.0 {
            _ => {},
        }
    }

    /// Advance the phase accumulator one sample and emit the sample at the
    /// new phase: a table lookup, with no allocation, blocking or
    /// floating-point work.
    pub fn step(&mut self, table: &Wavetable) -> (out: u32)
        requires
            old(self).wf(),
            table.wf(),
        ensures
            final(self).wf(),
            final(self).sample_rate == old(self).sample_rate,
            final(self).freq_num == old(self).freq_num,
            final(self).rate_clamped == old(self).rate_clamped,
            final(self).phase_cur == next_phase(
                old(self).phase_prev as int,
                old(self).freq_num as int,
                old(self).rate_clamped as int,
            ),
            final(self).phase_prev == final(self).phase_cur,
            out == output_bits(
                old(self).phase_prev as int,
                old(self).freq_num as int,
                old(self).rate_clamped as int,
            ),
    {
        let new_phase: u32 = (self.phase_prev + self.freq_num) % self.rate_clamped;
        self.phase_cur = new_phase;
        let idx64: u64 = (65536u64 * (new_phase as u64)) / (self.rate_clamped as u64);
        proof {
            let p = new_phase as int;
            let rc = self.rate_clamped as int;
            assert((65536 * p) / rc < 65536 && (65536 * p) / rc >= 0) by (nonlinear_arith)
                requires
                    0 <= p < rc,
            ;
        }
        let idx: usize = idx64 as usize;
        let out: u32 = table.scaled_at(idx);
        self.phase_prev = self.phase_cur;
        out
    }

    /// Process one audio block: validate the channel topology, then write
    /// `count` consecutive samples into the single declared output channel.
    /// On a topology mismatch nothing is written and nothing advances —
    /// processing a wrong topology silently would be worse than stopping.
    /// Input channels are accepted in any arity and ignored by this
    /// instance.
    pub fn compute(
        &mut self,
        table: &Wavetable,
        count: i32,
        inputs: &Vec<Vec<u32>>,
        outputs: &mut Vec<Vec<u32>>,
    ) -> (r: Result<(), ProcessError>)
        requires
            old(self).wf(),
            table.wf(),
            0 <= count,
        ensures
            match r {
                Ok(()) => {
                    &&& old(outputs)@.len() == 1
                    &&& old(outputs)@[0]@.len() >= count
                    &&& final(outputs)@.len() == 1
                    &&& final(outputs)@[0]@.len() == old(outputs)@[0]@.len()
                    &&& forall|i: int|
                        0 <= i < count ==> final(outputs)@[0]@[i] == output_seq(
                            old(self).phase_prev as int,
                            old(self).freq_num as int,
                            old(self).rate_clamped as int,
                            count as nat,
                        )[i]
                    &&& forall|i: int|
                        count <= i < final(outputs)@[0]@.len() ==> final(outputs)@[0]@[i]
                            == old(outputs)@[0]@[i]
                    &&& final(self).wf()
                    &&& final(self).sample_rate == old(self).sample_rate
                    &&& final(self).freq_num == old(self).freq_num
                    &&& final(self).rate_clamped == old(self).rate_clamped
                    &&& final(self).phase_prev == phase_at(
                        old(self).phase_prev as int,
                        old(self).freq_num as int,
                        old(self).rate_clamped as int,
                        count as nat,
                    )
                    &&& count == 0 ==> *final(self) == *old(self)
                    &&& count > 0 ==> final(self).phase_cur == final(self).phase_prev
                },
                Err(ProcessError::MissingOutput) => {
                    &&& old(outputs)@.len() != 1
                    &&& *final(self) == *old(self)
                    &&& final(outputs)@ == old(outputs)@
                },
                Err(ProcessError::ShortBuffer) => {
                    &&& old(outputs)@.len() == 1
                    &&& old(outputs)@[0]@.len() < count
                    &&& *final(self) == *old(self)
                    &&& final(outputs)@ == old(outputs)@
                },
            },
    {
        if outputs.len() != 1 {
            return Err(ProcessError::MissingOutput);
        }
        let n: usize = count as usize;
        if outputs[0].len() < n {
            return Err(ProcessError::ShortBuffer);
        }
        let ghost start = *self;
        let ghost orig = outputs@[0]@;
        let ghost p0 = start.phase_prev as int;
        let ghost freq = start.freq_num as int;
        let ghost rc = start.rate_clamped as int;
        let mut i: usize = 0;
        while i < n
            invariant
                i <= n,
                self.wf(),
                table.wf(),
                p0 == start.phase_prev as int,
                freq == start.freq_num as int,
                rc == start.rate_clamped as int,
                self.sample_rate == start.sample_rate,
                self.freq_num == start.freq_num,
                self.rate_clamped == start.rate_clamped,
                self.phase_prev == phase_at(p0, freq, rc, i as nat),
                i == 0 ==> *self == start,
                i > 0 ==> self.phase_cur == self.phase_prev,
                outputs@.len() == 1,
                outputs@[0]@.len() == orig.len(),
                n <= orig.len(),
                forall|j: int|
                    0 <= j < i ==> outputs@[0]@[j] == output_bits(
                        phase_at(p0, freq, rc, j as nat),
                        freq,
                        rc,
                    ),
                forall|j: int| i <= j < orig.len() ==> outputs@[0]@[j] == orig[j],
            decreases n - i,
        {
            let s: u32 = self.step(table);
            outputs[0][i] = s;
            proof {
                assert(phase_at(p0, freq, rc, (i + 1) as nat) == next_phase(
                    phase_at(p0, freq, rc, i as nat),
                    freq,
                    rc,
                ));
            }
            i = i + 1;
        }
        Ok(())
    }
}

/// `mydsp` as a host sees it, through the generic interface: every method
/// forwards to the inherent method of the same name, where the full
/// contract lives.
impl FaustDsp for mydsp {
    type T = u32;

    open spec fn valid(&self) -> bool {
        self.wf()
    }

    fn new() -> Self {
        mydsp::new()
    }

    fn metadata<M: Meta>(&self, m: &mut M) {
        self.metadata(m);
    }

    fn get_sample_rate(&self) -> i32 {
        self.get_sample_rate()
    }

    fn get_num_inputs(&self) -> i32 {
        self.get_num_inputs()
    }

    fn get_num_outputs(&self) -> i32 {
        self.get_num_outputs()
    }

    fn instance_reset_params(&mut self) {
        self.instance_reset_params();
    }

    fn instance_clear(&mut self) {
        self.instance_clear();
    }

    fn instance_constants(&mut self, sample_rate: i32) -> Result<(), ConfigError> {
        self.instance_constants(sample_rate)
    }

    fn instance_init(&mut self, sample_rate: i32) -> Result<(), ConfigError> {
        self.instance_init(sample_rate)
    }

    fn class_init(sample_rate: i32) -> Wavetable {
        mydsp::class_init(sample_rate)
    }

    fn init(&mut self, sample_rate: i32) -> Result<Wavetable, ConfigError> {
        self.init(sample_rate)
    }

    fn build_user_interface<U: UI<u32>>(&self, ui_interface: &mut U) {
        self.build_user_interface(ui_interface);
    }

    fn build_user_interface_static<U: UI<u32>>(ui_interface: &mut U) {
        mydsp::build_user_interface_static(ui_interface);
    }

    fn get_param(&self, param: ParamIndex) -> Option<u32> {
        self.get_param(param)
    }

    fn set_param(&mut self, param: ParamIndex, value: u32) {
        self.set_param(param, value);
    }

    fn compute(
        &mut self,
        table: &Wavetable,
        count: i32,
        inputs: &Vec<Vec<u32>>,
        outputs: &mut Vec<Vec<u32>>,
    ) -> Result<(), ProcessError> {
        self.compute(table, count, inputs, outputs)
    }
}

/// After a reset, the first step's output depends only on the phase
/// increment: two instances whose increments agree (numerator and clamped
/// rate) emit the same first sample from phase 0, whatever else their
/// states hold.
pub proof fn lemma_first_output_after_reset(a: mydsp, b: mydsp)
    requires
        a.freq_num == b.freq_num,
        a.rate_clamped == b.rate_clamped,
    ensures
        output_bits(0, a.freq_num as int, a.rate_clamped as int) == output_bits(
            0,
            b.freq_num as int,
            b.rate_clamped as int,
        ),
{
}

/// The block form of the same property: for any positive block length,
/// the first sample `compute` writes after a reset is the sample emitted
/// from phase 0 — a function of the increment and the fixed table alone,
/// independent of input channels and of any earlier output history.
pub proof fn lemma_first_block_sample_after_reset(freq: int, rc: int, n: nat)
    requires
        1 <= n,
    ensures
        output_seq(0, freq, rc, n)[0] == output_bits(0, freq, rc),
{
}

/// Phase-range invariant: with an increment in `[0, 1)` (numerator below
/// the clamped rate) and initial phase 0, every phase the recurrence
/// produces stays in `[0, 1)` — its numerator stays in `[0, rate)`.
pub proof fn lemma_phase_stays_in_range(freq: int, rc: int, n: nat)
    requires
        1 <= rc,
        0 <= freq < rc,
    ensures
        0 <= phase_at(0, freq, rc, n) < rc,
    decreases n,
{
    if n == 0 {
    } else {
        lemma_phase_stays_in_range(freq, rc, (n - 1) as nat);
        vstd::arithmetic::div_mod::lemma_mod_division_less_than_divisor(
            phase_at(0, freq, rc, (n - 1) as nat) + freq,
            rc,
        );
    }
}

/// Determinism: the block an instance emits is a pure function of its
/// starting state. Two instances that agree on the phase increment and the
/// previous-phase slot emit identical sequences of any length.
pub proof fn lemma_step_deterministic(a: mydsp, b: mydsp, n: nat)
    requires
        a.freq_num == b.freq_num,
        a.rate_clamped == b.rate_clamped,
        a.phase_prev == b.phase_prev,
    ensures
        output_seq(a.phase_prev as int, a.freq_num as int, a.rate_clamped as int, n)
            == output_seq(b.phase_prev as int, b.freq_num as int, b.rate_clamped as int, n),
{
}

} // verus!
