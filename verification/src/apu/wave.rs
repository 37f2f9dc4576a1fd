//! The duty cycle of the square wave channels.
use vstd::prelude::*;

verus! {

/// The four duty patterns (12.5%, 25%, 50%, 75%), as eight steps each.
pub open spec fn duty_pattern_spec(t: usize) -> Seq<u8> {
    if t == 0 {
        seq![0, 0, 0, 0, 0, 0, 0, 1]
    } else if t == 1 {
        seq![1, 0, 0, 0, 0, 0, 0, 1]
    } else if t == 2 {
        seq![1, 0, 0, 0, 0, 1, 1, 1]
    } else {
        seq![0, 1, 1, 1, 1, 1, 1, 0]
    }
}

pub fn duty_pattern(t: usize) -> (p: [u8; 8])
    requires
        t < 4,
    ensures
        p@ == duty_pattern_spec(t),
{
    let p = if t == 0 {
        [0, 0, 0, 0, 0, 0, 0, 1]
    } else if t == 1 {
        [1, 0, 0, 0, 0, 0, 0, 1]
    } else if t == 2 {
        [1, 0, 0, 0, 0, 1, 1, 1]
    } else {
        [0, 1, 1, 1, 1, 1, 1, 0]
    };
    assert(p@ =~= duty_pattern_spec(t));
    p
}

pub struct WaveDuty {
    pub pattern: [u8; 8],
    pub position: usize,
}

impl WaveDuty {
    pub open spec fn wf(&self) -> bool {
        self.position < 8
    }

    /// The 12.5% pattern, at its first step.
    pub fn new() -> (r: Self)
        ensures
            r.pattern@ == duty_pattern_spec(0),
            r.position == 0,
    {
        Self { pattern: duty_pattern(0), position: 0 }
    }

    /// Selects one of the four duty patterns.
    pub fn set_pattern_type(&mut self, t: usize)
        requires
            t < 4,
        ensures
            final(self).pattern@ == duty_pattern_spec(t),
            final(self).position == old(self).position,
    {
        self.pattern = duty_pattern(t);
    }

    /// Advances to the next of the eight steps, wrapping around.
    pub fn tick(&mut self)
        requires
            old(self).wf(),
        ensures
            final(self).position == (old(self).position + 1) % 8,
            final(self).pattern == old(self).pattern,
    {
        self.position = (self.position + 1) % 8;
    }

    /// The output level (0 or 1) of the current step.
    pub fn get_data(&self) -> (r: u8)
        requires
            self.wf(),
        ensures
            r == self.pattern@[self.position as int],
    {
        self.pattern[self.position]
    }
}

/// The duty after `k` ticks.
pub open spec fn ticked_n(w: WaveDuty, k: nat) -> WaveDuty
    decreases k,
{
    if k == 0 {
        w
    } else {
        let p = ticked_n(w, (k - 1) as nat);
        WaveDuty { position: ((p.position + 1) % 8) as usize, ..p }
    }
}

/// `k` ticks move the step `k` places round the eight and keep the
/// pattern, so the output after `k` ticks is the pattern's step
/// `(position + k) % 8`.
pub proof fn lemma_ticks_rotate(w: WaveDuty, k: nat)
    requires
        w.wf(),
    ensures
        ticked_n(w, k).position == (w.position + k) % 8,
        ticked_n(w, k).pattern == w.pattern,
        ticked_n(w, k).wf(),
    decreases k,
{
    if k > 0 {
        lemma_ticks_rotate(w, (k - 1) as nat);
        let x = (w.position + k - 1) as int;
        vstd::arithmetic::div_mod::lemma_add_mod_noop(x, 1, 8);
        assert(1int % 8 == 1);
    }
}

/// Eight ticks come back to the same step.
pub proof fn lemma_eight_ticks(w: WaveDuty)
    requires
        w.wf(),
    ensures
        ticked_n(w, 8) == w,
{
    lemma_ticks_rotate(w, 8);
    assert((w.position + 8) % 8 == w.position % 8);
}

/// How many of the first `n` steps of `s` are high.
pub open spec fn high_steps(s: Seq<u8>, n: nat) -> nat
    decreases n,
{
    if n == 0 {
        0
    } else {
        high_steps(s, (n - 1) as nat) + (if s[n - 1] == 1 {
            1nat
        } else {
            0
        })
    }
}

/// Each duty pattern is eight steps of 0 or 1, high on 1, 2, 4 and 6 of
/// them for pattern 0, 1, 2 and 3 (12.5%, 25%, 50% and 75%), and the 75%
/// pattern is the 25% pattern inverted.
pub proof fn lemma_duty_ratios(t: usize)
    requires
        t < 4,
    ensures
        duty_pattern_spec(t).len() == 8,
        forall|i: int| 0 <= i < 8 ==> #[trigger] duty_pattern_spec(t)[i] <= 1,
        t == 0 ==> high_steps(duty_pattern_spec(t), 8) == 1,
        t == 1 ==> high_steps(duty_pattern_spec(t), 8) == 2,
        t == 2 ==> high_steps(duty_pattern_spec(t), 8) == 4,
        t == 3 ==> high_steps(duty_pattern_spec(t), 8) == 6,
        forall|i: int| 0 <= i < 8 ==> #[trigger] duty_pattern_spec(3)[i] == 1 - duty_pattern_spec(1)[i],
{
    reveal_with_fuel(high_steps, 9);
}

} // verus!
