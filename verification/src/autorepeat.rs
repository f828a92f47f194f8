use vstd::prelude::*;

verus! {

use vstd::arithmetic::div_mod::lemma_add_mod_noop;
use vstd::arithmetic::div_mod::lemma_mod_bound;
use vstd::arithmetic::div_mod::lemma_mod_multiples_basic;
use vstd::arithmetic::div_mod::lemma_mod_self_0;
use vstd::arithmetic::div_mod::lemma_small_mod;

use crate::buttons::bit_set;
use crate::buttons::valid_button;
use crate::buttons::Buttons;
use crate::buttons::NUM_BUTTONS;

/// How many per-button counter slots the tracker reserves.  Only the defined
/// button positions (`0..NUM_BUTTONS`) are ever advanced.
pub const COUNTER_SLOTS: usize = 64;

/// A per-button counter incremented without wrapping: it sticks at the top of
/// its range instead of overflowing.
pub open spec fn saturated_inc(c: u8) -> u8 {
    if c < 255 {
        (c + 1) as u8
    } else {
        255u8
    }
}

/// Whether a held button with counter `c` fires a repeat this pass, given the
/// configured threshold.
pub open spec fn counter_fires(c: u8, sample_count: u8) -> bool {
    saturated_inc(c) >= sample_count
}

/// The counter of a held button after one pass: back to zero when it fired,
/// one higher otherwise.
pub open spec fn counter_step(c: u8, sample_count: u8) -> u8 {
    if counter_fires(c, sample_count) {
        0u8
    } else {
        saturated_inc(c)
    }
}

/// The autorepeat tracker attached to one controller state: a saturating
/// counter per logical button, advanced on every reconciliation pass, plus
/// the set of buttons that fired a repeat on the latest pass.
#[derive(Clone, Debug)]
pub struct AutorepeatInfo {
    pub enabled: bool,
    pub sample_count: u8,
    pub tracking_state: Vec<u8>,
    pub autorepeat_buttons: Buttons,
}

/// How one pass relates the tracker after (`post`) to the tracker before
/// (`pre`), given the held-button bits of the fresh sample.  The emitted set
/// is rebuilt from scratch each pass; counters of buttons not currently held
/// keep their value, so a counter survives a gap in which its button was
/// released.
pub open spec fn autorepeat_advanced(pre: AutorepeatInfo, post: AutorepeatInfo, held: u64) -> bool {
    &&& post.enabled == pre.enabled
    &&& post.sample_count == pre.sample_count
    &&& if pre.enabled {
        &&& post.tracking_state@.len() == pre.tracking_state@.len()
        &&& forall|i: int|
            0 <= i < pre.tracking_state@.len() ==> #[trigger] post.tracking_state@[i] == (
            if valid_button(i) && bit_set(held, i as u64) {
                counter_step(pre.tracking_state@[i], pre.sample_count)
            } else {
                pre.tracking_state@[i]
            })
        &&& forall|i: u64|
            i < 64 ==> (#[trigger] bit_set(post.autorepeat_buttons.bits, i) == (valid_button(
                i as int,
            ) && bit_set(held, i) && counter_fires(
                pre.tracking_state@[i as int],
                pre.sample_count,
            )))
    } else {
        &&& post.tracking_state@ == pre.tracking_state@
        &&& post.autorepeat_buttons.bits == 0
    }
}

impl AutorepeatInfo {
    /// A tracker with every counter slot present and zero.
    pub open spec fn wf(self) -> bool {
        self.tracking_state@.len() == COUNTER_SLOTS
    }

    /// The tracker every fresh controller state starts with: disabled, zero
    /// threshold, all counters zero, nothing fired.
    pub fn new_disabled() -> (r: AutorepeatInfo)
        ensures
            r.wf(),
            r.enabled == false,
            r.sample_count == 0,
            forall|i: int| 0 <= i < COUNTER_SLOTS ==> r.tracking_state@[i] == 0,
            r.autorepeat_buttons.bits == 0,
    {
        let mut counters: Vec<u8> = Vec::new();
        let mut n: usize = 0;
        while n < COUNTER_SLOTS
            invariant
                n <= COUNTER_SLOTS,
                counters@.len() == n,
                forall|i: int| 0 <= i < n ==> counters@[i] == 0,
            decreases COUNTER_SLOTS - n,
        {
            counters.push(0);
            n += 1;
        }
        AutorepeatInfo {
            enabled: false,
            sample_count: 0,
            tracking_state: counters,
            autorepeat_buttons: Buttons::empty(),
        }
    }

    /// One reconciliation pass of the tracker over the fresh held-button set:
    /// the emitted set is cleared, and, when the tracker is enabled, the
    /// counter of every held defined button advances, firing a repeat each
    /// time it reaches the threshold.
    pub fn advance(&mut self, held: Buttons)
        requires
            old(self).wf(),
        ensures
            final(self).wf(),
            autorepeat_advanced(*old(self), *final(self), held.bits),
    {
        self.autorepeat_buttons = Buttons::empty();
        if !self.enabled {
            return ;
        }
        let sample_count = self.sample_count;
        let mut x: usize = 0;
        proof {
            assert forall|i: u64| i < 64 implies !bit_set(0u64, i) by {
                assert(0u64 & (1u64 << i) == 0) by (bit_vector);
            }
        }
        while x < COUNTER_SLOTS
            invariant
                old(self).enabled,
                old(self).tracking_state@.len() == COUNTER_SLOTS,
                x <= COUNTER_SLOTS,
                self.enabled == old(self).enabled,
                self.sample_count == old(self).sample_count,
                sample_count == old(self).sample_count,
                self.tracking_state@.len() == COUNTER_SLOTS,
                forall|i: int|
                    0 <= i < x ==> #[trigger] self.tracking_state@[i] == (if valid_button(i)
                        && bit_set(held.bits, i as u64) {
                        counter_step(old(self).tracking_state@[i], sample_count)
                    } else {
                        old(self).tracking_state@[i]
                    }),
                forall|i: int|
                    x <= i < COUNTER_SLOTS ==> #[trigger] self.tracking_state@[i] == old(
                        self,
                    ).tracking_state@[i],
                forall|i: u64|
                    i < x ==> (#[trigger] bit_set(self.autorepeat_buttons.bits, i) == (
                    valid_button(i as int) && bit_set(held.bits, i) && counter_fires(
                        old(self).tracking_state@[i as int],
                        sample_count,
                    ))),
                forall|i: u64| x <= i < 64 ==> !bit_set(self.autorepeat_buttons.bits, i),
            decreases COUNTER_SLOTS - x,
        {
            let bit: u64 = 1u64 << (x as u64);
            if x < NUM_BUTTONS as usize && held.bits & bit != 0 {
                let c = self.tracking_state[x];
                let next = if c < 255 {
                    c + 1
                } else {
                    255
                };
                if next >= sample_count {
                    self.tracking_state[x] = 0;
                    let ghost prev_emitted = self.autorepeat_buttons.bits;
                    self.autorepeat_buttons = Buttons {
                        bits: self.autorepeat_buttons.bits | bit,
                    };
                    proof {
                        assert forall|i: u64| i < 64 implies #[trigger] bit_set(
                            self.autorepeat_buttons.bits,
                            i,
                        ) == (bit_set(prev_emitted, i) || i == x as u64) by {
                            lemma_bit_or_set(prev_emitted, x as u64, i);
                        }
                    }
                } else {
                    self.tracking_state[x] = next;
                }
            }
            x += 1;
        }
    }
}

/// The counter of a steadily-held button after `frames` enabled passes,
/// starting from zero.
pub open spec fn counter_after(sample_count: u8, frames: nat) -> u8
    decreases frames,
{
    if frames == 0 {
        0u8
    } else {
        counter_step(counter_after(sample_count, (frames - 1) as nat), sample_count)
    }
}

/// Whether the pass of held frame number `frame` (counting from 1) fires a
/// repeat for a steadily-held button.
pub open spec fn fires_on_frame(sample_count: u8, frame: nat) -> bool
    recommends
        1 <= frame,
{
    counter_fires(counter_after(sample_count, (frame - 1) as nat), sample_count)
}

/// The counter of a steadily-held button cycles with period `sample_count`.
proof fn lemma_counter_after_mod(sample_count: u8, frames: nat)
    requires
        1 <= sample_count,
    ensures
        counter_after(sample_count, frames) == frames % (sample_count as nat),
    decreases frames,
{
    let m = sample_count as nat;
    if frames == 0 {
        lemma_small_mod(0, m);
    } else {
        lemma_counter_after_mod(sample_count, (frames - 1) as nat);
        let p = counter_after(sample_count, (frames - 1) as nat);
        lemma_mod_bound((frames - 1) as int, m as int);
        lemma_add_mod_noop((frames - 1) as int, 1, m as int);
        if m == 1 {
            lemma_mod_multiples_basic(frames as int, 1);
            lemma_mod_multiples_basic((frames - 1) as int, 1);
        } else {
            lemma_small_mod(1, m);
            if p + 1 >= m {
                lemma_mod_self_0(m as int);
            } else {
                lemma_small_mod((p + 1) as nat, m);
            }
        }
    }
}

/// Autorepeat fires exactly once every `sample_count` consecutive held
/// frames: with the tracker enabled and a defined button steadily held from
/// a zero counter, held frame `frame` (counting from 1) fires a repeat if
/// and only if `frame` is a multiple of `sample_count`.
pub proof fn lemma_autorepeat_period(sample_count: u8, frame: nat)
    requires
        1 <= sample_count,
        1 <= frame,
    ensures
        fires_on_frame(sample_count, frame) <==> frame % (sample_count as nat) == 0,
{
    let m = sample_count as nat;
    lemma_counter_after_mod(sample_count, frame);
    lemma_counter_after_mod(sample_count, (frame - 1) as nat);
    let p = counter_after(sample_count, (frame - 1) as nat);
    if counter_fires(p, sample_count) {
        assert(counter_after(sample_count, frame) == 0);
    } else {
        assert(counter_after(sample_count, frame) == saturated_inc(p));
        assert(saturated_inc(p) >= 1);
    }
}

/// One enabled pass over a steadily-held defined button advances its counter
/// along the frame-counting model: from the value after `k` held frames to
/// the value after `k + 1`, firing exactly when the model fires.
pub proof fn lemma_advance_follows_model(
    pre: AutorepeatInfo,
    post: AutorepeatInfo,
    held: u64,
    i: u64,
    k: nat,
)
    requires
        autorepeat_advanced(pre, post, held),
        pre.enabled,
        pre.tracking_state@.len() == COUNTER_SLOTS,
        i < NUM_BUTTONS,
        bit_set(held, i),
        pre.tracking_state@[i as int] == counter_after(pre.sample_count, k),
    ensures
        post.tracking_state@[i as int] == counter_after(pre.sample_count, k + 1),
        bit_set(post.autorepeat_buttons.bits, i) == fires_on_frame(pre.sample_count, k + 1),
{
    assert(valid_button(i as int));
    assert(post.tracking_state@[i as int] == counter_step(
        pre.tracking_state@[i as int],
        pre.sample_count,
    ));
    assert(counter_after(pre.sample_count, k + 1) == counter_step(
        counter_after(pre.sample_count, k),
        pre.sample_count,
    ));
}

/// Setting one bit position adds exactly that position to a bit set.
proof fn lemma_bit_or_set(v: u64, x: u64, j: u64)
    requires
        x < 64,
        j < 64,
    ensures
        bit_set(v | (1u64 << x), j) == (bit_set(v, j) || j == x),
{
    assert(((v | (1u64 << x)) & (1u64 << j) != 0) == ((v & (1u64 << j) != 0) || j == x))
        by (bit_vector)
        requires
            x < 64,
            j < 64,
    ;
}

} // verus!
