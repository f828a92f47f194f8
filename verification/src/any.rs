use vstd::prelude::*;

verus! {

use crate::buttons::bit_set;
use crate::buttons::Buttons;
use crate::controller::Controller;
use crate::sample::StyleSample;
use crate::style::ControllerStyle;

/// The distinguished logical id of the handheld (built-in) controller,
/// outside the normal port range.
pub const HANDHELD_ID: u32 = 0x20;

/// How many physical controller ports the pool scans, ids `0..NUM_PORTS`.
pub const NUM_PORTS: u32 = 8;

/// What the backend reported for one pooled id on this query: the style and
/// the raw sample fetched for it.  Each aggregate query freshly creates and
/// reconciles a state per poll, exactly once, with no caching across calls.
#[derive(Clone, Copy, Debug)]
pub struct Poll {
    pub id: u32,
    pub style: ControllerStyle,
    pub sample: StyleSample,
}

/// Every poll carries the sample shape its style selects.
pub open spec fn polls_wf(polls: Seq<Poll>) -> bool {
    forall|i: int| 0 <= i < polls.len() ==> (#[trigger] polls[i]).sample.layout_matches(polls[i].style)
}

/// A poll whose style the reconciler accepts contributes to the aggregates.
pub open spec fn poll_supported(p: Poll) -> bool {
    p.style.is_supported_spec()
}

/// The pressed bits a fresh reconciliation of one poll yields: the state
/// starts from zero, so every held button of the sample is newly pressed.
/// This is also the held set; the released set of a fresh pass is empty.
pub open spec fn fresh_pressed_bits(p: Poll) -> u64 {
    p.sample.held_bits()
}

/// The union of the freshly-pressed sets of every supported poll.
pub open spec fn combined_bits(polls: Seq<Poll>) -> u64
    decreases polls.len(),
{
    if polls.len() == 0 {
        0u64
    } else {
        combined_bits(polls.drop_last()) | (if poll_supported(polls.last()) {
            fresh_pressed_bits(polls.last())
        } else {
            0u64
        })
    }
}

/// A button is in the combined set exactly when some supported poll freshly
/// pressed it.
pub proof fn lemma_combined_bits_iff(polls: Seq<Poll>, i: u64)
    requires
        i < 64,
    ensures
        bit_set(combined_bits(polls), i) <==> exists|k: int|
            0 <= k < polls.len() && poll_supported(#[trigger] polls[k]) && bit_set(
                fresh_pressed_bits(polls[k]),
                i,
            ),
    decreases polls.len(),
{
    if polls.len() == 0 {
        assert(0u64 & (1u64 << i) == 0) by (bit_vector);
    } else {
        let prefix = polls.drop_last();
        lemma_combined_bits_iff(prefix, i);
        let c = combined_bits(prefix);
        let tail = if poll_supported(polls.last()) {
            fresh_pressed_bits(polls.last())
        } else {
            0u64
        };
        assert(((c | tail) & (1u64 << i) != 0) == ((c & (1u64 << i) != 0) || (tail & (1u64 << i)
            != 0))) by (bit_vector);
        assert(0u64 & (1u64 << i) == 0) by (bit_vector);
        if bit_set(combined_bits(polls), i) {
            if bit_set(c, i) {
                let k = choose|k: int|
                    0 <= k < prefix.len() && poll_supported(#[trigger] prefix[k]) && bit_set(
                        fresh_pressed_bits(prefix[k]),
                        i,
                    );
                assert(polls[k] == prefix[k]);
            } else {
                assert(poll_supported(polls[polls.len() - 1]) && bit_set(
                    fresh_pressed_bits(polls[polls.len() - 1]),
                    i,
                ));
            }
        }
        if exists|k: int|
            0 <= k < polls.len() && poll_supported(#[trigger] polls[k]) && bit_set(
                fresh_pressed_bits(polls[k]),
                i,
            ) {
            let k = choose|k: int|
                0 <= k < polls.len() && poll_supported(#[trigger] polls[k]) && bit_set(
                    fresh_pressed_bits(polls[k]),
                    i,
                );
            if k < polls.len() - 1 {
                assert(prefix[k] == polls[k]);
            }
        }
    }
}

/// The combined set answers the same question as `is_press_any`: a mask
/// intersects the union exactly when it intersects the freshly-pressed set
/// of some single supported poll.
pub proof fn lemma_combined_answers_press_any(polls: Seq<Poll>, mask: u64)
    ensures
        (combined_bits(polls) & mask != 0) <==> exists|k: int|
            0 <= k < polls.len() && poll_supported(#[trigger] polls[k]) && fresh_pressed_bits(
                polls[k],
            ) & mask != 0,
    decreases polls.len(),
{
    if polls.len() == 0 {
        assert(0u64 & mask == 0) by (bit_vector);
    } else {
        let prefix = polls.drop_last();
        lemma_combined_answers_press_any(prefix, mask);
        let c = combined_bits(prefix);
        let tail = if poll_supported(polls.last()) {
            fresh_pressed_bits(polls.last())
        } else {
            0u64
        };
        assert(((c | tail) & mask != 0) == ((c & mask != 0) || (tail & mask != 0)))
            by (bit_vector);
        assert(0u64 & mask == 0) by (bit_vector);
        if combined_bits(polls) & mask != 0 {
            if c & mask != 0 {
                let k = choose|k: int|
                    0 <= k < prefix.len() && poll_supported(#[trigger] prefix[k])
                        && fresh_pressed_bits(prefix[k]) & mask != 0;
                assert(polls[k] == prefix[k]);
            } else {
                assert(poll_supported(polls[polls.len() - 1]) && fresh_pressed_bits(
                    polls[polls.len() - 1],
                ) & mask != 0);
            }
        }
        if exists|k: int|
            0 <= k < polls.len() && poll_supported(#[trigger] polls[k]) && fresh_pressed_bits(
                polls[k],
            ) & mask != 0 {
            let k = choose|k: int|
                0 <= k < polls.len() && poll_supported(#[trigger] polls[k]) && fresh_pressed_bits(
                    polls[k],
                ) & mask != 0;
            if k < polls.len() - 1 {
                assert(prefix[k] == polls[k]);
            }
        }
    }
}

/// Unions the pressed sets of every supported controller in the pool, each
/// freshly created and reconciled from its poll.
pub fn combined_buttons(polls: &Vec<Poll>) -> (r: Buttons)
    requires
        polls_wf(polls@),
    ensures
        r.bits == combined_bits(polls@),
{
    let mut buttons = Buttons::empty();
    let mut n: usize = 0;
    while n < polls.len()
        invariant
            polls_wf(polls@),
            n <= polls@.len(),
            buttons.bits == combined_bits(polls@.take(n as int)),
        decreases polls@.len() - n,
    {
        let p = &polls[n];
        if let Some(controller) = Controller::get_from_id(p.id, p.style, &p.sample) {
            buttons = buttons.union(controller.pressed_buttons);
        }
        proof {
            let b = buttons.bits;
            assert(b | 0u64 == b) by (bit_vector);
            assert(polls@.take(n + 1).drop_last() =~= polls@.take(n as int));
            assert(polls@.take(n + 1).last() == polls@[n as int]);
        }
        n += 1;
    }
    proof {
        assert(polls@.take(polls@.len() as int) =~= polls@);
    }
    buttons
}

/// True iff the freshly-pressed set of some supported poll intersects the
/// mask; in particular false when no poll in the pool is supported.
pub fn is_press_any(polls: &Vec<Poll>, buttons: Buttons) -> (r: bool)
    requires
        polls_wf(polls@),
    ensures
        r == exists|i: int|
            0 <= i < polls@.len() && poll_supported(#[trigger] polls@[i]) && fresh_pressed_bits(
                polls@[i],
            ) & buttons.bits != 0,
{
    let mut n: usize = 0;
    while n < polls.len()
        invariant
            polls_wf(polls@),
            n <= polls@.len(),
            forall|i: int|
                0 <= i < n ==> !(poll_supported(#[trigger] polls@[i]) && fresh_pressed_bits(
                    polls@[i],
                ) & buttons.bits != 0),
        decreases polls@.len() - n,
    {
        let p = &polls[n];
        if let Some(controller) = Controller::get_from_id(p.id, p.style, &p.sample) {
            if controller.pressed_buttons.intersects(buttons) {
                return true;
            }
        }
        n += 1;
    }
    false
}

/// True iff the held set of some supported poll intersects the mask.  A
/// fresh reconciliation holds exactly what it pressed, so this agrees with
/// `is_press_any` over one round of polls.
pub fn is_down_any(polls: &Vec<Poll>, buttons: Buttons) -> (r: bool)
    requires
        polls_wf(polls@),
    ensures
        r == exists|i: int|
            0 <= i < polls@.len() && poll_supported(#[trigger] polls@[i])
                && polls@[i].sample.held_bits() & buttons.bits != 0,
{
    let mut n: usize = 0;
    while n < polls.len()
        invariant
            polls_wf(polls@),
            n <= polls@.len(),
            forall|i: int|
                0 <= i < n ==> !(poll_supported(#[trigger] polls@[i])
                    && polls@[i].sample.held_bits() & buttons.bits != 0),
        decreases polls@.len() - n,
    {
        let p = &polls[n];
        if let Some(controller) = Controller::get_from_id(p.id, p.style, &p.sample) {
            if controller.buttons.intersects(buttons) {
                return true;
            }
        }
        n += 1;
    }
    false
}

/// Always false: the released set of a freshly created and once-reconciled
/// state is empty, and every aggregate query reconciles each poll freshly.
pub fn is_release_any(polls: &Vec<Poll>, buttons: Buttons) -> (r: bool)
    requires
        polls_wf(polls@),
    ensures
        r == false,
{
    let mut n: usize = 0;
    while n < polls.len()
        invariant
            polls_wf(polls@),
            n <= polls@.len(),
        decreases polls@.len() - n,
    {
        let p = &polls[n];
        if let Some(controller) = Controller::get_from_id(p.id, p.style, &p.sample) {
            proof {
                let m = buttons.bits;
                assert(0u64 & m == 0u64) by (bit_vector);
            }
            if controller.released_buttons.intersects(buttons) {
                return true;
            }
        }
        n += 1;
    }
    false
}

/// True iff the freshly-pressed set of some single supported poll contains
/// the whole mask (containment against any one controller, not a conjunction
/// across the pool).
pub fn is_press(polls: &Vec<Poll>, buttons: Buttons) -> (r: bool)
    requires
        polls_wf(polls@),
    ensures
        r == exists|i: int|
            0 <= i < polls@.len() && poll_supported(#[trigger] polls@[i]) && fresh_pressed_bits(
                polls@[i],
            ) & buttons.bits == buttons.bits,
{
    let mut n: usize = 0;
    while n < polls.len()
        invariant
            polls_wf(polls@),
            n <= polls@.len(),
            forall|i: int|
                0 <= i < n ==> !(poll_supported(#[trigger] polls@[i]) && fresh_pressed_bits(
                    polls@[i],
                ) & buttons.bits == buttons.bits),
        decreases polls@.len() - n,
    {
        let p = &polls[n];
        if let Some(controller) = Controller::get_from_id(p.id, p.style, &p.sample) {
            if controller.pressed_buttons.contains(buttons) {
                return true;
            }
        }
        n += 1;
    }
    false
}

/// True iff the held set of some single supported poll contains the whole
/// mask.
pub fn is_down(polls: &Vec<Poll>, buttons: Buttons) -> (r: bool)
    requires
        polls_wf(polls@),
    ensures
        r == exists|i: int|
            0 <= i < polls@.len() && poll_supported(#[trigger] polls@[i])
                && polls@[i].sample.held_bits() & buttons.bits == buttons.bits,
{
    let mut n: usize = 0;
    while n < polls.len()
        invariant
            polls_wf(polls@),
            n <= polls@.len(),
            forall|i: int|
                0 <= i < n ==> !(poll_supported(#[trigger] polls@[i])
                    && polls@[i].sample.held_bits() & buttons.bits == buttons.bits),
        decreases polls@.len() - n,
    {
        let p = &polls[n];
        if let Some(controller) = Controller::get_from_id(p.id, p.style, &p.sample) {
            if controller.buttons.contains(buttons) {
                return true;
            }
        }
        n += 1;
    }
    false
}

/// True iff the released set of some single supported poll contains the
/// whole mask; with a non-empty mask this is always false, since a fresh
/// reconciliation releases nothing.  An empty mask is contained in every
/// released set, so there it only asks for one supported poll.
pub fn is_release(polls: &Vec<Poll>, buttons: Buttons) -> (r: bool)
    requires
        polls_wf(polls@),
    ensures
        r == (buttons.bits == 0 && exists|i: int|
            0 <= i < polls@.len() && poll_supported(#[trigger] polls@[i])),
{
    let mut n: usize = 0;
    while n < polls.len()
        invariant
            polls_wf(polls@),
            n <= polls@.len(),
            forall|i: int| 0 <= i < n ==> !poll_supported(#[trigger] polls@[i]) || buttons.bits != 0,
        decreases polls@.len() - n,
    {
        let p = &polls[n];
        if let Some(controller) = Controller::get_from_id(p.id, p.style, &p.sample) {
            proof {
                let m = buttons.bits;
                assert((0u64 & m == m) == (m == 0u64)) by (bit_vector);
            }
            if controller.released_buttons.contains(buttons) {
                return true;
            }
        }
        n += 1;
    }
    false
}

/// The fixed pool of logical ids the aggregate queries scan: the eight
/// physical ports followed by the handheld sentinel.
pub fn pool_ids() -> (r: Vec<u32>)
    ensures
        r@ =~= seq![0u32, 1u32, 2u32, 3u32, 4u32, 5u32, 6u32, 7u32, HANDHELD_ID],
{
    let mut ids: Vec<u32> = Vec::new();
    let mut n: u32 = 0;
    while n < NUM_PORTS
        invariant
            n <= NUM_PORTS,
            ids@.len() == n,
            forall|i: int| 0 <= i < n ==> ids@[i] == i,
        decreases NUM_PORTS - n,
    {
        ids.push(n);
        n += 1;
    }
    ids.push(HANDHELD_ID);
    ids
}

} // verus!
