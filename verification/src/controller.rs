use vstd::prelude::*;

verus! {

use crate::autorepeat::autorepeat_advanced;
use crate::autorepeat::AutorepeatInfo;
use crate::autorepeat::COUNTER_SLOTS;
use crate::buttons::Attributes;
use crate::buttons::Buttons;
use crate::buttons::L;
use crate::buttons::R;
use crate::sample::StickState;
use crate::sample::StyleSample;
use crate::sample::AXIS_MAX;
use crate::style::ControllerStyle;

/// The reconciled logical state of one controller slot: the held set, the
/// edge-triggered press/release sets against the previous pass, the link
/// attributes, raw stick and trigger magnitudes, and the autorepeat tracker.
#[derive(Clone, Debug)]
pub struct Controller {
    pub buttons: Buttons,
    pub pressed_buttons: Buttons,
    pub released_buttons: Buttons,
    pub attributes: Attributes,
    pub left_stick: StickState,
    pub right_stick: StickState,
    pub trigger_l: u32,
    pub trigger_r: u32,
    pub controller_id: u32,
    pub autorepeat: AutorepeatInfo,
    pub controller_style: ControllerStyle,
}

/// How one reconciliation pass relates the state after (`post`) to the state
/// before (`pre`), given the style the backend now reports and the raw sample
/// fetched for it.  An unsupported style freezes everything but the recorded
/// style; a supported one installs the sample's held set, diffs it against
/// the previous held set, and advances the autorepeat tracker over it.
pub open spec fn reconciled(
    pre: Controller,
    post: Controller,
    style: ControllerStyle,
    sample: StyleSample,
) -> bool {
    &&& post.controller_style == style
    &&& post.controller_id == pre.controller_id
    &&& if style.is_supported_spec() {
        &&& post.buttons.bits == sample.held_bits()
        &&& post.pressed_buttons.bits == (sample.held_bits() & !pre.buttons.bits)
        &&& post.released_buttons.bits == (pre.buttons.bits & !sample.held_bits())
        &&& post.attributes == sample.attributes_of()
        &&& post.left_stick == sample.left_stick_of()
        &&& post.right_stick == sample.right_stick_of()
        &&& post.trigger_l == sample.trigger_l_of()
        &&& post.trigger_r == sample.trigger_r_of()
        &&& autorepeat_advanced(pre.autorepeat, post.autorepeat, sample.held_bits())
    } else {
        &&& post.buttons == pre.buttons
        &&& post.pressed_buttons == pre.pressed_buttons
        &&& post.released_buttons == pre.released_buttons
        &&& post.attributes == pre.attributes
        &&& post.left_stick == pre.left_stick
        &&& post.right_stick == pre.right_stick
        &&& post.trigger_l == pre.trigger_l
        &&& post.trigger_r == pre.trigger_r
        &&& post.autorepeat == pre.autorepeat
    }
}

impl Controller {
    /// A state with every counter slot of its tracker present.
    pub open spec fn wf(self) -> bool {
        self.autorepeat.wf()
    }

    /// The zero-initialized state of a fresh slot: nothing held, no edges,
    /// centered sticks, released triggers, style still invalid, autorepeat
    /// disabled with zero counters.
    pub fn new(id: u32) -> (r: Controller)
        ensures
            r.wf(),
            r.buttons.bits == 0,
            r.pressed_buttons.bits == 0,
            r.released_buttons.bits == 0,
            r.attributes.bits == 0,
            r.left_stick == (StickState { x: 0, y: 0 }),
            r.right_stick == (StickState { x: 0, y: 0 }),
            r.trigger_l == 0,
            r.trigger_r == 0,
            r.controller_id == id,
            r.controller_style == ControllerStyle::Invalid,
            r.autorepeat.enabled == false,
            r.autorepeat.sample_count == 0,
            forall|i: int| 0 <= i < COUNTER_SLOTS ==> r.autorepeat.tracking_state@[i] == 0,
            r.autorepeat.autorepeat_buttons.bits == 0,
    {
        Controller {
            buttons: Buttons::empty(),
            pressed_buttons: Buttons::empty(),
            released_buttons: Buttons::empty(),
            attributes: Attributes::empty(),
            left_stick: StickState { x: 0, y: 0 },
            right_stick: StickState { x: 0, y: 0 },
            trigger_l: 0,
            trigger_r: 0,
            controller_id: id,
            autorepeat: AutorepeatInfo::new_disabled(),
            controller_style: ControllerStyle::Invalid,
        }
    }

    /// True when the style recorded by the latest pass is one the reconciler
    /// accepts; after a pass reporting an unsupported style this turns false
    /// while the frozen state keeps its last-known values.
    pub fn is_supported_controller(&self) -> (r: bool)
        ensures
            r == self.controller_style.is_supported_spec(),
    {
        self.controller_style.is_supported()
    }

    /// One reconciliation pass: records the reported style and, when it is
    /// supported, installs the sample's held set, computes the pressed and
    /// released edges against the previous pass, copies attributes, sticks
    /// and triggers, and advances the autorepeat tracker.  An unsupported
    /// style only records the style and leaves the rest frozen.
    pub fn update(&mut self, style: ControllerStyle, sample: &StyleSample)
        requires
            old(self).wf(),
            sample.layout_matches(style),
        ensures
            final(self).wf(),
            reconciled(*old(self), *final(self), style, *sample),
    {
        self.controller_style = style;
        match sample {
            StyleSample::StandardLayout(c) => {
                let prev = self.buttons;
                self.buttons = c.buttons;
                self.attributes = c.attributes;
                self.pressed_buttons = Buttons { bits: c.buttons.bits & !prev.bits };
                self.released_buttons = Buttons { bits: prev.bits & !c.buttons.bits };
                self.left_stick = StickState { x: c.stick_l_x, y: c.stick_l_y };
                self.right_stick = StickState { x: c.stick_r_x, y: c.stick_r_y };
                self.trigger_l = if self.buttons.bits & L != 0 {
                    AXIS_MAX
                } else {
                    0
                };
                self.trigger_r = if self.buttons.bits & R != 0 {
                    AXIS_MAX
                } else {
                    0
                };
                let held = self.buttons;
                self.autorepeat.advance(held);
            },
            StyleSample::GamecubeLayout(g) => {
                let prev = self.buttons;
                self.buttons = g.buttons;
                self.attributes = g.attributes;
                self.pressed_buttons = Buttons { bits: g.buttons.bits & !prev.bits };
                self.released_buttons = Buttons { bits: prev.bits & !g.buttons.bits };
                self.left_stick = StickState { x: g.stick_l_x, y: g.stick_l_y };
                self.right_stick = StickState { x: g.stick_r_x, y: g.stick_r_y };
                self.trigger_l = g.left_trigger;
                self.trigger_r = g.right_trigger;
                let held = self.buttons;
                self.autorepeat.advance(held);
            },
            StyleSample::Unsupported => {},
        }
    }

    /// Looks at one slot the way the aggregate queries do: given the style
    /// the backend reports for `id` and the matching raw sample, yields a
    /// freshly created and once-reconciled state, or nothing when the style
    /// is unsupported.  Starting from the zero state, every held button of
    /// the sample counts as newly pressed and nothing as released.
    pub fn get_from_id(id: u32, style: ControllerStyle, sample: &StyleSample) -> (r: Option<
        Controller,
    >)
        requires
            sample.layout_matches(style),
        ensures
            r is Some <==> style.is_supported_spec(),
            r matches Some(c) ==> {
                &&& c.wf()
                &&& c.controller_id == id
                &&& c.controller_style == style
                &&& c.buttons.bits == sample.held_bits()
                &&& c.pressed_buttons.bits == sample.held_bits()
                &&& c.released_buttons.bits == 0
                &&& c.attributes == sample.attributes_of()
                &&& c.left_stick == sample.left_stick_of()
                &&& c.right_stick == sample.right_stick_of()
                &&& c.trigger_l == sample.trigger_l_of()
                &&& c.trigger_r == sample.trigger_r_of()
                &&& c.autorepeat.enabled == false
                &&& c.autorepeat.sample_count == 0
                &&& forall|i: int| 0 <= i < COUNTER_SLOTS ==> c.autorepeat.tracking_state@[i] == 0
                &&& c.autorepeat.autorepeat_buttons.bits == 0
            },
    {
        if style.is_supported() {
            let mut controller = Controller::new(id);
            controller.update(style, sample);
            proof {
                let h = sample.held_bits();
                assert(h & !0u64 == h) by (bit_vector);
                assert(0u64 & !h == 0u64) by (bit_vector);
            }
            Some(controller)
        } else {
            None
        }
    }
}

/// The pressed and released sets one reconciliation pass computes never
/// overlap: a button cannot be both newly active and newly inactive.
pub proof fn lemma_reconcile_edges_disjoint(
    pre: Controller,
    post: Controller,
    style: ControllerStyle,
    sample: StyleSample,
)
    requires
        style.is_supported_spec(),
        reconciled(pre, post, style, sample),
    ensures
        post.pressed_buttons.bits & post.released_buttons.bits == 0,
{
    let h = sample.held_bits();
    let b = pre.buttons.bits;
    assert(((h & !b) & (b & !h)) == 0u64) by (bit_vector);
}

/// Reconciling twice against one unchanged raw sample leaves no edges: the
/// second pass sees the held set it installed itself, so its pressed and
/// released sets are both empty.
pub proof fn lemma_reconcile_idempotent(
    first: Controller,
    second: Controller,
    third: Controller,
    style: ControllerStyle,
    sample: StyleSample,
)
    requires
        style.is_supported_spec(),
        reconciled(first, second, style, sample),
        reconciled(second, third, style, sample),
    ensures
        third.pressed_buttons.bits == 0,
        third.released_buttons.bits == 0,
{
    let h = sample.held_bits();
    assert(h & !h == 0u64) by (bit_vector);
}

} // verus!

