use vstd::prelude::*;

use crate::interaction::Interaction;

verus! {

/// When a button fires its action.
#[derive(Debug, Clone, Copy, PartialEq, Eq, Structural)]
pub enum TriggerPolicy {
    /// The frame the pointer goes down on the button.
    OnPress,
    /// The frame the pointer is released over the button, after a press on it.
    OnRelease,
}

/// Marker component of a button: whether it reacts at all, when it fires,
/// and whether a press on it is still held.
#[derive(Debug, Clone, Copy, PartialEq, Eq, Structural)]
pub struct ButtonWidget {
    pub enabled: bool,
    pub policy: TriggerPolicy,
    pub pressed: bool,
}

/// Which colour of the theme a button is drawn with.
#[derive(Debug, Clone, Copy, PartialEq, Eq, Structural)]
pub enum ButtonColorSlot {
    Normal,
    Hovered,
    Pressed,
    Released,
    Disabled,
}

/// One transition: the button after observing `i`, and whether it fired.
/// A disabled button ignores interaction. A click holds the press (and fires
/// under `OnPress`); a hover releases it (and fires under `OnRelease` if the
/// press was held); leaving the button drops the press without firing.
pub open spec fn spec_step(b: ButtonWidget, i: Interaction) -> (ButtonWidget, bool) {
    if !b.enabled {
        (b, false)
    } else {
        match i {
            Interaction::Clicked => (
                ButtonWidget { enabled: b.enabled, policy: b.policy, pressed: true },
                b.policy == TriggerPolicy::OnPress,
            ),
            Interaction::Hovered => (
                ButtonWidget { enabled: b.enabled, policy: b.policy, pressed: false },
                b.policy == TriggerPolicy::OnRelease && b.pressed,
            ),
            Interaction::Idle => (
                ButtonWidget { enabled: b.enabled, policy: b.policy, pressed: false },
                false,
            ),
        }
    }
}

/// The button after observing each interaction of `trace` in turn.
pub open spec fn spec_run(b: ButtonWidget, trace: Seq<Interaction>) -> ButtonWidget
    decreases trace.len(),
{
    if trace.len() == 0 {
        b
    } else {
        spec_step(spec_run(b, trace.drop_last()), trace.last()).0
    }
}

/// Whether the button fires on the `k`-th interaction of `trace`.
pub open spec fn spec_fires_at(b: ButtonWidget, trace: Seq<Interaction>, k: int) -> bool {
    spec_step(spec_run(b, trace.take(k)), trace[k]).1
}

/// The theme colour a button in state `b` shows when it observes `i`: a
/// hover that ends a held press shows the released colour.
pub open spec fn spec_color_slot(b: ButtonWidget, i: Interaction) -> ButtonColorSlot {
    if !b.enabled {
        ButtonColorSlot::Disabled
    } else {
        match i {
            Interaction::Clicked => ButtonColorSlot::Pressed,
            Interaction::Hovered => if b.pressed {
                ButtonColorSlot::Released
            } else {
                ButtonColorSlot::Hovered
            },
            Interaction::Idle => ButtonColorSlot::Normal,
        }
    }
}

impl ButtonWidget {
    /// A button with no press held.
    pub fn new(enabled: bool, policy: TriggerPolicy) -> (r: ButtonWidget)
        ensures
            r == (ButtonWidget { enabled, policy, pressed: false }),
    {
        ButtonWidget { enabled, policy, pressed: false }
    }

    /// Transition step, run for a button whose interaction changed this
    /// frame; returns whether the button's action fires.
    pub fn update(&mut self, interaction: Interaction) -> (fired: bool)
        ensures
            (*final(self), fired) == spec_step(*old(self), interaction),
    {
        if !self.enabled {
            return false;
        }
        match interaction {
            Interaction::Clicked => {
                self.pressed = true;
                self.policy == TriggerPolicy::OnPress
            },
            Interaction::Hovered => {
                let fired = self.policy == TriggerPolicy::OnRelease && self.pressed;
                self.pressed = false;
                fired
            },
            Interaction::Idle => {
                self.pressed = false;
                false
            },
        }
    }

    /// Visual-sync step: the theme colour for an interaction, read from the
    /// state before `update` handles that interaction.
    pub fn color_slot(&self, interaction: Interaction) -> (r: ButtonColorSlot)
        ensures
            r == spec_color_slot(*self, interaction),
    {
        if !self.enabled {
            ButtonColorSlot::Disabled
        } else {
            match interaction {
                Interaction::Clicked => ButtonColorSlot::Pressed,
                Interaction::Hovered => if self.pressed {
                    ButtonColorSlot::Released
                } else {
                    ButtonColorSlot::Hovered
                },
                Interaction::Idle => ButtonColorSlot::Normal,
            }
        }
    }
}

/// One frame over a set of buttons: `changed[i]` is the new interaction of
/// button `i`, or `None` where it did not change. Returns which buttons fired.
pub fn update_buttons(buttons: &mut Vec<ButtonWidget>, changed: &Vec<Option<Interaction>>) -> (fired: Vec<bool>)
    requires
        old(buttons).len() == changed.len(),
    ensures
        final(buttons).len() == old(buttons).len(),
        fired.len() == old(buttons).len(),
        forall|i: int|
            0 <= i < changed.len() ==> match #[trigger] changed[i] {
                Some(x) => (final(buttons)[i], fired[i]) == spec_step(old(buttons)[i], x),
                None => final(buttons)[i] == old(buttons)[i] && !fired[i],
            },
{
    let mut fired: Vec<bool> = Vec::new();
    let n = buttons.len();
    let mut i: usize = 0;
    while i < n
        invariant
            n == buttons.len(),
            n == changed.len(),
            n == old(buttons).len(),
            i <= n,
            fired.len() == i,
            forall|j: int| i <= j < n ==> buttons[j] == old(buttons)[j],
            forall|j: int|
                0 <= j < i ==> match #[trigger] changed[j] {
                    Some(x) => (buttons[j], fired[j]) == spec_step(old(buttons)[j], x),
                    None => buttons[j] == old(buttons)[j] && !fired[j],
                },
        decreases n - i,
    {
        match changed[i] {
            Some(x) => {
                let mut b = buttons[i];
                let f = b.update(x);
                buttons[i] = b;
                fired.push(f);
            },
            None => {
                fired.push(false);
            },
        }
        i = i + 1;
    }
    fired
}

/// A disabled button never changes and never fires, whatever it observes.
pub proof fn lemma_disabled_button_is_inert(b: ButtonWidget, trace: Seq<Interaction>)
    requires
        !b.enabled,
    ensures
        spec_run(b, trace) == b,
        forall|k: int| 0 <= k < trace.len() ==> !#[trigger] spec_fires_at(b, trace, k),
    decreases trace.len(),
{
    if trace.len() > 0 {
        lemma_disabled_button_is_inert(b, trace.drop_last());
    }
    assert forall|k: int| 0 <= k < trace.len() implies !#[trigger] spec_fires_at(b, trace, k) by {
        lemma_disabled_button_is_inert(b, trace.take(k));
    }
}

/// An enabled button keeps its flags, and holds a press exactly when the last
/// interaction it observed was a click.
pub proof fn lemma_run_holds_press(b: ButtonWidget, trace: Seq<Interaction>)
    requires
        b.enabled,
    ensures
        spec_run(b, trace).enabled,
        spec_run(b, trace).policy == b.policy,
        spec_run(b, trace).pressed == if trace.len() == 0 {
            b.pressed
        } else {
            trace.last() == Interaction::Clicked
        },
    decreases trace.len(),
{
    if trace.len() > 0 {
        lemma_run_holds_press(b, trace.drop_last());
    }
}

/// Under `OnRelease`, a button with no press held fires on an interaction
/// exactly when it is a release over the button (a hover) that directly
/// follows a click on it: a release without a press before it never fires.
pub proof fn lemma_release_fires_only_after_press(b: ButtonWidget, trace: Seq<Interaction>)
    requires
        b.enabled,
        b.policy == TriggerPolicy::OnRelease,
        !b.pressed,
    ensures
        forall|k: int|
            0 <= k < trace.len() ==> (#[trigger] spec_fires_at(b, trace, k) <==> (
            trace[k] == Interaction::Hovered && k > 0 && trace[k - 1] == Interaction::Clicked)),
{
    assert forall|k: int| 0 <= k < trace.len() implies (#[trigger] spec_fires_at(b, trace, k) <==> (
    trace[k] == Interaction::Hovered && k > 0 && trace[k - 1] == Interaction::Clicked)) by {
        lemma_run_holds_press(b, trace.take(k));
        if k > 0 {
            assert(trace.take(k).last() == trace[k - 1]);
        }
    }
}

} // verus!
