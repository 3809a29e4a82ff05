use vstd::prelude::*;

use crate::button::{spec_run, spec_step, ButtonWidget, TriggerPolicy};
use crate::icon::{spec_glyph, CheckboxIcon};
use crate::interaction::Interaction;

verus! {

/// Logical state of a checkbox.
#[derive(Debug, Clone, Copy, PartialEq, Eq, Structural)]
pub enum CheckboxState {
    Checked,
    Unchecked,
    Indeterminate,
}

impl Default for CheckboxState {
    fn default() -> (r: CheckboxState)
        ensures
            r == CheckboxState::Unchecked,
    {
        CheckboxState::Unchecked
    }
}

/// Marker component of a checkbox, carrying its logical state.
#[derive(Debug, Clone, Copy, PartialEq, Eq, Structural)]
pub struct CheckboxWidget(pub CheckboxState);

impl Default for CheckboxWidget {
    fn default() -> (r: CheckboxWidget)
        ensures
            r.0 == CheckboxState::Unchecked,
    {
        CheckboxWidget(CheckboxState::Unchecked)
    }
}

/// The toggle table: an activation flips Checked and Unchecked, and takes
/// Indeterminate to Checked.
pub open spec fn spec_toggled(s: CheckboxState) -> CheckboxState {
    match s {
        CheckboxState::Checked => CheckboxState::Unchecked,
        CheckboxState::Unchecked => CheckboxState::Checked,
        CheckboxState::Indeterminate => CheckboxState::Checked,
    }
}

impl CheckboxState {
    /// The state that one activation leads to.
    pub fn toggled(self) -> (r: CheckboxState)
        ensures
            r == spec_toggled(self),
    {
        match self {
            CheckboxState::Checked => CheckboxState::Unchecked,
            CheckboxState::Unchecked => CheckboxState::Checked,
            CheckboxState::Indeterminate => CheckboxState::Checked,
        }
    }
}

/// Transition step, run for a checkbox whose interaction changed this frame.
/// `activation` holds the checkbox's enabled flag, trigger policy and held
/// press; the checkbox toggles exactly when that activation fires, which
/// never happens while it is disabled. Returns whether it fired.
pub fn update_checkbox_interaction(
    checkbox: &mut CheckboxWidget,
    activation: &mut ButtonWidget,
    interaction: &Interaction,
) -> (fired: bool)
    ensures
        (*final(activation), fired) == spec_step(*old(activation), *interaction),
        final(checkbox).0 == if fired {
            spec_toggled(old(checkbox).0)
        } else {
            old(checkbox).0
        },
{
    let fired = activation.update(*interaction);
    if fired {
        checkbox.0 = checkbox.0.toggled();
    }
    fired
}

/// The icon that shows a checkbox state.
pub open spec fn spec_icon_for(s: CheckboxState) -> CheckboxIcon {
    match s {
        CheckboxState::Checked => CheckboxIcon::CheckBox,
        CheckboxState::Unchecked => CheckboxIcon::CheckBoxOutlineBlank,
        CheckboxState::Indeterminate => CheckboxIcon::IndeterminateCheckBox,
    }
}

impl CheckboxState {
    /// The icon that shows this state.
    pub fn icon(self) -> (r: CheckboxIcon)
        ensures
            r == spec_icon_for(self),
    {
        match self {
            CheckboxState::Checked => CheckboxIcon::CheckBox,
            CheckboxState::Unchecked => CheckboxIcon::CheckBoxOutlineBlank,
            CheckboxState::Indeterminate => CheckboxIcon::IndeterminateCheckBox,
        }
    }
}

/// Visual-sync step, run for a checkbox whose logical state changed this
/// frame: the icon is recomputed from the state alone.
pub fn update_checkbox_icon(checkbox: &CheckboxWidget, icon: &mut CheckboxIcon)
    ensures
        *final(icon) == spec_icon_for(checkbox.0),
{
    *icon = checkbox.0.icon();
}

/// Description of a checkbox, consumed by `build`.
pub struct CheckBoxBlueprint<F> {
    pub state: CheckboxState,
    pub font: F,
    pub enabled: bool,
    pub policy: TriggerPolicy,
}

/// The components a checkbox entity is made of: its marker, its activation
/// state, the icon it shows, the character that draws that icon and the font
/// to draw it with.
pub struct CheckboxBundle<F> {
    pub checkbox: CheckboxWidget,
    pub activation: ButtonWidget,
    pub icon: CheckboxIcon,
    pub glyph: char,
    pub font: F,
}

impl<F> CheckBoxBlueprint<F> {
    /// Turns the description into the components of a checkbox whose visual
    /// state matches its logical state from the start.
    pub fn build(self) -> (r: CheckboxBundle<F>)
        ensures
            r.checkbox.0 == self.state,
            r.activation == (ButtonWidget { enabled: self.enabled, policy: self.policy, pressed: false }),
            r.icon == spec_icon_for(self.state),
            r.glyph == spec_glyph(r.icon),
            r.font == self.font,
    {
        let icon = self.state.icon();
        CheckboxBundle {
            checkbox: CheckboxWidget(self.state),
            activation: ButtonWidget::new(self.enabled, self.policy),
            icon,
            glyph: icon.glyph(),
            font: self.font,
        }
    }
}

/// The state after `n` activations.
pub open spec fn spec_after_activations(s: CheckboxState, n: nat) -> CheckboxState
    decreases n,
{
    if n == 0 {
        s
    } else {
        spec_toggled(spec_after_activations(s, (n - 1) as nat))
    }
}

/// From Checked or Unchecked, an even number of activations leads back to
/// the starting state.
pub proof fn lemma_even_activations_restore(s: CheckboxState, k: nat)
    requires
        s != CheckboxState::Indeterminate,
    ensures
        spec_after_activations(s, 2 * k) == s,
    decreases k,
{
    if k > 0 {
        lemma_even_activations_restore(s, (k - 1) as nat);
        let m = (2 * (k - 1)) as nat;
        assert(spec_after_activations(s, m + 1) == spec_toggled(spec_after_activations(s, m)));
        assert(spec_after_activations(s, m + 2) == spec_toggled(spec_after_activations(s, m + 1)));
        assert(m + 2 == 2 * k);
    }
}

/// From Indeterminate, the first activation leads to Checked and the ones
/// after it act as they do from Checked; Indeterminate is never entered again.
pub proof fn lemma_indeterminate_left_once(n: nat)
    ensures
        spec_after_activations(CheckboxState::Indeterminate, n + 1) == spec_after_activations(CheckboxState::Checked, n),
        spec_after_activations(CheckboxState::Indeterminate, n + 1) != CheckboxState::Indeterminate,
    decreases n,
{
    if n > 0 {
        lemma_indeterminate_left_once((n - 1) as nat);
        assert(spec_after_activations(CheckboxState::Indeterminate, n + 1) == spec_toggled(
            spec_after_activations(CheckboxState::Indeterminate, n)));
    }
}

/// The logical state of a checkbox that starts in `s`, with activation state
/// `a`, after `update_checkbox_interaction` has handled each interaction of
/// `trace` in turn.
pub open spec fn spec_checkbox_run(s: CheckboxState, a: ButtonWidget, trace: Seq<Interaction>) -> CheckboxState
    decreases trace.len(),
{
    if trace.len() == 0 {
        s
    } else {
        let before = spec_checkbox_run(s, a, trace.drop_last());
        if spec_step(spec_run(a, trace.drop_last()), trace.last()).1 {
            spec_toggled(before)
        } else {
            before
        }
    }
}

/// A disabled checkbox keeps its logical state, and so its icon and glyph,
/// whatever interactions it observes.
pub proof fn lemma_disabled_checkbox_is_inert(s: CheckboxState, a: ButtonWidget, trace: Seq<Interaction>)
    requires
        !a.enabled,
    ensures
        spec_checkbox_run(s, a, trace) == s,
        spec_icon_for(spec_checkbox_run(s, a, trace)) == spec_icon_for(s),
    decreases trace.len(),
{
    if trace.len() > 0 {
        lemma_disabled_checkbox_is_inert(s, a, trace.drop_last());
        crate::button::lemma_disabled_button_is_inert(a, trace.drop_last());
    }
}

/// The visual state of a checkbox is a function of its logical state alone,
/// and tells every logical state apart: two checkboxes show the same icon,
/// and the same glyph, exactly when their states are equal.
pub proof fn lemma_checkbox_visual_tracks_state(s1: CheckboxState, s2: CheckboxState)
    ensures
        (spec_icon_for(s1) == spec_icon_for(s2)) <==> (s1 == s2),
        (spec_glyph(spec_icon_for(s1)) == spec_glyph(spec_icon_for(s2))) <==> (s1 == s2),
{
}

} // verus!
