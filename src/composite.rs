use vstd::prelude::*;

use crate::button::{ButtonWidget, TriggerPolicy};

verus! {

/// A leaf widget under a button's container: an icon or a label, each given
/// by its own blueprint.
pub enum ChildWidget<I, L> {
    Icon(I),
    Label(L),
}

/// The entity graph of a built button: one container that alone carries the
/// interaction and trigger state, and its leaf children in spawn order.
pub struct ButtonTree<I, L> {
    pub container: ButtonWidget,
    pub children: Vec<ChildWidget<I, L>>,
}

/// A button showing an icon.
pub struct IconButtonBlueprint<I> {
    pub icon: I,
    pub enabled: bool,
    pub policy: TriggerPolicy,
}

/// A button showing a label.
pub struct LabelButtonBlueprint<L> {
    pub label: L,
    pub enabled: bool,
    pub policy: TriggerPolicy,
}

/// A button showing an icon followed by a label.
pub struct IconLabelButtonBlueprint<I, L> {
    pub icon: I,
    pub label: L,
    pub enabled: bool,
    pub policy: TriggerPolicy,
}

impl<I> IconButtonBlueprint<I> {
    /// The container with no press held, and the icon as its one child.
    pub fn build<L>(self) -> (r: ButtonTree<I, L>)
        ensures
            r.container == (ButtonWidget { enabled: self.enabled, policy: self.policy, pressed: false }),
            r.children@ == seq![ChildWidget::<I, L>::Icon(self.icon)],
    {
        let mut children: Vec<ChildWidget<I, L>> = Vec::new();
        children.push(ChildWidget::Icon(self.icon));
        ButtonTree { container: ButtonWidget::new(self.enabled, self.policy), children }
    }
}

impl<L> LabelButtonBlueprint<L> {
    /// The container with no press held, and the label as its one child.
    pub fn build<I>(self) -> (r: ButtonTree<I, L>)
        ensures
            r.container == (ButtonWidget { enabled: self.enabled, policy: self.policy, pressed: false }),
            r.children@ == seq![ChildWidget::<I, L>::Label(self.label)],
    {
        let mut children: Vec<ChildWidget<I, L>> = Vec::new();
        children.push(ChildWidget::Label(self.label));
        ButtonTree { container: ButtonWidget::new(self.enabled, self.policy), children }
    }
}

impl<I, L> IconLabelButtonBlueprint<I, L> {
    /// The container with no press held, and two children: the icon, then
    /// the label.
    pub fn build(self) -> (r: ButtonTree<I, L>)
        ensures
            r.container == (ButtonWidget { enabled: self.enabled, policy: self.policy, pressed: false }),
            r.children@ == seq![ChildWidget::<I, L>::Icon(self.icon), ChildWidget::<I, L>::Label(self.label)],
    {
        let mut children: Vec<ChildWidget<I, L>> = Vec::new();
        children.push(ChildWidget::Icon(self.icon));
        children.push(ChildWidget::Label(self.label));
        ButtonTree { container: ButtonWidget::new(self.enabled, self.policy), children }
    }
}

} // verus!
