use bevy_prot_widgets::button::{update_buttons, ButtonColorSlot, ButtonWidget, TriggerPolicy};
use bevy_prot_widgets::composite::{
    ChildWidget, IconButtonBlueprint, IconLabelButtonBlueprint, LabelButtonBlueprint,
};
use bevy_prot_widgets::interaction::Interaction;

const ALL: [Interaction; 3] = [Interaction::Clicked, Interaction::Hovered, Interaction::Idle];

#[test]
fn disabled_button_ignores_every_interaction() {
    for policy in [TriggerPolicy::OnPress, TriggerPolicy::OnRelease] {
        let start = ButtonWidget::new(false, policy);
        let mut b = start;
        for i in ALL.iter().chain(ALL.iter()).chain([Interaction::Clicked, Interaction::Hovered].iter()) {
            assert!(!b.update(*i));
            assert_eq!(b, start);
            assert_eq!(b.color_slot(*i), ButtonColorSlot::Disabled);
        }
    }
}

#[test]
fn on_release_fires_after_press() {
    let mut b = ButtonWidget::new(true, TriggerPolicy::OnRelease);
    assert!(!b.update(Interaction::Hovered));
    assert!(!b.update(Interaction::Clicked));
    assert!(b.pressed);
    assert!(b.update(Interaction::Hovered));
    assert!(!b.pressed);
    assert!(!b.update(Interaction::Hovered));
}

#[test]
fn on_release_bare_release_does_not_fire() {
    let mut b = ButtonWidget::new(true, TriggerPolicy::OnRelease);
    assert!(!b.update(Interaction::Hovered));
    // A press dragged off the button is dropped.
    assert!(!b.update(Interaction::Clicked));
    assert!(!b.update(Interaction::Idle));
    assert!(!b.update(Interaction::Hovered));
}

#[test]
fn on_press_fires_on_click() {
    let mut b = ButtonWidget::new(true, TriggerPolicy::OnPress);
    assert!(!b.update(Interaction::Hovered));
    assert!(b.update(Interaction::Clicked));
    assert!(!b.update(Interaction::Hovered));
}

#[test]
fn color_slots() {
    let b = ButtonWidget::new(true, TriggerPolicy::OnRelease);
    assert_eq!(b.color_slot(Interaction::Clicked), ButtonColorSlot::Pressed);
    assert_eq!(b.color_slot(Interaction::Hovered), ButtonColorSlot::Hovered);
    assert_eq!(b.color_slot(Interaction::Idle), ButtonColorSlot::Normal);
    assert_eq!(b.color_slot(Interaction::Hovered), b.color_slot(Interaction::Hovered));
}

#[test]
fn release_after_press_shows_released_color() {
    let mut b = ButtonWidget::new(true, TriggerPolicy::OnRelease);
    assert_eq!(b.color_slot(Interaction::Clicked), ButtonColorSlot::Pressed);
    b.update(Interaction::Clicked);
    assert_eq!(b.color_slot(Interaction::Hovered), ButtonColorSlot::Released);
    assert_eq!(b.color_slot(Interaction::Idle), ButtonColorSlot::Normal);
    b.update(Interaction::Hovered);
    assert_eq!(b.color_slot(Interaction::Hovered), ButtonColorSlot::Hovered);
}

#[test]
fn only_the_released_button_fires() {
    let mut buttons: Vec<ButtonWidget> = Vec::new();
    let mut children = Vec::new();
    for k in 0..5u32 {
        let tree = IconButtonBlueprint { icon: k, enabled: true, policy: TriggerPolicy::OnRelease }
            .build::<()>();
        buttons.push(tree.container);
        children.push(tree.children);
    }
    let before = buttons.clone();
    let mut press = vec![None; 5];
    press[2] = Some(Interaction::Clicked);
    let fired = update_buttons(&mut buttons, &press);
    assert_eq!(fired, vec![false; 5]);
    let mut release = vec![None; 5];
    release[2] = Some(Interaction::Hovered);
    let fired = update_buttons(&mut buttons, &release);
    assert_eq!(fired, vec![false, false, true, false, false]);
    for k in [0usize, 1, 3, 4] {
        assert_eq!(buttons[k], before[k]);
    }
    for (k, c) in children.iter().enumerate() {
        assert_eq!(c.len(), 1);
        assert!(matches!(c[0], ChildWidget::Icon(i) if i == k as u32));
    }
}

#[test]
fn update_buttons_with_no_change_fires_nothing() {
    let mut buttons = vec![ButtonWidget::new(true, TriggerPolicy::OnPress); 3];
    let fired = update_buttons(&mut buttons, &vec![None; 3]);
    assert_eq!(fired, vec![false; 3]);
    let mut empty: Vec<ButtonWidget> = Vec::new();
    assert!(update_buttons(&mut empty, &Vec::new()).is_empty());
}

#[test]
fn icon_label_button_graph() {
    let tree = IconLabelButtonBlueprint { icon: 'i', label: "Send", enabled: true, policy: TriggerPolicy::OnRelease }
        .build();
    assert_eq!(tree.container, ButtonWidget { enabled: true, policy: TriggerPolicy::OnRelease, pressed: false });
    assert_eq!(tree.children.len(), 2);
    assert!(matches!(tree.children[0], ChildWidget::Icon('i')));
    assert!(matches!(tree.children[1], ChildWidget::Label("Send")));
}

#[test]
fn label_button_graph() {
    let tree = LabelButtonBlueprint { label: "Ok", enabled: false, policy: TriggerPolicy::OnPress }.build::<()>();
    assert_eq!(tree.container, ButtonWidget::new(false, TriggerPolicy::OnPress));
    assert_eq!(tree.children.len(), 1);
    assert!(matches!(tree.children[0], ChildWidget::Label("Ok")));
}
