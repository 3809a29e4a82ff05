use vstd::prelude::*;

verus! {

/// The glyphs of the Material Icons font that a checkbox shows.
#[derive(Debug, Clone, Copy, PartialEq, Eq, Structural)]
pub enum CheckboxIcon {
    CheckBox,
    CheckBoxOutlineBlank,
    IndeterminateCheckBox,
}

/// Codepoint of an icon in the Material Icons font.
pub open spec fn spec_glyph(icon: CheckboxIcon) -> char {
    match icon {
        CheckboxIcon::CheckBox => '\u{e834}',
        CheckboxIcon::CheckBoxOutlineBlank => '\u{e835}',
        CheckboxIcon::IndeterminateCheckBox => '\u{e909}',
    }
}

/// Relies on material_icons::icon_to_char: the font's codepoint of each icon,
/// as its table lists them.
#[verifier::external_body]
fn icon_to_char(icon: CheckboxIcon) -> (r: char)
    ensures
        r == spec_glyph(icon),
{
    material_icons::icon_to_char(match icon {
        CheckboxIcon::CheckBox => material_icons::Icon::CheckBox,
        CheckboxIcon::CheckBoxOutlineBlank => material_icons::Icon::CheckBoxOutlineBlank,
        CheckboxIcon::IndeterminateCheckBox => material_icons::Icon::IndeterminateCheckBox,
    })
}

impl CheckboxIcon {
    /// The character that renders this icon in the Material Icons font.
    pub fn glyph(self) -> (r: char)
        ensures
            r == spec_glyph(self),
    {
        icon_to_char(self)
    }
}

} // verus!
