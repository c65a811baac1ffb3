//! Which colours of a theme's control palette dress a widget in each of its
//! states. The palette itself is computed by the caller from the theme.

use vstd::prelude::*;

verus! {

/// A colour of the control palette derived from a theme.
#[derive(Clone, Copy, Debug, PartialEq, Eq, Structural)]
pub enum ColorSlot {
    SurfaceBg,
    SurfaceHoverBg,
    SurfacePressedBg,
    SurfaceBorder,
    SurfaceBorderHover,
    Text,
    TextMuted,
}

/// A palette colour, with its opacity replaced by `alpha_percent` percent
/// when that is given.
#[derive(Clone, Copy, Debug, PartialEq, Eq, Structural)]
pub struct Shade {
    pub slot: ColorSlot,
    pub alpha_percent: Option<u8>,
}

/// The colours of a button.
#[derive(Clone, Copy, Debug, PartialEq, Eq, Structural)]
pub struct ButtonLook {
    pub border: Shade,
    pub background: Shade,
    pub text: Shade,
}

/// The states of a button.
#[derive(Clone, Copy, Debug, PartialEq, Eq, Structural)]
pub enum ButtonStatus {
    Active,
    Hovered,
    Pressed,
    Disabled,
}

/// The states of a pick list.
#[derive(Clone, Copy, Debug, PartialEq, Eq, Structural)]
pub enum PickListStatus {
    Active,
    Hovered,
    Opened { is_hovered: bool },
}

/// The colours of a pick list.
#[derive(Clone, Copy, Debug, PartialEq, Eq, Structural)]
pub struct PickListLook {
    pub border: ColorSlot,
    pub background: ColorSlot,
    pub text: ColorSlot,
    pub placeholder: ColorSlot,
    pub handle: ColorSlot,
}

/// A palette colour at its own opacity.
pub open spec fn plain(slot: ColorSlot) -> Shade {
    Shade { slot, alpha_percent: None }
}

/// The colours of a button in `status`: a disabled button is faded, a
/// hovered or pressed one gets the hover border and its own background.
pub open spec fn spec_button_look(status: ButtonStatus) -> ButtonLook {
    match status {
        ButtonStatus::Active => ButtonLook {
            border: plain(ColorSlot::SurfaceBorder),
            background: plain(ColorSlot::SurfaceBg),
            text: plain(ColorSlot::Text),
        },
        ButtonStatus::Hovered => ButtonLook {
            border: plain(ColorSlot::SurfaceBorderHover),
            background: plain(ColorSlot::SurfaceHoverBg),
            text: plain(ColorSlot::Text),
        },
        ButtonStatus::Pressed => ButtonLook {
            border: plain(ColorSlot::SurfaceBorderHover),
            background: plain(ColorSlot::SurfacePressedBg),
            text: plain(ColorSlot::Text),
        },
        ButtonStatus::Disabled => ButtonLook {
            border: Shade { slot: ColorSlot::SurfaceBorder, alpha_percent: Some(35) },
            background: Shade { slot: ColorSlot::SurfaceBg, alpha_percent: Some(45) },
            text: Shade { slot: ColorSlot::TextMuted, alpha_percent: Some(55) },
        },
    }
}

/// The colours of a button in `status`.
pub fn button_look(status: ButtonStatus) -> (look: ButtonLook)
    ensures
        look == spec_button_look(status),
{
    let mut look = ButtonLook {
        border: Shade { slot: ColorSlot::SurfaceBorder, alpha_percent: None },
        background: Shade { slot: ColorSlot::SurfaceBg, alpha_percent: None },
        text: Shade { slot: ColorSlot::Text, alpha_percent: None },
    };
    if status == ButtonStatus::Disabled {
        look.border.alpha_percent = Some(35);
        look.background.alpha_percent = Some(45);
        look.text = Shade { slot: ColorSlot::TextMuted, alpha_percent: Some(55) };
        return look;
    }
    if status == ButtonStatus::Hovered {
        look.border.slot = ColorSlot::SurfaceBorderHover;
        look.background.slot = ColorSlot::SurfaceHoverBg;
    }
    if status == ButtonStatus::Pressed {
        look.border.slot = ColorSlot::SurfaceBorderHover;
        look.background.slot = ColorSlot::SurfacePressedBg;
    }
    look
}

/// The colours of a pick list in `status`: plain hovering gives the hover
/// border and background; text and handle use `Text` and the placeholder
/// `TextMuted` in every state.
pub open spec fn spec_pick_list_look(status: PickListStatus) -> PickListLook {
    match status {
        PickListStatus::Hovered => PickListLook {
            border: ColorSlot::SurfaceBorderHover,
            background: ColorSlot::SurfaceHoverBg,
            text: ColorSlot::Text,
            placeholder: ColorSlot::TextMuted,
            handle: ColorSlot::Text,
        },
        _ => PickListLook {
            border: ColorSlot::SurfaceBorder,
            background: ColorSlot::SurfaceBg,
            text: ColorSlot::Text,
            placeholder: ColorSlot::TextMuted,
            handle: ColorSlot::Text,
        },
    }
}

/// The colours of a pick list in `status`.
pub fn pick_list_look(status: PickListStatus) -> (look: PickListLook)
    ensures
        look == spec_pick_list_look(status),
{
    let (border, background) = match status {
        PickListStatus::Hovered => (ColorSlot::SurfaceBorderHover, ColorSlot::SurfaceHoverBg),
        _ => (ColorSlot::SurfaceBorder, ColorSlot::SurfaceBg),
    };
    PickListLook {
        border,
        background,
        text: ColorSlot::Text,
        placeholder: ColorSlot::TextMuted,
        handle: ColorSlot::Text,
    }
}

} // verus!
