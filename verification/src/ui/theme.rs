//! The theme: colors, and the styles of boxes, buttons and inputs. Parts of a
//! color are given in thousandths, widths and offsets in pixels; corners are
//! sharp everywhere.

use crate::state::message::{Message, WindowMessage};
use crate::text::{decimal, digits, owned, same};
use vstd::prelude::*;

verus! {

// ---------- Colors ----------

/// A color: red, green, blue and opacity in thousandths.
#[derive(Debug, Clone, Copy, PartialEq, Eq, Structural)]
pub struct Color {
    pub r: u16,
    pub g: u16,
    pub b: u16,
    pub a: u16,
}

/// A color with its opacity.
#[verifier::allow_in_spec]
pub fn rgba(r: u16, g: u16, b: u16, a: u16) -> (c: Color)
    returns
        (Color { r, g, b, a }),
{
    Color { r, g, b, a }
}

/// An opaque color.
#[verifier::allow_in_spec]
pub fn rgb(r: u16, g: u16, b: u16) -> (c: Color)
    returns
        (Color { r, g, b, a: 1000 }),
{
    Color { r, g, b, a: 1000 }
}

/// No color at all.
#[verifier::allow_in_spec]
pub fn transparent() -> (c: Color)
    returns
        rgba(0, 0, 0, 0),
{
    rgba(0, 0, 0, 0)
}

/// White.
#[verifier::allow_in_spec]
pub fn white() -> (c: Color)
    returns
        rgb(1000, 1000, 1000),
{
    rgb(1000, 1000, 1000)
}

/// The accent with an opacity.
#[verifier::allow_in_spec]
pub fn accent_tint(a: u16) -> (c: Color)
    returns
        rgba(300, 720, 520, a),
{
    rgba(300, 720, 520, a)
}

/// The color of danger with an opacity.
#[verifier::allow_in_spec]
pub fn danger_tint(a: u16) -> (c: Color)
    returns
        rgba(850, 320, 340, a),
{
    rgba(850, 320, 340, a)
}

/// The main canvas.
#[verifier::allow_in_spec]
pub fn c_bg_primary() -> (c: Color)
    returns
        rgb(45, 52, 50),
{
    rgb(45, 52, 50)
}

/// Panels.
#[verifier::allow_in_spec]
pub fn c_bg_secondary() -> (c: Color)
    returns
        rgb(34, 40, 38),
{
    rgb(34, 40, 38)
}

/// The rail and inputs.
#[verifier::allow_in_spec]
pub fn c_bg_tertiary() -> (c: Color)
    returns
        rgb(20, 26, 24),
{
    rgb(20, 26, 24)
}

/// Boxes on panels.
#[verifier::allow_in_spec]
pub fn c_bg_elevated() -> (c: Color)
    returns
        rgb(60, 72, 68),
{
    rgb(60, 72, 68)
}

/// What the pointer is over.
#[verifier::allow_in_spec]
pub fn c_bg_hover() -> (c: Color)
    returns
        rgb(78, 92, 86),
{
    rgb(78, 92, 86)
}

/// Muted emerald.
#[verifier::allow_in_spec]
pub fn c_accent() -> (c: Color)
    returns
        rgb(300, 720, 520),
{
    rgb(300, 720, 520)
}

/// The accent, darker.
#[verifier::allow_in_spec]
pub fn c_accent_dim() -> (c: Color)
    returns
        rgb(240, 580, 420),
{
    rgb(240, 580, 420)
}

/// The accent as a tint.
#[verifier::allow_in_spec]
pub fn c_accent_soft() -> (c: Color)
    returns
        rgba(300, 720, 520, 140),
{
    rgba(300, 720, 520, 140)
}

/// Text.
#[verifier::allow_in_spec]
pub fn c_text_primary() -> (c: Color)
    returns
        rgb(740, 820, 770),
{
    rgb(740, 820, 770)
}

/// Text in the background.
#[verifier::allow_in_spec]
pub fn c_text_muted() -> (c: Color)
    returns
        rgb(500, 580, 530),
{
    rgb(500, 580, 530)
}

/// Borders.
#[verifier::allow_in_spec]
pub fn c_border() -> (c: Color)
    returns
        rgba(300, 720, 520, 180),
{
    rgba(300, 720, 520, 180)
}

/// Borders that stand out.
#[verifier::allow_in_spec]
pub fn c_border_strong() -> (c: Color)
    returns
        rgba(300, 720, 520, 350),
{
    rgba(300, 720, 520, 350)
}

/// The dot of users who are away.
#[verifier::allow_in_spec]
pub fn c_offline() -> (c: Color)
    returns
        rgb(300, 380, 300),
{
    rgb(300, 380, 300)
}

/// Errors and what cannot be undone.
#[verifier::allow_in_spec]
pub fn c_danger() -> (c: Color)
    returns
        rgb(850, 320, 340),
{
    rgb(850, 320, 340)
}

/// The same as a tint.
#[verifier::allow_in_spec]
pub fn c_danger_soft() -> (c: Color)
    returns
        rgba(850, 320, 340, 140),
{
    rgba(850, 320, 340, 140)
}

/// Warnings.
#[verifier::allow_in_spec]
pub fn c_warning() -> (c: Color)
    returns
        rgb(820, 740, 300),
{
    rgb(820, 740, 300)
}

/// The dot of users who are online.
#[verifier::allow_in_spec]
pub fn c_online() -> (c: Color)
    returns
        c_accent(),
{
    c_accent()
}

/// What went well.
#[verifier::allow_in_spec]
pub fn c_success() -> (c: Color)
    returns
        c_accent_dim(),
{
    c_accent_dim()
}

// ---------- Styles ----------

/// A border.
#[derive(Debug, Clone, Copy, PartialEq, Eq, Structural)]
pub struct Border {
    pub width: u8,
    pub color: Color,
}

/// A hard shadow: how far it is off, and its opacity in thousandths.
#[derive(Debug, Clone, Copy, PartialEq, Eq, Structural)]
pub struct Shadow {
    pub offset: u8,
    pub opacity: u16,
}

/// How a box is drawn.
#[derive(Debug, Clone, Copy, PartialEq, Eq, Structural)]
pub struct BoxStyle {
    pub background: Option<Color>,
    pub text_color: Option<Color>,
    pub border: Border,
    pub shadow: Shadow,
}

/// How a button is drawn.
#[derive(Debug, Clone, Copy, PartialEq, Eq, Structural)]
pub struct ButtonStyle {
    pub background: Option<Color>,
    pub text_color: Color,
    pub border: Border,
    pub shadow: Shadow,
}

/// How an input is drawn.
#[derive(Debug, Clone, Copy, PartialEq, Eq, Structural)]
pub struct InputStyle {
    pub background: Color,
    pub border: Border,
    pub icon: Color,
    pub placeholder: Color,
    pub value: Color,
    pub selection: Color,
}

/// What happens to a button.
#[derive(Debug, Clone, Copy, PartialEq, Eq, Structural)]
pub enum ButtonStatus {
    Active,
    Hovered,
    Pressed,
    Disabled,
}

/// What happens to an input.
#[derive(Debug, Clone, Copy, PartialEq, Eq, Structural)]
pub enum InputStatus {
    Active,
    Hovered,
    Focused,
    Disabled,
}

/// A border.
#[verifier::allow_in_spec]
pub fn border(width: u8, color: Color) -> (b: Border)
    returns
        (Border { width, color }),
{
    Border { width, color }
}

/// No shadow.
#[verifier::allow_in_spec]
pub fn no_shadow() -> (s: Shadow)
    returns
        (Shadow { offset: 0, opacity: 0 }),
{
    Shadow { offset: 0, opacity: 0 }
}

/// The shadow of cards.
#[verifier::allow_in_spec]
pub fn soft_shadow() -> (s: Shadow)
    returns
        (Shadow { offset: 3, opacity: 650 }),
{
    Shadow { offset: 3, opacity: 650 }
}

/// A lighter shadow.
#[verifier::allow_in_spec]
pub fn light_shadow() -> (s: Shadow)
    returns
        (Shadow { offset: 2, opacity: 500 }),
{
    Shadow { offset: 2, opacity: 500 }
}

/// A box with a border and no shadow.
#[verifier::allow_in_spec]
pub fn framed(background: Color, width: u8, edge: Color) -> (s: BoxStyle)
    returns
        (BoxStyle {
            background: Some(background),
            text_color: None,
            border: border(width, edge),
            shadow: no_shadow(),
        }),
{
    BoxStyle {
        background: Some(background),
        text_color: None,
        border: border(width, edge),
        shadow: no_shadow(),
    }
}

/// A box that is only filled.
#[verifier::allow_in_spec]
pub fn filled(background: Color) -> (s: BoxStyle)
    returns
        framed(background, 0, transparent()),
{
    framed(background, 0, transparent())
}

/// The badge of staff.
#[verifier::allow_in_spec]
pub fn admin_badge_style() -> (s: BoxStyle)
    returns
        (BoxStyle { text_color: Some(c_danger()), ..framed(c_danger_soft(), 1, danger_tint(450)) }),
{
    let mut s = framed(c_danger_soft(), 1, danger_tint(450));
    s.text_color = Some(c_danger());
    s
}

/// The rail.
#[verifier::allow_in_spec]
pub fn rail_style() -> (s: BoxStyle)
    returns
        framed(c_bg_tertiary(), 0, c_border()),
{
    framed(c_bg_tertiary(), 0, c_border())
}

/// The sidebar.
#[verifier::allow_in_spec]
pub fn sidebar_style() -> (s: BoxStyle)
    returns
        framed(c_bg_secondary(), 1, c_border()),
{
    framed(c_bg_secondary(), 1, c_border())
}

/// The panel of our account.
#[verifier::allow_in_spec]
pub fn account_panel_style() -> (s: BoxStyle)
    returns
        framed(c_bg_tertiary(), 1, c_border()),
{
    framed(c_bg_tertiary(), 1, c_border())
}

/// The chat.
#[verifier::allow_in_spec]
pub fn chat_area_style() -> (s: BoxStyle)
    returns
        filled(c_bg_primary()),
{
    filled(c_bg_primary())
}

/// The composer.
#[verifier::allow_in_spec]
pub fn composer_style() -> (s: BoxStyle)
    returns
        framed(c_bg_primary(), 1, c_border()),
{
    framed(c_bg_primary(), 1, c_border())
}

/// The card of the sign-in screen.
#[verifier::allow_in_spec]
pub fn auth_card_style() -> (s: BoxStyle)
    returns
        (BoxStyle { shadow: soft_shadow(), ..framed(c_bg_secondary(), 1, c_border_strong()) }),
{
    let mut s = framed(c_bg_secondary(), 1, c_border_strong());
    s.shadow = soft_shadow();
    s
}

/// What is around it.
#[verifier::allow_in_spec]
pub fn auth_shell_style() -> (s: BoxStyle)
    returns
        filled(c_bg_tertiary()),
{
    filled(c_bg_tertiary())
}

/// A message under the pointer.
#[verifier::allow_in_spec]
pub fn message_hover_style() -> (s: BoxStyle)
    returns
        framed(accent_tint(50), 1, accent_tint(120)),
{
    framed(accent_tint(50), 1, accent_tint(120))
}

/// A box in a panel.
#[verifier::allow_in_spec]
pub fn panel_box_style() -> (s: BoxStyle)
    returns
        framed(c_bg_elevated(), 1, c_border()),
{
    framed(c_bg_elevated(), 1, c_border())
}

/// A card of the settings.
#[verifier::allow_in_spec]
pub fn section_card_style() -> (s: BoxStyle)
    returns
        (BoxStyle { shadow: light_shadow(), ..framed(c_bg_secondary(), 1, c_border_strong()) }),
{
    let mut s = framed(c_bg_secondary(), 1, c_border_strong());
    s.shadow = light_shadow();
    s
}

/// An error.
#[verifier::allow_in_spec]
pub fn error_box_style() -> (s: BoxStyle)
    returns
        (BoxStyle { text_color: Some(rgb(1000, 750, 750)), ..framed(c_danger_soft(), 1, danger_tint(450)) }),
{
    let mut s = framed(c_danger_soft(), 1, danger_tint(450));
    s.text_color = Some(rgb(1000, 750, 750));
    s
}

/// Good news.
#[verifier::allow_in_spec]
pub fn success_box_style() -> (s: BoxStyle)
    returns
        (BoxStyle { text_color: Some(c_accent()), ..framed(c_accent_soft(), 1, c_border_strong()) }),
{
    let mut s = framed(c_accent_soft(), 1, c_border_strong());
    s.text_color = Some(c_accent());
    s
}

/// The header of a chat.
#[verifier::allow_in_spec]
pub fn chat_header_style() -> (s: BoxStyle)
    returns
        framed(c_bg_primary(), 1, c_border()),
{
    framed(c_bg_primary(), 1, c_border())
}

/// The banner of a call.
#[verifier::allow_in_spec]
pub fn call_banner_style() -> (s: BoxStyle)
    returns
        framed(rgb(120, 280, 180), 1, rgba(240, 600, 440, 350)),
{
    framed(rgb(120, 280, 180), 1, rgba(240, 600, 440, 350))
}

/// The banner of a call that rings.
#[verifier::allow_in_spec]
pub fn call_banner_ringing_style() -> (s: BoxStyle)
    returns
        framed(rgb(280, 200, 100), 1, rgba(960, 680, 260, 400)),
{
    framed(rgb(280, 200, 100), 1, rgba(960, 680, 260, 400))
}

/// The frame of an attachment.
#[verifier::allow_in_spec]
pub fn attachment_frame_style() -> (s: BoxStyle)
    returns
        framed(c_bg_tertiary(), 1, c_border()),
{
    framed(c_bg_tertiary(), 1, c_border())
}

/// The message that is replied to.
#[verifier::allow_in_spec]
pub fn reply_preview_style() -> (s: BoxStyle)
    returns
        framed(c_accent_soft(), 1, c_border_strong()),
{
    framed(c_accent_soft(), 1, c_border_strong())
}

/// A banner, for bad news or good ones.
pub fn status_banner_style(danger: bool) -> (s: BoxStyle)
    ensures
        s == if danger {
            error_box_style()
        } else {
            framed(c_accent_soft(), 1, c_border_strong())
        },
{
    if danger {
        error_box_style()
    } else {
        framed(c_accent_soft(), 1, c_border_strong())
    }
}

// ---------- Buttons ----------

/// A button with a border and no shadow.
#[verifier::allow_in_spec]
pub fn button(background: Color, text: Color, width: u8, edge: Color) -> (s: ButtonStyle)
    returns
        (ButtonStyle {
            background: Some(background),
            text_color: text,
            border: border(width, edge),
            shadow: no_shadow(),
        }),
{
    ButtonStyle {
        background: Some(background),
        text_color: text,
        border: border(width, edge),
        shadow: no_shadow(),
    }
}

/// A color by what happens to a button.
pub open spec fn by_status(status: ButtonStatus, hovered: Color, pressed: Color, disabled: Color, other: Color) -> Color {
    match status {
        ButtonStatus::Hovered => hovered,
        ButtonStatus::Pressed => pressed,
        ButtonStatus::Disabled => disabled,
        ButtonStatus::Active => other,
    }
}

fn pick(status: ButtonStatus, hovered: Color, pressed: Color, disabled: Color, other: Color) -> (c: Color)
    ensures
        c == by_status(status, hovered, pressed, disabled, other),
{
    match status {
        ButtonStatus::Hovered => hovered,
        ButtonStatus::Pressed => pressed,
        ButtonStatus::Disabled => disabled,
        ButtonStatus::Active => other,
    }
}

/// A button of the rail.
pub fn rail_button_style(status: ButtonStatus, active: bool) -> (s: ButtonStyle)
    ensures
        s == if active {
            button(accent_tint(180), c_accent(), 1, c_accent())
        } else {
            button(
                by_status(
                    status,
                    c_bg_hover(),
                    c_bg_elevated(),
                    c_bg_secondary(),
                    c_bg_secondary(),
                ),
                c_text_primary(),
                1,
                if status == ButtonStatus::Hovered {
                    c_border_strong()
                } else {
                    c_border()
                },
            )
        },
{
    if active {
        return button(accent_tint(180), c_accent(), 1, c_accent());
    }
    let bg = pick(status, c_bg_hover(), c_bg_elevated(), c_bg_secondary(), c_bg_secondary());
    let edge = if status == ButtonStatus::Hovered {
        c_border_strong()
    } else {
        c_border()
    };
    button(bg, c_text_primary(), 1, edge)
}

/// A button that looks like a link.
pub fn link_button_style(status: ButtonStatus) -> (s: ButtonStyle)
    ensures
        s == (ButtonStyle {
            background: match status {
                ButtonStatus::Hovered => Some(c_accent_soft()),
                ButtonStatus::Pressed => Some(accent_tint(220)),
                _ => None,
            },
            text_color: by_status(
                status,
                c_accent(),
                c_accent(),
                c_text_muted(),
                c_text_muted(),
            ),
            border: border(0, transparent()),
            shadow: no_shadow(),
        }),
{
    ButtonStyle {
        background: match status {
            ButtonStatus::Hovered => Some(c_accent_soft()),
            ButtonStatus::Pressed => Some(accent_tint(220)),
            _ => None,
        },
        text_color: pick(status, c_accent(), c_accent(), c_text_muted(), c_text_muted()),
        border: border(0, transparent()),
        shadow: no_shadow(),
    }
}

/// An ordinary button.
pub fn secondary_button_style(status: ButtonStatus) -> (s: ButtonStyle)
    ensures
        s == button(
            by_status(
                status,
                c_bg_hover(),
                c_bg_elevated(),
                rgb(80, 100, 80),
                c_bg_elevated(),
            ),
            c_text_primary(),
            1,
            c_border(),
        ),
{
    let bg = pick(status, c_bg_hover(), c_bg_elevated(), rgb(80, 100, 80), c_bg_elevated());
    button(bg, c_text_primary(), 1, c_border())
}

/// A button for what cannot be undone.
pub fn danger_button_style(status: ButtonStatus) -> (s: ButtonStyle)
    ensures
        s == button(
            by_status(
                status,
                rgb(850, 180, 180),
                rgb(700, 120, 120),
                rgb(300, 120, 120),
                c_danger(),
            ),
            white(),
            1,
            danger_tint(500),
        ),
{
    let bg = pick(status, rgb(850, 180, 180), rgb(700, 120, 120), rgb(300, 120, 120), c_danger());
    button(bg, white(), 1, danger_tint(500))
}

/// A button for good news.
pub fn success_button_style(status: ButtonStatus) -> (s: ButtonStyle)
    ensures
        s == button(
            by_status(
                status,
                rgb(260, 660, 470),
                c_accent_dim(),
                rgb(100, 220, 120),
                c_accent_dim(),
            ),
            rgb(20, 50, 20),
            1,
            c_accent(),
        ),
{
    let bg = pick(status, rgb(260, 660, 470), c_accent_dim(), rgb(100, 220, 120), c_accent_dim());
    button(bg, rgb(20, 50, 20), 1, c_accent())
}

/// The main button of a screen.
pub fn accent_button_style(status: ButtonStatus) -> (s: ButtonStyle)
    ensures
        s == (ButtonStyle {
            shadow: if status == ButtonStatus::Disabled {
                no_shadow()
            } else {
                soft_shadow()
            },
            ..button(
                by_status(
                    status,
                    rgb(340, 740, 550),
                    c_accent_dim(),
                    rgb(120, 280, 140),
                    c_accent(),
                ),
                rgb(20, 50, 20),
                1,
                c_accent(),
            )
        }),
{
    let bg = pick(status, rgb(340, 740, 550), c_accent_dim(), rgb(120, 280, 140), c_accent());
    let mut s = button(bg, rgb(20, 50, 20), 1, c_accent());
    if status != ButtonStatus::Disabled {
        s.shadow = soft_shadow();
    }
    s
}

/// A reaction, ours or not.
pub fn reaction_pill_style(status: ButtonStatus, reacted_by_me: bool) -> (s: ButtonStyle)
    ensures
        s == if reacted_by_me {
            button(
                if status == ButtonStatus::Hovered {
                    accent_tint(240)
                } else {
                    c_accent_soft()
                },
                c_accent(),
                1,
                c_accent(),
            )
        } else {
            button(
                if status == ButtonStatus::Hovered {
                    accent_tint(100)
                } else {
                    accent_tint(40)
                },
                c_text_muted(),
                1,
                c_border(),
            )
        },
{
    let hovered = status == ButtonStatus::Hovered;
    if reacted_by_me {
        let bg = if hovered {
            accent_tint(240)
        } else {
            c_accent_soft()
        };
        button(bg, c_accent(), 1, c_accent())
    } else {
        let bg = if hovered {
            accent_tint(100)
        } else {
            accent_tint(40)
        };
        button(bg, c_text_muted(), 1, c_border())
    }
}

/// An item of the sidebar.
pub fn sidebar_item_style(status: ButtonStatus, active: bool) -> (s: ButtonStyle)
    ensures
        s == if active {
            button(c_accent_soft(), c_accent(), 1, c_accent())
        } else {
            button(
                by_status(status, c_bg_hover(), c_bg_elevated(), transparent(), transparent()),
                by_status(
                    status,
                    c_text_primary(),
                    c_text_primary(),
                    c_text_muted(),
                    c_text_muted(),
                ),
                0,
                transparent(),
            )
        },
{
    if active {
        return button(c_accent_soft(), c_accent(), 1, c_accent());
    }
    let bg = pick(status, c_bg_hover(), c_bg_elevated(), transparent(), transparent());
    let text = pick(status, c_text_primary(), c_text_primary(), c_text_muted(), c_text_muted());
    button(bg, text, 0, transparent())
}

/// An input.
pub fn pill_input_style(status: InputStatus) -> (s: InputStyle)
    ensures
        s == (InputStyle {
            background: if status == InputStatus::Focused || status == InputStatus::Hovered {
                rgb(40, 60, 40)
            } else {
                c_bg_tertiary()
            },
            border: border(
                1,
                if status == InputStatus::Focused {
                    c_accent()
                } else if status == InputStatus::Hovered {
                    c_border_strong()
                } else {
                    c_border()
                },
            ),
            icon: c_text_muted(),
            placeholder: c_text_muted(),
            value: c_text_primary(),
            selection: accent_tint(280),
        }),
{
    let focused = status == InputStatus::Focused;
    let hovered = status == InputStatus::Hovered;
    InputStyle {
        background: if focused || hovered {
            rgb(40, 60, 40)
        } else {
            c_bg_tertiary()
        },
        border: border(
            1,
            if focused {
                c_accent()
            } else if hovered {
                c_border_strong()
            } else {
                c_border()
            },
        ),
        icon: c_text_muted(),
        placeholder: c_text_muted(),
        value: c_text_primary(),
        selection: accent_tint(280),
    }
}

// ---------- Small decisions ----------

/// The number on a button of the rail; beyond nine it is not counted.
pub fn rail_badge_label(badge: usize) -> (r: Option<String>)
    ensures
        match r {
            Some(s) => badge > 0 && s@ == if badge > 9 {
                "9+"@
            } else {
                digits(badge as nat)
            },
            None => badge == 0,
        },
{
    if badge == 0 {
        None
    } else if badge > 9 {
        Some(owned("9+"))
    } else {
        Some(decimal(badge as u64))
    }
}

/// The color of the dot on an avatar.
pub fn presence_dot(online: bool) -> (c: Color)
    ensures
        c == if online {
            c_online()
        } else {
            c_offline()
        },
{
    if online {
        c_online()
    } else {
        c_offline()
    }
}

/// The font that draws emoji in color, by system.
pub open spec fn emoji_family(os: Seq<char>, unix: bool) -> Seq<char> {
    if os == "windows"@ {
        "Segoe UI Emoji"@
    } else if os == "macos"@ {
        "Apple Color Emoji"@
    } else if unix {
        "Noto Color Emoji"@
    } else {
        "Noto Emoji"@
    }
}

/// [`emoji_family`], computed.
pub fn emoji_font(os: &str, unix: bool) -> (r: &'static str)
    ensures
        r@ == emoji_family(os@, unix),
{
    if same(os, "windows") {
        "Segoe UI Emoji"
    } else if same(os, "macos") {
        "Apple Color Emoji"
    } else if unix {
        "Noto Color Emoji"
    } else {
        "Noto Emoji"
    }
}

/// The label of a switch.
pub fn toggle_label(on: bool) -> (r: &'static str)
    ensures
        r@ == if on {
            "ON"@
        } else {
            "OFF"@
        },
{
    if on {
        "ON"
    } else {
        "OFF"
    }
}

/// What a key press leads to: Escape closes the topmost layer.
pub fn handle_key_press(escape: bool) -> (r: Option<Message>)
    ensures
        r == if escape {
            Some(Message::Window(WindowMessage::EscapePressed))
        } else {
            None
        },
{
    if escape {
        Some(Message::Window(WindowMessage::EscapePressed))
    } else {
        None
    }
}

} // verus!
