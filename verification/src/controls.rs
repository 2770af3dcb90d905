use vstd::prelude::*;

use crate::text::str_equals;

verus! {

/// The pointer buttons an orbital control reacts to.
#[derive(Clone, Copy, Debug, PartialEq, Eq, Structural)]
pub enum OrbitalPointerButton {
    Primary,
    Middle,
}

/// What a drag of the orbital control does.
#[derive(Clone, Copy, Debug, PartialEq, Eq, Structural)]
pub enum DragKind {
    Rotate,
    Pan,
}

/// Why a caller's control input was refused.
#[derive(Clone, Debug)]
pub enum ControlInputError {
    UnsupportedButton(String),
}

/// The orbital button a DOM pointer button number stands for: 0 is the
/// primary button, 1 the middle one.
pub fn map_pointer_button(button: i16) -> (mapped: Option<OrbitalPointerButton>)
    ensures
        button == 0 ==> mapped == Some(OrbitalPointerButton::Primary),
        button == 1 ==> mapped == Some(OrbitalPointerButton::Middle),
        button != 0 && button != 1 ==> mapped is None,
{
    match button {
        0 => Some(OrbitalPointerButton::Primary),
        1 => Some(OrbitalPointerButton::Middle),
        _ => None,
    }
}

/// Reads a button name: "primary" or "middle".
pub fn parse_button(button: &str) -> (parsed: Result<OrbitalPointerButton, ControlInputError>)
    ensures
        button@ == "primary"@ ==> (parsed matches Ok(b) && b == OrbitalPointerButton::Primary),
        button@ == "middle"@ ==> (parsed matches Ok(b) && b == OrbitalPointerButton::Middle),
        button@ != "primary"@ && button@ != "middle"@ ==> (parsed matches Err(
            ControlInputError::UnsupportedButton(s),
        ) && s@ == button@),
{
    proof {
        reveal_strlit("primary");
        reveal_strlit("middle");
        assert("primary"@[0] != "middle"@[0]);
        assert("primary"@ != "middle"@);
    }
    if str_equals(button, "primary") {
        Ok(OrbitalPointerButton::Primary)
    } else if str_equals(button, "middle") {
        Ok(OrbitalPointerButton::Middle)
    } else {
        Err(ControlInputError::UnsupportedButton(button.to_owned()))
    }
}

/// The drag a pressed button starts: the primary button rotates unless the
/// pan modifier is held; anything else pans.
pub fn drag_kind(button: OrbitalPointerButton, pan_modifier: bool) -> (kind: DragKind)
    ensures
        kind == (if button == OrbitalPointerButton::Primary && !pan_modifier {
            DragKind::Rotate
        } else {
            DragKind::Pan
        }),
{
    if button == OrbitalPointerButton::Primary && !pan_modifier {
        DragKind::Rotate
    } else {
        DragKind::Pan
    }
}

/// Whether releasing `released` ends the drag started with `dragging`.
pub fn release_ends_drag(dragging: Option<OrbitalPointerButton>, released: OrbitalPointerButton) -> (ends:
    bool)
    ensures
        ends == (dragging == Some(released)),
{
    match dragging {
        Some(button) => button == released,
        None => false,
    }
}

} // verus!
