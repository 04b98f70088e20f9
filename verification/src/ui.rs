//! What this crate takes from `megaui`: the types that pass through it and
//! the calls it makes on a `megaui::Ui`.
//!
//! `KeyCode` and `DrawList` are declared with their definitions, so the
//! verifier reads their variants and fields as `megaui` wrote them. The other
//! types are opaque: their values are carried, never looked into. What a
//! `Ui` answers depends on state that only it knows, so its answers have
//! names here and no definitions.

use vstd::prelude::*;

verus! {

/// `megaui::KeyCode`, the keys a `Ui` understands: a field-less enum, read
/// as it is defined.
#[verifier::external_type_specification]
pub struct ExKeyCode(megaui::KeyCode);

/// `megaui::DrawList`, one batch of triangles: its vertices and indices, the
/// rectangle to clip to if there is one, and the handle of its texture if it
/// has one. All four fields are public and read as they are defined.
#[verifier::external_type_specification]
pub struct ExDrawList(megaui::DrawList);

/// `megaui::Vertex`, opaque: position, texture coordinates and colour.
#[verifier::external_type_specification]
#[verifier::external_body]
pub struct ExVertex(megaui::Vertex);

/// `megaui::Rect`, opaque: a rectangle on screen.
#[verifier::external_type_specification]
#[verifier::external_body]
pub struct ExRect(megaui::Rect);

/// `megaui::Vector2`, opaque: a position on screen.
#[verifier::external_type_specification]
#[verifier::external_body]
pub struct ExVector2(megaui::Vector2);

/// `megaui::Style`, opaque: colours and metrics of the widgets.
#[verifier::external_type_specification]
#[verifier::external_body]
pub struct ExStyle(megaui::Style);

/// `megaui::Ui`, opaque: the whole state of the UI.
#[verifier::external_type_specification]
#[verifier::external_body]
pub struct ExUi(megaui::Ui);

/// The `Ui` that `Ui::set_style` leaves behind: the one it was called on,
/// with `style` in place of the style it had. The function stores its
/// argument in the `Ui` and does nothing else, so what it leaves depends on
/// the two alone.
pub uninterp spec fn ui_with_style(ui: megaui::Ui, style: megaui::Style) -> megaui::Ui;

/// `Ui::set_style` replaces the style of the `Ui`. The claim is that the
/// `Ui` afterwards is the one named above, nothing about what a style does.
pub assume_specification[ megaui::Ui::set_style ](ui: &mut megaui::Ui, style: megaui::Style)
    ensures
        *final(ui) == ui_with_style(*old(ui), style),
;

/// What `Ui::is_mouse_captured` answers for a `Ui`. The function reads one
/// flag of the `Ui`, which a widget sets while it is dragged, so the answer
/// depends on the `Ui` alone.
pub uninterp spec fn ui_mouse_captured(ui: megaui::Ui) -> bool;

/// `Ui::is_mouse_captured` tells whether a widget holds the pointer. The
/// claim is that the answer is the one named above, nothing about when it is
/// true.
pub assume_specification[ megaui::Ui::is_mouse_captured ](ui: &megaui::Ui) -> (captured: bool)
    ensures
        captured == ui_mouse_captured(*ui),
;

/// What `Ui::is_mouse_over` answers for a `Ui` and a position. The function
/// goes through the windows of the `Ui` in their focus order and compares
/// the position with the rectangle of each that was declared in the last
/// frame, so the answer depends on the two alone.
pub uninterp spec fn ui_mouse_over(ui: megaui::Ui, mouse_position: megaui::Vector2) -> bool;

/// `Ui::is_mouse_over` tells whether a position lies in a window of the
/// `Ui`. The claim is that the answer is the one named above, nothing about
/// when it is true.
pub assume_specification[ megaui::Ui::is_mouse_over ](
    ui: &megaui::Ui,
    mouse_position: megaui::Vector2,
) -> (over: bool)
    ensures
        over == ui_mouse_over(*ui, mouse_position),
;

} // verus!
