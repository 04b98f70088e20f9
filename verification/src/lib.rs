//! The glue between the immediate-mode UI `megaui` and the renderer that
//! hosts it.
//!
//! Two things happen in every frame. The host's input becomes events for the
//! UI, once, however many windows the frame declares ([`input`],
//! [`context::process_input`]). And the draw lists that the UI renders become
//! calls on the renderer, in the UI's order and with the textures that were
//! registered for them ([`draw`], [`context::begin_draw`],
//! [`context::draw_megaui`]).
//!
//! Nothing here touches a device. The caller reads the host's input into an
//! [`input::InputSnapshot`], sends the events it gets back to the UI, lets
//! the UI render into the draw lists it is handed, and makes the calls it gets
//! back on its renderer.

pub mod context;
pub mod draw;
pub mod input;
pub mod scalar;
pub mod ui;
pub mod window;

pub use megaui;

pub use context::{
    begin_draw, draw_megaui, draw_window, mouse_captured, mouse_over_ui, process_input,
    set_megaui_texture, set_ui_style, ContextState, UiContext, UnregisteredTexture, WindowCall,
};
pub use draw::{first_unregistered, replay, RenderOp};
pub use input::{bindings, forward_input, HostKey, InputSnapshot, UiEvent};
pub use scalar::{Point, Scalar};
pub use window::WindowParams;
