//! How a window is asked for.

use vstd::prelude::*;

verus! {

/// What the caller may say about a window besides its place and size.
#[derive(Debug)]
pub struct WindowParams {
    /// The text in the title bar.
    pub label: String,
    /// Whether the window can be dragged by its title bar.
    pub movable: bool,
    /// Whether the window shows a button that closes it.
    pub close_button: bool,
    /// Whether the window has a title bar.
    pub titlebar: bool,
}

/// A `WindowParams` as a mathematical value.
pub struct WindowSpec {
    pub label: Seq<char>,
    pub movable: bool,
    pub close_button: bool,
    pub titlebar: bool,
}

impl View for WindowParams {
    type V = WindowSpec;

    open spec fn view(&self) -> WindowSpec {
        WindowSpec {
            label: self.label@,
            movable: self.movable,
            close_button: self.close_button,
            titlebar: self.titlebar,
        }
    }
}

/// A window about which nothing was said: no label, a title bar to drag it
/// by, and no button to close it.
pub open spec fn default_window() -> WindowSpec {
    WindowSpec { label: Seq::empty(), movable: true, close_button: false, titlebar: true }
}

/// What is said about a window, and the default where nothing is.
pub open spec fn window_or_default(params: Option<WindowParams>) -> WindowSpec {
    match params {
        Some(p) => p@,
        None => default_window(),
    }
}

impl Default for WindowParams {
    fn default() -> (params: WindowParams)
        ensures
            params@ == default_window(),
    {
        WindowParams { label: String::new(), movable: true, close_button: false, titlebar: true }
    }
}

impl WindowParams {
    /// The parameters to build the window with: those given, or the default.
    pub fn resolve(params: Option<WindowParams>) -> (resolved: WindowParams)
        ensures
            resolved@ == window_or_default(params),
    {
        match params {
            Some(p) => p,
            None => WindowParams::default(),
        }
    }
}

} // verus!
