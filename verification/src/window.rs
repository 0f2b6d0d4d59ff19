//! Windows, and what the user sees of them.
use crate::platform::Platform;
use crate::registry::Registry;
use vstd::prelude::*;

verus! {

/// The style properties of a window that are overridden while the application runs, by the ID of
/// the property.
pub struct FakeCss<P: Platform> {
    pub dynamic_css_overrides: Registry<P::CssProperty>,
}

impl<P: Platform> View for FakeCss<P> {
    type V = Map<Seq<char>, P::CssProperty>;

    open spec fn view(&self) -> Map<Seq<char>, P::CssProperty> {
        self.dynamic_css_overrides@
    }
}

impl<P: Platform> FakeCss<P> {
    /// Overrides nothing.
    pub fn new() -> (css: Self)
        ensures
            css@ == Map::<Seq<char>, P::CssProperty>::empty(),
    {
        FakeCss { dynamic_css_overrides: Registry::new() }
    }

    /// Hands over the overridden properties and clears them.
    pub fn take(&mut self) -> (overrides: Registry<P::CssProperty>)
        ensures
            overrides@ == old(self)@,
            final(self)@ == Map::<Seq<char>, P::CssProperty>::empty(),
    {
        let mut overrides = Registry::new();
        std::mem::swap(&mut overrides, &mut self.dynamic_css_overrides);
        overrides
    }
}

/// What the user can see and change of a window.
pub struct FakeWindow<P: Platform> {
    /// The state that the user wants the window to have.
    pub state: P::WindowState,
    /// The style properties that the user overrides.
    pub css: FakeCss<P>,
    /// A clone of the display of the window.
    pub read_only_window: P::Display,
}

/// What a [`FakeWindow`] holds.
#[verifier::ext_equal]
pub struct FakeWindowView<P: Platform> {
    pub state: P::WindowState,
    pub css: Map<Seq<char>, P::CssProperty>,
    pub read_only_window: P::Display,
}

impl<P: Platform> View for FakeWindow<P> {
    type V = FakeWindowView<P>;

    open spec fn view(&self) -> FakeWindowView<P> {
        FakeWindowView {
            state: self.state,
            css: self.css@,
            read_only_window: self.read_only_window,
        }
    }
}

/// An open window.
pub struct Window<P: Platform> {
    /// The window on the screen.
    pub native: P::NativeWindow,
    /// The display of the window.
    pub display: P::Display,
    /// The overridden style properties that are in force.
    pub dynamic_css_overrides: Registry<P::CssProperty>,
}

/// What a [`Window`] holds.
#[verifier::ext_equal]
pub struct WindowView<P: Platform> {
    pub native: P::NativeWindow,
    pub display: P::Display,
    pub dynamic_css_overrides: Map<Seq<char>, P::CssProperty>,
}

impl<P: Platform> View for Window<P> {
    type V = WindowView<P>;

    open spec fn view(&self) -> WindowView<P> {
        WindowView {
            native: self.native,
            display: self.display,
            dynamic_css_overrides: self.dynamic_css_overrides@,
        }
    }
}

/// A window that was just created on the screen.
pub struct NewWindow<P: Platform> {
    /// The window itself.
    pub window: Window<P>,
    /// A copy of the state that it was created with.
    pub state: P::WindowState,
}

/// Whether the user's side belongs to a window: it has a clone of that window's display.
pub open spec fn belongs<P: Platform>(fake: FakeWindowView<P>, window: WindowView<P>) -> bool {
    cloned::<P::Display>(window.display, fake.read_only_window)
}

/// How a window is drawn.
#[derive(Clone, Copy, Debug, PartialEq, Eq, Structural)]
pub enum RendererType {
    /// However the screen side prefers.
    Default,
    /// In software.
    Software,
}

/// What a window is created with, as far as it matters here.
#[derive(Clone, Copy, Debug, PartialEq, Eq, Structural)]
pub struct WindowRequest {
    pub is_visible: bool,
    pub renderer_type: RendererType,
}

/// The request for the window that a mock frame is rendered in: hidden, and drawn in software.
pub fn hidden_window_request() -> (request: WindowRequest)
    ensures
        !request.is_visible,
        request.renderer_type == RendererType::Software,
{
    WindowRequest { is_visible: false, renderer_type: RendererType::Software }
}

} // verus!
