//! What an application is made of that only the screen side knows.
use vstd::prelude::*;

verus! {

/// The types of the values that the library keeps for the screen side without looking into them.
pub trait Platform: Sized {
    /// A window on the screen, with its event loop, its renderer and its compositor.
    type NativeWindow;

    /// The state of a window that the user sets: its title, its size, its position.
    type WindowState;

    /// A handle to the display of a window, of which there can be several.
    type Display: Clone;

    /// Why a window could not be created.
    type WindowCreateError;

    /// The value of an overridden style property.
    type CssProperty;

    /// The tree of nodes that the layout of a window produced.
    type Dom;

    /// A function that reacts to an event on a node.
    type Callback;

    /// The styled description of what a window shows.
    type UiDescription;

    /// A font that was parsed.
    type Font;

    /// Why a font could not be parsed.
    type FontError;

    /// A function that runs once in every frame.
    type Deamon;

    /// Work that was started in the background.
    type Task;
}

} // verus!
