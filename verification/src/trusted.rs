//! What this crate takes from other crates and believes without proof: the
//! types of theirs that pass through its hands, and the few calls into them
//! that only compute. Nothing here talks to a driver or a display.

use glutin::config::{ConfigTemplate, ConfigTemplateBuilder};
use glutin::context::{ContextAttributes, ContextAttributesBuilder};
use raw_window_handle::RawWindowHandle;
use slint::platform::WindowEvent;
use slint::{PhysicalSize, WindowSize};
use vstd::prelude::*;

verus! {

/// `slint::platform::WindowEvent`, the toolkit's input and window event. A
/// value of it is only carried from the control thread to the rendering
/// window; nothing is claimed of what it holds.
#[verifier::external_type_specification]
#[verifier::external_body]
pub struct ExWindowEvent(WindowEvent);

/// `slint::WindowSize`, a window size in physical or in logical pixels.
#[verifier::external_type_specification]
#[verifier::external_body]
pub struct ExWindowSize(WindowSize);

/// The window size that says `width` by `height` in physical pixels.
pub uninterp spec fn physical_window_size(width: u32, height: u32) -> WindowSize;

/// `WindowSize::Physical(PhysicalSize::new(width, height))`. `new` stores its
/// two arguments in the fields of the same names and `Physical` wraps the
/// result, so the value depends on the two numbers alone.
#[verifier::external_body]
pub(crate) fn window_size(width: u32, height: u32) -> (size: WindowSize)
    ensures
        size == physical_window_size(width, height),
{
    WindowSize::Physical(PhysicalSize::new(width, height))
}

/// `glutin::config::ConfigTemplate`, the description that a framebuffer
/// configuration must fit. Its fields are private to glutin.
#[verifier::external_type_specification]
#[verifier::external_body]
pub struct ExConfigTemplate(ConfigTemplate);

/// `glutin::context::ContextAttributes`, the properties asked of a new
/// rendering context. Its fields are private to glutin.
#[verifier::external_type_specification]
#[verifier::external_body]
pub struct ExContextAttributes(ContextAttributes);

/// `raw_window_handle::RawWindowHandle`, a native window handle. This crate
/// never holds one; the type is declared because the builder of context
/// attributes takes an optional one.
#[verifier::external_type_specification]
#[verifier::external_body]
pub struct ExRawWindowHandle(RawWindowHandle);

/// The template that glutin's builder yields when it is told the number of
/// alpha bits and nothing else: glutin's default template with that one
/// number replaced.
pub uninterp spec fn template_with_alpha(alpha_size: u8) -> ConfigTemplate;

/// `ConfigTemplateBuilder::new().with_alpha_size(alpha_size).build()`. The
/// builder starts from a constant, stores the number and hands the template
/// out, so the result depends on `alpha_size` alone.
#[verifier::external_body]
pub(crate) fn config_template(alpha_size: u8) -> (template: ConfigTemplate)
    ensures
        template == template_with_alpha(alpha_size),
{
    ConfigTemplateBuilder::new().with_alpha_size(alpha_size).build()
}

/// `ContextAttributesBuilder::new().build(window)`: glutin's default context
/// attributes, tied to `window` if one is given. Nothing is claimed of the
/// result.
#[verifier::external_body]
pub(crate) fn context_attributes(window: Option<RawWindowHandle>) -> ContextAttributes {
    ContextAttributesBuilder::new().build(window)
}

} // verus!
