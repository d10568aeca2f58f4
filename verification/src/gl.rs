//! The commands the scene issues against the GPU.
//!
//! The library never talks to a graphics device itself.  Every state change
//! and draw call a frame needs is described as a [`GlCommand`] value, and a
//! frame is a sequence of them.  The host rendering layer replays such a
//! sequence, in order, against its real context.  Keeping the commands as
//! plain data is what lets the per-frame behaviour be stated and proved
//! exactly: a frame is equal to the sequence its contract names.

use vstd::prelude::*;

verus! {

/// One GPU state change or draw call, in host-replayable form.
///
/// Coordinates and sizes are in the scene's integer coordinate units; the
/// host decides how many units make one pixel and converts when it replays
/// the sequence.  Program and texture handles are the identifiers under
/// which the host registered its real GPU objects.
#[derive(Clone, Copy, Debug, PartialEq, Eq, Structural)]
pub enum GlCommand {
    /// Set the clear color to the fixed background color (8-bit channels).
    SetClearColor { red: u8, green: u8, blue: u8, alpha: u8 },
    /// Reset the color buffer, discarding the previous frame's pixels.
    Clear,
    /// Bind the linked program with this handle for the draws that follow.
    UseProgram { program: u64 },
    /// Set the program's screen-size uniform to the surface dimensions.
    SetScreenSize { width: i64, height: i64 },
    /// Activate a texture unit and attach the texture with this handle.
    BindTextureUnit { unit: u32, texture: u64 },
    /// Point the program's texture sampler uniform at a texture unit.
    SetTextureSampler { unit: u32 },
    /// Upload one 2D vertex as fresh dynamic vertex data.
    UploadPointVertex { x: i64, y: i64 },
    /// Enable the position attribute: two components, tightly packed.
    EnablePositionLayout,
    /// Restrict which color channels the draws that follow may write.
    SetColorMask { red_mask: bool, green_mask: bool, blue_mask: bool, alpha_mask: bool },
    /// Enable standard alpha blending (source alpha, one minus source alpha).
    EnableBlending,
    /// Issue one point-primitive draw call with this vertex count.
    DrawPoints { count: u32 },
}

} // verus!
