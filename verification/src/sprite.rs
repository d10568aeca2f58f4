//! One sprite: its motion state, its bounce physics, and its draw call.
//!
//! A sprite's only evolving state is continuous — position and velocity.
//! Each frame, `update` integrates motion independently per axis against the
//! surface and texture dimensions, reflecting off the walls, and `draw`
//! describes the sprite's single point-primitive draw call as a command
//! sequence for the host to replay.  The shader program and the texture are
//! shared across all sprites: a sprite never owns either, it is handed the
//! one scene-wide pair by reference.

use vstd::prelude::*;

use crate::canvas::Canvas;
use crate::gl::GlCommand;
use crate::shader::{CompileReport, SetupError, Shader};
use crate::texture::Texture;

verus! {

/// A position on the surface, in coordinate units from the top-left corner,
/// y increasing downward.
#[derive(Clone, Copy, Debug, PartialEq, Eq, Structural)]
pub struct Point {
    pub x: i64,
    pub y: i64,
}

/// A velocity, in coordinate units per time unit.
#[derive(Clone, Copy, Debug, PartialEq, Eq, Structural)]
pub struct Vector2D {
    pub x: i64,
    pub y: i64,
}

/// Whether `value` fits the machine integer the sprite state is held in.
pub open spec fn in_i64(value: int) -> bool {
    i64::MIN <= value <= i64::MAX
}

/// The absolute value of `value`.
pub open spec fn magnitude(value: int) -> int {
    if value >= 0 {
        value
    } else {
        -value
    }
}

/// Whether one axis's tentative move would carry the sprite's footprint
/// across a wall: past the surface's far edge, or past zero.
pub open spec fn axis_hits_wall(
    position: int,
    velocity: int,
    delta_time: int,
    half_extent: int,
    surface: int,
) -> bool {
    let tentative = position + delta_time * velocity;
    tentative + half_extent > surface || tentative - half_extent < 0
}

/// One axis's position after a frame.  On a wall hit the displacement is
/// negated and applied to the original position — a continuous elastic
/// reflection, deliberately not a clamp to the wall: the reflected
/// displacement is nonzero whenever the tentative one is, so a sprite
/// traveling toward a wall always moves away from it next frame.
pub open spec fn axis_position_after(
    position: int,
    velocity: int,
    delta_time: int,
    half_extent: int,
    surface: int,
) -> int {
    if axis_hits_wall(position, velocity, delta_time, half_extent, surface) {
        position - delta_time * velocity
    } else {
        position + delta_time * velocity
    }
}

/// One axis's velocity after a frame: negated exactly on a wall hit.
pub open spec fn axis_velocity_after(
    position: int,
    velocity: int,
    delta_time: int,
    half_extent: int,
    surface: int,
) -> int {
    if axis_hits_wall(position, velocity, delta_time, half_extent, surface) {
        -velocity
    } else {
        velocity
    }
}

/// Whether every intermediate value one axis's update computes fits `i64`.
pub open spec fn axis_update_fits(
    position: int,
    velocity: int,
    delta_time: int,
    half_extent: int,
) -> bool {
    &&& in_i64(delta_time * velocity)
    &&& in_i64(-(delta_time * velocity))
    &&& in_i64(position + delta_time * velocity)
    &&& in_i64(position + delta_time * velocity + half_extent)
    &&& in_i64(position + delta_time * velocity - half_extent)
    &&& in_i64(position - delta_time * velocity)
    &&& in_i64(-velocity)
}

/// The sprite as it stands after one frame of motion against the given
/// surface and texture dimensions.  The axes are evaluated independently: a
/// corner collision reflects both in the same frame, with no coupling.
pub open spec fn sprite_after_update(
    sprite: Sprite,
    delta_time: int,
    canvas: Canvas,
    texture: Texture,
) -> Sprite {
    Sprite {
        position: Point {
            x: axis_position_after(
                sprite.position.x as int,
                sprite.velocity.x as int,
                delta_time,
                texture.half_width(),
                canvas.width as int,
            ) as i64,
            y: axis_position_after(
                sprite.position.y as int,
                sprite.velocity.y as int,
                delta_time,
                texture.half_height(),
                canvas.height as int,
            ) as i64,
        },
        velocity: Vector2D {
            x: axis_velocity_after(
                sprite.position.x as int,
                sprite.velocity.x as int,
                delta_time,
                texture.half_width(),
                canvas.width as int,
            ) as i64,
            y: axis_velocity_after(
                sprite.position.y as int,
                sprite.velocity.y as int,
                delta_time,
                texture.half_height(),
                canvas.height as int,
            ) as i64,
        },
    }
}

/// Whether both axes of one sprite's update stay within `i64`.
pub open spec fn sprite_update_fits(
    sprite: Sprite,
    delta_time: int,
    canvas: Canvas,
    texture: Texture,
) -> bool {
    &&& axis_update_fits(
        sprite.position.x as int,
        sprite.velocity.x as int,
        delta_time,
        texture.half_width(),
    )
    &&& axis_update_fits(
        sprite.position.y as int,
        sprite.velocity.y as int,
        delta_time,
        texture.half_height(),
    )
}

/// The command sequence of one sprite's draw call: bind the shared program,
/// refresh the screen-size uniform from the surface's current dimensions,
/// attach the shared texture to unit 0 and point the sampler at it, upload
/// the sprite's position as one fresh vertex, lay out the position
/// attribute, draw one point under alpha blending with the destination
/// alpha channel masked off, and restore the full write mask.
pub open spec fn sprite_draw_seq(
    sprite: Sprite,
    canvas: Canvas,
    shader: SpriteShader,
    texture: Texture,
) -> Seq<GlCommand> {
    seq![
        GlCommand::UseProgram { program: shader.shader.program },
        GlCommand::SetScreenSize { width: canvas.width, height: canvas.height },
        GlCommand::BindTextureUnit { unit: 0, texture: texture.texture },
        GlCommand::SetTextureSampler { unit: 0 },
        GlCommand::UploadPointVertex { x: sprite.position.x, y: sprite.position.y },
        GlCommand::EnablePositionLayout,
        GlCommand::SetColorMask { red_mask: true, green_mask: true, blue_mask: true, alpha_mask: false },
        GlCommand::EnableBlending,
        GlCommand::DrawPoints { count: 1 },
        GlCommand::SetColorMask { red_mask: true, green_mask: true, blue_mask: true, alpha_mask: true },
    ]
}

/// The one scene-wide program, compiled from the sprite shader sources.
#[derive(Clone, Copy, Debug, PartialEq, Eq, Structural)]
pub struct SpriteShader {
    pub shader: Shader,
}

impl SpriteShader {
    /// The vertex stage: maps a pixel-space sprite position to normalized
    /// device coordinates and emits a fixed point-rendering size.
    pub fn vertex_shader_source() -> (source: &'static str)
        ensures
            source@ == ("
        uniform vec2 screenSize;        // width/height of screen
        attribute vec2 spritePosition;  // position of sprite

        void main() {
            vec4 screenTransform = vec4(2.0 / screenSize.x, -2.0 / screenSize.y, -1.0, 1.0);
            gl_Position = vec4(spritePosition * screenTransform.xy + screenTransform.zw, 0.0, 1.0);
            gl_PointSize = 64.0;
        }
    ")@,
    {
        "
        uniform vec2 screenSize;        // width/height of screen
        attribute vec2 spritePosition;  // position of sprite

        void main() {
            vec4 screenTransform = vec4(2.0 / screenSize.x, -2.0 / screenSize.y, -1.0, 1.0);
            gl_Position = vec4(spritePosition * screenTransform.xy + screenTransform.zw, 0.0, 1.0);
            gl_PointSize = 64.0;
        }
    "
    }

    /// The fragment stage: samples the bound 2D texture at the point-sprite
    /// coordinate and outputs that color as-is.
    pub fn fragment_shader_source() -> (source: &'static str)
        ensures
            source@ == ("
        uniform sampler2D spriteTexture;  // texture we are drawing

        void main() {
            gl_FragColor = texture2D(spriteTexture, gl_PointCoord);
        }
    ")@,
    {
        "
        uniform sampler2D spriteTexture;  // texture we are drawing

        void main() {
            gl_FragColor = texture2D(spriteTexture, gl_PointCoord);
        }
    "
    }

    /// Judges the host's reports for compiling the sprite shader pair, as
    /// [`Shader::new`] does: the program exists exactly when both stages
    /// compiled and the link succeeded, and the first failure in pipeline
    /// order aborts setup with that step's diagnostic.
    pub fn new(
        program: u64,
        vertex_report: CompileReport,
        fragment_report: CompileReport,
        link_report: CompileReport,
    ) -> (result: Result<SpriteShader, SetupError>)
        ensures
            result is Ok <==> (vertex_report.success && fragment_report.success
                && link_report.success),
            result matches Ok(sprite_shader) ==> sprite_shader.shader.program == program,
            !vertex_report.success ==> (result matches Err(e)
                && e matches SetupError::ShaderCompileFailed { stage, message }
                && stage == crate::shader::ShaderStage::Vertex
                && message@ == vertex_report.info_log@),
            vertex_report.success && !fragment_report.success ==> (result matches Err(e)
                && e matches SetupError::ShaderCompileFailed { stage, message }
                && stage == crate::shader::ShaderStage::Fragment
                && message@ == fragment_report.info_log@),
            vertex_report.success && fragment_report.success && !link_report.success
                ==> (result matches Err(e)
                && e matches SetupError::ProgramLinkFailed { message }
                && message@ == link_report.info_log@),
    {
        match Shader::new(program, vertex_report, fragment_report, link_report) {
            Ok(shader) => Ok(SpriteShader { shader }),
            Err(e) => Err(e),
        }
    }

    /// The handle of the linked program.
    pub fn program(&self) -> (handle: u64)
        ensures
            handle == self.shader.program,
    {
        self.shader.program()
    }
}

/// One entity: a mutable position and velocity.  The shared program and
/// texture are not stored here; the scene owns the single pair and hands it
/// to `update` and `draw` by reference.
#[derive(Clone, Copy, Debug, PartialEq, Eq, Structural)]
pub struct Sprite {
    pub position: Point,
    pub velocity: Vector2D,
}

impl Sprite {
    /// A sprite at rest at the origin.
    pub fn new() -> (sprite: Sprite)
        ensures
            sprite == (Sprite {
                position: Point { x: 0, y: 0 },
                velocity: Vector2D { x: 0, y: 0 },
            }),
    {
        Sprite { position: Point { x: 0, y: 0 }, velocity: Vector2D { x: 0, y: 0 } }
    }

    /// Places the sprite.  No validation: the caller is responsible for an
    /// in-bounds initial placement; the bounce logic self-corrects later
    /// frames but does not retroactively fix an out-of-bounds start.
    pub fn set_position(&mut self, x: i64, y: i64)
        ensures
            final(self).position == (Point { x, y }),
            final(self).velocity == old(self).velocity,
    {
        self.position.x = x;
        self.position.y = y;
    }

    /// Sets the velocity.  No validation.
    pub fn set_velocity(&mut self, x: i64, y: i64)
        ensures
            final(self).velocity == (Vector2D { x, y }),
            final(self).position == old(self).position,
    {
        self.velocity.x = x;
        self.velocity.y = y;
    }

    /// One frame of motion: per axis, the tentative displacement is
    /// `delta_time * velocity`; if it would carry the footprint across a
    /// wall, displacement and velocity are negated and the reflected
    /// displacement is applied to the original position.
    pub fn update(&mut self, delta_time: i64, canvas: &Canvas, texture: &Texture)
        requires
            texture.wf(),
            sprite_update_fits(*old(self), delta_time as int, *canvas, *texture),
        ensures
            *final(self) == sprite_after_update(
                *old(self),
                delta_time as int,
                *canvas,
                *texture,
            ),
    {
        let half_width: i64 = texture.width / 2;
        let half_height: i64 = texture.height / 2;

        let mut delta_x: i64 = delta_time * self.velocity.x;
        if self.position.x + delta_x + half_width > canvas.width
            || self.position.x + delta_x - half_width < 0 {
            delta_x = -delta_x;
            self.velocity.x = -self.velocity.x;
        }
        self.position.x = self.position.x + delta_x;

        let mut delta_y: i64 = delta_time * self.velocity.y;
        if self.position.y + delta_y + half_height > canvas.height
            || self.position.y + delta_y - half_height < 0 {
            delta_y = -delta_y;
            self.velocity.y = -self.velocity.y;
        }
        self.position.y = self.position.y + delta_y;
    }

    /// Describes this sprite's draw call as commands for the host to
    /// replay, reading the surface dimensions afresh (the surface may
    /// resize between frames).
    pub fn draw(&self, canvas: &Canvas, shader: &SpriteShader, texture: &Texture) -> (commands:
        Vec<GlCommand>)
        ensures
            commands@ == sprite_draw_seq(*self, *canvas, *shader, *texture),
    {
        let mut commands: Vec<GlCommand> = Vec::new();
        commands.push(GlCommand::UseProgram { program: shader.shader.program });
        commands.push(GlCommand::SetScreenSize { width: canvas.width, height: canvas.height });
        commands.push(GlCommand::BindTextureUnit { unit: 0, texture: texture.texture });
        commands.push(GlCommand::SetTextureSampler { unit: 0 });
        commands.push(GlCommand::UploadPointVertex { x: self.position.x, y: self.position.y });
        commands.push(GlCommand::EnablePositionLayout);
        commands.push(GlCommand::SetColorMask { red_mask: true, green_mask: true, blue_mask: true, alpha_mask: false });
        commands.push(GlCommand::EnableBlending);
        commands.push(GlCommand::DrawPoints { count: 1 });
        commands.push(GlCommand::SetColorMask { red_mask: true, green_mask: true, blue_mask: true, alpha_mask: true });
        proof {
            assert(commands@ =~= sprite_draw_seq(*self, *canvas, *shader, *texture));
        }
        commands
    }
}

/// After a frame that starts with one axis's footprint inside the walls,
/// that footprint ends at most the frame's own displacement magnitude past
/// either wall: the overshoot of the reflection policy is bounded by
/// `delta_time * velocity`, never an unbounded drift.
pub proof fn lemma_axis_bounded_overshoot(
    position: int,
    velocity: int,
    delta_time: int,
    half_extent: int,
    surface: int,
)
    requires
        0 <= half_extent,
        half_extent <= position,
        position + half_extent <= surface,
    ensures
        axis_position_after(position, velocity, delta_time, half_extent, surface) - half_extent
            >= -magnitude(delta_time * velocity),
        axis_position_after(position, velocity, delta_time, half_extent, surface) + half_extent
            <= surface + magnitude(delta_time * velocity),
{
    let displacement = delta_time * velocity;
    if axis_hits_wall(position, velocity, delta_time, half_extent, surface) {
        assert(axis_position_after(position, velocity, delta_time, half_extent, surface)
            == position - displacement);
    } else {
        assert(axis_position_after(position, velocity, delta_time, half_extent, surface)
            == position + displacement);
    }
}

/// The sprite-level bound: from an in-bounds state, one `update` leaves each
/// edge of the sprite at most that frame's own displacement magnitude past
/// the walls, on both axes.
pub proof fn lemma_update_bounded_overshoot(
    sprite: Sprite,
    delta_time: int,
    canvas: Canvas,
    texture: Texture,
)
    requires
        texture.wf(),
        texture.half_width() <= sprite.position.x,
        sprite.position.x + texture.half_width() <= canvas.width,
        texture.half_height() <= sprite.position.y,
        sprite.position.y + texture.half_height() <= canvas.height,
        sprite_update_fits(sprite, delta_time, canvas, texture),
    ensures
        ({
            let moved = sprite_after_update(sprite, delta_time, canvas, texture);
            &&& moved.position.x - texture.half_width() >= -magnitude(
                delta_time * sprite.velocity.x,
            )
            &&& moved.position.x + texture.half_width() <= canvas.width + magnitude(
                delta_time * sprite.velocity.x,
            )
            &&& moved.position.y - texture.half_height() >= -magnitude(
                delta_time * sprite.velocity.y,
            )
            &&& moved.position.y + texture.half_height() <= canvas.height + magnitude(
                delta_time * sprite.velocity.y,
            )
        }),
{
    lemma_axis_bounded_overshoot(
        sprite.position.x as int,
        sprite.velocity.x as int,
        delta_time,
        texture.half_width(),
        canvas.width as int,
    );
    lemma_axis_bounded_overshoot(
        sprite.position.y as int,
        sprite.velocity.y as int,
        delta_time,
        texture.half_height(),
        canvas.height as int,
    );
}

/// Zero motion is idempotent: a sprite with zero velocity has identical
/// position — and velocity — before and after an update, for any
/// `delta_time` and any placement, in or out of bounds.
pub proof fn lemma_zero_velocity_keeps_position(
    sprite: Sprite,
    delta_time: int,
    canvas: Canvas,
    texture: Texture,
)
    requires
        sprite.velocity.x == 0,
        sprite.velocity.y == 0,
    ensures
        sprite_after_update(sprite, delta_time, canvas, texture).position == sprite.position,
        sprite_after_update(sprite, delta_time, canvas, texture).velocity == sprite.velocity,
{
    assert(delta_time * sprite.velocity.x == 0) by (nonlinear_arith)
        requires sprite.velocity.x == 0;
    assert(delta_time * sprite.velocity.y == 0) by (nonlinear_arith)
        requires sprite.velocity.y == 0;
}

} // verus!
