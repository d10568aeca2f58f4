//! A population of textured point-sprites on a 2D surface: each frame they
//! advance under reflective-bounce kinematics and are drawn through one
//! shared shader program and one shared texture.
//!
//! The crate holds the scene's whole logic — resource setup decisions,
//! sprite physics, and the per-frame command stream — over plain integer
//! values.  Everything the outside world must do (resolve the surface, run
//! the GLSL compiler, decode the image, execute GPU calls, supply random
//! bits and the animation clock) reaches the library as plain values and
//! leaves it as data, so every function here is verified.

use vstd::prelude::*;

pub mod canvas;
pub mod gl;
pub mod shader;
pub mod sprite;
pub mod texture;

verus! {

use crate::canvas::{Canvas, clear_seq};
use crate::gl::GlCommand;
use crate::shader::{CompileReport, SetupError, ShaderStage};
use crate::sprite::{
    Point,
    Sprite,
    SpriteShader,
    Vector2D,
    lemma_update_bounded_overshoot,
    magnitude,
    sprite_after_update,
    sprite_draw_seq,
    sprite_update_fits,
};
use crate::texture::Texture;

/// The random bits the host drew for one sprite's initial state, one word
/// per randomized coordinate.
#[derive(Clone, Copy, Debug, PartialEq, Eq, Structural)]
pub struct SpriteSeed {
    pub position_x: u64,
    pub position_y: u64,
    pub velocity_x: u64,
    pub velocity_y: u64,
}

/// Where a random word lands in an inclusive range: `lo` plus the word's
/// remainder modulo the range's width.
pub open spec fn scale_to_range_spec(seed: int, lo: int, hi: int) -> int {
    lo + seed % (hi - lo + 1)
}

/// Maps a random word onto the inclusive range `lo..=hi` by remainder.
pub fn scale_to_range(seed: u64, lo: i64, hi: i64) -> (value: i64)
    requires
        lo <= hi,
        hi - lo + 1 <= i64::MAX,
    ensures
        value == scale_to_range_spec(seed as int, lo as int, hi as int),
        lo <= value <= hi,
{
    let span: i64 = hi - lo + 1;
    let remainder: u64 = seed % (span as u64);
    lo + (remainder as i64)
}

/// The sprite a seed places: its position drawn from the band that keeps
/// the full texture footprint inside the surface, its velocity drawn from
/// `-max_speed..=max_speed` per axis.
pub open spec fn seeded_sprite(
    seed: SpriteSeed,
    canvas: Canvas,
    texture: Texture,
    max_speed: int,
) -> Sprite {
    Sprite {
        position: Point {
            x: scale_to_range_spec(
                seed.position_x as int,
                texture.half_width(),
                canvas.width - texture.half_width(),
            ) as i64,
            y: scale_to_range_spec(
                seed.position_y as int,
                texture.half_height(),
                canvas.height - texture.half_height(),
            ) as i64,
        },
        velocity: Vector2D {
            x: scale_to_range_spec(seed.velocity_x as int, -max_speed, max_speed) as i64,
            y: scale_to_range_spec(seed.velocity_y as int, -max_speed, max_speed) as i64,
        },
    }
}

/// The whole scene: the surface, the one shared program, the one shared
/// texture, and the sprites in draw order.
pub struct Game {
    pub canvas: Canvas,
    pub sprite_shader: SpriteShader,
    pub sprite_texture: Texture,
    pub sprites: Vec<Sprite>,
}

/// The draw commands of a run of sprites, in collection order.
pub open spec fn sprites_draw_seq(
    sprites: Seq<Sprite>,
    canvas: Canvas,
    shader: SpriteShader,
    texture: Texture,
) -> Seq<GlCommand>
    decreases sprites.len(),
{
    if sprites.len() == 0 {
        Seq::empty()
    } else {
        sprites_draw_seq(sprites.drop_last(), canvas, shader, texture) + sprite_draw_seq(
            sprites.last(),
            canvas,
            shader,
            texture,
        )
    }
}

/// One frame's full command sequence: clear the surface, then each sprite's
/// draw call, in collection order.
pub open spec fn game_draw_seq(game: Game) -> Seq<GlCommand> {
    clear_seq() + sprites_draw_seq(
        game.sprites@,
        game.canvas,
        game.sprite_shader,
        game.sprite_texture,
    )
}

impl Game {
    /// Assembles the scene from what the host's setup calls reported: the
    /// surface, the compile and link reports for the one shared program,
    /// the one uploaded texture with its decoded size, and one seed's worth
    /// of random bits per sprite.
    ///
    /// Exactly when both shader stages compiled and the link succeeded, the
    /// scene exists, with one sprite per seed, each placed so its full
    /// footprint lies within the surface and each moving at most
    /// `max_speed` per axis.  The first setup failure in pipeline order
    /// aborts with that step's diagnostic, and no scene is returned.
    pub fn new(
        canvas: Canvas,
        program: u64,
        vertex_report: CompileReport,
        fragment_report: CompileReport,
        link_report: CompileReport,
        texture_handle: u64,
        texture_width: i64,
        texture_height: i64,
        max_speed: i64,
        seeds: Vec<SpriteSeed>,
    ) -> (result: Result<Game, SetupError>)
        requires
            0 <= texture_width <= canvas.width < i64::MAX,
            0 <= texture_height <= canvas.height < i64::MAX,
            0 <= max_speed <= (i64::MAX - 1) / 2,
        ensures
            result is Ok <==> (vertex_report.success && fragment_report.success
                && link_report.success),
            result matches Ok(game) ==> {
                let texture = Texture {
                    texture: texture_handle,
                    width: texture_width,
                    height: texture_height,
                };
                &&& game.canvas == canvas
                &&& game.sprite_shader.shader.program == program
                &&& game.sprite_texture == texture
                &&& game.sprites.len() == seeds.len()
                &&& forall|i: int|
                    0 <= i < seeds.len() ==> game.sprites[i] == seeded_sprite(
                        seeds[i],
                        canvas,
                        texture,
                        max_speed as int,
                    )
                &&& forall|i: int|
                    0 <= i < seeds.len() ==> {
                        &&& texture.half_width() <= game.sprites[i].position.x
                        &&& game.sprites[i].position.x + texture.half_width() <= canvas.width
                        &&& texture.half_height() <= game.sprites[i].position.y
                        &&& game.sprites[i].position.y + texture.half_height() <= canvas.height
                        &&& -max_speed <= game.sprites[i].velocity.x <= max_speed
                        &&& -max_speed <= game.sprites[i].velocity.y <= max_speed
                    }
            },
            !vertex_report.success ==> (result matches Err(e)
                && e matches SetupError::ShaderCompileFailed { stage, message }
                && stage == ShaderStage::Vertex
                && message@ == vertex_report.info_log@),
            vertex_report.success && !fragment_report.success ==> (result matches Err(e)
                && e matches SetupError::ShaderCompileFailed { stage, message }
                && stage == ShaderStage::Fragment
                && message@ == fragment_report.info_log@),
            vertex_report.success && fragment_report.success && !link_report.success
                ==> (result matches Err(e)
                && e matches SetupError::ProgramLinkFailed { message }
                && message@ == link_report.info_log@),
    {
        let sprite_shader = match SpriteShader::new(
            program,
            vertex_report,
            fragment_report,
            link_report,
        ) {
            Ok(sprite_shader) => sprite_shader,
            Err(e) => {
                return Err(e);
            },
        };
        let texture = Texture::new(texture_handle, texture_width, texture_height);

        let half_width: i64 = texture_width / 2;
        let half_height: i64 = texture_height / 2;
        let mut sprites: Vec<Sprite> = Vec::new();
        let mut idx: usize = 0;
        while idx < seeds.len()
            invariant
                idx <= seeds.len(),
                sprites.len() == idx,
                texture == (Texture {
                    texture: texture_handle,
                    width: texture_width,
                    height: texture_height,
                }),
                half_width == texture.half_width(),
                half_height == texture.half_height(),
                0 <= half_width,
                0 <= half_height,
                half_width <= canvas.width - half_width,
                half_height <= canvas.height - half_height,
                canvas.width < i64::MAX,
                canvas.height < i64::MAX,
                0 <= max_speed <= (i64::MAX - 1) / 2,
                forall|i: int|
                    0 <= i < idx ==> sprites[i] == seeded_sprite(
                        seeds[i],
                        canvas,
                        texture,
                        max_speed as int,
                    ),
                forall|i: int|
                    0 <= i < idx ==> {
                        &&& texture.half_width() <= sprites[i].position.x
                        &&& sprites[i].position.x + texture.half_width() <= canvas.width
                        &&& texture.half_height() <= sprites[i].position.y
                        &&& sprites[i].position.y + texture.half_height() <= canvas.height
                        &&& -max_speed <= sprites[i].velocity.x <= max_speed
                        &&& -max_speed <= sprites[i].velocity.y <= max_speed
                    },
            decreases seeds.len() - idx,
        {
            let seed = seeds[idx];
            let mut sprite = Sprite::new();
            let position_x: i64 = scale_to_range(seed.position_x, half_width, canvas.width - half_width);
            let position_y: i64 = scale_to_range(
                seed.position_y,
                half_height,
                canvas.height - half_height,
            );
            sprite.set_position(position_x, position_y);
            let velocity_x: i64 = scale_to_range(seed.velocity_x, -max_speed, max_speed);
            let velocity_y: i64 = scale_to_range(seed.velocity_y, -max_speed, max_speed);
            sprite.set_velocity(velocity_x, velocity_y);
            sprites.push(sprite);
            idx = idx + 1;
        }

        Ok(Game { canvas, sprite_shader, sprite_texture: texture, sprites })
    }

    /// One frame of motion: updates every sprite, each against the surface
    /// and texture dimensions alone — sprites do not interact, so the
    /// result is order-independent.
    pub fn update(&mut self, delta_time: i64)
        requires
            old(self).sprite_texture.wf(),
            forall|i: int|
                0 <= i < old(self).sprites.len() ==> sprite_update_fits(
                    old(self).sprites[i],
                    delta_time as int,
                    old(self).canvas,
                    old(self).sprite_texture,
                ),
        ensures
            final(self).canvas == old(self).canvas,
            final(self).sprite_shader == old(self).sprite_shader,
            final(self).sprite_texture == old(self).sprite_texture,
            final(self).sprites.len() == old(self).sprites.len(),
            forall|i: int|
                0 <= i < old(self).sprites.len() ==> final(self).sprites[i]
                    == sprite_after_update(
                    old(self).sprites[i],
                    delta_time as int,
                    old(self).canvas,
                    old(self).sprite_texture,
                ),
    {
        let mut idx: usize = 0;
        while idx < self.sprites.len()
            invariant
                idx <= self.sprites.len(),
                self.canvas == old(self).canvas,
                self.sprite_shader == old(self).sprite_shader,
                self.sprite_texture == old(self).sprite_texture,
                self.sprites.len() == old(self).sprites.len(),
                self.sprite_texture.wf(),
                forall|i: int|
                    0 <= i < old(self).sprites.len() ==> sprite_update_fits(
                        old(self).sprites[i],
                        delta_time as int,
                        old(self).canvas,
                        old(self).sprite_texture,
                    ),
                forall|i: int|
                    0 <= i < idx ==> self.sprites[i] == sprite_after_update(
                        old(self).sprites[i],
                        delta_time as int,
                        old(self).canvas,
                        old(self).sprite_texture,
                    ),
                forall|i: int|
                    idx <= i < self.sprites.len() ==> self.sprites[i] == old(self).sprites[i],
            decreases self.sprites.len() - idx,
        {
            let mut sprite = self.sprites[idx];
            sprite.update(delta_time, &self.canvas, &self.sprite_texture);
            self.sprites.set(idx, sprite);
            idx = idx + 1;
        }
    }

    /// One frame's rendering, as commands for the host to replay: clear the
    /// surface, then each sprite's draw call in collection order.  The
    /// sequence is a function of the scene state alone, so two draws with
    /// unchanged state describe identical frames.
    pub fn draw(&self) -> (commands: Vec<GlCommand>)
        ensures
            commands@ == game_draw_seq(*self),
    {
        let mut commands = self.canvas.clear();
        let mut idx: usize = 0;
        while idx < self.sprites.len()
            invariant
                idx <= self.sprites.len(),
                commands@ == clear_seq() + sprites_draw_seq(
                    self.sprites@.take(idx as int),
                    self.canvas,
                    self.sprite_shader,
                    self.sprite_texture,
                ),
            decreases self.sprites.len() - idx,
        {
            let mut sprite_commands = self.sprites[idx].draw(
                &self.canvas,
                &self.sprite_shader,
                &self.sprite_texture,
            );
            commands.append(&mut sprite_commands);
            proof {
                let taken = self.sprites@.take(idx as int + 1);
                assert(taken.drop_last() =~= self.sprites@.take(idx as int));
                assert(taken.last() == self.sprites@[idx as int]);
                assert(commands@ =~= clear_seq() + sprites_draw_seq(
                    taken,
                    self.canvas,
                    self.sprite_shader,
                    self.sprite_texture,
                ));
            }
            idx = idx + 1;
        }
        proof {
            assert(self.sprites@.take(self.sprites@.len() as int) =~= self.sprites@);
        }
        commands
    }
}

/// Whether one command touches no shared resource other than the scene's
/// single program and single texture.
pub open spec fn uses_shared_resources(command: GlCommand, program: u64, texture: u64) -> bool {
    &&& (command matches GlCommand::UseProgram { program: p } ==> p == program)
    &&& (command matches GlCommand::BindTextureUnit { texture: t, .. } ==> t == texture)
}

proof fn lemma_sprites_draw_shared_resources(
    sprites: Seq<Sprite>,
    canvas: Canvas,
    shader: SpriteShader,
    texture: Texture,
)
    ensures
        forall|k: int|
            0 <= k < sprites_draw_seq(sprites, canvas, shader, texture).len()
                ==> uses_shared_resources(
                #[trigger] sprites_draw_seq(sprites, canvas, shader, texture)[k],
                shader.shader.program,
                texture.texture,
            ),
    decreases sprites.len(),
{
    if sprites.len() != 0 {
        lemma_sprites_draw_shared_resources(sprites.drop_last(), canvas, shader, texture);
        let prefix = sprites_draw_seq(sprites.drop_last(), canvas, shader, texture);
        let segment = sprite_draw_seq(sprites.last(), canvas, shader, texture);
        assert forall|k: int| 0 <= k < (prefix + segment).len() implies uses_shared_resources(
            (prefix + segment)[k],
            shader.shader.program,
            texture.texture,
        ) by {
            if k < prefix.len() {
                assert((prefix + segment)[k] == prefix[k]);
            } else {
                assert((prefix + segment)[k] == segment[k - prefix.len()]);
            }
        }
    }
}

/// However many sprites the scene holds, a frame references exactly one
/// compiled program and one uploaded texture: every program bind in the
/// frame's command sequence names the scene's single program handle, and
/// every texture bind its single texture handle.  The sprites share the
/// pair; nothing is compiled or uploaded per sprite.
pub proof fn lemma_one_program_one_texture(game: Game)
    ensures
        forall|k: int|
            0 <= k < game_draw_seq(game).len() ==> uses_shared_resources(
                #[trigger] game_draw_seq(game)[k],
                game.sprite_shader.shader.program,
                game.sprite_texture.texture,
            ),
{
    lemma_sprites_draw_shared_resources(
        game.sprites@,
        game.canvas,
        game.sprite_shader,
        game.sprite_texture,
    );
    let prefix = clear_seq();
    let rest = sprites_draw_seq(
        game.sprites@,
        game.canvas,
        game.sprite_shader,
        game.sprite_texture,
    );
    assert forall|k: int| 0 <= k < (prefix + rest).len() implies uses_shared_resources(
        (prefix + rest)[k],
        game.sprite_shader.shader.program,
        game.sprite_texture.texture,
    ) by {
        if k < prefix.len() {
            assert((prefix + rest)[k] == prefix[k]);
        } else {
            assert((prefix + rest)[k] == rest[k - prefix.len()]);
        }
    }
}

/// The scene-wide motion bound: when every sprite starts a frame with its
/// full footprint inside the surface, one update leaves every sprite's
/// edges at most that frame's own displacement magnitude past the walls —
/// the overshoot is proportional to `delta_time * velocity`, never an
/// unbounded drift, whatever positive frame times the host's clock yields.
pub proof fn lemma_scene_update_bounded_overshoot(game: Game, delta_time: int)
    requires
        game.sprite_texture.wf(),
        forall|i: int|
            0 <= i < game.sprites.len() ==> {
                &&& game.sprite_texture.half_width() <= (#[trigger] game.sprites[i]).position.x
                &&& game.sprites[i].position.x + game.sprite_texture.half_width()
                    <= game.canvas.width
                &&& game.sprite_texture.half_height() <= game.sprites[i].position.y
                &&& game.sprites[i].position.y + game.sprite_texture.half_height()
                    <= game.canvas.height
            },
        forall|i: int|
            0 <= i < game.sprites.len() ==> sprite_update_fits(
                #[trigger] game.sprites[i],
                delta_time,
                game.canvas,
                game.sprite_texture,
            ),
    ensures
        forall|i: int|
            0 <= i < game.sprites.len() ==> {
                let moved = sprite_after_update(
                    #[trigger] game.sprites[i],
                    delta_time,
                    game.canvas,
                    game.sprite_texture,
                );
                &&& moved.position.x - game.sprite_texture.half_width() >= -magnitude(
                    delta_time * game.sprites[i].velocity.x,
                )
                &&& moved.position.x + game.sprite_texture.half_width() <= game.canvas.width
                    + magnitude(delta_time * game.sprites[i].velocity.x)
                &&& moved.position.y - game.sprite_texture.half_height() >= -magnitude(
                    delta_time * game.sprites[i].velocity.y,
                )
                &&& moved.position.y + game.sprite_texture.half_height() <= game.canvas.height
                    + magnitude(delta_time * game.sprites[i].velocity.y)
            },
{
    assert forall|i: int| 0 <= i < game.sprites.len() implies {
        let moved = sprite_after_update(
            #[trigger] game.sprites[i],
            delta_time,
            game.canvas,
            game.sprite_texture,
        );
        &&& moved.position.x - game.sprite_texture.half_width() >= -magnitude(
            delta_time * game.sprites[i].velocity.x,
        )
        &&& moved.position.x + game.sprite_texture.half_width() <= game.canvas.width + magnitude(
            delta_time * game.sprites[i].velocity.x,
        )
        &&& moved.position.y - game.sprite_texture.half_height() >= -magnitude(
            delta_time * game.sprites[i].velocity.y,
        )
        &&& moved.position.y + game.sprite_texture.half_height() <= game.canvas.height + magnitude(
            delta_time * game.sprites[i].velocity.y,
        )
    } by {
        lemma_update_bounded_overshoot(
            game.sprites[i],
            delta_time,
            game.canvas,
            game.sprite_texture,
        );
    }
}

/// Draw order is deterministic: the frame's command sequence is a function
/// of the scene state alone, so two scenes in the same state — in
/// particular, one scene drawn twice without an update between — describe
/// identical sequences of draw invocations.
pub proof fn lemma_draw_deterministic(game: Game, again: Game)
    requires
        game.canvas == again.canvas,
        game.sprite_shader == again.sprite_shader,
        game.sprite_texture == again.sprite_texture,
        game.sprites@ == again.sprites@,
    ensures
        game_draw_seq(game) == game_draw_seq(again),
{
}

} // verus!
