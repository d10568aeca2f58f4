//! Whole-scene behaviour: the per-frame command stream.

use sprite_bounce::canvas::Canvas;
use sprite_bounce::gl::GlCommand;
use sprite_bounce::shader::CompileReport;
use sprite_bounce::{Game, SpriteSeed};

fn ok_report() -> CompileReport {
    CompileReport { success: true, info_log: String::new() }
}

/// A 640x480 scene holding one 64x64-texture sprite per seed.
fn scene(seeds: Vec<SpriteSeed>, max_speed: i64) -> Game {
    let canvas = Canvas::initialize(640, 480);
    Game::new(
        canvas,
        21,
        ok_report(),
        ok_report(),
        ok_report(),
        22,
        64,
        64,
        max_speed,
        seeds,
    )
    .expect("setup succeeds")
}

#[test]
fn end_to_end_single_sprite_frame() {
    // One sprite, seeds fixed so that it lands at (100, 250) with zero
    // velocity on the 640x480 surface; one draw describes exactly: clear the
    // surface, bind the program, set screenSize to (640, 480), bind texture
    // unit 0, upload the vertex (100, 250), enable blending, draw one
    // point, restore the color mask.
    let game = scene(
        vec![SpriteSeed { position_x: 68, position_y: 218, velocity_x: 5, velocity_y: 5 }],
        5,
    );
    assert_eq!(game.sprites.len(), 1);
    assert_eq!(game.sprites[0].position.x, 100);
    assert_eq!(game.sprites[0].position.y, 250);
    assert_eq!(game.sprites[0].velocity.x, 0);
    assert_eq!(game.sprites[0].velocity.y, 0);

    let commands = game.draw();
    let expected = vec![
        GlCommand::SetClearColor { red: 255, green: 255, blue: 0, alpha: 255 },
        GlCommand::Clear,
        GlCommand::UseProgram { program: 21 },
        GlCommand::SetScreenSize { width: 640, height: 480 },
        GlCommand::BindTextureUnit { unit: 0, texture: 22 },
        GlCommand::SetTextureSampler { unit: 0 },
        GlCommand::UploadPointVertex { x: 100, y: 250 },
        GlCommand::EnablePositionLayout,
        GlCommand::SetColorMask {
            red_mask: true,
            green_mask: true,
            blue_mask: true,
            alpha_mask: false,
        },
        GlCommand::EnableBlending,
        GlCommand::DrawPoints { count: 1 },
        GlCommand::SetColorMask {
            red_mask: true,
            green_mask: true,
            blue_mask: true,
            alpha_mask: true,
        },
    ];
    assert_eq!(commands, expected);
}

#[test]
fn draw_twice_with_unchanged_state_is_identical() {
    let seeds: Vec<SpriteSeed> = (0..5u64)
        .map(|i| SpriteSeed {
            position_x: 97 * i,
            position_y: 193 * i,
            velocity_x: 389 * i,
            velocity_y: 769 * i,
        })
        .collect();
    let game = scene(seeds, 7);

    let first = game.draw();
    let second = game.draw();
    assert_eq!(first, second);
}

#[test]
fn n_sprites_share_one_program_and_one_texture() {
    // Ten sprites from one program/texture pair: the frame binds one
    // program handle and one texture handle, each once per sprite — never a
    // second program or texture.
    let seeds: Vec<SpriteSeed> = (0..10u64)
        .map(|i| SpriteSeed {
            position_x: 31 * i,
            position_y: 67 * i,
            velocity_x: 131 * i,
            velocity_y: 257 * i,
        })
        .collect();
    let game = scene(seeds, 3);

    let commands = game.draw();
    let mut program_binds = 0;
    let mut texture_binds = 0;
    for command in &commands {
        match command {
            GlCommand::UseProgram { program } => {
                program_binds += 1;
                assert_eq!(*program, 21);
            },
            GlCommand::BindTextureUnit { unit, texture } => {
                texture_binds += 1;
                assert_eq!(*unit, 0);
                assert_eq!(*texture, 22);
            },
            _ => {},
        }
    }
    assert_eq!(program_binds, 10);
    assert_eq!(texture_binds, 10);
}

#[test]
fn a_frame_clears_before_any_sprite_draws() {
    let game = scene(
        vec![SpriteSeed { position_x: 1, position_y: 2, velocity_x: 3, velocity_y: 4 }],
        5,
    );
    let commands = game.draw();
    assert_eq!(
        commands[0],
        GlCommand::SetClearColor { red: 255, green: 255, blue: 0, alpha: 255 }
    );
    assert_eq!(commands[1], GlCommand::Clear);
}

#[test]
fn draw_order_follows_collection_order() {
    let seeds = vec![
        SpriteSeed { position_x: 0, position_y: 0, velocity_x: 0, velocity_y: 0 },
        SpriteSeed { position_x: 100, position_y: 100, velocity_x: 0, velocity_y: 0 },
        SpriteSeed { position_x: 200, position_y: 200, velocity_x: 0, velocity_y: 0 },
    ];
    let game = scene(seeds, 0);
    let positions: Vec<(i64, i64)> =
        game.sprites.iter().map(|s| (s.position.x, s.position.y)).collect();

    let commands = game.draw();
    let uploaded: Vec<(i64, i64)> = commands
        .iter()
        .filter_map(|c| match c {
            GlCommand::UploadPointVertex { x, y } => Some((*x, *y)),
            _ => None,
        })
        .collect();
    assert_eq!(uploaded, positions);
}

#[test]
fn update_moves_every_sprite() {
    let mut game = scene(
        vec![
            SpriteSeed { position_x: 68, position_y: 218, velocity_x: 7, velocity_y: 8 },
            SpriteSeed { position_x: 100, position_y: 100, velocity_x: 10, velocity_y: 0 },
        ],
        5,
    );
    let before: Vec<(i64, i64)> =
        game.sprites.iter().map(|s| (s.position.x, s.position.y)).collect();
    let velocities: Vec<(i64, i64)> =
        game.sprites.iter().map(|s| (s.velocity.x, s.velocity.y)).collect();

    game.update(3);

    for (i, sprite) in game.sprites.iter().enumerate() {
        // No sprite here is near a wall, so each advances by 3 * velocity.
        assert_eq!(sprite.position.x, before[i].0 + 3 * velocities[i].0);
        assert_eq!(sprite.position.y, before[i].1 + 3 * velocities[i].1);
    }
}

#[test]
fn an_empty_scene_still_clears_the_surface() {
    let game = scene(Vec::new(), 5);
    assert_eq!(game.sprites.len(), 0);
    let commands = game.draw();
    assert_eq!(
        commands,
        vec![
            GlCommand::SetClearColor { red: 255, green: 255, blue: 0, alpha: 255 },
            GlCommand::Clear,
        ]
    );
}

#[test]
fn a_texture_filling_the_surface_pins_the_position() {
    // With the texture exactly the surface size, the only in-bounds
    // placement is the center, whatever the seeds say.
    let canvas = Canvas::initialize(64, 64);
    let game = Game::new(
        canvas,
        1,
        ok_report(),
        ok_report(),
        ok_report(),
        2,
        64,
        64,
        0,
        vec![SpriteSeed {
            position_x: u64::MAX,
            position_y: 12345,
            velocity_x: 0,
            velocity_y: 99,
        }],
    )
    .expect("setup succeeds");
    assert_eq!(game.sprites[0].position.x, 32);
    assert_eq!(game.sprites[0].position.y, 32);
    assert_eq!(game.sprites[0].velocity.x, 0);
    assert_eq!(game.sprites[0].velocity.y, 0);
}

#[test]
fn canvas_reports_its_dimensions() {
    let canvas = Canvas::initialize(640, 480);
    assert_eq!(canvas.dimensions(), (640, 480));
}

#[test]
fn texture_reports_its_capture() {
    let texture = sprite_bounce::texture::Texture::new(5, 96, 32);
    assert_eq!(texture.texture(), 5);
    assert_eq!(texture.dimensions(), (96, 32));
}
