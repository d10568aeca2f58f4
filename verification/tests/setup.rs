//! Setup decisions: compile and link reports, input lookups, seeding.

use sprite_bounce::canvas::Canvas;
use sprite_bounce::shader::{CompileReport, SetupError, Shader, ShaderStage};
use sprite_bounce::sprite::SpriteShader;
use sprite_bounce::{scale_to_range, Game, SpriteSeed};

fn ok_report() -> CompileReport {
    CompileReport { success: true, info_log: String::new() }
}

fn failed_report(diagnostic: &str) -> CompileReport {
    CompileReport { success: false, info_log: String::from(diagnostic) }
}

#[test]
fn shader_exists_when_all_steps_succeed() {
    let result = Shader::new(11, ok_report(), ok_report(), ok_report());
    match result {
        Ok(shader) => assert_eq!(shader.program(), 11),
        Err(_) => panic!("all steps succeeded"),
    }
}

#[test]
fn invalid_fragment_source_fails_with_the_diagnostic() {
    // A syntactically invalid fragment shader makes the host's compiler
    // report failure; compile must fail carrying the compiler's diagnostic,
    // and no program is returned.
    let diagnostic = "ERROR: 0:3: 'frag_color' : syntax error";
    let result = Shader::new(11, ok_report(), failed_report(diagnostic), ok_report());
    match result {
        Ok(_) => panic!("a failed stage must not yield a program"),
        Err(SetupError::ShaderCompileFailed { stage, message }) => {
            assert_eq!(stage, ShaderStage::Fragment);
            assert!(message.contains("syntax error"));
            assert_eq!(message, diagnostic);
        },
        Err(other) => panic!("wrong error: {:?}", other),
    }
}

#[test]
fn vertex_failure_is_judged_before_fragment() {
    let result = Shader::new(
        11,
        failed_report("bad vertex"),
        failed_report("bad fragment"),
        ok_report(),
    );
    match result {
        Err(SetupError::ShaderCompileFailed { stage, message }) => {
            assert_eq!(stage, ShaderStage::Vertex);
            assert_eq!(message, "bad vertex");
        },
        other => panic!("wrong result: {:?}", other),
    }
}

#[test]
fn link_failure_carries_the_linker_diagnostic() {
    let result = Shader::new(11, ok_report(), ok_report(), failed_report("link failed: varying"));
    match result {
        Err(SetupError::ProgramLinkFailed { message }) => {
            assert_eq!(message, "link failed: varying");
        },
        other => panic!("wrong result: {:?}", other),
    }
}

#[test]
fn sprite_shader_propagates_the_failure() {
    let result = SpriteShader::new(2, ok_report(), failed_report("nope"), ok_report());
    match result {
        Err(SetupError::ShaderCompileFailed { stage, message }) => {
            assert_eq!(stage, ShaderStage::Fragment);
            assert_eq!(message, "nope");
        },
        other => panic!("wrong result: {:?}", other),
    }
    match SpriteShader::new(2, ok_report(), ok_report(), ok_report()) {
        Ok(shader) => assert_eq!(shader.program(), 2),
        Err(_) => panic!("all steps succeeded"),
    }
}

#[test]
fn missing_uniform_is_a_setup_failure() {
    let shader = Shader { program: 1 };
    match shader.uniform_location("screenSize", Some(4)) {
        Ok(location) => assert_eq!(location, 4),
        Err(_) => panic!("the name exists"),
    }
    match shader.uniform_location("screenSze", None) {
        Err(SetupError::ShaderInputMissing { name }) => assert_eq!(name, "screenSze"),
        other => panic!("wrong result: {:?}", other),
    }
}

#[test]
fn missing_attribute_is_a_setup_failure() {
    let shader = Shader { program: 1 };
    match shader.attribute_location("spritePosition", 0) {
        Ok(index) => assert_eq!(index, 0),
        Err(_) => panic!("the name exists"),
    }
    match shader.attribute_location("spritePos", -1) {
        Err(SetupError::ShaderInputMissing { name }) => assert_eq!(name, "spritePos"),
        other => panic!("wrong result: {:?}", other),
    }
}

#[test]
fn shader_sources_declare_the_contracted_inputs() {
    let vertex = SpriteShader::vertex_shader_source();
    assert!(vertex.contains("uniform vec2 screenSize"));
    assert!(vertex.contains("attribute vec2 spritePosition"));
    let fragment = SpriteShader::fragment_shader_source();
    assert!(fragment.contains("uniform sampler2D spriteTexture"));
}

#[test]
fn scale_to_range_lands_in_the_range() {
    assert_eq!(scale_to_range(68, 32, 608), 100);
    assert_eq!(scale_to_range(5, -5, 5), 0);
    assert_eq!(scale_to_range(0, -5, 5), -5);
    assert_eq!(scale_to_range(10, -5, 5), 5);
    assert_eq!(scale_to_range(11, -5, 5), -5);
    // A single-point range always lands on its one value.
    assert_eq!(scale_to_range(u64::MAX, 7, 7), 7);
    // Zero speed bound: the velocity range collapses to zero.
    assert_eq!(scale_to_range(12345, 0, 0), 0);
}

#[test]
fn setup_failure_propagates_through_the_scene() {
    let canvas = Canvas::initialize(640, 480);
    let seeds = vec![SpriteSeed { position_x: 0, position_y: 0, velocity_x: 0, velocity_y: 0 }];
    let result = Game::new(
        canvas,
        1,
        ok_report(),
        failed_report("ERROR: unexpected token"),
        ok_report(),
        2,
        64,
        64,
        5,
        seeds,
    );
    match result {
        Ok(_) => panic!("a failed stage must not yield a scene"),
        Err(SetupError::ShaderCompileFailed { stage, message }) => {
            assert_eq!(stage, ShaderStage::Fragment);
            assert_eq!(message, "ERROR: unexpected token");
        },
        Err(other) => panic!("wrong error: {:?}", other),
    }
}

#[test]
fn every_seeded_sprite_starts_inside_the_surface() {
    let canvas = Canvas::initialize(200, 120);
    let seeds: Vec<SpriteSeed> = (0..8u64)
        .map(|i| SpriteSeed {
            position_x: i.wrapping_mul(0x9e3779b97f4a7c15),
            position_y: i.wrapping_mul(0xd1b54a32d192ed03),
            velocity_x: i.wrapping_mul(0x94d049bb133111eb),
            velocity_y: i.wrapping_mul(0xbf58476d1ce4e5b9),
        })
        .collect();
    let game = Game::new(
        canvas,
        1,
        ok_report(),
        ok_report(),
        ok_report(),
        2,
        30,
        14,
        9,
        seeds,
    )
    .expect("setup succeeds");

    assert_eq!(game.sprites.len(), 8);
    for sprite in &game.sprites {
        assert!(15 <= sprite.position.x && sprite.position.x <= 200 - 15);
        assert!(7 <= sprite.position.y && sprite.position.y <= 120 - 7);
        assert!(-9 <= sprite.velocity.x && sprite.velocity.x <= 9);
        assert!(-9 <= sprite.velocity.y && sprite.velocity.y <= 9);
    }
}
