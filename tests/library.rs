use sprite_renderer::game::{Action, Event, Game, Phase};
use sprite_renderer::input::{InputState, KEY_COUNT};
use sprite_renderer::player::{Player, SPEED};
use sprite_renderer::renderer::{
    background_color, BindingKind, RenderCommand, Renderer, Rgba, ShaderStage,
};
use sprite_renderer::sprite::{Sprite, Vec2i, COORD_LIMIT, MATRIX_ONE, SUBUNITS};
use sprite_renderer::texture::TextureData;
use sprite_renderer::surface::SurfaceConfig;

fn v(x: i64, y: i64) -> Vec2i {
    Vec2i { x, y }
}

#[test]
fn key_press_then_release_reads_back() {
    let mut input = InputState::new();
    for k in 0..KEY_COUNT {
        assert!(!input.is_key_pressed(k as u8));
    }
    for k in [0u8, 37, 80, 255] {
        input.register_key_state(k, true);
        assert!(input.is_key_pressed(k));
        input.register_key_state(k, false);
        assert!(!input.is_key_pressed(k));
    }
    input.register_key_state(12, true);
    assert!(input.is_key_pressed(12));
    assert!(!input.is_key_pressed(13));
}

#[test]
fn initial_model_matrix_is_translate_times_scale() {
    let s = Sprite::new(v(3000, 3000), v(1300, 800));
    let expected: Vec<i64> = vec![
        1300, 0, 0, 0, 0, 800, 0, 0, 0, 0, 100, 0, 300000, 300000, 0, 10000,
    ];
    assert_eq!(s.get_buf(), &expected);
    assert_eq!(s.offset(), v(0, 0));
    assert_eq!(s.position(), v(3000, 3000));
    assert_eq!(s.size(), v(1300, 800));
}

#[test]
fn two_moves_equal_one_combined_move() {
    let mut a = Sprite::new(v(3000, 3000), v(1300, 800));
    let mut b = Sprite::new(v(3000, 3000), v(1300, 800));
    assert!(a.move_by(v(7, 3)));
    assert!(a.move_by(v(-20, 11)));
    assert!(b.move_by(v(-13, 14)));
    assert_eq!(a.get_buf(), b.get_buf());
    assert_eq!(a.offset(), v(-13, 14));
    // translation column: 100 * 3000 + 1300 * -13, 100 * 3000 + 800 * 14
    assert_eq!(a.get_buf()[12], 283100);
    assert_eq!(a.get_buf()[13], 311200);
}

#[test]
fn buffer_matches_matrix_after_every_move() {
    let mut s = Sprite::new(v(-500, 250), v(200, 300));
    for d in [v(7, 0), v(-7, 0), v(100, -40), v(0, 9)] {
        assert!(s.move_by(d));
        let (p, z, o) = (s.position(), s.size(), s.offset());
        let expected: Vec<i64> = vec![
            z.x, 0, 0, 0,
            0, z.y, 0, 0,
            0, 0, SUBUNITS, 0,
            SUBUNITS * p.x + z.x * o.x, SUBUNITS * p.y + z.y * o.y, 0, MATRIX_ONE,
        ];
        assert_eq!(s.get_buf(), &expected);
    }
    assert_eq!(s.get_buf()[12], 100 * -500 + 200 * 100);
}

#[test]
fn move_out_of_range_is_refused() {
    let mut s = Sprite::new(v(0, 0), v(100, 100));
    let before = s.get_buf().clone();
    assert!(!s.move_by(v(COORD_LIMIT + 1, 0)));
    assert!(!s.move_by(v(0, i64::MIN)));
    assert_eq!(s.get_buf(), &before);
    assert!(s.move_by(v(COORD_LIMIT, -COORD_LIMIT)));
    assert!(!s.move_by(v(1, 0)));
    assert_eq!(s.offset(), v(COORD_LIMIT, -COORD_LIMIT));
}

#[test]
fn resize_to_zero_clamps_to_one() {
    let mut c = SurfaceConfig::new(800, 600);
    assert_eq!(c, SurfaceConfig { width: 800, height: 600 });
    c.resize(0, 0);
    assert_eq!(c, SurfaceConfig { width: 1, height: 1 });
    c.resize(0, 7);
    assert_eq!(c, SurfaceConfig { width: 1, height: 7 });
    assert_eq!(SurfaceConfig::new(0, 0), SurfaceConfig { width: 1, height: 1 });
}

#[test]
fn empty_frame_only_clears() {
    let r = Renderer::init();
    let cmds = r.render(0);
    assert_eq!(
        cmds,
        vec![
            RenderCommand::Clear(Rgba { r: 200, g: 200, b: 200, a: 1000 }),
            RenderCommand::SetPipeline,
            RenderCommand::SetVertexBuffer(0),
            RenderCommand::SetFrameBindGroup,
        ]
    );
    assert!(!cmds.iter().any(|c| matches!(c, RenderCommand::Draw(_))));
    assert_eq!(background_color(), Rgba { r: 200, g: 200, b: 200, a: 1000 });
}

#[test]
fn sprites_drawn_in_list_order() {
    let r = Renderer::init();
    let cmds = r.render(3);
    assert_eq!(cmds.len(), 10);
    assert_eq!(cmds[4], RenderCommand::SetSpriteBindGroup(0));
    assert_eq!(cmds[5], RenderCommand::Draw(6));
    assert_eq!(cmds[6], RenderCommand::SetSpriteBindGroup(1));
    assert_eq!(cmds[8], RenderCommand::SetSpriteBindGroup(2));
    assert_eq!(cmds[9], RenderCommand::Draw(6));
}

#[test]
fn pipeline_layouts_match_shader_bindings() {
    let r = Renderer::init();
    assert_eq!(r.frame_layout.len(), 1);
    assert_eq!(r.frame_layout[0].stage, ShaderStage::Vertex);
    assert_eq!(r.frame_layout[0].kind, BindingKind::UniformBuffer);
    let kinds: Vec<(u32, ShaderStage, BindingKind)> =
        r.sprite_layout.iter().map(|e| (e.binding, e.stage, e.kind)).collect();
    assert_eq!(
        kinds,
        vec![
            (0, ShaderStage::Vertex, BindingKind::UniformBuffer),
            (1, ShaderStage::Fragment, BindingKind::FilterableTexture2d),
            (2, ShaderStage::Fragment, BindingKind::FilteringSampler),
        ]
    );
    assert_eq!(r.vertex_stride, 16);
    assert_eq!(r.vertex_attributes[1].offset, 8);
    assert_eq!(r.vertex_attributes[1].components, 2);
    assert_eq!(r.vertices.len(), 6);
    for vert in &r.vertices {
        assert_eq!((vert.pos_x, vert.pos_y), (vert.tex_x, vert.tex_y));
    }
    assert_eq!((r.projection.right, r.projection.top), (229, 190));
    assert_eq!((r.projection.near, r.projection.far), (-1, 1));
}

#[test]
fn player_moves_with_held_keys() {
    let mut input = InputState::new();
    let mut p = Player::init(1, 2);
    assert_eq!(p.get_sprite().get_buf()[12], 300000);
    p.update(&input);
    assert_eq!(p.get_sprite().offset(), v(0, 0));
    input.register_key_state(2, true);
    p.update(&input);
    p.update(&input);
    assert_eq!(p.get_sprite().offset(), v(2 * SPEED, 0));
    assert_eq!(p.get_sprite().get_buf()[12], 300000 + 1300 * 14);
    input.register_key_state(1, true);
    p.update(&input);
    assert_eq!(p.get_sprite().offset(), v(2 * SPEED, 0));
    input.register_key_state(2, false);
    p.update(&input);
    assert_eq!(p.get_sprite().offset(), v(SPEED, 0));
}

#[test]
fn frame_loop_transitions() {
    let mut g = Game::new(1, 2);
    assert_eq!(g.handle(Event::Redraw), Action::Nothing);
    assert_eq!(g.handle(Event::Init(0, 480)), Action::Setup);
    assert_eq!(g.phase, Phase::Ready);
    assert_eq!(g.surface, Some(SurfaceConfig { width: 1, height: 480 }));
    assert_eq!(g.handle(Event::Key { code: 2, pressed: true, repeat: false }), Action::Nothing);
    assert_eq!(g.handle(Event::Key { code: 1, pressed: true, repeat: true }), Action::Nothing);
    assert!(g.input.is_key_pressed(2));
    assert!(!g.input.is_key_pressed(1));
    assert_eq!(g.handle(Event::Redraw), Action::Draw);
    assert_eq!(g.player.as_ref().unwrap().get_sprite().offset(), v(SPEED, 0));
    assert_eq!(g.handle(Event::Resized(640, 0)), Action::Reconfigure);
    assert_eq!(g.surface, Some(SurfaceConfig { width: 640, height: 1 }));
    assert_eq!(g.handle(Event::Init(5, 5)), Action::Nothing);
    assert_eq!(g.handle(Event::Escape), Action::Exit);
    assert_eq!(g.phase, Phase::ShuttingDown);
    assert_eq!(g.handle(Event::Redraw), Action::Nothing);
    assert_eq!(g.handle(Event::CloseRequested), Action::Nothing);
}

#[test]
fn close_before_init_exits() {
    let mut g = Game::new(1, 2);
    assert_eq!(g.handle(Event::CloseRequested), Action::Exit);
    assert_eq!(g.phase, Phase::ShuttingDown);
    assert!(g.surface.is_none());
}

#[test]
fn texture_rows_are_flipped_on_load() {
    // 2 x 3 pixels; byte value = 10 * row + column byte
    let mut rgba = Vec::new();
    for row in 0..3u8 {
        for b in 0..8u8 {
            rgba.push(10 * row + b);
        }
    }
    let t = TextureData::from_decoded(2, 3, rgba.clone()).unwrap();
    assert_eq!((t.width(), t.height()), (2, 3));
    let mut expected = Vec::new();
    expected.extend_from_slice(&rgba[16..24]);
    expected.extend_from_slice(&rgba[8..16]);
    expected.extend_from_slice(&rgba[0..8]);
    assert_eq!(t.pixels(), &expected);
}

#[test]
fn texture_with_wrong_length_is_rejected() {
    assert!(TextureData::from_decoded(2, 3, vec![0u8; 23]).is_none());
    assert!(TextureData::from_decoded(2, 3, vec![0u8; 25]).is_none());
    assert!(TextureData::from_decoded(u32::MAX, u32::MAX, vec![0u8; 4]).is_none());
    let empty = TextureData::from_decoded(0, 5, Vec::new()).unwrap();
    assert!(empty.pixels().is_empty());
}
