use vstd::prelude::*;

verus! {

/// Vertices drawn per sprite: two triangles.
pub const QUAD_VERTEX_COUNT: u32 = 6;

/// Bytes per vertex: two position floats and two texture-coordinate floats.
pub const VERTEX_STRIDE: u64 = 16;

/// Channel value that stands for full intensity in [`Rgba`].
pub const CHANNEL_ONE: u32 = 1000;

/// A color with channels in thousandths of full intensity.
#[derive(Clone, Copy, PartialEq, Eq, Structural, Debug)]
pub struct Rgba {
    pub r: u32,
    pub g: u32,
    pub b: u32,
    pub a: u32,
}

/// The background every frame is cleared to: 0.2 gray, opaque.
pub open spec fn background() -> Rgba {
    Rgba { r: 200, g: 200, b: 200, a: CHANNEL_ONE }
}

pub fn background_color() -> (r: Rgba)
    ensures
        r == background(),
{
    Rgba { r: 200, g: 200, b: 200, a: CHANNEL_ONE }
}

#[derive(Clone, Copy, PartialEq, Eq, Structural, Debug)]
pub enum ShaderStage {
    Vertex,
    Fragment,
}

#[derive(Clone, Copy, PartialEq, Eq, Structural, Debug)]
pub enum BindingKind {
    UniformBuffer,
    FilterableTexture2d,
    FilteringSampler,
}

/// One slot of a bind-group layout.
#[derive(Clone, Copy, PartialEq, Eq, Structural, Debug)]
pub struct LayoutEntry {
    pub binding: u32,
    pub stage: ShaderStage,
    pub kind: BindingKind,
}

/// One attribute of the vertex buffer layout: `components` 32-bit floats at
/// byte `offset`, fed to shader `location`.
#[derive(Clone, Copy, PartialEq, Eq, Structural, Debug)]
pub struct VertexAttribute {
    pub location: u32,
    pub offset: u64,
    pub components: u32,
}

/// A quad corner: position and texture coordinate in local units.
#[derive(Clone, Copy, PartialEq, Eq, Structural, Debug)]
pub struct Vertex {
    pub pos_x: u32,
    pub pos_y: u32,
    pub tex_x: u32,
    pub tex_y: u32,
}

/// The orthographic extent of the world: `left..right`, `bottom..top`,
/// `near..far`.
#[derive(Clone, Copy, PartialEq, Eq, Structural, Debug)]
pub struct ProjectionExtent {
    pub left: i32,
    pub right: i32,
    pub bottom: i32,
    pub top: i32,
    pub near: i32,
    pub far: i32,
}

pub open spec fn world_extent() -> ProjectionExtent {
    ProjectionExtent { left: 0, right: 229, bottom: 0, top: 190, near: -1i32, far: 1 }
}

pub open spec fn corner(x: u32, y: u32) -> Vertex {
    Vertex { pos_x: x, pos_y: y, tex_x: x, tex_y: y }
}

/// Two triangles covering the unit square; texture coordinates mirror positions.
pub open spec fn quad() -> Seq<Vertex> {
    seq![corner(0, 1), corner(1, 1), corner(0, 0), corner(0, 0), corner(1, 0), corner(1, 1)]
}

/// Group 0: the projection matrix, read by the vertex stage.
pub open spec fn frame_layout_spec() -> Seq<LayoutEntry> {
    seq![LayoutEntry { binding: 0, stage: ShaderStage::Vertex, kind: BindingKind::UniformBuffer }]
}

/// Group 1: the model matrix (vertex stage), the texture and its sampler
/// (fragment stage).
pub open spec fn sprite_layout_spec() -> Seq<LayoutEntry> {
    seq![
        LayoutEntry { binding: 0, stage: ShaderStage::Vertex, kind: BindingKind::UniformBuffer },
        LayoutEntry { binding: 1, stage: ShaderStage::Fragment, kind: BindingKind::FilterableTexture2d },
        LayoutEntry { binding: 2, stage: ShaderStage::Fragment, kind: BindingKind::FilteringSampler },
    ]
}

/// Position at location 0, texture coordinate at location 1, tightly packed.
pub open spec fn vertex_attributes_spec() -> Seq<VertexAttribute> {
    seq![
        VertexAttribute { location: 0, offset: 0, components: 2 },
        VertexAttribute { location: 1, offset: 8, components: 2 },
    ]
}

/// A step of the single render pass recorded per frame.
#[derive(Clone, Copy, PartialEq, Eq, Structural, Debug)]
pub enum RenderCommand {
    Clear(Rgba),
    SetPipeline,
    SetVertexBuffer(u32),
    SetFrameBindGroup,
    SetSpriteBindGroup(usize),
    Draw(u32),
}

/// Clear, bind the pipeline, the quad's vertex buffer and the projection.
pub open spec fn pass_prologue() -> Seq<RenderCommand> {
    seq![
        RenderCommand::Clear(background()),
        RenderCommand::SetPipeline,
        RenderCommand::SetVertexBuffer(0),
        RenderCommand::SetFrameBindGroup,
    ]
}

/// For each sprite in order, bind its group and draw the quad.
pub open spec fn sprite_draws(count: nat) -> Seq<RenderCommand> {
    Seq::new(
        2 * count,
        |i: int|
            if i % 2 == 0 {
                RenderCommand::SetSpriteBindGroup((i / 2) as usize)
            } else {
                RenderCommand::Draw(QUAD_VERTEX_COUNT)
            },
    )
}

pub open spec fn render_plan(count: nat) -> Seq<RenderCommand> {
    pass_prologue() + sprite_draws(count)
}

/// The fixed parts of the render pipeline: bind-group layouts, vertex layout,
/// quad geometry and projection extent.
pub struct Renderer {
    pub frame_layout: Vec<LayoutEntry>,
    pub sprite_layout: Vec<LayoutEntry>,
    pub vertex_stride: u64,
    pub vertex_attributes: Vec<VertexAttribute>,
    pub vertices: Vec<Vertex>,
    pub projection: ProjectionExtent,
}

impl Renderer {
    pub open spec fn wf(&self) -> bool {
        &&& self.frame_layout@ == frame_layout_spec()
        &&& self.sprite_layout@ == sprite_layout_spec()
        &&& self.vertex_stride == VERTEX_STRIDE
        &&& self.vertex_attributes@ == vertex_attributes_spec()
        &&& self.vertices@ == quad()
        &&& self.projection == world_extent()
    }

    pub fn init() -> (r: Renderer)
        ensures
            r.wf(),
    {
        let frame_layout = vec![
            LayoutEntry { binding: 0, stage: ShaderStage::Vertex, kind: BindingKind::UniformBuffer },
        ];
        let sprite_layout = vec![
            LayoutEntry { binding: 0, stage: ShaderStage::Vertex, kind: BindingKind::UniformBuffer },
            LayoutEntry { binding: 1, stage: ShaderStage::Fragment, kind: BindingKind::FilterableTexture2d },
            LayoutEntry { binding: 2, stage: ShaderStage::Fragment, kind: BindingKind::FilteringSampler },
        ];
        let vertex_attributes = vec![
            VertexAttribute { location: 0, offset: 0, components: 2 },
            VertexAttribute { location: 1, offset: 8, components: 2 },
        ];
        let vertices = vec![
            Vertex { pos_x: 0, pos_y: 1, tex_x: 0, tex_y: 1 },
            Vertex { pos_x: 1, pos_y: 1, tex_x: 1, tex_y: 1 },
            Vertex { pos_x: 0, pos_y: 0, tex_x: 0, tex_y: 0 },
            Vertex { pos_x: 0, pos_y: 0, tex_x: 0, tex_y: 0 },
            Vertex { pos_x: 1, pos_y: 0, tex_x: 1, tex_y: 0 },
            Vertex { pos_x: 1, pos_y: 1, tex_x: 1, tex_y: 1 },
        ];
        let projection = ProjectionExtent { left: 0, right: 229, bottom: 0, top: 190, near: -1, far: 1 };
        let r = Renderer {
            frame_layout,
            sprite_layout,
            vertex_stride: VERTEX_STRIDE,
            vertex_attributes,
            vertices,
            projection,
        };
        assert(r.frame_layout@ =~= frame_layout_spec());
        assert(r.sprite_layout@ =~= sprite_layout_spec());
        assert(r.vertex_attributes@ =~= vertex_attributes_spec());
        assert(r.vertices@ =~= quad());
        r
    }

    /// The commands of the frame's render pass for `sprite_count` sprites,
    /// drawn in order.
    pub fn render(&self, sprite_count: usize) -> (r: Vec<RenderCommand>)
        requires
            sprite_count <= usize::MAX / 4,
        ensures
            r@ == render_plan(sprite_count as nat),
    {
        let mut r: Vec<RenderCommand> = vec![
            RenderCommand::Clear(background_color()),
            RenderCommand::SetPipeline,
            RenderCommand::SetVertexBuffer(0),
            RenderCommand::SetFrameBindGroup,
        ];
        assert(r@ =~= pass_prologue());
        let mut i: usize = 0;
        while i < sprite_count
            invariant
                i <= sprite_count,
                sprite_count <= usize::MAX / 4,
                r@ =~= pass_prologue() + sprite_draws(i as nat),
            decreases sprite_count - i,
        {
            r.push(RenderCommand::SetSpriteBindGroup(i));
            r.push(RenderCommand::Draw(QUAD_VERTEX_COUNT));
            assert(pass_prologue() + sprite_draws((i + 1) as nat) =~= pass_prologue() + sprite_draws(i as nat)
                + seq![RenderCommand::SetSpriteBindGroup(i), RenderCommand::Draw(QUAD_VERTEX_COUNT)]);
            i = i + 1;
        }
        r
    }
}

/// A frame with no sprites is only cleared to the background: the pass holds
/// no draw.
pub proof fn lemma_empty_frame_is_clear()
    ensures
        render_plan(0) == pass_prologue(),
        render_plan(0)[0] == RenderCommand::Clear(background()),
        forall|i: int| 0 <= i < render_plan(0).len() ==> !(#[trigger] render_plan(0)[i] is Draw),
{
    assert(render_plan(0) =~= pass_prologue());
}

/// Sprites are drawn in list order, each right after its own group is bound,
/// and the pass draws nothing else.
pub proof fn lemma_draw_order(count: nat, k: nat)
    requires
        k < count,
    ensures
        render_plan(count)[4 + 2 * k as int] == RenderCommand::SetSpriteBindGroup(k as usize),
        render_plan(count)[5 + 2 * k as int] == RenderCommand::Draw(QUAD_VERTEX_COUNT),
        render_plan(count).len() == 4 + 2 * count,
{
    let i = 2 * k;
    assert(i % 2 == 0 && i / 2 == k) by (nonlinear_arith)
        requires
            i == 2 * k,
    ;
    assert((i + 1) % 2 == 1) by (nonlinear_arith)
        requires
            i == 2 * k,
    ;
}

} // verus!
