use vstd::prelude::*;
use crate::layout::{triangle_layout, TRIANGLE_VERTEX_COUNT};
use crate::setup::WindowSize;

verus! {

/// One command issued to the device context while drawing a frame.
#[derive(Clone, Copy, Debug, PartialEq, Eq, Structural)]
pub enum Command {
    /// Clear the render target to the background colour.
    ClearTarget,
    /// Read the vertices as a list of triangles.
    UseTriangleList,
    /// Bind the input layout.
    BindInputLayout,
    /// Bind the vertex buffer to input slot `slot`.
    BindVertexBuffer { slot: u32, stride: u32, offset: u32 },
    /// Draw into the render target.
    BindRenderTarget,
    /// Bind the vertex shader.
    BindVertexShader,
    /// Bind the pixel shader.
    BindPixelShader,
    /// Map clip space to a viewport at the origin with depth range 0 to 1.
    SetViewport { width: u32, height: u32 },
    /// Draw `vertex_count` vertices starting at `first_vertex`.
    Draw { vertex_count: u32, first_vertex: u32 },
    /// Present the back buffer; sync interval 0 presents without waiting for
    /// vertical sync.
    Present { sync_interval: u32, flags: u32 },
}

/// The commands of one frame for a window of the given size and a vertex
/// buffer of the given stride holding `vertex_count` vertices: clear, set up
/// the pipeline, draw once, present without vertical sync.
pub open spec fn frame_plan(size: WindowSize, stride: u32, vertex_count: u32) -> Seq<Command> {
    seq![
        Command::ClearTarget,
        Command::UseTriangleList,
        Command::BindInputLayout,
        Command::BindVertexBuffer { slot: 0, stride, offset: 0 },
        Command::BindRenderTarget,
        Command::BindVertexShader,
        Command::BindPixelShader,
        Command::SetViewport { width: size.width, height: size.height },
        Command::Draw { vertex_count, first_vertex: 0 },
        Command::Present { sync_interval: 0, flags: 0 },
    ]
}

/// The commands of one frame, as `frame_plan` lists them.
pub fn frame_commands(size: WindowSize, stride: u32, vertex_count: u32) -> (r: Vec<Command>)
    ensures
        r@ == frame_plan(size, stride, vertex_count),
{
    let r = vec![
        Command::ClearTarget,
        Command::UseTriangleList,
        Command::BindInputLayout,
        Command::BindVertexBuffer { slot: 0, stride, offset: 0 },
        Command::BindRenderTarget,
        Command::BindVertexShader,
        Command::BindPixelShader,
        Command::SetViewport { width: size.width, height: size.height },
        Command::Draw { vertex_count, first_vertex: 0 },
        Command::Present { sync_interval: 0, flags: 0 },
    ];
    assert(r@ =~= frame_plan(size, stride, vertex_count));
    r
}

/// The commands of one frame of the triangle: vertices of 28 bytes, three of
/// them drawn.
pub fn triangle_frame(size: WindowSize) -> (r: Vec<Command>)
    ensures
        r@ == frame_plan(size, 28, 3),
{
    let layout = triangle_layout();
    frame_commands(size, layout.stride, TRIANGLE_VERTEX_COUNT)
}

} // verus!
