use d3d11_triangle::frame::{frame_commands, triangle_frame, Command};
use d3d11_triangle::setup::WindowSize;

#[test]
fn triangle_frame_clears_draws_three_and_presents() {
    let cmds = triangle_frame(WindowSize { width: 800, height: 600 });
    assert_eq!(
        cmds,
        vec![
            Command::ClearTarget,
            Command::UseTriangleList,
            Command::BindInputLayout,
            Command::BindVertexBuffer { slot: 0, stride: 28, offset: 0 },
            Command::BindRenderTarget,
            Command::BindVertexShader,
            Command::BindPixelShader,
            Command::SetViewport { width: 800, height: 600 },
            Command::Draw { vertex_count: 3, first_vertex: 0 },
            Command::Present { sync_interval: 0, flags: 0 },
        ]
    );
}

#[test]
fn frame_presents_once_last() {
    let cmds = frame_commands(WindowSize { width: 1, height: 2 }, 16, 6);
    let presents = cmds.iter().filter(|c| matches!(c, Command::Present { .. })).count();
    assert_eq!(presents, 1);
    assert_eq!(cmds.first(), Some(&Command::ClearTarget));
    assert_eq!(cmds.last(), Some(&Command::Present { sync_interval: 0, flags: 0 }));
    assert!(cmds.contains(&Command::Draw { vertex_count: 6, first_vertex: 0 }));
    assert!(cmds.contains(&Command::SetViewport { width: 1, height: 2 }));
    assert!(cmds.contains(&Command::BindVertexBuffer { slot: 0, stride: 16, offset: 0 }));
}
