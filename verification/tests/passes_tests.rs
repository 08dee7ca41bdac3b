use framehost::passes::CLEAR_A_BITS;
use framehost::passes::CLEAR_B_BITS;
use framehost::passes::CLEAR_DEPTH_BITS;
use framehost::passes::CLEAR_G_BITS;
use framehost::passes::CLEAR_R_BITS;
use framehost::passes::ColorLoadOp;
use framehost::passes::DepthLoadOp;
use framehost::passes::DrawCommand;
use framehost::passes::record_frame;

#[test]
fn clear_constants_encode_the_background() {
    assert_eq!(f64::from_bits(CLEAR_R_BITS), 0.1);
    assert_eq!(f64::from_bits(CLEAR_G_BITS), 0.2);
    assert_eq!(f64::from_bits(CLEAR_B_BITS), 0.3);
    assert_eq!(f64::from_bits(CLEAR_A_BITS), 1.0);
    assert_eq!(f32::from_bits(CLEAR_DEPTH_BITS), 1.0);
}

#[test]
fn frame_stream_is_clear_then_load() {
    // The golden ordering: exactly two passes; the first clears color
    // and depth, the second loads color and has no depth attachment.
    let stream = record_frame(640, 480, 36);
    assert_eq!(stream.passes.len(), 2);

    let scene = &stream.passes[0];
    assert_eq!(
        scene.color.load,
        ColorLoadOp::Clear {
            r_bits: CLEAR_R_BITS,
            g_bits: CLEAR_G_BITS,
            b_bits: CLEAR_B_BITS,
            a_bits: CLEAR_A_BITS,
        }
    );
    let depth = scene.depth.as_ref().expect("scene pass carries the depth attachment");
    assert_eq!(depth.load, DepthLoadOp::Clear { depth_bits: CLEAR_DEPTH_BITS });
    assert_eq!((depth.width, depth.height), (640, 480));
    assert_eq!((scene.color.width, scene.color.height), (640, 480));

    let overlay = &stream.passes[1];
    assert_eq!(overlay.color.load, ColorLoadOp::Load);
    assert!(overlay.depth.is_none());
    assert_eq!(overlay.commands, vec![DrawCommand::DrawOverlay]);
}

#[test]
fn scene_pass_commands_in_order() {
    let stream = record_frame(1024, 768, 36);
    let expected = vec![
        DrawCommand::SetPipeline,
        DrawCommand::SetBindGroup { index: 0 },
        DrawCommand::SetVertexBuffer { slot: 0 },
        DrawCommand::SetIndexBufferU32,
        DrawCommand::DrawIndexed {
            first_index: 0,
            index_count: 36,
            base_vertex: 0,
            first_instance: 0,
            instance_count: 1,
        },
    ];
    assert_eq!(stream.passes[0].commands, expected);
}

#[test]
fn scene_pass_issues_exactly_one_draw() {
    // However large the mesh, the scene pass draws once: one indexed
    // draw covering every index as a single instance.
    for count in [3u32, 36, 99] {
        let stream = record_frame(300, 200, count);
        let draws: Vec<&DrawCommand> = stream.passes[0]
            .commands
            .iter()
            .filter(|c| {
                matches!(
                    c,
                    DrawCommand::DrawIndexed { .. } | DrawCommand::DrawOverlay
                )
            })
            .collect();
        assert_eq!(draws.len(), 1);
        assert_eq!(
            *draws[0],
            DrawCommand::DrawIndexed {
                first_index: 0,
                index_count: count,
                base_vertex: 0,
                first_instance: 0,
                instance_count: 1,
            }
        );
    }
}
