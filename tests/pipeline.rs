use hotham::error::HothamError;
use hotham::pipeline::{
    pipeline_description, pipeline_from_results, render_pass_description, view_mask, AttachmentRef, CompareOp, CullMode,
    FrontFace, ImageLayout, LoadOp, PolygonMode, StoreOp,
};
use hotham::read_spv_from_bytes;
use hotham::resources::Extent2D;

#[test]
fn rejected_pipeline_creation_is_a_resource_creation_failure() {
    // VK_ERROR_INVALID_SHADER_NV, what a driver may return for malformed SPIR-V
    assert_eq!(pipeline_from_results(Err(-1000012000)), Err(HothamError::ResourceCreationFailure(-1000012000)));
}

#[test]
fn empty_pipeline_list_is_an_error() {
    assert_eq!(pipeline_from_results(Ok(vec![])), Err(HothamError::EmptyListError));
    assert_eq!(pipeline_from_results(Ok(vec![5, 7])), Ok(7));
}

#[test]
fn stereo_render_pass() {
    let d = render_pass_description();
    assert_eq!(d.view_mask, 0b11);
    assert_eq!(d.correlation_mask, 0b11);
    assert_eq!(d.color.load_op, LoadOp::Clear);
    assert_eq!(d.color.store_op, StoreOp::Store);
    assert_eq!(d.depth.load_op, LoadOp::Clear);
    assert_eq!(d.depth.store_op, StoreOp::DontCare);
    assert_eq!(d.subpass_color, AttachmentRef { attachment: 0, layout: ImageLayout::ColorAttachmentOptimal });
    assert_eq!(d.subpass_depth, AttachmentRef { attachment: 1, layout: ImageLayout::DepthStencilAttachmentOptimal });
    assert_eq!(view_mask(4), 0b1111);
    assert_eq!(view_mask(0), 0);
}

#[test]
fn pipeline_state() {
    let area = Extent2D { width: 1000, height: 800 };
    let d = pipeline_description(area, 48);
    assert_eq!(d.viewport, area);
    assert_eq!(d.scissor, area);
    assert_eq!(d.vertex_stride, 48);
    assert_eq!(d.cull_mode, CullMode::Back);
    assert_eq!(d.front_face, FrontFace::CounterClockwise);
    assert_eq!(d.depth_compare, CompareOp::LessOrEqual);
    assert!(d.depth_test && !d.blend && !d.dynamic_state);
    assert_eq!(d.samples, 1);
    assert_eq!(d.polygon_mode, PolygonMode::Fill);
    assert!(!d.depth_bias && !d.depth_clamp && !d.rasterizer_discard && !d.logic_op);
    assert_eq!(d.color_attachments, 1);
    assert_eq!(d.color_write_mask, 0b1111);
}

#[test]
fn spirv_words_in_either_byte_order() {
    let le = [0x03u8, 0x02, 0x23, 0x07, 0x01, 0x00, 0x00, 0x00];
    assert_eq!(read_spv_from_bytes(&le), Ok(vec![0x0723_0203, 1]));
    let be = [0x07u8, 0x23, 0x02, 0x03, 0x00, 0x00, 0x01, 0x02];
    assert_eq!(read_spv_from_bytes(&be), Ok(vec![0x0723_0203, 0x0102]));
}

#[test]
fn malformed_spirv_is_refused() {
    assert_eq!(read_spv_from_bytes(&[]), Err(HothamError::InvalidFormatError));
    assert_eq!(read_spv_from_bytes(&[0x03, 0x02, 0x23, 0x07, 0x01]), Err(HothamError::InvalidFormatError));
    assert_eq!(read_spv_from_bytes(&[1, 2, 3, 4]), Err(HothamError::InvalidFormatError));
}

