use heavy::graphics::atlas::{Atlas, SubTextureId};
use heavy::graphics::basic::meta;
use heavy::graphics::blend::{quad_indices, BlendEquation, BlendFactor, BlendMode};
use heavy::graphics::buffer::{BufferElement, BufferFormat, BufferHandle, BufferType, OwnedBuffer};
use heavy::graphics::text::{get_char_list, glyph_rows, CharacterListType, UnsupportedCharacterList};
use heavy::graphics::pipeline::{
    BufferLayout, PipelineLayout, ShaderLayout, UniformDesc, UniformType, Uniforms, VertexAttribute,
    VertexFormat, VertexStep,
};
use heavy::graphics::sprite::{Direction, FrameAdvance, FrameId, SpriteSheet, Tag, TagId};
use heavy::graphics::texture::{Texture, TextureHandle};
use heavy::graphics::transform_stack::TransformStack;
use std::sync::Arc;

fn format(types: Vec<BufferElement>) -> BufferFormat {
    BufferFormat { types: Arc::new(types) }
}

#[test]
fn buffer_datum_counts() {
    assert_eq!(format(vec![BufferElement::Float3, BufferElement::Float2, BufferElement::Float4]).datum_count(), 9);
    assert_eq!(format(vec![BufferElement::Mat4, BufferElement::Byte2]).datum_count(), 18);
    assert_eq!(format(vec![]).datum_count(), 0);
    assert_eq!(BufferElement::Short3.datum_count(), 3);
}

#[test]
fn buffer_sizes_include_std430_padding() {
    // 12 bytes, then 8 aligned to 8 (at 16), then 16 aligned to 16 (at 32): 48 in all.
    assert_eq!(format(vec![BufferElement::Float3, BufferElement::Float2, BufferElement::Float4]).byte_size_with_padding(), 48);
    // 8 + 4 = 12, padded to the alignment of the first element (8): 16.
    assert_eq!(format(vec![BufferElement::Float2, BufferElement::Float1]).byte_size_with_padding(), 16);
    assert_eq!(format(vec![BufferElement::Float1]).byte_size_with_padding(), 4);
    // 64 + 4 = 68, padded to 16: 80.
    assert_eq!(format(vec![BufferElement::Mat4, BufferElement::Float1]).byte_size_with_padding(), 80);
    assert_eq!(format(vec![]).byte_size_with_padding(), 0);
}

#[test]
fn vertex_format_sizes() {
    assert_eq!(VertexFormat::Float3.size(), 3);
    assert_eq!(VertexFormat::Float3.byte_len(), 12);
    assert_eq!(VertexFormat::Mat4.size(), 16);
    assert_eq!(VertexFormat::Mat4.byte_len(), 64);
    assert_eq!(VertexFormat::Byte2.byte_len(), 2);
    assert_eq!(VertexFormat::Short4.byte_len(), 8);
}

#[test]
fn default_pipeline_layout() {
    let layout = PipelineLayout::default();
    assert_eq!(layout.buffer_layouts.len(), 2);
    assert_eq!(layout.buffer_layouts[0].step, VertexStep::PerVertex);
    assert_eq!(layout.buffer_layouts[1].step, VertexStep::PerInstance);
    assert_eq!(BufferLayout::instance().step, VertexStep::PerInstance);
    assert_eq!(layout.attributes.len(), 6);
    assert_eq!(layout.attributes[4].name, "a_Tx");
    assert_eq!(layout.attributes[4].buffer_index, 1);
    let attr = VertexAttribute::new("a_Pos", VertexFormat::Float3, 0);
    assert_eq!(attr.name, "a_Pos");
}

#[test]
fn default_shader_layout_matches_basic_shader() {
    let layout = ShaderLayout::default();
    let basic = meta();
    assert_eq!(layout.images, vec!["t_Texture".to_string()]);
    assert_eq!(basic.images, layout.images);
    assert_eq!(basic.uniforms.len(), 1);
    assert_eq!(basic.uniforms[0].name, "u_MVP");
    assert_eq!(basic.uniforms[0].ty, UniformType::Mat4);
    assert_eq!(UniformDesc::array("xs", UniformType::Float2, 3).len, 3);
}

#[test]
fn uniforms_are_laid_out_in_std140() {
    let layout = ShaderLayout {
        uniforms: vec![
            UniformDesc::new("a", UniformType::Float1),
            UniformDesc::new("b", UniformType::Float3),
            UniformDesc::new("c", UniformType::Mat4),
            UniformDesc::new("d", UniformType::Float2),
        ],
        images: vec![],
    };
    let mut uniforms = Uniforms::new(&layout);
    // a at 0 (4 bytes), b at 16 (12 bytes), c at 32 (64 bytes), d at 96 (8 bytes): 104 bytes.
    assert_eq!(uniforms.as_bytes(), &[0u8; 104][..]);
    assert_eq!(uniforms.get_uniform_index_by_name("c"), Some(2));
    assert_eq!(uniforms.get_uniform_index_by_name("e"), None);
    uniforms.set_uniform_by_name("b", &[1; 12]);
    uniforms.set_uniform_by_index(3, &[2; 8]);
    uniforms.set_uniform_by_name("a", &[3; 4]);
    let bytes = uniforms.as_bytes();
    assert_eq!(&bytes[0..4], &[3; 4]);
    assert_eq!(&bytes[4..16], &[0; 12]);
    assert_eq!(&bytes[16..28], &[1; 12]);
    assert_eq!(&bytes[28..96], &[0; 68][..]);
    assert_eq!(&bytes[96..104], &[2; 8]);
}

#[test]
fn basic_shader_uniform_block_is_one_matrix() {
    let uniforms = Uniforms::new(&meta());
    assert_eq!(uniforms.as_bytes().len(), 64);
}

fn tag(from: u32, to: u32, direction: Direction) -> Tag {
    Tag { name: None, from: FrameId(from), to: FrameId(to), direction }
}

#[test]
fn forward_tags_step_and_wrap() {
    let t = tag(2, 4, Direction::Forward);
    assert_eq!(t.first_frame(), FrameId(2));
    assert_eq!(t.last_frame(), FrameId(4));
    assert_eq!(t.next_frame(FrameId(2), false), Ok(FrameId(3)));
    assert_eq!(t.next_frame(FrameId(4), false), Err(FrameId(2)));
    assert_eq!(
        t.advance(FrameId(4), false, true),
        FrameAdvance { frame: FrameId(2), is_paused: false, is_ponged: false }
    );
    assert_eq!(
        t.advance(FrameId(4), false, false),
        FrameAdvance { frame: FrameId(4), is_paused: true, is_ponged: false }
    );
}

#[test]
fn reverse_tags_step_and_wrap() {
    let t = tag(2, 4, Direction::Reverse);
    assert_eq!(t.first_frame(), FrameId(4));
    assert_eq!(t.last_frame(), FrameId(2));
    assert_eq!(t.next_frame(FrameId(4), false), Ok(FrameId(3)));
    assert_eq!(t.next_frame(FrameId(2), false), Err(FrameId(4)));
}

#[test]
fn pingpong_tags_turn_around() {
    let t = tag(2, 4, Direction::Pingpong);
    assert_eq!(t.next_frame(FrameId(3), false), Ok(FrameId(4)));
    assert_eq!(t.next_frame(FrameId(4), false), Err(FrameId(3)));
    assert_eq!(t.next_frame(FrameId(3), true), Ok(FrameId(2)));
    assert_eq!(t.next_frame(FrameId(2), true), Err(FrameId(3)));
    assert_eq!(
        t.advance(FrameId(4), false, true),
        FrameAdvance { frame: FrameId(3), is_paused: false, is_ponged: true }
    );
    // A one-frame tag stays on its frame.
    let one = tag(5, 5, Direction::Pingpong);
    assert_eq!(one.next_frame(FrameId(5), false), Err(FrameId(5)));
}

#[test]
fn texture_sizes() {
    let t = Texture::from_inner(TextureHandle { texture: 7, width: 32, height: 16 });
    assert_eq!(t.width(), 32);
    assert_eq!(t.height(), 16);
    assert_eq!(SubTextureId::new(9).get(), 9);
}

fn named(name: &str, from: u32, to: u32) -> Tag {
    Tag { name: Some(name.to_string()), from: FrameId(from), to: FrameId(to), direction: Direction::Forward }
}

#[test]
fn sprite_sheet_ids_are_sequential() {
    let mut sheet: SpriteSheet<u32> = SpriteSheet::new(100);
    assert_eq!(sheet.next_frame_id(), FrameId(1));
    assert_eq!(sheet.last_frame_id(), FrameId(0));
    let first = sheet.next_frame_id();
    assert_eq!(sheet.insert_frame(10), FrameId(1));
    assert_eq!(sheet.insert_frame(20), FrameId(2));
    let last = sheet.last_frame_id();
    assert_eq!((first, last), (FrameId(1), FrameId(2)));
    assert_eq!(*sheet.frame(FrameId(2)), 20);
    assert_eq!(sheet.insert_tag(named("walk", 1, 2)), TagId(1));
    assert_eq!(sheet.get_tag("walk"), Some(TagId(1)));
    assert_eq!(sheet.get_tag("run"), None);
    assert_eq!(sheet.insert_tag(tag(0, 0, Direction::Reverse)), TagId(2));
    assert_eq!(sheet.insert_tag(named("walk", 0, 2)), TagId(3));
    assert_eq!(sheet.get_tag("walk"), Some(TagId(3)));
    assert_eq!(sheet.tag(TagId(1)).to, FrameId(2));
    assert_eq!(sheet.tag(TagId(0)).to, FrameId(0));
}

#[test]
fn sprite_sheet_from_parts_indexes_names() {
    let sheet: SpriteSheet<u32> = SpriteSheet::from_parts(
        None,
        vec![1, 2, 3],
        vec![named("idle", 0, 0), named("run", 1, 2), named("idle", 2, 2)],
    );
    assert_eq!(sheet.tags.len(), 4);
    assert_eq!(sheet.tag(TagId(0)).from, FrameId(0));
    assert_eq!(sheet.tag(TagId(0)).to, FrameId(2));
    assert_eq!(sheet.tag(TagId(0)).name, None);
    assert_eq!(sheet.get_tag("run"), Some(TagId(2)));
    assert_eq!(sheet.get_tag("idle"), Some(TagId(3)));
    assert_eq!(sheet.get_tag("Run"), None);
    assert_eq!(sheet.last_frame_id(), FrameId(2));
}

#[test]
fn default_blend_mode_is_alpha_blending() {
    let mode = BlendMode::default();
    assert_eq!(mode.eq, BlendEquation::Add);
    assert_eq!(mode.src, BlendFactor::SourceAlpha);
    assert_eq!(mode.dst, BlendFactor::OneMinusSourceAlpha);
    let other = BlendMode::new(BlendEquation::Sub, BlendFactor::One, BlendFactor::Zero);
    assert_eq!(other, BlendMode { eq: BlendEquation::Sub, src: BlendFactor::One, dst: BlendFactor::Zero });
    assert_eq!(quad_indices(), [0, 1, 2, 0, 2, 3]);
}

#[test]
fn atlas_slices_are_numbered_in_order() {
    let mut atlas: Atlas<&str, (u32, u32)> = Atlas::new("sheet.png");
    assert_eq!(atlas.insert((0, 0)), SubTextureId::new(0));
    assert_eq!(atlas.insert((16, 0)), SubTextureId::new(1));
    assert_eq!(*atlas.slice(SubTextureId::new(1)), (16, 0));
    assert_eq!(*atlas.texture(), "sheet.png");
}

#[test]
fn transform_stack_scopes() {
    let mut stack = TransformStack::new(1u32);
    stack.push(None);
    assert_eq!(*stack.top(), 1);
    stack.replace_transform(5);
    assert_eq!(*stack.top(), 5);
    stack.push(Some(9));
    assert_eq!(*stack.top(), 9);
    stack.pop();
    stack.pop();
    assert_eq!(*stack.top(), 1);
}

#[test]
fn glyph_rows_packing() {
    let boxes = vec![(3u32, 1u32), (4, 2), (5, 3), (6, 4), (7, 5)];
    let (rows, width, height) = glyph_rows(&boxes, 1, 2);
    assert_eq!(rows, vec![vec![4, 3], vec![2, 1], vec![0]]);
    assert_eq!(width, 15);
    assert_eq!(height, 11);
}

#[test]
fn glyph_rows_single_row() {
    let boxes = vec![(2u32, 3u32), (4, 6)];
    let (rows, width, height) = glyph_rows(&boxes, 2, 1);
    assert_eq!(rows, vec![vec![1, 0]]);
    // the last row is not counted in the width
    assert_eq!(width, 2);
    assert_eq!(height, 8);
}

#[test]
fn owned_buffer_from_inner() {
    let handle = BufferHandle { buffer: 7, size: 96 };
    let fmt = format(vec![BufferElement::Float3, BufferElement::Float2]);
    let buf = OwnedBuffer::from_inner(handle, true, BufferType::VertexBuffer, Some(fmt));
    assert_eq!(buf.handle, handle);
    assert!(buf.mutable);
    assert_eq!(buf.buffer_type, BufferType::VertexBuffer);
    let got = buf.format().expect("a format was given");
    assert_eq!(got.types.len(), 2);
    assert_eq!(got.datum_count(), 5);

    let plain = OwnedBuffer::from_inner(handle, false, BufferType::IndexBuffer, None);
    assert!(!plain.mutable);
    assert!(plain.format().is_none());
}

#[test]
fn tags_can_advance_within_frame_range() {
    assert!(tag(2, 4, Direction::Forward).can_advance(FrameId(3), false));
    assert!(tag(2, u32::MAX, Direction::Forward).can_advance(FrameId(u32::MAX), false));
    assert!(tag(0, 3, Direction::Reverse).can_advance(FrameId(0), false));
    assert!(tag(1, 3, Direction::Reverse).can_advance(FrameId(2), false));
    // back and forth, turning around at frame 0
    assert!(!tag(0, 0, Direction::Pingpong).can_advance(FrameId(0), false));
    assert!(tag(0, 3, Direction::Pingpong).can_advance(FrameId(0), false));
    assert!(tag(0, 3, Direction::Pingpong).can_advance(FrameId(2), true));
}

#[test]
fn char_lists_cover_their_ranges() {
    let subset = get_char_list(CharacterListType::AsciiSubset).unwrap();
    assert_eq!(subset.len(), 95);
    assert_eq!(subset[0], ' ');
    assert_eq!(subset[94], '~');
    let extended = get_char_list(CharacterListType::ExtendedAscii).unwrap();
    assert_eq!(extended.len(), 255);
    assert_eq!(extended[0], '\0');
    assert_eq!(extended[254], '\u{FE}');
    let vietnamese = get_char_list(CharacterListType::Vietnamese).unwrap();
    assert_eq!(vietnamese.len(), 318);
    assert_eq!(vietnamese[223], '\u{102}');
    assert_eq!(vietnamese[317], '\u{1EF8}');
    let cyrillic = get_char_list(CharacterListType::Cyrillic).unwrap();
    assert_eq!(cyrillic.len(), 223 + 303 + 31 + 95);
    assert_eq!(cyrillic[223], '\u{400}');
}

#[test]
fn char_lists_not_supported() {
    let err = get_char_list(CharacterListType::Chinese).unwrap_err();
    assert_eq!(err, UnsupportedCharacterList(CharacterListType::Chinese));
    assert_eq!(err.message(), "Chinese fonts not yet supported");
    let err = get_char_list(CharacterListType::Japanese).unwrap_err();
    assert_eq!(err.message(), "Japanese fonts not yet supported");
}
