use piet_wgpu::geom::Color;
use piet_wgpu::text::{
    Attributes, GlyphPos, GlyphSlot, Span, TextAttribute, WgpuTextLayout, WgpuTextLayoutBuilder,
};

fn glyph(w: u16, h: u16) -> Option<GlyphPos> {
    Some(GlyphPos { width: w, height: h, atlas_x0: 1, atlas_y0: 2, atlas_x1: 3, atlas_y1: 4 })
}

/// One slot per character of an ASCII text: byte offsets count up by one.
fn slots(glyphs: Vec<Option<GlyphPos>>) -> Vec<GlyphSlot> {
    glyphs.into_iter().enumerate().map(|(offset, glyph)| GlyphSlot { offset, glyph }).collect()
}

#[test]
fn span_keeps_payload_and_range() {
    let s = Span::new(5u32, 2..9);
    assert_eq!(s.payload, 5);
    assert_eq!(s.range_end(), 9);
}

#[test]
fn first_matching_range_wins_else_default() {
    let mut a = Attributes::new();
    let green = Color::rgba8(0, 255, 0, 255);
    let blue = Color::rgba8(0, 0, 255, 255);
    a.add(0..4, TextAttribute::TextColor(green));
    a.add(2..6, TextAttribute::TextColor(blue));
    a.add(0..10, TextAttribute::FontSize(30));
    a.add(0..10, TextAttribute::Weight(700));
    assert_eq!(*a.color(3), green);
    assert_eq!(*a.color(5), blue);
    assert_eq!(*a.color(6), Color::rgba8(0, 0, 0, 255));
    assert_eq!(a.size(9), 30);
    assert_eq!(a.size(10), 12);
    assert_eq!(a.font(0).as_str(), "system-ui");
    assert_eq!(a.weight(), 400);
    assert!(!a.italic());
}

#[test]
fn rebuild_advances_the_pen_and_skips_unplaced_glyphs() {
    let b = WgpuTextLayoutBuilder::new("abcd".to_string());
    let layout = b.build_with_ctx(&slots(vec![glyph(5, 9), None, glyph(7, 11), glyph(3, 4)]));
    let inst = layout.instances();
    assert_eq!(inst.len(), 3);
    assert_eq!(inst[0].origin, (0, 0, 0));
    assert_eq!(inst[1].origin, (5, 0, 0));
    assert_eq!(inst[2].origin, (12, 0, 0));
    assert_eq!(inst[1].size, (7, 11));
    assert_eq!(inst[1].tex_left_top, (1, 2));
    assert_eq!(layout.size(), (15, 4));
}

#[test]
fn draw_text_moves_instances_to_the_origin_and_depth() {
    let b = WgpuTextLayoutBuilder::new("ab".to_string());
    let mut layout = b.build_with_ctx(&slots(vec![glyph(5, 9), glyph(6, 9)]));
    layout.draw_text(100, 50, 3);
    assert_eq!(layout.instances()[0].origin, (100, 50, 3));
    assert_eq!(layout.instances()[1].origin, (105, 50, 3));
    layout.draw_text(0, 0, 1);
    assert_eq!(layout.instances()[1].origin, (5, 0, 1));
}

#[test]
fn empty_layout_has_zero_size() {
    let layout = WgpuTextLayout::new(String::new());
    assert_eq!(layout.size(), (0, 0));
}

#[test]
fn range_attribute_is_clamped_to_the_text() {
    let red = Color::rgba8(255, 0, 0, 255);
    let b = WgpuTextLayoutBuilder::new("hello".to_string())
        .range_attribute(3..40, TextAttribute::TextColor(red))
        .default_attribute(TextAttribute::FontSize(20));
    let layout = b.build().unwrap();
    let a = layout.attributes();
    assert_eq!(a.color.len(), 1);
    assert_eq!(a.color[0].range, 3..5);
    assert_eq!(a.defaults.font_size, 20);
    assert_eq!(*a.color(4), red);
    assert_eq!(layout.text().as_str(), "hello");
}

#[test]
fn colors_follow_the_attributes_on_rebuild() {
    let red = Color::rgba8(255, 0, 0, 255);
    let b = WgpuTextLayoutBuilder::new("xy".to_string())
        .range_attribute(1..2, TextAttribute::TextColor(red));
    let layout = b.build_with_ctx(&slots(vec![glyph(1, 1), glyph(1, 1)]));
    assert_eq!(layout.instances()[0].color, Color::rgba8(0, 0, 0, 255));
    assert_eq!(layout.instances()[1].color, red);
}

#[test]
fn attributes_follow_byte_offsets_in_non_ascii_text() {
    let red = Color::rgba8(255, 0, 0, 255);
    // "éx": 'é' takes bytes 0..2, 'x' sits at byte 2
    let b = WgpuTextLayoutBuilder::new("éx".to_string())
        .range_attribute(2..3, TextAttribute::TextColor(red));
    let layout = b.build_with_ctx(&vec![
        GlyphSlot { offset: 0, glyph: glyph(1, 1) },
        GlyphSlot { offset: 2, glyph: glyph(1, 1) },
    ]);
    assert_eq!(layout.instances()[0].color, Color::rgba8(0, 0, 0, 255));
    assert_eq!(layout.instances()[1].color, red);
}
