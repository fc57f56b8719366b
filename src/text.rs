use vstd::prelude::*;
use std::ops::Range;
use crate::context::RenderError;
use crate::geom::{coord_ok, Color, COORD_MAX};

verus! {

/// A text attribute: what a range of characters is drawn with.
#[derive(Clone, Debug, PartialEq, Eq)]
pub enum TextAttribute {
    FontFamily(String),
    FontSize(u32),
    Weight(u16),
    TextColor(Color),
    Italic(bool),
    Underline(bool),
    Strikethrough(bool),
}

/// The attributes of characters that no range covers.
#[derive(Clone, Debug)]
pub struct LayoutDefaults {
    pub font: String,
    pub font_size: u32,
    pub weight: u16,
    pub fg_color: Color,
    pub italic: bool,
    pub underline: bool,
    pub strikethrough: bool,
}

/// The defaults with `attr` as the default of its kind.
pub open spec fn defaults_with(d: LayoutDefaults, attr: TextAttribute) -> LayoutDefaults {
    match attr {
        TextAttribute::FontFamily(f) => LayoutDefaults { font: f, ..d },
        TextAttribute::FontSize(s) => LayoutDefaults { font_size: s, ..d },
        TextAttribute::Weight(w) => LayoutDefaults { weight: w, ..d },
        TextAttribute::TextColor(c) => LayoutDefaults { fg_color: c, ..d },
        TextAttribute::Italic(i) => LayoutDefaults { italic: i, ..d },
        TextAttribute::Underline(u) => LayoutDefaults { underline: u, ..d },
        TextAttribute::Strikethrough(s) => LayoutDefaults { strikethrough: s, ..d },
    }
}

/// `r` with both ends clamped to `len`.
pub open spec fn clamped(r: Range<usize>, len: usize) -> Range<usize> {
    Range {
        start: if r.start <= len { r.start } else { len },
        end: if r.end <= len { r.end } else { len },
    }
}

/// The attributes after `add(range, attr)`.
pub open spec fn attrs_with(a: Attributes, range: Range<usize>, attr: TextAttribute) -> (Seq<Span<Color>>, Seq<Span<String>>, Seq<Span<u32>>) {
    match attr {
        TextAttribute::TextColor(c) => (a.color@.push(Span { payload: c, range }), a.font@, a.size@),
        TextAttribute::FontFamily(f) => (a.color@, a.font@.push(Span { payload: f, range }), a.size@),
        TextAttribute::FontSize(s) => (a.color@, a.font@, a.size@.push(Span { payload: s, range })),
        _ => (a.color@, a.font@, a.size@),
    }
}

impl LayoutDefaults {
    /// The system UI font at size 12, regular weight, black, upright, plain.
    pub fn new() -> (d: LayoutDefaults)
        ensures
            d.font@ == "system-ui"@,
            d.font_size == 12,
            d.weight == 400,
            d.fg_color == (Color { r: 0, g: 0, b: 0, a: 255 }),
            !d.italic,
            !d.underline,
            !d.strikethrough,
    {
        proof {
            reveal_strlit("system-ui");
        }
        LayoutDefaults {
            font: "system-ui".to_owned(),
            font_size: 12,
            weight: 400,
            fg_color: Color { r: 0, g: 0, b: 0, a: 255 },
            italic: false,
            underline: false,
            strikethrough: false,
        }
    }

    /// Makes `attr` the default of its kind.
    pub fn set(&mut self, attr: TextAttribute)
        ensures
            *final(self) == defaults_with(*old(self), attr),
    {
        match attr {
            TextAttribute::FontFamily(f) => self.font = f,
            TextAttribute::FontSize(s) => self.font_size = s,
            TextAttribute::Weight(w) => self.weight = w,
            TextAttribute::TextColor(c) => self.fg_color = c,
            TextAttribute::Italic(i) => self.italic = i,
            TextAttribute::Underline(u) => self.underline = u,
            TextAttribute::Strikethrough(s) => self.strikethrough = s,
        }
    }
}

/// An attribute applied to a range of character positions.
#[derive(Debug)]
pub struct Span<T> {
    pub payload: T,
    pub range: Range<usize>,
}

impl<T> Span<T> {
    pub fn new(payload: T, range: Range<usize>) -> (s: Span<T>)
        ensures
            s.payload == payload,
            s.range == range,
    {
        Span { payload, range }
    }

    pub fn range_end(&self) -> (e: usize)
        ensures
            e == self.range.end,
    {
        self.range.end
    }
}

/// The payload of the first span whose range holds `index`.
pub open spec fn first_match<T>(spans: Seq<Span<T>>, index: usize) -> Option<T>
    decreases spans.len(),
{
    if spans.len() == 0 {
        None
    } else if spans[0].range.start <= index < spans[0].range.end {
        Some(spans[0].payload)
    } else {
        first_match(spans.drop_first(), index)
    }
}

fn lookup<'a, T>(spans: &'a Vec<Span<T>>, index: usize) -> (r: Option<&'a T>)
    ensures
        match r {
            Some(p) => first_match(spans@, index) == Some(*p),
            None => first_match(spans@, index) is None,
        },
{
    let mut i: usize = 0;
    assert(spans@.subrange(0, spans@.len() as int) =~= spans@);
    while i < spans.len()
        invariant
            i <= spans@.len(),
            first_match(spans@, index) == first_match(spans@.subrange(i as int, spans@.len() as int), index),
        decreases spans@.len() - i,
    {
        let s = &spans[i];
        if s.range.start <= index && index < s.range.end {
            return Some(&s.payload);
        }
        assert(spans@.subrange(i as int, spans@.len() as int).drop_first() =~= spans@.subrange(i + 1, spans@.len() as int));
        i = i + 1;
    }
    None
}

/// Range-tagged attributes over defaults; the first range that holds a
/// position decides.
#[derive(Debug)]
pub struct Attributes {
    pub defaults: LayoutDefaults,
    pub color: Vec<Span<Color>>,
    pub font: Vec<Span<String>>,
    pub size: Vec<Span<u32>>,
}

pub open spec fn color_at(a: Attributes, index: usize) -> Color {
    match first_match(a.color@, index) {
        Some(c) => c,
        None => a.defaults.fg_color,
    }
}

pub open spec fn size_at(a: Attributes, index: usize) -> u32 {
    match first_match(a.size@, index) {
        Some(s) => s,
        None => a.defaults.font_size,
    }
}

pub open spec fn font_at(a: Attributes, index: usize) -> String {
    match first_match(a.font@, index) {
        Some(f) => f,
        None => a.defaults.font,
    }
}

impl Attributes {
    pub fn new() -> (a: Attributes)
        ensures
            a.color@.len() == 0,
            a.font@.len() == 0,
            a.size@.len() == 0,
    {
        Attributes { defaults: LayoutDefaults::new(), color: Vec::new(), font: Vec::new(), size: Vec::new() }
    }

    /// Records a color, font or size over `range`, after the ones already there;
    /// other attributes are not range-tagged and are dropped.
    pub fn add(&mut self, range: Range<usize>, attr: TextAttribute)
        ensures
            final(self).defaults == old(self).defaults,
            match attr {
                TextAttribute::TextColor(c) => final(self).color@ == old(self).color@.push(Span { payload: c, range })
                    && final(self).font@ == old(self).font@ && final(self).size@ == old(self).size@,
                TextAttribute::FontFamily(f) => final(self).font@ == old(self).font@.push(Span { payload: f, range })
                    && final(self).color@ == old(self).color@ && final(self).size@ == old(self).size@,
                TextAttribute::FontSize(s) => final(self).size@ == old(self).size@.push(Span { payload: s, range })
                    && final(self).color@ == old(self).color@ && final(self).font@ == old(self).font@,
                _ => final(self).color@ == old(self).color@ && final(self).font@ == old(self).font@
                    && final(self).size@ == old(self).size@,
            },
    {
        match attr {
            TextAttribute::TextColor(c) => self.color.push(Span::new(c, range)),
            TextAttribute::FontFamily(f) => self.font.push(Span::new(f, range)),
            TextAttribute::FontSize(s) => self.size.push(Span::new(s, range)),
            _ => {},
        }
    }

    pub fn color(&self, index: usize) -> (c: &Color)
        ensures
            *c == color_at(*self, index),
    {
        match lookup(&self.color, index) {
            Some(c) => c,
            None => &self.defaults.fg_color,
        }
    }

    pub fn size(&self, index: usize) -> (s: u32)
        ensures
            s == size_at(*self, index),
    {
        match lookup(&self.size, index) {
            Some(s) => *s,
            None => self.defaults.font_size,
        }
    }

    pub fn font(&self, index: usize) -> (f: &String)
        ensures
            *f == font_at(*self, index),
    {
        match lookup(&self.font, index) {
            Some(f) => f,
            None => &self.defaults.font,
        }
    }

    /// Weight is not range-tagged: the default.
    pub fn weight(&self) -> (w: u16)
        ensures
            w == self.defaults.weight,
    {
        self.defaults.weight
    }

    /// Style is not range-tagged: the default.
    pub fn italic(&self) -> (i: bool)
        ensures
            i == self.defaults.italic,
    {
        self.defaults.italic
    }
}

/// Where the glyph cache placed a character: its measured size and its
/// rectangle in the atlas.
#[derive(Clone, Copy, Debug, PartialEq, Eq, Structural)]
pub struct GlyphPos {
    pub width: u16,
    pub height: u16,
    pub atlas_x0: u16,
    pub atlas_y0: u16,
    pub atlas_x1: u16,
    pub atlas_y1: u16,
}

/// The glyph cache's answer for one character, with the character's byte
/// offset in the text (ranges of attributes are in bytes).
#[derive(Clone, Copy, Debug)]
pub struct GlyphSlot {
    pub offset: usize,
    pub glyph: Option<GlyphPos>,
}

/// One glyph for the text pipeline.
#[derive(Clone, Copy, Debug, PartialEq, Eq)]
pub struct Instance {
    pub origin: (i64, i64, i64),
    pub size: (u16, u16),
    pub tex_left_top: (u16, u16),
    pub tex_right_bottom: (u16, u16),
    pub color: Color,
}

/// Instances, their layout-local origins and the pen position after the first
/// `n` characters: each placed glyph sits at the pen, takes the color of its
/// byte offset and moves the pen right by its width; characters the cache could
/// not place are skipped.
pub open spec fn laid_out(glyphs: Seq<GlyphSlot>, attrs: Attributes, n: int) -> (
    Seq<Instance>,
    Seq<(i64, i64)>,
    int,
)
    decreases n,
{
    if n <= 0 {
        (seq![], seq![], 0)
    } else {
        let prev = laid_out(glyphs, attrs, n - 1);
        match glyphs[n - 1].glyph {
            Some(g) => (
                prev.0.push(
                    Instance {
                        origin: (prev.2 as i64, 0, 0),
                        size: (g.width, g.height),
                        tex_left_top: (g.atlas_x0, g.atlas_y0),
                        tex_right_bottom: (g.atlas_x1, g.atlas_y1),
                        color: color_at(attrs, glyphs[n - 1].offset),
                    },
                ),
                prev.1.push((prev.2 as i64, 0)),
                prev.2 + g.width,
            ),
            None => prev,
        }
    }
}

/// Relies on piet's `util::resolve_range`: a `Range` clamped to `len` at both ends.
#[verifier::external_body]
fn resolve_range(range: Range<usize>, len: usize) -> (r: Range<usize>)
    ensures
        r.start == (if range.start <= len { range.start } else { len }),
        r.end == (if range.end <= len { range.end } else { len }),
{
    piet::util::resolve_range(range, len)
}

/// A single-line text layout: the text, its attributes and the glyph instances
/// of its last rebuild.
#[derive(Debug)]
pub struct WgpuTextLayout {
    text: String,
    attrs: Attributes,
    instances: Vec<Instance>,
    instances_origins: Vec<(i64, i64)>,
}

impl WgpuTextLayout {
    pub closed spec fn text_view(&self) -> Seq<char> {
        self.text@
    }

    pub closed spec fn attrs_view(&self) -> Attributes {
        self.attrs
    }

    pub closed spec fn instances_view(&self) -> Seq<Instance> {
        self.instances@
    }

    pub closed spec fn origins_view(&self) -> Seq<(i64, i64)> {
        self.instances_origins@
    }

    /// One origin per instance, on the baseline row, with the pen in range.
    pub closed spec fn wf(&self) -> bool {
        &&& self.instances@.len() == self.instances_origins@.len()
        &&& forall|i: int|
            0 <= i < self.instances_origins@.len() ==> 0 <= (#[trigger] self.instances_origins@[i]).0
                <= 281474976710656 && self.instances_origins@[i].1 == 0
    }

    pub fn new(text: String) -> (l: WgpuTextLayout)
        ensures
            l.wf(),
            l.text_view() == text@,
            l.instances_view().len() == 0,
    {
        WgpuTextLayout { text, attrs: Attributes::new(), instances: Vec::new(), instances_origins: Vec::new() }
    }

    fn set_attrs(&mut self, attrs: Attributes)
        requires
            old(self).wf(),
        ensures
            final(self).wf(),
            final(self).attrs_view() == attrs,
            final(self).text_view() == old(self).text_view(),
            final(self).instances_view() == old(self).instances_view(),
    {
        self.attrs = attrs;
    }

    pub fn text(&self) -> (t: &String)
        ensures
            t@ == self.text_view(),
    {
        &self.text
    }

    pub fn attributes(&self) -> (a: &Attributes)
        ensures
            *a == self.attrs_view(),
    {
        &self.attrs
    }

    pub fn instances(&self) -> (r: &Vec<Instance>)
        ensures
            r@ == self.instances_view(),
    {
        &self.instances
    }

    /// Lays the characters out on one line from the glyph cache's answers,
    /// one per character in order with its byte offset (no glyph where the
    /// cache could not place one).
    pub fn rebuild(&mut self, glyphs: &Vec<GlyphSlot>)
        requires
            old(self).wf(),
            glyphs@.len() == old(self).text_view().len(),
            glyphs@.len() <= u32::MAX,
        ensures
            final(self).wf(),
            final(self).text_view() == old(self).text_view(),
            final(self).attrs_view() == old(self).attrs_view(),
            final(self).instances_view() == laid_out(glyphs@, old(self).attrs_view(), glyphs@.len() as int).0,
            final(self).origins_view() == laid_out(glyphs@, old(self).attrs_view(), glyphs@.len() as int).1,
    {
        self.instances = Vec::new();
        self.instances_origins = Vec::new();
        let mut x: i64 = 0;
        let mut index: usize = 0;
        while index < glyphs.len()
            invariant
                index <= glyphs@.len(),
                glyphs@.len() <= u32::MAX,
                0 <= x <= index * 65535,
                self.text@ == old(self).text@,
                self.attrs == old(self).attrs,
                self.instances@ == laid_out(glyphs@, self.attrs, index as int).0,
                self.instances_origins@ == laid_out(glyphs@, self.attrs, index as int).1,
                x == laid_out(glyphs@, self.attrs, index as int).2,
                self.wf(),
            decreases glyphs@.len() - index,
        {
            let slot = glyphs[index];
            match slot.glyph {
                Some(g) => {
                    let color = *self.attrs.color(slot.offset);
                    self.instances.push(
                        Instance {
                            origin: (x, 0, 0),
                            size: (g.width, g.height),
                            tex_left_top: (g.atlas_x0, g.atlas_y0),
                            tex_right_bottom: (g.atlas_x1, g.atlas_y1),
                            color,
                        },
                    );
                    self.instances_origins.push((x, 0));
                    x = x + g.width as i64;
                },
                None => {},
            }
            index = index + 1;
        }
    }

    /// Places every instance at its layout-local origin plus `(x, y)`, at depth
    /// `z`. A position out of range changes nothing.
    pub fn draw_text(&mut self, x: i64, y: i64, z: i64)
        requires
            old(self).wf(),
        ensures
            final(self).wf(),
            final(self).text_view() == old(self).text_view(),
            final(self).attrs_view() == old(self).attrs_view(),
            final(self).origins_view() == old(self).origins_view(),
            coord_ok(x as int) && coord_ok(y as int) ==> final(self).instances_view()
                == old(self).instances_view().map(
                |i: int, inst: Instance|
                    Instance {
                        origin: (
                            (old(self).origins_view()[i].0 + x) as i64,
                            (old(self).origins_view()[i].1 + y) as i64,
                            z,
                        ),
                        ..inst
                    },
            ),
            !(coord_ok(x as int) && coord_ok(y as int)) ==> final(self).instances_view()
                == old(self).instances_view(),
    {
        if x < -COORD_MAX || x > COORD_MAX || y < -COORD_MAX || y > COORD_MAX {
            return;
        }
        let ghost before = self.instances@;
        let mut i: usize = 0;
        while i < self.instances.len()
            invariant
                i <= self.instances@.len(),
                self.instances@.len() == before.len(),
                coord_ok(x as int) && coord_ok(y as int),
                self.wf(),
                self.text@ == old(self).text@,
                self.attrs == old(self).attrs,
                self.instances_origins@ == old(self).instances_origins@,
                old(self).instances@ == before,
                forall|j: int|
                    0 <= j < i ==> self.instances@[j] == (Instance {
                        origin: (
                            (self.instances_origins@[j].0 + x) as i64,
                            (self.instances_origins@[j].1 + y) as i64,
                            z,
                        ),
                        ..before[j]
                    }),
                forall|j: int| i <= j < before.len() ==> self.instances@[j] == before[j],
            decreases before.len() - i,
        {
            let o = self.instances_origins[i];
            let mut inst = self.instances[i];
            inst.origin = (o.0 + x, o.1 + y, z);
            self.instances.set(i, inst);
            i = i + 1;
        }
        assert(self.instances@ =~= before.map(
            |j: int, inst: Instance|
                Instance {
                    origin: (
                        (old(self).instances_origins@[j].0 + x) as i64,
                        (old(self).instances_origins@[j].1 + y) as i64,
                        z,
                    ),
                    ..inst
                },
        ));
    }

    /// Width and height of the laid-out line: from the origin to the far corner
    /// of the last glyph; zero when nothing was placed.
    pub fn size(&self) -> (s: (i64, i64))
        requires
            self.wf(),
        ensures
            self.instances_view().len() == 0 ==> s == (0i64, 0i64),
            self.instances_view().len() > 0 ==> s == (
                (self.origins_view().last().0 + self.instances_view().last().size.0) as i64,
                (self.origins_view().last().1 + self.instances_view().last().size.1) as i64,
            ),
    {
        let n = self.instances.len();
        if n == 0 {
            (0, 0)
        } else {
            let last = self.instances[n - 1];
            let o = self.instances_origins[n - 1];
            (o.0 + last.size.0 as i64, o.1 + last.size.1 as i64)
        }
    }
}

/// Collects text and attributes for a layout.
pub struct WgpuTextLayoutBuilder {
    text: String,
    text_len: usize,
    attrs: Attributes,
}

impl WgpuTextLayoutBuilder {
    pub closed spec fn text_view(&self) -> Seq<char> {
        self.text@
    }

    pub closed spec fn attrs_view(&self) -> Attributes {
        self.attrs
    }

    pub fn new(text: String) -> (b: WgpuTextLayoutBuilder)
        ensures
            b.text_view() == text@,
            b.attrs_view().color@.len() == 0,
            b.attrs_view().font@.len() == 0,
            b.attrs_view().size@.len() == 0,
    {
        let text_len = text.as_str().len();
        WgpuTextLayoutBuilder { text, text_len, attrs: Attributes::new() }
    }

    fn add(&mut self, attr: TextAttribute, range: Range<usize>)
        ensures
            final(self).text_view() == old(self).text_view(),
            final(self).attrs_view().defaults == old(self).attrs_view().defaults,
    {
        self.attrs.add(range, attr);
    }

    /// Makes `attribute` the default of its kind.
    pub fn default_attribute(self, attribute: TextAttribute) -> (b: WgpuTextLayoutBuilder)
        ensures
            b.text_view() == self.text_view(),
            b.text_bytes() == self.text_bytes(),
            b.attrs_view().defaults == defaults_with(self.attrs_view().defaults, attribute),
            b.attrs_view().color@ == self.attrs_view().color@,
            b.attrs_view().font@ == self.attrs_view().font@,
            b.attrs_view().size@ == self.attrs_view().size@,
    {
        let mut b = self;
        b.attrs.defaults.set(attribute);
        b
    }

    /// Applies `attribute` over `range`, clamped to the text's length in bytes.
    pub fn range_attribute(self, range: Range<usize>, attribute: TextAttribute) -> (b: WgpuTextLayoutBuilder)
        ensures
            b.text_view() == self.text_view(),
            b.text_bytes() == self.text_bytes(),
            b.attrs_view().defaults == self.attrs_view().defaults,
            (b.attrs_view().color@, b.attrs_view().font@, b.attrs_view().size@) == attrs_with(
                self.attrs_view(),
                clamped(range, self.text_bytes()),
                attribute,
            ),
    {
        let mut b = self;
        let r = resolve_range(range, b.text_len);
        b.attrs.add(r, attribute);
        b
    }

    /// The text's length in bytes, taken when the builder was made.
    pub closed spec fn text_bytes(&self) -> usize {
        self.text_len
    }

    pub fn build(self) -> (r: Result<WgpuTextLayout, RenderError>)
        ensures
            r is Ok,
            r->Ok_0.wf(),
            r->Ok_0.text_view() == self.text_view(),
            r->Ok_0.attrs_view() == self.attrs_view(),
            r->Ok_0.instances_view().len() == 0,
    {
        let mut layout = WgpuTextLayout::new(self.text);
        layout.set_attrs(self.attrs);
        Ok(layout)
    }

    /// Builds the layout and lays it out at once from the glyph cache's answers.
    pub fn build_with_ctx(self, glyphs: &Vec<GlyphSlot>) -> (l: WgpuTextLayout)
        requires
            glyphs@.len() == self.text_view().len(),
            glyphs@.len() <= u32::MAX,
        ensures
            l.wf(),
            l.text_view() == self.text_view(),
            l.attrs_view() == self.attrs_view(),
            l.instances_view() == laid_out(glyphs@, self.attrs_view(), glyphs@.len() as int).0,
    {
        let mut layout = WgpuTextLayout::new(self.text);
        layout.set_attrs(self.attrs);
        layout.rebuild(glyphs);
        layout
    }
}

} // verus!
