//! Leaf visual nodes: frames, images and text. Each widget owns its
//! rectangle and can have it reassigned; an aspect-preserving image is the
//! one widget that does not store a requested rectangle verbatim.

use vstd::prelude::*;

use crate::geometry::{Color, Point, Position, Size};

verus! {

/// Where an image's encoded bytes come from: a file on disk or an
/// in-memory buffer.
pub enum ImageSource {
    Path(String),
    Bytes(Vec<u8>),
}

/// The mathematical content of an `ImageSource`.
pub enum SourceView {
    Path(Seq<char>),
    Bytes(Seq<u8>),
}

impl View for ImageSource {
    type V = SourceView;

    open spec fn view(&self) -> SourceView {
        match self {
            ImageSource::Path(p) => SourceView::Path(p@),
            ImageSource::Bytes(b) => SourceView::Bytes(b@),
        }
    }
}

/// A rectangle with an optional fill color, an optional border color, a
/// border width and a corner radius.
pub struct Frame {
    pub pos: Position,
    pub fill: Option<Color>,
    pub border: Option<Color>,
    pub border_width: u32,
    pub radius: u32,
}

/// An encoded picture together with the rectangle it is drawn into. With
/// `preserve_aspect_w` set, an assigned rectangle keeps its width but has
/// its height recomputed for a fixed 16:9 aspect ratio.
pub struct Image {
    pub source: ImageSource,
    pub pos: Position,
    pub preserve_aspect_w: bool,
}

/// A run of text with a point size and a color.
pub struct Text {
    pub content: String,
    pub size: u32,
    pub pos: Position,
    pub color: Color,
}

/// The closed set of leaf widget kinds.
pub enum WidgetType {
    Frame(Frame),
    Image(Image),
    Text(Text),
}

/// The mathematical content of a widget.
#[verifier::ext_equal]
pub enum WidgetView {
    Frame { pos: Position, fill: Option<Color>, border: Option<Color>, border_width: u32, radius: u32 },
    Image { source: SourceView, pos: Position, preserve_aspect_w: bool },
    Text { content: Seq<char>, size: u32, pos: Position, color: Color },
}

impl View for Frame {
    type V = WidgetView;

    open spec fn view(&self) -> WidgetView {
        WidgetView::Frame {
            pos: self.pos,
            fill: self.fill,
            border: self.border,
            border_width: self.border_width,
            radius: self.radius,
        }
    }
}

impl View for Image {
    type V = WidgetView;

    open spec fn view(&self) -> WidgetView {
        WidgetView::Image { source: self.source@, pos: self.pos, preserve_aspect_w: self.preserve_aspect_w }
    }
}

impl View for Text {
    type V = WidgetView;

    open spec fn view(&self) -> WidgetView {
        WidgetView::Text { content: self.content@, size: self.size, pos: self.pos, color: self.color }
    }
}

impl View for WidgetType {
    type V = WidgetView;

    open spec fn view(&self) -> WidgetView {
        match self {
            WidgetType::Frame(f) => f@,
            WidgetType::Image(i) => i@,
            WidgetType::Text(t) => t@,
        }
    }
}

/// The rectangle a widget currently occupies.
pub open spec fn widget_pos(w: WidgetView) -> Position {
    match w {
        WidgetView::Frame { pos, .. } => pos,
        WidgetView::Image { pos, .. } => pos,
        WidgetView::Text { pos, .. } => pos,
    }
}

/// The height that keeps a 16:9 aspect ratio for the given width:
/// `w * 9 / 16`, rounded to the nearest integer (halves rounded up).
pub open spec fn aspect_height(w: int) -> int {
    (9 * w + 8) / 16
}

/// The rectangle an aspect-preserving image stores when asked to occupy
/// `pos`: the corner and width are kept, the height is recomputed.
pub open spec fn aspect_rect(pos: Position) -> Position {
    Position {
        upper_left: pos.upper_left,
        size: Size { w: pos.size.w, h: aspect_height(pos.size.w as int) as u32 },
    }
}

/// The widget after its rectangle is reassigned. Frames and text store the
/// rectangle verbatim; an aspect-preserving image overrides the height.
pub open spec fn widget_set(w: WidgetView, pos: Position) -> WidgetView {
    match w {
        WidgetView::Frame { fill, border, border_width, radius, .. } => WidgetView::Frame {
            pos,
            fill,
            border,
            border_width,
            radius,
        },
        WidgetView::Image { source, preserve_aspect_w, .. } => WidgetView::Image {
            source,
            preserve_aspect_w,
            pos: if preserve_aspect_w {
                aspect_rect(pos)
            } else {
                pos
            },
        },
        WidgetView::Text { content, size, color, .. } => WidgetView::Text { content, size, color, pos },
    }
}

/// The 16:9 height for a width, rounded to the nearest integer. Fits every
/// `u32` width, since the result never exceeds the width.
pub fn aspect_fit_height(w: u32) -> (h: u32)
    ensures
        h == aspect_height(w as int),
{
    ((w as u64 * 9 + 8) / 16) as u32
}

impl Frame {
    /// A frame over the given rectangle with no fill, no border and square
    /// corners.
    pub fn new(position: Position) -> (f: Frame)
        ensures
            f@ == (WidgetView::Frame {
                pos: position,
                fill: None::<Color>,
                border: None::<Color>,
                border_width: 0u32,
                radius: 0u32,
            }),
    {
        Frame { pos: position, fill: None, border: None, border_width: 0, radius: 0 }
    }

    /// A frame with no extent at the origin.
    pub fn empty() -> (f: Frame)
        ensures
            f@ == (WidgetView::Frame {
                pos: Position { upper_left: Point { x: 0, y: 0 }, size: Size { w: 0, h: 0 } },
                fill: None::<Color>,
                border: None::<Color>,
                border_width: 0u32,
                radius: 0u32,
            }),
    {
        Frame {
            pos: Position { upper_left: Point { x: 0, y: 0 }, size: Size { w: 0, h: 0 } },
            fill: None,
            border: None,
            border_width: 0,
            radius: 0,
        }
    }

    /// The fill color, if one was given.
    pub fn color(&self) -> (c: &Option<Color>)
        ensures
            *c == self.fill,
    {
        &self.fill
    }

    pub fn set_position(&mut self, pos: Position)
        ensures
            final(self)@ == widget_set(old(self)@, pos),
    {
        self.pos = pos;
    }

    pub fn position(&self) -> (p: &Position)
        ensures
            *p == widget_pos(self@),
    {
        &self.pos
    }
}

impl Image {
    /// An aspect-preserving image read from a file path.
    pub fn new(source: String, pos: Position) -> (img: Image)
        ensures
            img@ == (WidgetView::Image { source: SourceView::Path(source@), pos, preserve_aspect_w: true }),
    {
        Image { source: ImageSource::Path(source), pos, preserve_aspect_w: true }
    }

    /// An aspect-preserving image over an in-memory encoded buffer.
    pub fn from_bytes(data: Vec<u8>, pos: Position) -> (img: Image)
        ensures
            img@ == (WidgetView::Image { source: SourceView::Bytes(data@), pos, preserve_aspect_w: true }),
    {
        Image { source: ImageSource::Bytes(data), pos, preserve_aspect_w: true }
    }

    /// Stores the rectangle; with aspect preservation on, the requested
    /// height is ignored and recomputed from the width at 16:9.
    pub fn set_position(&mut self, pos: Position)
        ensures
            final(self)@ == widget_set(old(self)@, pos),
    {
        if self.preserve_aspect_w {
            let h = aspect_fit_height(pos.size.w);
            self.pos = Position { upper_left: pos.upper_left, size: Size { w: pos.size.w, h } };
        } else {
            self.pos = pos;
        }
    }

    pub fn position(&self) -> (p: &Position)
        ensures
            *p == widget_pos(self@),
    {
        &self.pos
    }
}

impl Text {
    pub fn set_position(&mut self, pos: Position)
        ensures
            final(self)@ == widget_set(old(self)@, pos),
    {
        self.pos = pos;
    }

    pub fn position(&self) -> (p: &Position)
        ensures
            *p == widget_pos(self@),
    {
        &self.pos
    }
}

impl WidgetType {
    pub fn set_position(&mut self, pos: Position)
        ensures
            final(self)@ == widget_set(old(self)@, pos),
    {
        match self {
            WidgetType::Frame(f) => f.set_position(pos),
            WidgetType::Image(i) => i.set_position(pos),
            WidgetType::Text(t) => t.set_position(pos),
        }
    }

    pub fn position(&self) -> (p: &Position)
        ensures
            *p == widget_pos(self@),
    {
        match self {
            WidgetType::Frame(f) => f.position(),
            WidgetType::Image(i) => i.position(),
            WidgetType::Text(t) => t.position(),
        }
    }
}

} // verus!
