//! The two stateless engines that walk a scene tree. The render pass turns
//! the tree into a list of paint commands in absolute coordinates,
//! maintaining a single accumulated offset that is restored exactly on the
//! way out of every layout. The input-dispatch pass routes one key event
//! through the tree in the same pre-order, stopping at the first node that
//! consumes it.

use vstd::prelude::*;

use crate::geometry::{
    add_fits, point_add, point_sub, translate_to_global, translate_to_relative, Color, Point,
    Position, Size,
};
use crate::scene::{
    item_view, items_view, list_items_view, list_key_fits, list_step, node_pos, ItemView, Key,
    LayoutItem, LayoutNode, ListItemView, NodeView,
};
use crate::widgets::{widget_pos, ImageSource, SourceView, WidgetType, WidgetView};
use vstd::pervasive::arbitrary;

verus! {

broadcast use vstd::seq::group_seq_axioms, vstd::std_specs::vec::group_vec_axioms;

/// One painting order for the backend, in absolute screen coordinates.
pub enum PaintCmd {
    Rect { rect: Position, fill: Option<Color> },
    Image { rect: Position, source: ImageSource },
    Text { rect: Position, content: String, size: u32, color: Color },
}

/// The mathematical content of a paint command.
#[verifier::ext_equal]
pub enum CmdView {
    Rect { rect: Position, fill: Option<Color> },
    Image { rect: Position, source: SourceView },
    Text { rect: Position, content: Seq<char>, size: u32, color: Color },
}

impl View for PaintCmd {
    type V = CmdView;

    open spec fn view(&self) -> CmdView {
        match self {
            PaintCmd::Rect { rect, fill } => CmdView::Rect { rect: *rect, fill: *fill },
            PaintCmd::Image { rect, source } => CmdView::Image { rect: *rect, source: source@ },
            PaintCmd::Text { rect, content, size, color } => CmdView::Text {
                rect: *rect,
                content: content@,
                size: *size,
                color: *color,
            },
        }
    }
}

pub open spec fn cmds_view(s: Seq<PaintCmd>) -> Seq<CmdView> {
    Seq::new(
        s.len(),
        |i: int|
            if 0 <= i < s.len() {
                s[i]@
            } else {
                arbitrary()
            },
    )
}

// ---------------------------------------------------------------------
// The render pass, as a function of the tree and the entry offset.
// ---------------------------------------------------------------------

/// The one command a leaf widget paints: its rectangle moved into the
/// global frame that `offset` locates.
pub open spec fn widget_cmd(w: WidgetView, offset: Point) -> CmdView {
    match w {
        WidgetView::Frame { pos, fill, .. } => CmdView::Rect {
            rect: Position { upper_left: point_add(offset, pos.upper_left), size: pos.size },
            fill,
        },
        WidgetView::Image { source, pos, .. } => CmdView::Image {
            rect: Position { upper_left: point_add(offset, pos.upper_left), size: pos.size },
            source,
        },
        WidgetView::Text { content, size, pos, color } => CmdView::Text {
            rect: Position { upper_left: point_add(offset, pos.upper_left), size: pos.size },
            content,
            size,
            color,
        },
    }
}

/// The commands a subtree paints, in depth-first pre-order. On entering a
/// layout the offset grows by the layout's corner; children are visited in
/// order; a list paints, per index, its selected subtree when the index is
/// the selected one and its normal subtree otherwise.
pub open spec fn rendered(item: ItemView, offset: Point) -> Seq<CmdView>
    decreases item, 2int, 0int,
{
    match item {
        ItemView::Widget(w) => seq![widget_cmd(w, offset)],
        ItemView::Node(n) => rendered_node(n, offset),
    }
}

pub open spec fn rendered_node(n: NodeView, offset: Point) -> Seq<CmdView>
    decreases n, 1int, 0int,
{
    let inner = point_add(offset, node_pos(n).upper_left);
    match n {
        NodeView::Centered { children, .. } => rendered_items(children, inner, children.len() as int),
        NodeView::VCentered { children, .. } => rendered_items(children, inner, children.len() as int),
        NodeView::VBox { children, .. } => rendered_items(children, inner, children.len() as int),
        NodeView::List { children, selected, .. } => rendered_list_items(
            children,
            inner,
            selected,
            children.len() as int,
        ),
    }
}

/// The commands of the first `n` children, concatenated in order.
pub open spec fn rendered_items(children: Seq<ItemView>, offset: Point, n: int) -> Seq<CmdView>
    decreases children, 0int, n,
{
    if n <= 0 || children.len() < n {
        Seq::empty()
    } else {
        rendered_items(children, offset, n - 1) + rendered(children[n - 1], offset)
    }
}

/// The active subtree of a list entry: the selected subtree at the
/// selected index, the normal subtree everywhere else.
pub open spec fn active_subtree(li: ListItemView, index: int, selected: int) -> ItemView {
    if index == selected {
        li.selected
    } else {
        li.normal
    }
}

pub open spec fn rendered_list_items(
    children: Seq<ListItemView>,
    offset: Point,
    selected: int,
    n: int,
) -> Seq<CmdView>
    decreases children, 0int, n,
{
    if n <= 0 || children.len() < n {
        Seq::empty()
    } else {
        rendered_list_items(children, offset, selected, n - 1) + rendered(
            active_subtree(children[n - 1], n - 1, selected),
            offset,
        )
    }
}

// Range conditions: every translation of the render pass stays in `i32`.

pub open spec fn rendered_fits(item: ItemView, offset: Point) -> bool
    decreases item, 2int, 0int,
{
    match item {
        ItemView::Widget(w) => add_fits(offset, widget_pos(w).upper_left),
        ItemView::Node(n) => rendered_node_fits(n, offset),
    }
}

pub open spec fn rendered_node_fits(n: NodeView, offset: Point) -> bool
    decreases n, 1int, 0int,
{
    add_fits(offset, node_pos(n).upper_left) && {
        let inner = point_add(offset, node_pos(n).upper_left);
        match n {
            NodeView::Centered { children, .. } => rendered_items_fits(children, inner, children.len() as int),
            NodeView::VCentered { children, .. } => rendered_items_fits(children, inner, children.len() as int),
            NodeView::VBox { children, .. } => rendered_items_fits(children, inner, children.len() as int),
            NodeView::List { children, selected, .. } => rendered_list_items_fits(
                children,
                inner,
                selected,
                children.len() as int,
            ),
        }
    }
}

pub open spec fn rendered_items_fits(children: Seq<ItemView>, offset: Point, n: int) -> bool
    decreases children, 0int, n,
{
    n <= 0 || children.len() >= n && {
        &&& rendered_items_fits(children, offset, n - 1)
        &&& rendered_fits(children[n - 1], offset)
    }
}

pub open spec fn rendered_list_items_fits(
    children: Seq<ListItemView>,
    offset: Point,
    selected: int,
    n: int,
) -> bool
    decreases children, 0int, n,
{
    n <= 0 || children.len() >= n && {
        &&& rendered_list_items_fits(children, offset, selected, n - 1)
        &&& rendered_fits(active_subtree(children[n - 1], n - 1, selected), offset)
    }
}

pub proof fn lemma_rendered_items_fits_at(children: Seq<ItemView>, offset: Point, n: int, i: int)
    requires
        rendered_items_fits(children, offset, n),
        0 <= i < n,
    ensures
        rendered_fits(children[i], offset),
    decreases n,
{
    if i < n - 1 {
        lemma_rendered_items_fits_at(children, offset, n - 1, i);
    }
}

pub proof fn lemma_rendered_list_items_fits_at(
    children: Seq<ListItemView>,
    offset: Point,
    selected: int,
    n: int,
    i: int,
)
    requires
        rendered_list_items_fits(children, offset, selected, n),
        0 <= i < n,
    ensures
        rendered_fits(active_subtree(children[i], i, selected), offset),
    decreases n,
{
    if i < n - 1 {
        lemma_rendered_list_items_fits_at(children, offset, selected, n - 1, i);
    }
}

// ---------------------------------------------------------------------
// The executable render pass.
// ---------------------------------------------------------------------

/// A byte-for-byte copy of an image buffer.
pub(crate) fn copy_bytes(b: &Vec<u8>) -> (r: Vec<u8>)
    ensures
        r@ == b@,
{
    let mut r: Vec<u8> = Vec::new();
    let mut i: usize = 0;
    while i < b.len()
        invariant
            i <= b@.len(),
            r@ == b@.take(i as int),
        decreases b@.len() - i,
    {
        r.push(b[i]);
        proof {
            assert(r@ =~= b@.take(i as int + 1));
        }
        i = i + 1;
    }
    proof {
        assert(b@.take(b@.len() as int) =~= b@);
    }
    r
}

/// A copy of an image source with the same content.
fn duplicate_source(s: &ImageSource) -> (r: ImageSource)
    ensures
        r@ == s@,
{
    match s {
        ImageSource::Path(p) => ImageSource::Path(p.clone()),
        ImageSource::Bytes(b) => ImageSource::Bytes(copy_bytes(b)),
    }
}

/// The command painting one widget at the current offset.
fn widget_paint(w: &WidgetType, offset: &Point) -> (cmd: PaintCmd)
    requires
        add_fits(*offset, widget_pos(w@).upper_left),
    ensures
        cmd@ == widget_cmd(w@, *offset),
{
    match w {
        WidgetType::Frame(f) => PaintCmd::Rect {
            rect: Position {
                upper_left: translate_to_global(&f.pos.upper_left, offset),
                size: f.pos.size,
            },
            fill: f.fill,
        },
        WidgetType::Image(i) => PaintCmd::Image {
            rect: Position {
                upper_left: translate_to_global(&i.pos.upper_left, offset),
                size: i.pos.size,
            },
            source: duplicate_source(&i.source),
        },
        WidgetType::Text(t) => PaintCmd::Text {
            rect: Position {
                upper_left: translate_to_global(&t.pos.upper_left, offset),
                size: t.pos.size,
            },
            content: t.content.clone(),
            size: t.size,
            color: t.color,
        },
    }
}

/// Renders a subtree: appends its paint commands to `out` in pre-order.
/// `offset` is the absolute origin of the enclosing frame; on return it is
/// restored to exactly the value it had on entry.
pub fn render(item: &LayoutItem, offset: &mut Point, out: &mut Vec<PaintCmd>)
    requires
        rendered_fits(item@, *old(offset)),
    ensures
        *final(offset) == *old(offset),
        cmds_view(final(out)@) == cmds_view(old(out)@) + rendered(item@, *old(offset)),
    decreases *item, 2int,
{
    match item {
        LayoutItem::Widget(w) => {
            let cmd = widget_paint(w, offset);
            let ghost cv = cmd@;
            out.push(cmd);
            proof {
                assert(cmds_view(out@) =~= cmds_view(old(out)@) + seq![cv]);
            }
        },
        LayoutItem::Layout(l) => {
            render_node(&**l, offset, out);
        },
    }
}

/// Renders a layout node: moves the offset by the node's corner, renders
/// the children, and moves the offset back.
pub fn render_node(n: &LayoutNode, offset: &mut Point, out: &mut Vec<PaintCmd>)
    requires
        rendered_node_fits(n@, *old(offset)),
    ensures
        *final(offset) == *old(offset),
        cmds_view(final(out)@) == cmds_view(old(out)@) + rendered_node(n@, *old(offset)),
    decreases *n, 1int,
{
    let corner = n.position().upper_left;
    *offset = translate_to_global(&corner, &*offset);
    match n {
        LayoutNode::Centered(c) => render_children(&c.children, offset, out),
        LayoutNode::VCentered(c) => render_children(&c.children, offset, out),
        LayoutNode::VBox(b) => render_children(&b.children, offset, out),
        LayoutNode::List(l) => render_list_children(&l.children, l.selected, offset, out),
    }
    *offset = translate_to_relative(&*offset, &corner);
    proof {
        assert(point_sub(point_add(*old(offset), corner), corner) == *old(offset));
    }
}

/// Renders each child in order at the given offset.
fn render_children(children: &Vec<LayoutItem>, offset: &mut Point, out: &mut Vec<PaintCmd>)
    requires
        rendered_items_fits(items_view(children@), *old(offset), children@.len() as int),
    ensures
        *final(offset) == *old(offset),
        cmds_view(final(out)@) == cmds_view(old(out)@) + rendered_items(
            items_view(children@),
            *old(offset),
            children@.len() as int,
        ),
    decreases children@, 0int,
{
    let ghost views = items_view(children@);
    let ghost at = *old(offset);
    let mut i: usize = 0;
    while i < children.len()
        invariant
            i <= children@.len(),
            views == items_view(children@),
            at == *old(offset),
            *offset == at,
            rendered_items_fits(views, at, views.len() as int),
            cmds_view(out@) == cmds_view(old(out)@) + rendered_items(views, at, i as int),
        decreases children@.len() - i,
    {
        proof {
            lemma_rendered_items_fits_at(views, at, views.len() as int, i as int);
            assert(views[i as int] == children@[i as int]@);
        }
        let ghost before = cmds_view(out@);
        render(&children[i], offset, out);
        proof {
            assert(cmds_view(out@) =~= cmds_view(old(out)@) + rendered_items(views, at, i as int + 1));
        }
        i = i + 1;
    }
}

/// Renders each list entry's active subtree in order: the selected subtree
/// at the selected index, the normal one elsewhere.
fn render_list_children(
    children: &Vec<crate::scene::ListItem>,
    selected: usize,
    offset: &mut Point,
    out: &mut Vec<PaintCmd>,
)
    requires
        rendered_list_items_fits(
            list_items_view(children@),
            *old(offset),
            selected as int,
            children@.len() as int,
        ),
    ensures
        *final(offset) == *old(offset),
        cmds_view(final(out)@) == cmds_view(old(out)@) + rendered_list_items(
            list_items_view(children@),
            *old(offset),
            selected as int,
            children@.len() as int,
        ),
    decreases children@, 0int,
{
    let ghost views = list_items_view(children@);
    let ghost at = *old(offset);
    let mut i: usize = 0;
    while i < children.len()
        invariant
            i <= children@.len(),
            views == list_items_view(children@),
            at == *old(offset),
            *offset == at,
            rendered_list_items_fits(views, at, selected as int, views.len() as int),
            cmds_view(out@) == cmds_view(old(out)@) + rendered_list_items(
                views,
                at,
                selected as int,
                i as int,
            ),
        decreases children@.len() - i,
    {
        proof {
            lemma_rendered_list_items_fits_at(views, at, selected as int, views.len() as int, i as int);
            assert(views[i as int] == children@[i as int]@);
            assert(decreases_to!(children@ => children@[i as int]));
        }
        let entry = &children[i];
        let subtree = if i == selected {
            &entry.selected_item
        } else {
            &entry.item
        };
        proof {
            assert(subtree@ == active_subtree(views[i as int], i as int, selected as int));
        }
        render(subtree, offset, out);
        proof {
            assert(cmds_view(out@) =~= cmds_view(old(out)@) + rendered_list_items(
                views,
                at,
                selected as int,
                i as int + 1,
            ));
        }
        i = i + 1;
    }
}

// ---------------------------------------------------------------------
// Every visited leaf paints exactly once.
// ---------------------------------------------------------------------

/// The number of leaf widgets a render pass visits in a subtree: each list
/// entry contributes only its active subtree.
pub open spec fn active_leaves(item: ItemView) -> int
    decreases item, 2int, 0int,
{
    match item {
        ItemView::Widget(_) => 1,
        ItemView::Node(n) => node_active_leaves(n),
    }
}

pub open spec fn node_active_leaves(n: NodeView) -> int
    decreases n, 1int, 0int,
{
    match n {
        NodeView::Centered { children, .. } => items_active_leaves(children, children.len() as int),
        NodeView::VCentered { children, .. } => items_active_leaves(children, children.len() as int),
        NodeView::VBox { children, .. } => items_active_leaves(children, children.len() as int),
        NodeView::List { children, selected, .. } => list_active_leaves(
            children,
            selected,
            children.len() as int,
        ),
    }
}

pub open spec fn items_active_leaves(children: Seq<ItemView>, n: int) -> int
    decreases children, 0int, n,
{
    if n <= 0 || children.len() < n {
        0
    } else {
        items_active_leaves(children, n - 1) + active_leaves(children[n - 1])
    }
}

pub open spec fn list_active_leaves(children: Seq<ListItemView>, selected: int, n: int) -> int
    decreases children, 0int, n,
{
    if n <= 0 || children.len() < n {
        0
    } else {
        list_active_leaves(children, selected, n - 1) + active_leaves(
            active_subtree(children[n - 1], n - 1, selected),
        )
    }
}

/// A render traversal emits exactly one command per visited leaf widget:
/// every active leaf is painted exactly once, whatever the offset.
pub proof fn lemma_render_paints_each_leaf_once(item: ItemView, offset: Point)
    ensures
        rendered(item, offset).len() == active_leaves(item),
    decreases item, 2int, 0int,
{
    match item {
        ItemView::Widget(_) => {},
        ItemView::Node(n) => {
            lemma_render_node_paints_each_leaf_once(n, offset);
        },
    }
}

pub proof fn lemma_render_node_paints_each_leaf_once(n: NodeView, offset: Point)
    ensures
        rendered_node(n, offset).len() == node_active_leaves(n),
    decreases n, 1int, 0int,
{
    let inner = point_add(offset, node_pos(n).upper_left);
    match n {
        NodeView::Centered { children, .. } => {
            lemma_render_items_count(children, inner, children.len() as int);
        },
        NodeView::VCentered { children, .. } => {
            lemma_render_items_count(children, inner, children.len() as int);
        },
        NodeView::VBox { children, .. } => {
            lemma_render_items_count(children, inner, children.len() as int);
        },
        NodeView::List { children, selected, .. } => {
            lemma_render_list_items_count(children, inner, selected, children.len() as int);
        },
    }
}

pub proof fn lemma_render_items_count(children: Seq<ItemView>, offset: Point, n: int)
    ensures
        rendered_items(children, offset, n).len() == items_active_leaves(children, n),
    decreases children, 0int, n,
{
    if n > 0 && children.len() >= n {
        lemma_render_items_count(children, offset, n - 1);
        lemma_render_paints_each_leaf_once(children[n - 1], offset);
    }
}

pub proof fn lemma_render_list_items_count(
    children: Seq<ListItemView>,
    offset: Point,
    selected: int,
    n: int,
)
    ensures
        rendered_list_items(children, offset, selected, n).len() == list_active_leaves(
            children,
            selected,
            n,
        ),
    decreases children, 0int, n,
{
    if n > 0 && children.len() >= n {
        lemma_render_list_items_count(children, offset, selected, n - 1);
        lemma_render_paints_each_leaf_once(active_subtree(children[n - 1], n - 1, selected), offset);
    }
}

// ---------------------------------------------------------------------
// The input-dispatch pass.
// ---------------------------------------------------------------------

/// The tree and consumption flag after one key event is routed into a
/// subtree: a widget never consumes; a layout first handles the key itself
/// (only a list does anything, and a list always consumes); an unconsumed
/// key then visits the children in order, stopping at the first consumer.
pub open spec fn dispatched(item: ItemView, key: Key) -> (ItemView, bool)
    decreases item, 2int, 0int,
{
    match item {
        ItemView::Widget(_) => (item, false),
        ItemView::Node(n) => {
            let (stepped, consumed) = dispatched_node(n, key);
            (ItemView::Node(stepped), consumed)
        },
    }
}

pub open spec fn dispatched_node(n: NodeView, key: Key) -> (NodeView, bool)
    decreases n, 1int, 0int,
{
    match n {
        NodeView::List { .. } => (list_step(n, key), true),
        NodeView::Centered { position, center, children } => {
            let (stepped, consumed) = dispatched_children(children, key, children.len() as int);
            (NodeView::Centered { position, center, children: stepped }, consumed)
        },
        NodeView::VCentered { position, children } => {
            let (stepped, consumed) = dispatched_children(children, key, children.len() as int);
            (NodeView::VCentered { position, children: stepped }, consumed)
        },
        NodeView::VBox { position, children } => {
            let (stepped, consumed) = dispatched_children(children, key, children.len() as int);
            (NodeView::VBox { position, children: stepped }, consumed)
        },
    }
}

/// The children after the key has visited the first `n` of them in order,
/// stopping at the first consumer.
pub open spec fn dispatched_children(children: Seq<ItemView>, key: Key, n: int) -> (Seq<ItemView>, bool)
    decreases children, 0int, n,
{
    if n <= 0 || children.len() < n {
        (children, false)
    } else {
        let (sofar, consumed) = dispatched_children(children, key, n - 1);
        if consumed {
            (sofar, true)
        } else {
            let (stepped, now) = dispatched(children[n - 1], key);
            (sofar.update(n - 1, stepped), now)
        }
    }
}

// Range conditions: the shift of every list the key actually reaches stays
// in range.

pub open spec fn dispatch_fits(item: ItemView, key: Key) -> bool
    decreases item, 2int, 0int,
{
    match item {
        ItemView::Widget(_) => true,
        ItemView::Node(n) => dispatch_node_fits(n, key),
    }
}

pub open spec fn dispatch_node_fits(n: NodeView, key: Key) -> bool
    decreases n, 1int, 0int,
{
    match n {
        NodeView::List { .. } => list_key_fits(n, key),
        NodeView::Centered { children, .. } => dispatch_children_fits(children, key, children.len() as int),
        NodeView::VCentered { children, .. } => dispatch_children_fits(children, key, children.len() as int),
        NodeView::VBox { children, .. } => dispatch_children_fits(children, key, children.len() as int),
    }
}

pub open spec fn dispatch_children_fits(children: Seq<ItemView>, key: Key, n: int) -> bool
    decreases children, 0int, n,
{
    n <= 0 || children.len() >= n && {
        &&& dispatch_children_fits(children, key, n - 1)
        &&& (dispatched_children(children, key, n - 1).1 || dispatch_fits(children[n - 1], key))
    }
}

/// Children the key never reaches are untouched.
pub proof fn lemma_dispatched_children_frame(children: Seq<ItemView>, key: Key, n: int, j: int)
    requires
        n <= j < children.len(),
    ensures
        dispatched_children(children, key, n).0.len() == children.len(),
        dispatched_children(children, key, n).0[j] == children[j],
    decreases n,
{
    if n > 0 && children.len() >= n {
        lemma_dispatched_children_frame(children, key, n - 1, j);
    }
}

/// Once some child consumed the key, visiting further children changes
/// nothing.
pub proof fn lemma_dispatched_children_stable(children: Seq<ItemView>, key: Key, m: int, n: int)
    requires
        0 <= m <= n <= children.len(),
        dispatched_children(children, key, m).1,
    ensures
        dispatched_children(children, key, n) == dispatched_children(children, key, m),
    decreases n,
{
    if m < n {
        lemma_dispatched_children_stable(children, key, m, n - 1);
    }
}

pub proof fn lemma_dispatch_children_fits_at(children: Seq<ItemView>, key: Key, n: int, i: int)
    requires
        dispatch_children_fits(children, key, n),
        0 <= i < n,
        !dispatched_children(children, key, i).1,
    ensures
        dispatch_fits(children[i], key),
    decreases n,
{
    if i < n - 1 {
        lemma_dispatch_children_fits_at(children, key, n - 1, i);
    }
}

// ---------------------------------------------------------------------
// The executable input-dispatch pass.
// ---------------------------------------------------------------------

/// Routes one key event into the subtree, depth-first and pre-order, and
/// reports whether some node consumed it. A consumed key stops the walk:
/// neither the consumer's children nor any later sibling sees it.
pub fn dispatch_key(item: &mut LayoutItem, key: Key) -> (consumed: bool)
    requires
        dispatch_fits(old(item)@, key),
    ensures
        final(item)@ == dispatched(old(item)@, key).0,
        consumed == dispatched(old(item)@, key).1,
    decreases *old(item), 2int,
{
    match item {
        LayoutItem::Widget(_) => false,
        LayoutItem::Layout(l) => dispatch_key_node(&mut **l, key),
    }
}

pub fn dispatch_key_node(n: &mut LayoutNode, key: Key) -> (consumed: bool)
    requires
        dispatch_node_fits(old(n)@, key),
    ensures
        final(n)@ == dispatched_node(old(n)@, key).0,
        consumed == dispatched_node(old(n)@, key).1,
    decreases *old(n), 1int,
{
    match n {
        LayoutNode::List(l) => l.handle_key(key),
        LayoutNode::Centered(c) => {
            let own = c.handle_key(key);
            if own {
                true
            } else {
                dispatch_key_children(&mut c.children, key)
            }
        },
        LayoutNode::VCentered(c) => {
            let own = c.handle_key(key);
            if own {
                true
            } else {
                dispatch_key_children(&mut c.children, key)
            }
        },
        LayoutNode::VBox(b) => {
            let own = b.handle_key(key);
            if own {
                true
            } else {
                dispatch_key_children(&mut b.children, key)
            }
        },
    }
}

fn dispatch_key_children(children: &mut Vec<LayoutItem>, key: Key) -> (consumed: bool)
    requires
        dispatch_children_fits(items_view(old(children)@), key, old(children)@.len() as int),
    ensures
        items_view(final(children)@) == dispatched_children(
            items_view(old(children)@),
            key,
            old(children)@.len() as int,
        ).0,
        consumed == dispatched_children(items_view(old(children)@), key, old(children)@.len() as int).1,
    decreases old(children)@, 0int,
{
    let ghost orig = items_view(old(children)@);
    let ghost n = old(children)@.len() as int;
    let mut consumed = false;
    let mut i: usize = 0;
    while i < children.len() && !consumed
        invariant
            i <= children@.len(),
            children@.len() == orig.len(),
            orig == items_view(old(children)@),
            dispatch_children_fits(orig, key, orig.len() as int),
            items_view(children@) == dispatched_children(orig, key, i as int).0,
            consumed == dispatched_children(orig, key, i as int).1,
            forall|j: int| i <= j < orig.len() ==> children@[j] == old(children)@[j],
        decreases children@.len() - i,
    {
        proof {
            lemma_dispatch_children_fits_at(orig, key, orig.len() as int, i as int);
            lemma_dispatched_children_frame(orig, key, i as int, i as int);
            assert(items_view(children@)[i as int] == orig[i as int]);
        }
        let ghost prev = children@;
        let child = &mut children[i];
        assert(child@ == orig[i as int]);
        let now = dispatch_key(child, key);
        proof {
            let (stepped, flag) = dispatched(orig[i as int], key);
            assert(children@ == prev.update(i as int, children@[i as int]));
            assert(children@[i as int]@ == stepped);
            assert(now == flag);
            let lhs = items_view(children@);
            let rhs = dispatched_children(orig, key, i as int + 1).0;
            assert(rhs == dispatched_children(orig, key, i as int).0.update(i as int, stepped));
            assert(dispatched_children(orig, key, i as int).0.len() == orig.len());
            assert forall|j: int| 0 <= j < orig.len() implies lhs[j] == rhs[j] by {
                assert(lhs[j] == item_view(children@[j]));
                if j != i as int {
                    assert(children@[j] == prev[j]);
                    assert(items_view(prev)[j] == lhs[j]);
                }
            }
            assert(lhs =~= rhs);
        }
        consumed = now;
        i = i + 1;
    }
    proof {
        if i as int != n {
            lemma_dispatched_children_stable(orig, key, i as int, n);
        }
    }
    consumed
}

// ---------------------------------------------------------------------
// Handling what the backend reports back.
// ---------------------------------------------------------------------

/// The placeholder painted when an image's bytes fail to decode at draw
/// time: a neutral gray rectangle at the exact same absolute rectangle, so
/// a broken thumbnail never shifts the layout.
pub fn image_fallback(rect: Position) -> (cmd: PaintCmd)
    ensures
        cmd@ == (CmdView::Rect { rect, fill: Some(Color { r: 128, g: 128, b: 128 }) }),
{
    PaintCmd::Rect { rect, fill: Some(Color { r: 128, g: 128, b: 128 }) }
}

/// The rectangle a rasterized text surface is blitted into: the surface's
/// own size, centered on the text command's center. The rasterizer decides
/// the size; this fixes where it lands.
pub fn text_dest_rect(center: Point, rendered_w: u32, rendered_h: u32) -> (r: Position)
    requires
        center.x - rendered_w as int / 2 >= i32::MIN,
        center.y - rendered_h as int / 2 >= i32::MIN,
    ensures
        r == (Position {
            upper_left: Point {
                x: (center.x - rendered_w as int / 2) as i32,
                y: (center.y - rendered_h as int / 2) as i32,
            },
            size: Size { w: rendered_w, h: rendered_h },
        }),
{
    Position {
        upper_left: Point { x: center.x - (rendered_w / 2) as i32, y: center.y - (rendered_h / 2) as i32 },
        size: Size { w: rendered_w, h: rendered_h },
    }
}

} // verus!
