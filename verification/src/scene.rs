//! The scene tree: the closed set of layout kinds, their child-positioning
//! rules, and the selection state machine of the horizontally scrolling
//! list. A scene is a tree of `LayoutItem` nodes; every structural change
//! repositions the affected children by the owning layout's rule.

use vstd::prelude::*;

use crate::geometry::{center_fits, pos_center, Point, Position, Size};
use crate::widgets::{widget_pos, widget_set, WidgetType, WidgetView};
use vstd::pervasive::arbitrary;

verus! {

broadcast use vstd::seq::group_seq_axioms, vstd::std_specs::vec::group_vec_axioms;

/// A directional key event routed into the tree.
#[derive(Clone, Copy, PartialEq, Eq, Structural, Debug)]
pub enum Key {
    Right,
    Left,
}

/// One node of the scene tree: a leaf widget or an interior layout.
pub enum LayoutItem {
    Layout(Box<LayoutNode>),
    Widget(WidgetType),
}

/// The closed set of interior layout kinds.
pub enum LayoutNode {
    Centered(CenteredLayout),
    VCentered(VCenteredLayout),
    VBox(VBoxLayout),
    List(ListLayout),
}

/// Stacks children so that each child's center coincides with the center
/// the layout had at construction time. Earlier children are never
/// repositioned: the layout is for overlapping content.
pub struct CenteredLayout {
    pub children: Vec<LayoutItem>,
    pub position: Position,
    pub center: Point,
}

/// Gives each child the layout's full width and centers it vertically at
/// the layout's current vertical center.
pub struct VCenteredLayout {
    pub children: Vec<LayoutItem>,
    pub position: Position,
}

/// Stacks children top to bottom with no gap, forcing each child to the
/// layout's width; the layout's own height is the sum of its children's.
pub struct VBoxLayout {
    pub children: Vec<LayoutItem>,
    pub position: Position,
}

/// Lays list items out left to right with a fixed spacing and tracks which
/// one is selected.
pub struct ListLayout {
    pub children: Vec<ListItem>,
    pub position: Position,
    pub item_size: Size,
    pub spacing: u32,
    pub selected: usize,
}

/// A list entry holding two alternate subtrees: the one painted while the
/// entry is not selected and the one painted while it is.
pub struct ListItem {
    pub item: LayoutItem,
    pub selected_item: LayoutItem,
}

/// The mathematical content of a `LayoutItem`.
#[verifier::ext_equal]
pub enum ItemView {
    Widget(WidgetView),
    Node(NodeView),
}

/// The mathematical content of a `LayoutNode`.
#[verifier::ext_equal]
pub enum NodeView {
    Centered { position: Position, center: Point, children: Seq<ItemView> },
    VCentered { position: Position, children: Seq<ItemView> },
    VBox { position: Position, children: Seq<ItemView> },
    List { position: Position, item_size: Size, spacing: u32, selected: int, children: Seq<ListItemView> },
}

/// The mathematical content of a `ListItem`.
#[verifier::ext_equal]
pub struct ListItemView {
    pub normal: ItemView,
    pub selected: ItemView,
}

pub open spec fn item_view(item: LayoutItem) -> ItemView
    decreases item,
{
    match item {
        LayoutItem::Widget(w) => ItemView::Widget(w@),
        LayoutItem::Layout(l) => ItemView::Node(node_view(*l)),
    }
}

pub open spec fn node_view(n: LayoutNode) -> NodeView
    decreases n,
{
    match n {
        LayoutNode::Centered(c) => NodeView::Centered {
            position: c.position,
            center: c.center,
            children: items_view(c.children@),
        },
        LayoutNode::VCentered(c) => NodeView::VCentered {
            position: c.position,
            children: items_view(c.children@),
        },
        LayoutNode::VBox(b) => NodeView::VBox { position: b.position, children: items_view(b.children@) },
        LayoutNode::List(l) => NodeView::List {
            position: l.position,
            item_size: l.item_size,
            spacing: l.spacing,
            selected: l.selected as int,
            children: list_items_view(l.children@),
        },
    }
}

pub open spec fn items_view(s: Seq<LayoutItem>) -> Seq<ItemView>
    decreases s,
{
    Seq::new(
        s.len(),
        |i: int|
            if 0 <= i < s.len() {
                item_view(s[i])
            } else {
                arbitrary()
            },
    )
}

pub open spec fn list_item_view(li: ListItem) -> ListItemView
    decreases li,
{
    ListItemView { normal: item_view(li.item), selected: item_view(li.selected_item) }
}

pub open spec fn list_items_view(s: Seq<ListItem>) -> Seq<ListItemView>
    decreases s,
{
    Seq::new(
        s.len(),
        |i: int|
            if 0 <= i < s.len() {
                list_item_view(s[i])
            } else {
                arbitrary()
            },
    )
}

impl View for LayoutItem {
    type V = ItemView;

    open spec fn view(&self) -> ItemView {
        item_view(*self)
    }
}

impl View for LayoutNode {
    type V = NodeView;

    open spec fn view(&self) -> NodeView {
        node_view(*self)
    }
}

impl View for CenteredLayout {
    type V = NodeView;

    open spec fn view(&self) -> NodeView {
        NodeView::Centered { position: self.position, center: self.center, children: items_view(self.children@) }
    }
}

impl View for VCenteredLayout {
    type V = NodeView;

    open spec fn view(&self) -> NodeView {
        NodeView::VCentered { position: self.position, children: items_view(self.children@) }
    }
}

impl View for VBoxLayout {
    type V = NodeView;

    open spec fn view(&self) -> NodeView {
        NodeView::VBox { position: self.position, children: items_view(self.children@) }
    }
}

impl View for ListLayout {
    type V = NodeView;

    open spec fn view(&self) -> NodeView {
        NodeView::List {
            position: self.position,
            item_size: self.item_size,
            spacing: self.spacing,
            selected: self.selected as int,
            children: list_items_view(self.children@),
        }
    }
}

impl View for ListItem {
    type V = ListItemView;

    open spec fn view(&self) -> ListItemView {
        list_item_view(*self)
    }
}

/// The rectangle a node currently occupies.
pub open spec fn node_pos(n: NodeView) -> Position {
    match n {
        NodeView::Centered { position, .. } => position,
        NodeView::VCentered { position, .. } => position,
        NodeView::VBox { position, .. } => position,
        NodeView::List { position, .. } => position,
    }
}

/// The rectangle an item currently occupies. For a list item this is the
/// rectangle of the normal subtree.
pub open spec fn item_pos(v: ItemView) -> Position {
    match v {
        ItemView::Widget(w) => widget_pos(w),
        ItemView::Node(n) => node_pos(n),
    }
}

// ---------------------------------------------------------------------
// Assigned rectangles: where each layout rule places a child.
// ---------------------------------------------------------------------

/// The slot a vertical box assigns to a child at running height `y`: the
/// box's width, the child's own height, stacked at local x = 0.
pub open spec fn vbox_slot(child: ItemView, w: u32, y: int) -> Position {
    Position { upper_left: Point { x: 0, y: y as i32 }, size: Size { w, h: item_pos(child).size.h } }
}

/// The slot a vertically-centering layout assigns to a child: the layout's
/// full width, the child's height, vertically centered on the layout's
/// center, x unchanged.
pub open spec fn vcentered_slot(layout: Position, child: Position) -> Position {
    Position {
        upper_left: Point {
            x: child.upper_left.x,
            y: (pos_center(layout).y - child.size.h as int / 2) as i32,
        },
        size: Size { w: layout.size.w, h: child.size.h },
    }
}

/// The slot a centering layout assigns to a child: the child's own size,
/// placed so its center falls on the layout's fixed center.
pub open spec fn centered_slot(center: Point, child: Position) -> Position {
    Position {
        upper_left: Point {
            x: (center.x - child.size.w as int / 2) as i32,
            y: (center.y - child.size.h as int / 2) as i32,
        },
        size: child.size,
    }
}

/// The rectangle a list item's normal subtree receives: both dimensions
/// scaled to 75% (rounded down) and the result re-centered within the
/// original rectangle.
pub open spec fn shrunk_rect(pos: Position) -> Position {
    let sw = 3 * pos.size.w as int / 4;
    let sh = 3 * pos.size.h as int / 4;
    Position {
        upper_left: Point {
            x: (pos.upper_left.x + (pos.size.w - sw) / 2) as i32,
            y: (pos.upper_left.y + (pos.size.h - sh) / 2) as i32,
        },
        size: Size { w: sw as u32, h: sh as u32 },
    }
}

/// The re-centering arithmetic of `shrunk_rect` stays in the `i32` range.
pub open spec fn shrunk_fits(pos: Position) -> bool {
    &&& pos.upper_left.x + (pos.size.w - 3 * pos.size.w as int / 4) / 2 <= i32::MAX
    &&& pos.upper_left.y + (pos.size.h - 3 * pos.size.h as int / 4) / 2 <= i32::MAX
}

/// The center arithmetic of `vcentered_slot` stays in the `i32` range.
pub open spec fn vcentered_child_fits(layout: Position, child: Position) -> bool {
    &&& center_fits(layout)
    &&& pos_center(layout).y - child.size.h as int / 2 >= i32::MIN
}

// ---------------------------------------------------------------------
// Reassigning a rectangle: the recursive effect of `set_position`.
// ---------------------------------------------------------------------

/// The item after its rectangle is reassigned.
pub open spec fn item_set(v: ItemView, pos: Position) -> ItemView
    decreases v, 3int, 0int,
{
    match v {
        ItemView::Widget(w) => ItemView::Widget(widget_set(w, pos)),
        ItemView::Node(n) => ItemView::Node(node_set(n, pos)),
    }
}

/// The layout node after its rectangle is reassigned. Centering and list
/// layouts store the rectangle verbatim and leave children alone; vertical
/// boxes and vertically-centering layouts reposition all their children.
pub open spec fn node_set(n: NodeView, pos: Position) -> NodeView
    decreases n, 2int, 0int,
{
    match n {
        NodeView::Centered { center, children, .. } => NodeView::Centered { position: pos, center, children },
        NodeView::List { item_size, spacing, selected, children, .. } => NodeView::List {
            position: pos,
            item_size,
            spacing,
            selected,
            children,
        },
        NodeView::VBox { children, .. } => NodeView::VBox {
            position: Position {
                upper_left: pos.upper_left,
                size: Size {
                    w: pos.size.w,
                    h: vbox_y(children, pos.size.w, children.len() as int) as u32,
                },
            },
            children: vbox_set_prefix(children, pos.size.w, children.len() as int),
        },
        NodeView::VCentered { children, .. } => NodeView::VCentered {
            position: pos,
            children: vcentered_set_prefix(children, pos, children.len() as int),
        },
    }
}

/// The first `n` children of a vertical box of width `w`, each repositioned
/// into its slot, in order.
pub open spec fn vbox_set_prefix(children: Seq<ItemView>, w: u32, n: int) -> Seq<ItemView>
    decreases children, 1int, n,
{
    if n <= 0 || children.len() < n {
        Seq::empty()
    } else {
        vbox_set_prefix(children, w, n - 1).push(
            item_set(children[n - 1], vbox_slot(children[n - 1], w, vbox_y(children, w, n - 1))),
        )
    }
}

/// The running height after the first `n` children of a vertical box of
/// width `w` have been repositioned: the sum of their stored heights.
pub open spec fn vbox_y(children: Seq<ItemView>, w: u32, n: int) -> int
    decreases children, 0int, n,
{
    if n <= 0 || children.len() < n {
        0
    } else {
        let y = vbox_y(children, w, n - 1);
        y + item_pos(item_set(children[n - 1], vbox_slot(children[n - 1], w, y))).size.h
    }
}

/// The first `n` children of a vertically-centering layout with rectangle
/// `layout`, each repositioned into its slot.
pub open spec fn vcentered_set_prefix(children: Seq<ItemView>, layout: Position, n: int) -> Seq<ItemView>
    decreases children, 1int, n,
{
    if n <= 0 || children.len() < n {
        Seq::empty()
    } else {
        vcentered_set_prefix(children, layout, n - 1).push(
            item_set(children[n - 1], vcentered_slot(layout, item_pos(children[n - 1]))),
        )
    }
}

/// The list item after its rectangle is reassigned: the selected subtree
/// receives the rectangle unchanged, the normal subtree the 75%-scaled,
/// re-centered one.
pub open spec fn list_item_set(li: ListItemView, pos: Position) -> ListItemView
    decreases li, 3int, 0int,
{
    ListItemView { normal: item_set(li.normal, shrunk_rect(pos)), selected: item_set(li.selected, pos) }
}

// ---------------------------------------------------------------------
// Range conditions: all arithmetic of a reassignment stays in range.
// ---------------------------------------------------------------------

pub open spec fn item_set_fits(v: ItemView, pos: Position) -> bool
    decreases v, 3int, 0int,
{
    match v {
        ItemView::Widget(_) => true,
        ItemView::Node(n) => node_set_fits(n, pos),
    }
}

pub open spec fn node_set_fits(n: NodeView, pos: Position) -> bool
    decreases n, 2int, 0int,
{
    match n {
        NodeView::Centered { .. } => true,
        NodeView::List { .. } => true,
        NodeView::VBox { children, .. } => vbox_prefix_fits(children, pos.size.w, children.len() as int),
        NodeView::VCentered { children, .. } => vcentered_prefix_fits(children, pos, children.len() as int),
    }
}

pub open spec fn vbox_prefix_fits(children: Seq<ItemView>, w: u32, n: int) -> bool
    decreases children, 1int, n,
{
    n <= 0 || children.len() >= n && {
        &&& vbox_prefix_fits(children, w, n - 1)
        &&& item_set_fits(children[n - 1], vbox_slot(children[n - 1], w, vbox_y(children, w, n - 1)))
        &&& vbox_y(children, w, n) <= i32::MAX
    }
}

pub open spec fn vcentered_prefix_fits(children: Seq<ItemView>, layout: Position, n: int) -> bool
    decreases children, 1int, n,
{
    n <= 0 || children.len() >= n && {
        &&& vcentered_prefix_fits(children, layout, n - 1)
        &&& vcentered_child_fits(layout, item_pos(children[n - 1]))
        &&& item_set_fits(children[n - 1], vcentered_slot(layout, item_pos(children[n - 1])))
    }
}

pub open spec fn list_item_set_fits(li: ListItemView, pos: Position) -> bool {
    &&& shrunk_fits(pos)
    &&& item_set_fits(li.normal, shrunk_rect(pos))
    &&& item_set_fits(li.selected, pos)
}

/// Every stored height is a `u32`, so the running height of a vertical box
/// never goes negative.
pub proof fn lemma_vbox_y_nonneg(children: Seq<ItemView>, w: u32, n: int)
    ensures
        0 <= vbox_y(children, w, n),
    decreases
        if n > 0 {
            n
        } else {
            0
        },
{
    if n > 0 && children.len() >= n {
        lemma_vbox_y_nonneg(children, w, n - 1);
    }
}

// ---------------------------------------------------------------------
// Executable positioning.
// ---------------------------------------------------------------------

/// The 75%-scaled rectangle, re-centered within the original.
pub fn shrink_rect(pos: Position) -> (r: Position)
    requires
        shrunk_fits(pos),
    ensures
        r == shrunk_rect(pos),
{
    let sw = ((pos.size.w as u64 * 3) / 4) as u32;
    let sh = ((pos.size.h as u64 * 3) / 4) as u32;
    Position {
        upper_left: Point {
            x: pos.upper_left.x + ((pos.size.w - sw) / 2) as i32,
            y: pos.upper_left.y + ((pos.size.h - sh) / 2) as i32,
        },
        size: Size { w: sw, h: sh },
    }
}

impl LayoutItem {
    pub fn set_position(&mut self, pos: Position)
        requires
            item_set_fits(old(self)@, pos),
        ensures
            final(self)@ == item_set(old(self)@, pos),
        decreases *old(self), 3int,
    {
        match self {
            LayoutItem::Widget(w) => w.set_position(pos),
            LayoutItem::Layout(l) => (&mut **l).set_position(pos),
        }
    }

    pub fn position(&self) -> (p: &Position)
        ensures
            *p == item_pos(self@),
    {
        match self {
            LayoutItem::Widget(w) => w.position(),
            LayoutItem::Layout(l) => (&**l).position(),
        }
    }
}

impl LayoutNode {
    pub fn set_position(&mut self, pos: Position)
        requires
            node_set_fits(old(self)@, pos),
        ensures
            final(self)@ == node_set(old(self)@, pos),
        decreases *old(self), 2int,
    {
        match self {
            LayoutNode::Centered(c) => c.set_position(pos),
            LayoutNode::VCentered(c) => c.set_position(pos),
            LayoutNode::VBox(b) => b.set_position(pos),
            LayoutNode::List(l) => l.set_position(pos),
        }
    }

    pub fn position(&self) -> (p: &Position)
        ensures
            *p == node_pos(self@),
    {
        match self {
            LayoutNode::Centered(c) => c.position(),
            LayoutNode::VCentered(c) => c.position(),
            LayoutNode::VBox(b) => b.position(),
            LayoutNode::List(l) => l.position(),
        }
    }
}

impl CenteredLayout {
    /// Stores the rectangle verbatim; the construction-time center and the
    /// children are untouched.
    pub fn set_position(&mut self, pos: Position)
        ensures
            final(self)@ == node_set(old(self)@, pos),
    {
        self.position = pos;
    }

    pub fn position(&self) -> (p: &Position)
        ensures
            *p == node_pos(self@),
    {
        &self.position
    }
}

impl ListLayout {
    /// Stores the rectangle verbatim; items keep their positions.
    pub fn set_position(&mut self, pos: Position)
        ensures
            final(self)@ == node_set(old(self)@, pos),
    {
        self.position = pos;
    }

    pub fn position(&self) -> (p: &Position)
        ensures
            *p == node_pos(self@),
    {
        &self.position
    }
}

impl VBoxLayout {
    /// Stores the rectangle, then restacks every child at the new width;
    /// the stored height becomes the sum of the children's heights.
    pub fn set_position(&mut self, pos: Position)
        requires
            node_set_fits(old(self)@, pos),
        ensures
            final(self)@ == node_set(old(self)@, pos),
        decreases *old(self), 1int,
    {
        self.position = pos;
        self.position_children();
    }

    pub fn position(&self) -> (p: &Position)
        ensures
            *p == node_pos(self@),
    {
        &self.position
    }

    /// Restacks all children top to bottom at the layout's width and
    /// recomputes the layout's height as the sum of theirs.
    pub fn position_children(&mut self)
        requires
            vbox_prefix_fits(
                items_view(old(self).children@),
                old(self).position.size.w,
                old(self).children@.len() as int,
            ),
        ensures
            final(self).position == (Position {
                upper_left: old(self).position.upper_left,
                size: Size {
                    w: old(self).position.size.w,
                    h: vbox_y(
                        items_view(old(self).children@),
                        old(self).position.size.w,
                        old(self).children@.len() as int,
                    ) as u32,
                },
            }),
            items_view(final(self).children@) == vbox_set_prefix(
                items_view(old(self).children@),
                old(self).position.size.w,
                old(self).children@.len() as int,
            ),
        decreases old(self).children@, 0int,
    {
        let ghost orig = items_view(self.children@);
        let w = self.position.size.w;
        let ghost n = self.children@.len() as int;
        let mut h: i32 = 0;
        let mut i: usize = 0;
        while i < self.children.len()
            invariant
                i <= self.children@.len(),
                self.children@.len() == orig.len(),
                orig == items_view(old(self).children@),
                w == old(self).position.size.w,
                self.position == old(self).position,
                vbox_prefix_fits(orig, w, orig.len() as int),
                h as int == vbox_y(orig, w, i as int),
                items_view(self.children@) =~= vbox_set_prefix(orig, w, i as int)
                    + orig.skip(i as int),
                forall|j: int| i <= j < orig.len() ==> self.children@[j] == old(self).children@[j],
            decreases orig.len() - i,
        {
            proof {
                lemma_vbox_prefix_fits_at(orig, w, orig.len() as int, i as int);
                lemma_vbox_y_nonneg(orig, w, i as int);
                assert(items_view(self.children@)[i as int] == orig[i as int]);
            }
            let ghost slot = vbox_slot(orig[i as int], w, h as int);
            let current_h = self.children[i].position().size.h;
            let new_pos = Position { upper_left: Point { x: 0, y: h }, size: Size { w, h: current_h } };
            proof {
                assert(new_pos == slot);
            }
            let ghost prev = self.children@;
            let child = &mut self.children[i];
            assert(child@ == orig[i as int]);
            child.set_position(new_pos);
            let grown = self.children[i].position().size.h;
            proof {
                assert(self.children@ == prev.update(i as int, self.children@[i as int]));
                assert(self.children@[i as int]@ == item_set(orig[i as int], slot));
                assert(grown as int == vbox_y(orig, w, i as int + 1) - vbox_y(orig, w, i as int));
                let lhs = items_view(self.children@);
                let rhs = vbox_set_prefix(orig, w, i as int + 1) + orig.skip(i as int + 1);
                assert(vbox_set_prefix(orig, w, i as int + 1) == vbox_set_prefix(orig, w, i as int).push(
                    item_set(orig[i as int], slot),
                ));
                assert(items_view(prev) == vbox_set_prefix(orig, w, i as int) + orig.skip(i as int));
                assert(items_view(prev).len() == prev.len());
                assert(prev.len() == orig.len());
                assert(orig.skip(i as int).len() == orig.len() - i as int);
                assert(vbox_set_prefix(orig, w, i as int).len() == i as int);
                assert forall|j: int| 0 <= j < orig.len() implies lhs[j] == rhs[j] by {
                    assert(lhs[j] == item_view(self.children@[j]));
                    if j < i as int {
                        assert(self.children@[j] == prev[j]);
                        assert(items_view(prev)[j] == item_view(prev[j]));
                        assert(items_view(prev)[j] == vbox_set_prefix(orig, w, i as int)[j]);
                    } else if j == i as int {
                        assert(rhs[j] == item_set(orig[i as int], slot));
                    } else {
                        assert(self.children@[j] == prev[j]);
                        assert(items_view(prev)[j] == item_view(prev[j]));
                        assert(items_view(prev)[j] == orig.skip(i as int)[j - i as int]);
                        assert(rhs[j] == orig.skip(i as int + 1)[j - (i as int + 1)]);
                    }
                }
                assert(lhs =~= rhs);
                assert(items_view(self.children@) =~= vbox_set_prefix(orig, w, (i + 1) as int)
                    + orig.skip((i + 1) as int));
            }
            h = h + grown as i32;
            i = i + 1;
        }
        proof {
            lemma_vbox_y_nonneg(orig, w, n);
            assert(orig.skip(n) =~= Seq::<ItemView>::empty());
            assert(vbox_set_prefix(orig, w, n) + orig.skip(n) =~= vbox_set_prefix(orig, w, n));
        }
        self.position.size.h = h as u32;
    }
}

impl VCenteredLayout {
    /// Stores the rectangle, then re-centers every child against it.
    pub fn set_position(&mut self, pos: Position)
        requires
            node_set_fits(old(self)@, pos),
        ensures
            final(self)@ == node_set(old(self)@, pos),
        decreases *old(self), 1int,
    {
        self.position = pos;
        self.position_children();
    }

    pub fn position(&self) -> (p: &Position)
        ensures
            *p == node_pos(self@),
    {
        &self.position
    }

    /// The slot the layout rectangle assigns to a child rectangle: full
    /// width, own height, vertically centered.
    pub fn calculate_position(layout: &Position, item: &Position) -> (p: Position)
        requires
            vcentered_child_fits(*layout, *item),
        ensures
            p == vcentered_slot(*layout, *item),
    {
        Position {
            upper_left: Point { x: item.upper_left.x, y: layout.center().y - (item.size.h / 2) as i32 },
            size: Size { w: layout.size.w, h: item.size.h },
        }
    }

    /// Re-centers every child against the layout's current rectangle.
    pub fn position_children(&mut self)
        requires
            vcentered_prefix_fits(
                items_view(old(self).children@),
                old(self).position,
                old(self).children@.len() as int,
            ),
        ensures
            final(self).position == old(self).position,
            items_view(final(self).children@) == vcentered_set_prefix(
                items_view(old(self).children@),
                old(self).position,
                old(self).children@.len() as int,
            ),
        decreases old(self).children@, 0int,
    {
        let ghost orig = items_view(self.children@);
        let position = self.position;
        let ghost n = self.children@.len() as int;
        let mut i: usize = 0;
        while i < self.children.len()
            invariant
                i <= self.children@.len(),
                self.children@.len() == orig.len(),
                orig == items_view(old(self).children@),
                position == old(self).position,
                self.position == old(self).position,
                vcentered_prefix_fits(orig, position, orig.len() as int),
                items_view(self.children@) =~= vcentered_set_prefix(orig, position, i as int)
                    + orig.skip(i as int),
                forall|j: int| i <= j < orig.len() ==> self.children@[j] == old(self).children@[j],
            decreases orig.len() - i,
        {
            proof {
                lemma_vcentered_prefix_fits_at(orig, position, orig.len() as int, i as int);
                assert(items_view(self.children@)[i as int] == orig[i as int]);
            }
            let new_pos = VCenteredLayout::calculate_position(&position, self.children[i].position());
            let ghost prev = self.children@;
            let child = &mut self.children[i];
            assert(child@ == orig[i as int]);
            child.set_position(new_pos);
            proof {
                let ghost slot = vcentered_slot(position, item_pos(orig[i as int]));
                assert(self.children@ == prev.update(i as int, self.children@[i as int]));
                assert(self.children@[i as int]@ == item_set(orig[i as int], slot));
                let lhs = items_view(self.children@);
                let rhs = vcentered_set_prefix(orig, position, i as int + 1) + orig.skip(i as int + 1);
                assert(items_view(prev) == vcentered_set_prefix(orig, position, i as int) + orig.skip(i as int));
                assert(items_view(prev).len() == prev.len());
                assert(prev.len() == orig.len());
                assert(orig.skip(i as int).len() == orig.len() - i as int);
                assert(vcentered_set_prefix(orig, position, i as int).len() == i as int);
                assert(vcentered_set_prefix(orig, position, i as int + 1) == vcentered_set_prefix(
                    orig,
                    position,
                    i as int,
                ).push(item_set(orig[i as int], slot)));
                assert forall|j: int| 0 <= j < orig.len() implies lhs[j] == rhs[j] by {
                    assert(lhs[j] == item_view(self.children@[j]));
                    if j < i as int {
                        assert(self.children@[j] == prev[j]);
                        assert(items_view(prev)[j] == item_view(prev[j]));
                        assert(items_view(prev)[j] == vcentered_set_prefix(orig, position, i as int)[j]);
                    } else if j == i as int {
                        assert(rhs[j] == item_set(orig[i as int], slot));
                    } else {
                        assert(self.children@[j] == prev[j]);
                        assert(items_view(prev)[j] == item_view(prev[j]));
                        assert(items_view(prev)[j] == orig.skip(i as int)[j - i as int]);
                        assert(rhs[j] == orig.skip(i as int + 1)[j - (i as int + 1)]);
                    }
                }
                assert(lhs =~= rhs);
                assert(items_view(self.children@) =~= vcentered_set_prefix(orig, position, (i + 1) as int)
                    + orig.skip((i + 1) as int));
            }
            i = i + 1;
        }
        proof {
            assert(orig.skip(n) =~= Seq::<ItemView>::empty());
            assert(vcentered_set_prefix(orig, position, n) + orig.skip(n)
                =~= vcentered_set_prefix(orig, position, n));
        }
    }
}

impl ListItem {
    /// Hands the rectangle to the selected subtree unchanged and its
    /// 75%-scaled, re-centered version to the normal subtree.
    pub fn set_position(&mut self, pos: Position)
        requires
            list_item_set_fits(old(self)@, pos),
        ensures
            final(self)@ == list_item_set(old(self)@, pos),
    {
        let scaled = shrink_rect(pos);
        self.item.set_position(scaled);
        self.selected_item.set_position(pos);
    }

    /// The rectangle of the normal subtree.
    pub fn position(&self) -> (p: &Position)
        ensures
            *p == item_pos(self@.normal),
    {
        self.item.position()
    }
}

// ---------------------------------------------------------------------
// Growing a layout: the effect of `add_child` / `add_item`.
// ---------------------------------------------------------------------

/// The center a centering layout keeps, and zero for the other kinds.
pub open spec fn centered_center(n: NodeView) -> Point {
    match n {
        NodeView::Centered { center, .. } => center,
        _ => Point { x: 0, y: 0 },
    }
}

/// A centering layout after a child is added: the child is repositioned so
/// its center falls on the layout's fixed center, then appended. Earlier
/// children and the layout's own rectangle are untouched.
pub open spec fn centered_add(n: NodeView, item: ItemView) -> NodeView {
    match n {
        NodeView::Centered { position, center, children } => NodeView::Centered {
            position,
            center,
            children: children.push(item_set(item, centered_slot(center, item_pos(item)))),
        },
        _ => n,
    }
}

pub open spec fn centered_add_fits(n: NodeView, item: ItemView) -> bool {
    n matches NodeView::Centered { center, .. } ==> {
        &&& center.x - item_pos(item).size.w as int / 2 >= i32::MIN
        &&& center.y - item_pos(item).size.h as int / 2 >= i32::MIN
        &&& item_set_fits(item, centered_slot(center, item_pos(item)))
    }
}

/// A vertical box after a child is added: the child is appended and every
/// child is restacked, so the box's height grows by the new child's.
pub open spec fn vbox_add(n: NodeView, item: ItemView) -> NodeView {
    match n {
        NodeView::VBox { position, children } => {
            let grown = children.push(item);
            NodeView::VBox {
                position: Position {
                    upper_left: position.upper_left,
                    size: Size {
                        w: position.size.w,
                        h: vbox_y(grown, position.size.w, grown.len() as int) as u32,
                    },
                },
                children: vbox_set_prefix(grown, position.size.w, grown.len() as int),
            }
        },
        _ => n,
    }
}

pub open spec fn vbox_add_fits(n: NodeView, item: ItemView) -> bool {
    n matches NodeView::VBox { position, children } ==> vbox_prefix_fits(
        children.push(item),
        position.size.w,
        children.len() as int + 1,
    )
}

/// A vertically-centering layout after a child is added: only the new
/// child is positioned, against the layout's current rectangle.
pub open spec fn vcentered_add(n: NodeView, item: ItemView) -> NodeView {
    match n {
        NodeView::VCentered { position, children } => NodeView::VCentered {
            position,
            children: children.push(item_set(item, vcentered_slot(position, item_pos(item)))),
        },
        _ => n,
    }
}

pub open spec fn vcentered_add_fits(n: NodeView, item: ItemView) -> bool {
    n matches NodeView::VCentered { position, .. } ==> {
        &&& vcentered_child_fits(position, item_pos(item))
        &&& item_set_fits(item, vcentered_slot(position, item_pos(item)))
    }
}

/// The slot the next list item is positioned into: just past the list's
/// current width, at the fixed item size.
pub open spec fn list_slot(position: Position, item_size: Size, spacing: u32) -> Position {
    Position {
        upper_left: Point { x: (position.size.w + spacing) as i32, y: 0 },
        size: item_size,
    }
}

/// A list after an item is added: the item is positioned into the next
/// slot and appended, and the list widens by one spacing plus item width.
pub open spec fn list_add(n: NodeView, li: ListItemView) -> NodeView {
    match n {
        NodeView::List { position, item_size, spacing, selected, children } => NodeView::List {
            position: Position {
                upper_left: position.upper_left,
                size: Size {
                    w: (position.size.w + spacing + item_size.w) as u32,
                    h: position.size.h,
                },
            },
            item_size,
            spacing,
            selected,
            children: children.push(list_item_set(li, list_slot(position, item_size, spacing))),
        },
        _ => n,
    }
}

pub open spec fn list_add_fits(n: NodeView, li: ListItemView) -> bool {
    n matches NodeView::List { position, item_size, spacing, .. } ==> {
        &&& position.size.w + spacing <= i32::MAX
        &&& position.size.w + spacing + item_size.w <= u32::MAX
        &&& list_item_set_fits(li, list_slot(position, item_size, spacing))
    }
}

// ---------------------------------------------------------------------
// The list's selection state machine.
// ---------------------------------------------------------------------

/// The selected index of a list, and zero for the other kinds.
pub open spec fn list_selected(n: NodeView) -> int {
    match n {
        NodeView::List { selected, .. } => selected,
        _ => 0,
    }
}

/// The number of items of a list, and zero for the other kinds.
pub open spec fn list_len(n: NodeView) -> int {
    match n {
        NodeView::List { children, .. } => children.len() as int,
        _ => 0,
    }
}

/// A list after one directional key. `Right` advances the selection and
/// shifts the list left by one item width plus spacing, so the selected
/// card stays in a fixed viewport slot; `Left` is symmetric. At either end
/// the key is a silent no-op.
pub open spec fn list_step(n: NodeView, key: Key) -> NodeView {
    match n {
        NodeView::List { position, item_size, spacing, selected, children } => {
            let d = item_size.w + spacing;
            match key {
                Key::Right => if children.len() > 0 && selected < children.len() - 1 {
                    NodeView::List {
                        position: Position {
                            upper_left: Point {
                                x: (position.upper_left.x - d) as i32,
                                y: position.upper_left.y,
                            },
                            size: position.size,
                        },
                        item_size,
                        spacing,
                        selected: selected + 1,
                        children,
                    }
                } else {
                    n
                },
                Key::Left => if selected > 0 {
                    NodeView::List {
                        position: Position {
                            upper_left: Point {
                                x: (position.upper_left.x + d) as i32,
                                y: position.upper_left.y,
                            },
                            size: position.size,
                        },
                        item_size,
                        spacing,
                        selected: selected - 1,
                        children,
                    }
                } else {
                    n
                },
            }
        },
        _ => n,
    }
}

/// The shift arithmetic of `list_step` stays in range for the step the key
/// would actually take.
pub open spec fn list_key_fits(n: NodeView, key: Key) -> bool {
    match n {
        NodeView::List { position, item_size, spacing, selected, children } => {
            let d = item_size.w + spacing;
            match key {
                Key::Right => (children.len() > 0 && selected < children.len() - 1) ==> (d <= i32::MAX
                    && position.upper_left.x - d >= i32::MIN),
                Key::Left => selected > 0 ==> (d <= i32::MAX && position.upper_left.x + d <= i32::MAX),
            }
        },
        _ => true,
    }
}

/// The selection invariant: a non-empty list selects one of its items; an
/// empty list's index rests at zero.
pub open spec fn list_wf(n: NodeView) -> bool {
    match n {
        NodeView::List { selected, children, .. } => if children.len() == 0 {
            selected == 0
        } else {
            0 <= selected < children.len()
        },
        _ => true,
    }
}

impl CenteredLayout {
    /// A centering layout over the given rectangle; the center is computed
    /// once, here, and never changes.
    pub fn new(position: Position) -> (c: CenteredLayout)
        requires
            center_fits(position),
        ensures
            c@ == (NodeView::Centered {
                position,
                center: pos_center(position),
                children: Seq::<ItemView>::empty(),
            }),
    {
        let c = CenteredLayout { children: Vec::new(), center: position.center(), position };
        proof {
            assert(items_view(c.children@) =~= Seq::<ItemView>::empty());
        }
        c
    }

    /// Positions the child so its center falls on the layout's fixed
    /// center, then appends it. Earlier children are not repositioned.
    pub fn add_child(&mut self, item: LayoutItem)
        requires
            centered_add_fits(old(self)@, item@),
        ensures
            final(self)@ == centered_add(old(self)@, item@),
    {
        let mut item = item;
        let size = item.position().size;
        let new_pos = Position {
            upper_left: Point {
                x: self.center.x - (size.w / 2) as i32,
                y: self.center.y - (size.h / 2) as i32,
            },
            size,
        };
        item.set_position(new_pos);
        let ghost positioned = item@;
        self.children.push(item);
        proof {
            assert(items_view(self.children@) =~= items_view(old(self).children@).push(positioned));
        }
    }

    pub fn handle_key(&mut self, _key: Key) -> (consumed: bool)
        ensures
            *final(self) == *old(self),
            !consumed,
    {
        false
    }
}

impl VBoxLayout {
    /// An empty vertical box with no extent at the origin.
    pub fn new() -> (b: VBoxLayout)
        ensures
            b@ == (NodeView::VBox {
                position: Position {
                    upper_left: Point { x: 0, y: 0 },
                    size: Size { w: 0, h: 0 },
                },
                children: Seq::<ItemView>::empty(),
            }),
    {
        let b = VBoxLayout {
            children: Vec::new(),
            position: Position { upper_left: Point { x: 0, y: 0 }, size: Size { w: 0, h: 0 } },
        };
        proof {
            assert(items_view(b.children@) =~= Seq::<ItemView>::empty());
        }
        b
    }

    /// Appends the child and restacks every child at the layout's width;
    /// the layout's height becomes the sum of its children's.
    pub fn add_child(&mut self, item: LayoutItem)
        requires
            vbox_add_fits(old(self)@, item@),
        ensures
            final(self)@ == vbox_add(old(self)@, item@),
    {
        let ghost added = item@;
        self.children.push(item);
        proof {
            assert(items_view(self.children@) =~= items_view(old(self).children@).push(added));
        }
        self.position_children();
    }

    pub fn handle_key(&mut self, _key: Key) -> (consumed: bool)
        ensures
            *final(self) == *old(self),
            !consumed,
    {
        false
    }
}

impl VCenteredLayout {
    /// A vertically-centering layout over the given rectangle.
    pub fn new(position: Position) -> (c: VCenteredLayout)
        ensures
            c@ == (NodeView::VCentered { position, children: Seq::<ItemView>::empty() }),
    {
        let c = VCenteredLayout { children: Vec::new(), position };
        proof {
            assert(items_view(c.children@) =~= Seq::<ItemView>::empty());
        }
        c
    }

    /// Positions the new child against the layout's current rectangle and
    /// appends it; earlier children keep their positions until the layout
    /// itself is repositioned.
    pub fn add_child(&mut self, item: LayoutItem)
        requires
            vcentered_add_fits(old(self)@, item@),
        ensures
            final(self)@ == vcentered_add(old(self)@, item@),
    {
        let mut item = item;
        let new_pos = VCenteredLayout::calculate_position(&self.position, item.position());
        item.set_position(new_pos);
        let ghost positioned = item@;
        self.children.push(item);
        proof {
            assert(items_view(self.children@) =~= items_view(old(self).children@).push(positioned));
        }
    }

    pub fn handle_key(&mut self, _key: Key) -> (consumed: bool)
        ensures
            *final(self) == *old(self),
            !consumed,
    {
        false
    }
}

impl ListLayout {
    /// An empty list at the origin: no width yet, the item height, a fixed
    /// spacing of 20 units, and the first index selected.
    pub fn new(item_size: Size) -> (l: ListLayout)
        ensures
            l@ == (NodeView::List {
                position: Position {
                    upper_left: Point { x: 0, y: 0 },
                    size: Size { w: 0, h: item_size.h },
                },
                item_size,
                spacing: 20u32,
                selected: 0int,
                children: Seq::<ListItemView>::empty(),
            }),
            list_wf(l@),
    {
        let l = ListLayout {
            children: Vec::new(),
            position: Position {
                upper_left: Point { x: 0, y: 0 },
                size: Size { w: 0, h: item_size.h },
            },
            item_size,
            spacing: 20,
            selected: 0,
        };
        proof {
            assert(list_items_view(l.children@) =~= Seq::<ListItemView>::empty());
        }
        l
    }

    /// Positions the item into the next slot, widens the list by one
    /// spacing plus item width, and appends the item.
    pub fn add_item(&mut self, item: ListItem)
        requires
            list_add_fits(old(self)@, item@),
        ensures
            final(self)@ == list_add(old(self)@, item@),
            list_wf(old(self)@) ==> list_wf(final(self)@),
    {
        let mut item = item;
        item.set_position(Position {
            upper_left: Point { x: self.position.size.w as i32 + self.spacing as i32, y: 0 },
            size: self.item_size,
        });
        self.position.size.w = self.position.size.w + (self.spacing + self.item_size.w);
        let ghost positioned = item@;
        self.children.push(item);
        proof {
            assert(list_items_view(self.children@) =~= list_items_view(old(self).children@).push(positioned));
        }
    }

    /// Advances the selection by one and shifts the list left so the newly
    /// selected card lands in the old one's viewport slot; a silent no-op
    /// at the last item or on an empty list.
    pub fn select_next(&mut self)
        requires
            list_key_fits(old(self)@, Key::Right),
        ensures
            final(self)@ == list_step(old(self)@, Key::Right),
    {
        if self.children.len() > 0 && self.selected < self.children.len() - 1 {
            self.selected = self.selected + 1;
            let d = (self.item_size.w + self.spacing) as i32;
            self.position.upper_left.translate(0 - d, 0);
        }
    }

    /// Moves the selection back by one and shifts the list right; a silent
    /// no-op at the first item.
    pub fn select_prev(&mut self)
        requires
            list_key_fits(old(self)@, Key::Left),
        ensures
            final(self)@ == list_step(old(self)@, Key::Left),
    {
        if self.selected > 0 {
            self.selected = self.selected - 1;
            let d = (self.item_size.w + self.spacing) as i32;
            self.position.upper_left.translate(d, 0);
        }
    }

    /// Steps the selection for the key and reports the key consumed, even
    /// when the step was a no-op at a boundary: once a list has the event,
    /// nothing below or beside it sees it.
    pub fn handle_key(&mut self, key: Key) -> (consumed: bool)
        requires
            list_key_fits(old(self)@, key),
        ensures
            final(self)@ == list_step(old(self)@, key),
            consumed,
    {
        match key {
            Key::Right => self.select_next(),
            Key::Left => self.select_prev(),
        }
        true
    }
}

impl ListItem {
    /// A list entry from its two alternate subtrees.
    pub fn new(unselected: LayoutItem, selected: LayoutItem) -> (li: ListItem)
        ensures
            li@ == (ListItemView { normal: unselected@, selected: selected@ }),
    {
        ListItem { item: unselected, selected_item: selected }
    }

    pub fn handle_key(&mut self, _key: Key) -> (consumed: bool)
        ensures
            *final(self) == *old(self),
            !consumed,
    {
        false
    }
}

// ---------------------------------------------------------------------
// Laws of the layout rules.
// ---------------------------------------------------------------------

/// The rectangle a centering layout assigns has the layout's center as its
/// own exact center, whatever the child's size: the half-size subtracted to
/// find the corner is the same half-size the center computation adds back.
pub proof fn lemma_centered_slot_centered(center: Point, child: Position)
    requires
        center.x - child.size.w as int / 2 >= i32::MIN,
        center.y - child.size.h as int / 2 >= i32::MIN,
    ensures
        pos_center(centered_slot(center, child)) == center,
{
}

/// A child that stores assigned rectangles verbatim reports the layout's
/// fixed center as its own after `add_child`, independent of its size.
/// The premise excludes children that rewrite an assigned rectangle, such
/// as an aspect-preserving image or a vertical box.
pub proof fn lemma_centered_add_centers_child(n: NodeView, item: ItemView)
    requires
        n is Centered,
        centered_add_fits(n, item),
        item_pos(item_set(item, centered_slot(centered_center(n), item_pos(item))))
            == centered_slot(centered_center(n), item_pos(item)),
    ensures
        centered_add(n, item) matches NodeView::Centered { center, children, .. } && {
            &&& children.len() > 0
            &&& pos_center(item_pos(children.last())) == center
            &&& center == centered_center(n)
        },
{
    lemma_centered_slot_centered(centered_center(n), item_pos(item));
}

/// The sum of the stored heights of a sequence of items.
pub open spec fn heights_sum(children: Seq<ItemView>) -> int
    decreases children,
{
    if children.len() == 0 {
        0
    } else {
        heights_sum(children.drop_last()) + item_pos(children.last()).size.h
    }
}

/// The running height of a restacked vertical box equals the sum of the
/// stored heights of the repositioned children.
pub proof fn lemma_vbox_y_is_sum(children: Seq<ItemView>, w: u32, n: int)
    requires
        0 <= n <= children.len(),
    ensures
        vbox_y(children, w, n) == heights_sum(vbox_set_prefix(children, w, n)),
    decreases n,
{
    if n > 0 {
        lemma_vbox_y_is_sum(children, w, n - 1);
        let prefix = vbox_set_prefix(children, w, n - 1);
        let el = item_set(children[n - 1], vbox_slot(children[n - 1], w, vbox_y(children, w, n - 1)));
        assert(prefix.push(el).drop_last() =~= prefix);
        assert(prefix.push(el).last() == el);
    } else {
        assert(vbox_set_prefix(children, w, n) =~= Seq::<ItemView>::empty());
    }
}

/// After any repositioning, a vertical box's stored height is exactly the
/// sum of its children's stored heights.
pub proof fn lemma_vbox_set_height_is_sum(n: NodeView, pos: Position)
    requires
        n is VBox,
        node_set_fits(n, pos),
    ensures
        node_set(n, pos) matches NodeView::VBox { position, children, .. } && position.size.h as int
            == heights_sum(children),
{
    match n {
        NodeView::VBox { children, .. } => {
            lemma_vbox_y_is_sum(children, pos.size.w, children.len() as int);
            lemma_vbox_y_nonneg(children, pos.size.w, children.len() as int);
        },
        _ => {},
    }
}

/// After any `add_child`, a vertical box's stored height is exactly the
/// sum of its children's stored heights.
pub proof fn lemma_vbox_add_height_is_sum(n: NodeView, item: ItemView)
    requires
        n is VBox,
        vbox_add_fits(n, item),
    ensures
        vbox_add(n, item) matches NodeView::VBox { position, children, .. } && position.size.h as int
            == heights_sum(children),
{
    match n {
        NodeView::VBox { position, children } => {
            let grown = children.push(item);
            lemma_vbox_y_is_sum(grown, position.size.w, grown.len() as int);
            lemma_vbox_y_nonneg(grown, position.size.w, grown.len() as int);
        },
        _ => {},
    }
}

/// One key stroke keeps the selection invariant: it stays inside a
/// non-empty list and at zero on an empty one.
pub proof fn lemma_list_step_wf(n: NodeView, key: Key)
    requires
        list_wf(n),
    ensures
        list_wf(list_step(n, key)),
{
}

/// Adding an item keeps the selection invariant.
pub proof fn lemma_list_add_wf(n: NodeView, li: ListItemView)
    requires
        list_wf(n),
    ensures
        list_wf(list_add(n, li)),
{
}

/// The list after `k` `Right` strokes in a row.
pub open spec fn rights(n: NodeView, k: nat) -> NodeView
    decreases k,
{
    if k == 0 {
        n
    } else {
        list_step(rights(n, (k - 1) as nat), Key::Right)
    }
}

/// Repeated `Right` strokes advance the selection one item at a time until
/// the last item, then saturate there: from index `s`, `k` strokes select
/// `min(s + k, len - 1)`. In particular `len` strokes from index zero
/// select the last item and one more stroke changes nothing.
pub proof fn lemma_rights_saturate(n: NodeView, k: nat)
    requires
        n is List,
        list_len(n) > 0,
        0 <= list_selected(n) < list_len(n),
    ensures
        rights(n, k) is List,
        list_len(rights(n, k)) == list_len(n),
        list_selected(rights(n, k)) == if list_selected(n) + k < list_len(n) {
            list_selected(n) + k
        } else {
            list_len(n) - 1
        },
    decreases k,
{
    if k > 0 {
        lemma_rights_saturate(n, (k - 1) as nat);
    }
}

/// A step of `vbox_prefix_fits` holds at every index below `n`.
pub proof fn lemma_vbox_prefix_fits_at(children: Seq<ItemView>, w: u32, n: int, i: int)
    requires
        vbox_prefix_fits(children, w, n),
        0 <= i < n,
    ensures
        item_set_fits(children[i], vbox_slot(children[i], w, vbox_y(children, w, i))),
        vbox_y(children, w, i + 1) <= i32::MAX,
    decreases n,
{
    if i < n - 1 {
        lemma_vbox_prefix_fits_at(children, w, n - 1, i);
    }
}

/// A step of `vcentered_prefix_fits` holds at every index below `n`.
pub proof fn lemma_vcentered_prefix_fits_at(children: Seq<ItemView>, layout: Position, n: int, i: int)
    requires
        vcentered_prefix_fits(children, layout, n),
        0 <= i < n,
    ensures
        vcentered_child_fits(layout, item_pos(children[i])),
        item_set_fits(children[i], vcentered_slot(layout, item_pos(children[i]))),
    decreases n,
{
    if i < n - 1 {
        lemma_vcentered_prefix_fits_at(children, layout, n - 1, i);
    }
}

} // verus!
