//! The desktop widgets: panels, bars, images, the desktop icon grid and
//! windows. Widgets form a tree; painting a widget yields the drawing
//! operations of the widget and of all it contains, in painting order.
use vstd::prelude::*;
use crate::draw::{Asset, DrawOp};
use crate::geometry::{black, white, Color, Graphics, Point, Size};

verus! {

/// Horizontal resolution of the screen.
pub const VIRTGPU_XRES: u32 = 1280;

/// Vertical resolution of the screen.
pub const VIRTGPU_YRES: u32 = 800;

/// Height of a window's title bar.
pub const TITLE_BAR_HEIGHT: i32 = 20;

/// Width and height of each button of a window's title bar.
pub const TITLE_ICON_WH: i32 = 16;

/// Gap between two buttons of a window's title bar.
pub const TITLE_ICON_SPACE: i32 = 4;

/// A widget of the desktop.
#[derive(Debug)]
pub enum Component {
    Panel(Panel),
    Bar(Bar),
    Image(ImageComp),
    Icons(IconController),
    Windows(Windows),
    Button(Button),
}

/// A rectangle filled with a background colour, holding other widgets that
/// are painted over it in the order they were added.
#[derive(Debug)]
pub struct Panel {
    inner: PanelInner,
}

#[derive(Debug)]
struct PanelInner {
    back_color: Color,
    graphic: Graphics,
    comps: Vec<Component>,
}

/// A strip of widgets, such as a window's title bar; painting a bar paints
/// the widgets it holds, in the order they were added.
#[derive(Debug)]
pub struct Bar {
    inner: BarInner,
}

#[derive(Debug)]
struct BarInner {
    graphic: Graphics,
    comps: Vec<Component>,
}

/// A bitmap image drawn at the top-left corner of its area.
#[derive(Debug)]
pub struct ImageComp {
    inner: ImageInner,
}

/// The state of an image widget: the bitmap and the area it is drawn in.
#[derive(Debug)]
pub struct ImageInner {
    image: Asset,
    graphic: Graphics,
}

/// The grid of file icons on the desktop: one icon and one name label per
/// file, laid out in columns of eight from the top-left corner.
#[derive(Debug)]
pub struct IconController {
    inner: IconControllerInner,
}

/// The state of the icon grid: the files shown and the area of the grid.
#[derive(Debug)]
pub struct IconControllerInner {
    files: Vec<String>,
    graphic: Graphics,
}

/// A button showing a line of text, such as the clock of the desktop bar.
#[derive(Debug)]
pub struct Button {
    inner: ButtonInner,
}

#[derive(Debug)]
struct ButtonInner {
    text: String,
    graphic: Graphics,
}

/// A text label.
#[derive(Debug)]
pub struct Label {
    inner: LabelInner,
}

#[derive(Debug)]
struct LabelInner {
    text: String,
    graphic: Graphics,
}

/// A window: a title bar with minimize, maximize and close buttons above a
/// white panel, and the window's name written over the title bar.
#[derive(Debug)]
pub struct Windows {
    inner: WindowsInner,
}

#[derive(Debug)]
struct WindowsInner {
    name: String,
    component: Vec<Component>,
    graphic: Graphics,
}

// ---------------------------------------------------------------------
// The model of painting.
// ---------------------------------------------------------------------

/// `w` read as a signed coordinate, as the window layout reads a width.
pub open spec fn width_as_i32(w: u32) -> i32 {
    w as i32
}

/// The fill that a panel paints first: its whole area in its colour.
pub open spec fn fill_op(graphic: Graphics, color: Color) -> DrawOp {
    DrawOp::FillRect { graphic, origin: Point { x: 0, y: 0 }, size: graphic.size, color }
}

/// The image that an image widget paints at its top-left corner.
pub open spec fn image_op(graphic: Graphics, image: Asset) -> DrawOp {
    DrawOp::Image { graphic, origin: Point { x: 0, y: 0 }, image }
}

/// Where the window's name is written: a 100x20 area of the title bar.
pub open spec fn title_area(graphic: Graphics) -> Graphics {
    Graphics {
        size: Size { width: 100, height: 20 },
        point: Point { x: graphic.point.x, y: (graphic.point.y - TITLE_BAR_HEIGHT) as i32 },
    }
}

/// The name of a window, written in black at the top-left of its title area.
pub open spec fn title_op(graphic: Graphics, name: String) -> DrawOp {
    DrawOp::Title { graphic: title_area(graphic), origin: Point { x: 0, y: 0 }, text: name, color: black() }
}

/// What a button paints: itself, over its whole area, with its text.
pub open spec fn button_op(graphic: Graphics, text: String) -> DrawOp {
    DrawOp::Button { graphic, text }
}

/// The top-left corner of the `i`-th desktop icon: icons fill columns of
/// eight, 90 pixels apart, and the columns are 70 pixels apart.
pub open spec fn icon_origin(i: int) -> Point {
    Point { x: (10 + 70 * (i / 8)) as i32, y: (10 + 90 * (i % 8)) as i32 }
}

/// The name label under the `i`-th desktop icon.
pub open spec fn icon_label_area(i: int) -> Graphics {
    Graphics {
        size: Size { width: 64, height: 20 },
        point: Point { x: icon_origin(i).x, y: (icon_origin(i).y + 64) as i32 },
    }
}

/// What the icon grid paints for its first `files.len()` files: for each
/// file, its icon and then its name.
pub open spec fn icon_ops(files: Seq<String>, graphic: Graphics) -> Seq<DrawOp>
    decreases files.len(),
{
    if files.len() == 0 {
        Seq::empty()
    } else {
        let i = files.len() - 1;
        icon_ops(files.drop_last(), graphic) + seq![
            DrawOp::Image { graphic, origin: icon_origin(i), image: Asset::File },
            DrawOp::TextEdit { graphic: icon_label_area(i), text: files[i], color: white() },
        ]
    }
}

/// The drawing operations that painting `c` yields.
pub closed spec fn painted(c: Component) -> Seq<DrawOp>
    decreases c,
{
    match c {
        Component::Panel(p) => seq![fill_op(p.inner.graphic, p.inner.back_color)] + painted_all(
            p.inner.comps@,
        ),
        Component::Bar(b) => painted_all(b.inner.comps@),
        Component::Image(i) => seq![image_op(i.inner.graphic, i.inner.image)],
        Component::Icons(ic) => icon_ops(ic.inner.files@, ic.inner.graphic),
        Component::Windows(w) => painted_all(w.inner.component@) + seq![
            title_op(w.inner.graphic, w.inner.name),
        ],
        Component::Button(b) => seq![button_op(b.inner.graphic, b.inner.text)],
    }
}

/// The drawing operations of painting each of `cs`, in order.
pub closed spec fn painted_all(cs: Seq<Component>) -> Seq<DrawOp>
    decreases cs,
{
    if cs.len() == 0 {
        Seq::empty()
    } else {
        painted_all(cs.drop_last()) + painted(cs.last())
    }
}

/// Painting a sequence of widgets paints all but the last, then the last.
pub proof fn lemma_painted_all_unfold(cs: Seq<Component>)
    ensures
        cs.len() == 0 ==> painted_all(cs) == Seq::<DrawOp>::empty(),
        cs.len() > 0 ==> painted_all(cs) == painted_all(cs.drop_last()) + painted(cs.last()),
{
}

/// Painting a panel fills its area with its colour, then paints its
/// children in order.
pub proof fn lemma_painted_panel(p: Panel)
    ensures
        painted(Component::Panel(p)) == seq![fill_op(p.graphic(), p.back_color())] + painted_all(
            p.children(),
        ),
{
}

/// Painting a bar paints its children in order.
pub proof fn lemma_painted_bar(b: Bar)
    ensures
        painted(Component::Bar(b)) == painted_all(b.children()),
{
}

/// Painting an image draws it at the top-left corner of its area.
pub proof fn lemma_painted_image(i: ImageComp)
    ensures
        painted(Component::Image(i)) == seq![image_op(i.graphic(), i.image())],
{
}

/// Painting the icon grid draws each file's icon and name in grid order.
pub proof fn lemma_painted_icons(ic: IconController)
    ensures
        painted(Component::Icons(ic)) == icon_ops(ic.files(), ic.graphic()),
{
}

/// Painting a window paints its children in order, then one last step
/// that writes its name in black over the title bar.
pub proof fn lemma_painted_windows(w: Windows)
    ensures
        painted(Component::Windows(w)).drop_last() == painted_all(w.children()),
        painted(Component::Windows(w)).len() == painted_all(w.children()).len() + 1,
        painted(Component::Windows(w)).last() matches DrawOp::Title { graphic, origin, text, color }
            && graphic == title_area(w.graphic()) && origin == (Point { x: 0, y: 0 }) && text@
            == w.name() && color == black(),
{
    assert(painted(Component::Windows(w)).drop_last() =~= painted_all(w.children()));
}

/// Painting a button paints it, with its text, over its area.
pub proof fn lemma_painted_button(b: Button)
    ensures
        painted(Component::Button(b)).len() == 1,
        painted(Component::Button(b))[0] matches DrawOp::Button { graphic, text } && graphic
            == b.graphic() && text@ == b.text(),
{
}

proof fn lemma_painted_all_push(cs: Seq<Component>, c: Component)
    ensures
        painted_all(cs.push(c)) == painted_all(cs) + painted(c),
{
    assert(cs.push(c).drop_last() =~= cs);
}

proof fn lemma_painted_all_prefix(cs: Seq<Component>, i: int)
    requires
        0 <= i < cs.len(),
    ensures
        painted_all(cs.take(i + 1)) == painted_all(cs.take(i)) + painted(cs[i]),
{
    assert(cs.take(i + 1).drop_last() =~= cs.take(i));
}

proof fn lemma_panel_smaller(p: Panel)
    ensures
        decreases_to!(p => p.inner.comps@),
{
    assert(decreases_to!(p => p.inner));
    assert(decreases_to!(p.inner => p.inner.comps));
    assert(decreases_to!(p.inner.comps => p.inner.comps@));
}

proof fn lemma_bar_smaller(b: Bar)
    ensures
        decreases_to!(b => b.inner.comps@),
{
    assert(decreases_to!(b => b.inner));
    assert(decreases_to!(b.inner => b.inner.comps));
    assert(decreases_to!(b.inner.comps => b.inner.comps@));
}

proof fn lemma_windows_smaller(w: Windows)
    ensures
        decreases_to!(w => w.inner.component@),
{
    assert(decreases_to!(w => w.inner));
    assert(decreases_to!(w.inner => w.inner.component));
    assert(decreases_to!(w.inner.component => w.inner.component@));
}

/// Paints each of `cs` in order.
fn paint_children(cs: &Vec<Component>) -> (ops: Vec<DrawOp>)
    ensures
        ops@ == painted_all(cs@),
    decreases cs@,
{
    let mut ops: Vec<DrawOp> = Vec::new();
    let n = cs.len();
    let mut i: usize = 0;
    while i < n
        invariant
            n == cs@.len(),
            i <= n,
            ops@ == painted_all(cs@.take(i as int)),
        decreases n - i,
    {
        proof {
            lemma_painted_all_prefix(cs@, i as int);
            assert(decreases_to!(cs@ => cs@[i as int]));
        }
        let mut sub = cs[i].paint();
        ops.append(&mut sub);
        i = i + 1;
    }
    assert(cs@.take(n as int) =~= cs@);
    ops
}

impl Component {
    /// The children of a panel, a bar or a window.
    pub open spec fn children(self) -> Seq<Component> {
        match self {
            Component::Panel(p) => p.children(),
            Component::Bar(b) => b.children(),
            Component::Windows(w) => w.children(),
            _ => Seq::empty(),
        }
    }

    /// The size and position of a widget.
    pub open spec fn bounds(self) -> (Size, Point) {
        let g = match self {
            Component::Panel(p) => p.graphic(),
            Component::Bar(b) => b.graphic(),
            Component::Image(i) => i.graphic(),
            Component::Icons(ic) => ic.graphic(),
            Component::Windows(w) => w.graphic(),
            Component::Button(b) => b.graphic(),
        };
        (g.size, g.point)
    }

    /// Whether other widgets can be added to this one.
    pub open spec fn is_container(self) -> bool {
        self is Panel || self is Bar || self is Windows
    }

    /// Paints the widget and all it holds.
    pub fn paint(&self) -> (ops: Vec<DrawOp>)
        ensures
            ops@ == painted(*self),
        decreases self,
    {
        match self {
            Component::Panel(p) => p.paint(),
            Component::Bar(b) => b.paint(),
            Component::Image(i) => i.paint(),
            Component::Icons(ic) => ic.paint(),
            Component::Windows(w) => w.paint(),
            Component::Button(b) => b.paint(),
        }
    }

    /// Adds `comp` to a panel, a bar or a window. Painting afterwards paints
    /// `comp` after everything the container held, and before a window's
    /// name.
    pub fn add(&mut self, comp: Component)
        requires
            old(self).is_container(),
        ensures
            final(self).is_container(),
            *final(self) is Panel <==> *old(self) is Panel,
            *final(self) is Bar <==> *old(self) is Bar,
            final(self).bounds() == old(self).bounds(),
            final(self).children() == old(self).children().push(comp),
            *old(self) is Windows ==> painted(*final(self)) == painted(*old(self)).drop_last()
                + painted(comp) + seq![painted(*old(self)).last()],
            !(*old(self) is Windows) ==> painted(*final(self)) == painted(*old(self)) + painted(comp),
    {
        match self {
            Component::Panel(p) => p.add(comp),
            Component::Bar(b) => b.add(comp),
            Component::Windows(w) => w.add(comp),
            _ => {},
        }
    }

    /// The size and position of a widget other than the icon grid, which
    /// has none.
    pub fn bound(&self) -> (r: (Size, Point))
        requires
            !(self is Icons),
        ensures
            r == self.bounds(),
    {
        match self {
            Component::Panel(p) => p.bound(),
            Component::Bar(b) => b.bound(),
            Component::Image(i) => i.bound(),
            Component::Windows(w) => w.bound(),
            Component::Button(b) => b.bound(),
            Component::Icons(_) => (Size::new(0, 0), Point::new(0, 0)),
        }
    }
}

impl Panel {
    /// The colour the panel is filled with.
    pub closed spec fn back_color(self) -> Color {
        self.inner.back_color
    }

    /// The widgets the panel holds, in painting order.
    pub closed spec fn children(self) -> Seq<Component> {
        self.inner.comps@
    }

    /// The area of the panel.
    pub closed spec fn graphic(self) -> Graphics {
        self.inner.graphic
    }

    /// An empty white panel of `size` at `point`.
    pub fn new(size: Size, point: Point) -> (p: Panel)
        ensures
            p.graphic() == (Graphics { size, point }),
            p.back_color() == white(),
            p.children() == Seq::<Component>::empty(),
            painted(Component::Panel(p)) == seq![fill_op(Graphics { size, point }, white())],
    {
        let p = Panel {
            inner: PanelInner {
                back_color: Color::white(),
                graphic: Graphics::new(size, point),
                comps: Vec::new(),
            },
        };
        assert(painted_all(p.inner.comps@) == Seq::<DrawOp>::empty());
        p
    }

    /// The same panel, filled with `color`.
    pub fn with_color(self, color: Color) -> (p: Panel)
        ensures
            p.graphic() == self.graphic(),
            p.back_color() == color,
            p.children() == self.children(),
    {
        let mut p = self;
        p.inner.back_color = color;
        p
    }

    /// Adds `comp` on top of what the panel holds.
    pub fn add(&mut self, comp: Component)
        ensures
            final(self).graphic() == old(self).graphic(),
            final(self).back_color() == old(self).back_color(),
            final(self).children() == old(self).children().push(comp),
            painted(Component::Panel(*final(self))) == painted(Component::Panel(*old(self)))
                + painted(comp),
    {
        self.inner.comps.push(comp);
        proof {
            lemma_painted_all_push(old(self).inner.comps@, comp);
        }
    }

    /// The number of widgets the panel holds.
    pub fn children_count(&self) -> (n: usize)
        ensures
            n == self.children().len(),
    {
        self.inner.comps.len()
    }

    /// The size and position of the panel.
    pub fn bound(&self) -> (r: (Size, Point))
        ensures
            r == (self.graphic().size, self.graphic().point),
    {
        (self.inner.graphic.size, self.inner.graphic.point)
    }

    /// Fills the panel with its colour, then paints what it holds.
    pub fn paint(&self) -> (ops: Vec<DrawOp>)
        ensures
            ops@ == painted(Component::Panel(*self)),
        decreases self,
    {
        proof {
            lemma_panel_smaller(*self);
        }
        let mut ops: Vec<DrawOp> = Vec::new();
        ops.push(
            DrawOp::FillRect {
                graphic: self.inner.graphic,
                origin: Point::new(0, 0),
                size: self.inner.graphic.size,
                color: self.inner.back_color,
            },
        );
        let mut rest = paint_children(&self.inner.comps);
        ops.append(&mut rest);
        ops
    }
}

impl Bar {
    /// The widgets the bar holds, in painting order.
    pub closed spec fn children(self) -> Seq<Component> {
        self.inner.comps@
    }

    /// The area of the bar.
    pub closed spec fn graphic(self) -> Graphics {
        self.inner.graphic
    }

    /// An empty bar of `size` at `point`.
    pub fn new(size: Size, point: Point) -> (b: Bar)
        ensures
            b.graphic() == (Graphics { size, point }),
            b.children() == Seq::<Component>::empty(),
            painted(Component::Bar(b)) == Seq::<DrawOp>::empty(),
    {
        Bar { inner: BarInner { graphic: Graphics::new(size, point), comps: Vec::new() } }
    }

    /// Adds `comp` after what the bar holds.
    pub fn add(&mut self, comp: Component)
        ensures
            final(self).graphic() == old(self).graphic(),
            final(self).children() == old(self).children().push(comp),
            painted(Component::Bar(*final(self))) == painted(Component::Bar(*old(self))) + painted(
                comp,
            ),
    {
        self.inner.comps.push(comp);
        proof {
            lemma_painted_all_push(old(self).inner.comps@, comp);
        }
    }

    /// The size and position of the bar.
    pub fn bound(&self) -> (r: (Size, Point))
        ensures
            r == (self.graphic().size, self.graphic().point),
    {
        (self.inner.graphic.size, self.inner.graphic.point)
    }

    /// Paints what the bar holds.
    pub fn paint(&self) -> (ops: Vec<DrawOp>)
        ensures
            ops@ == painted(Component::Bar(*self)),
        decreases self,
    {
        proof {
            lemma_bar_smaller(*self);
        }
        paint_children(&self.inner.comps)
    }
}

impl ImageComp {
    /// The area of the image.
    pub closed spec fn graphic(self) -> Graphics {
        self.inner.graphic
    }

    /// The bitmap shown.
    pub closed spec fn image(self) -> Asset {
        self.inner.image
    }

    /// An image widget showing `image` in an area of `size` at `point`.
    pub fn new(size: Size, point: Point, image: Asset) -> (c: ImageComp)
        ensures
            c.graphic() == (Graphics { size, point }),
            c.image() == image,
    {
        ImageComp { inner: ImageInner { image, graphic: Graphics::new(size, point) } }
    }

    /// The size and position of the image.
    pub fn bound(&self) -> (r: (Size, Point))
        ensures
            r == (self.graphic().size, self.graphic().point),
    {
        (self.inner.graphic.size, self.inner.graphic.point)
    }

    /// Draws the image at the top-left corner of its area.
    pub fn paint(&self) -> (ops: Vec<DrawOp>)
        ensures
            ops@ == painted(Component::Image(*self)),
            ops@ == seq![image_op(self.graphic(), self.image())],
    {
        let mut ops: Vec<DrawOp> = Vec::new();
        ops.push(
            DrawOp::Image {
                graphic: self.inner.graphic,
                origin: Point::new(0, 0),
                image: self.inner.image,
            },
        );
        ops
    }
}

impl Button {
    /// The area of the button.
    pub closed spec fn graphic(self) -> Graphics {
        self.inner.graphic
    }

    /// The text the button shows.
    pub closed spec fn text(self) -> Seq<char> {
        self.inner.text@
    }

    /// A button of `size` at `point` showing `text`.
    pub fn new(size: Size, point: Point, text: String) -> (b: Button)
        ensures
            b.graphic() == (Graphics { size, point }),
            b.text() == text@,
            painted(Component::Button(b)) == seq![button_op(Graphics { size, point }, text)],
    {
        Button { inner: ButtonInner { text, graphic: Graphics::new(size, point) } }
    }

    /// The size and position of the button.
    pub fn bound(&self) -> (r: (Size, Point))
        ensures
            r == (self.graphic().size, self.graphic().point),
    {
        (self.inner.graphic.size, self.inner.graphic.point)
    }

    /// Paints the button with its text.
    pub fn paint(&self) -> (ops: Vec<DrawOp>)
        ensures
            ops@ == painted(Component::Button(*self)),
            ops@.len() == 1,
            ops@[0] matches DrawOp::Button { graphic, text } && graphic == self.graphic() && text@
                == self.text(),
    {
        let mut ops: Vec<DrawOp> = Vec::new();
        ops.push(DrawOp::Button { graphic: self.inner.graphic, text: self.inner.text.clone() });
        ops
    }
}

/// The number of files the icon grid can lay out without a column's
/// position leaving the range of a coordinate.
pub open spec fn icon_count_fits(n: int) -> bool {
    10 + 70 * (n / 8) <= i32::MAX
}

/// Whether the icon grid can lay out `n` files.
pub fn icon_grid_fits(n: usize) -> (r: bool)
    ensures
        r == icon_count_fits(n as int),
{
    n / 8 <= 30678337
}

proof fn lemma_grid_cell(col: int, row: int)
    requires
        0 <= col,
        0 <= row < 8,
    ensures
        (8 * col + row) / 8 == col,
        (8 * col + row) % 8 == row,
{
    vstd::arithmetic::div_mod::lemma_fundamental_div_mod_converse(8 * col + row, 8, col, row);
}

proof fn lemma_column_fits(n: int, col: int)
    requires
        0 <= col,
        8 * col <= n,
        icon_count_fits(n),
    ensures
        10 + 70 * col <= i32::MAX,
{
    vstd::arithmetic::div_mod::lemma_fundamental_div_mod(n, 8);
    assert(col <= n / 8) by (nonlinear_arith)
        requires
            8 * col <= n,
            n == 8 * (n / 8) + n % 8,
            0 <= n % 8 < 8,
    ;
}

/// The `i`-th file of the icon grid is drawn as two steps: its icon with
/// its top-left corner at (10 + 70 * (i / 8), 10 + 90 * (i % 8)), so that
/// every column of eight starts at the top row, and then its name in a
/// 64x20 box 64 pixels below the icon.
pub proof fn law_icon_grid_places(files: Seq<String>, graphic: Graphics, i: int)
    requires
        0 <= i < files.len(),
        icon_count_fits(files.len() as int),
    ensures
        icon_ops(files, graphic).len() == 2 * files.len(),
        icon_ops(files, graphic)[2 * i] == (DrawOp::Image {
            graphic,
            origin: Point { x: (10 + 70 * (i / 8)) as i32, y: (10 + 90 * (i % 8)) as i32 },
            image: Asset::File,
        }),
        icon_ops(files, graphic)[2 * i + 1] == (DrawOp::TextEdit {
            graphic: Graphics {
                size: Size { width: 64, height: 20 },
                point: Point { x: (10 + 70 * (i / 8)) as i32, y: (10 + 90 * (i % 8) + 64) as i32 },
            },
            text: files[i],
            color: white(),
        }),
    decreases files.len(),
{
    let n = files.len() - 1;
    vstd::arithmetic::div_mod::lemma_fundamental_div_mod(i, 8);
    if i < n {
        assert(icon_count_fits(n as int)) by {
            vstd::arithmetic::div_mod::lemma_div_is_ordered(n as int, files.len() as int, 8);
        }
        law_icon_grid_places(files.drop_last(), graphic, i);
        assert(files.drop_last()[i] == files[i]);
    } else {
        law_icon_grid_places_len(files.drop_last(), graphic);
    }
}

proof fn law_icon_grid_places_len(files: Seq<String>, graphic: Graphics)
    ensures
        icon_ops(files, graphic).len() == 2 * files.len(),
    decreases files.len(),
{
    if files.len() > 0 {
        law_icon_grid_places_len(files.drop_last(), graphic);
    }
}

/// The icon grid steps from one file to the next as a column walk: after an
/// icon in the bottom row (at or below y = 600) the next icon starts a new
/// column 70 pixels to the right at y = 10; otherwise it sits 90 pixels
/// lower in the same column.
pub proof fn law_icon_grid_next(files: Seq<String>, graphic: Graphics, i: int, p: Point)
    requires
        0 <= i,
        i + 1 < files.len(),
        icon_count_fits(files.len() as int),
        icon_ops(files, graphic)[2 * i] == (DrawOp::Image { graphic, origin: p, image: Asset::File }),
    ensures
        icon_ops(files, graphic)[2 * (i + 1)] == (DrawOp::Image {
            graphic,
            origin: if p.y >= 600 {
                Point { x: (p.x + 70) as i32, y: 10 }
            } else {
                Point { x: p.x, y: (p.y + 90) as i32 }
            },
            image: Asset::File,
        }),
{
    law_icon_grid_places(files, graphic, i);
    law_icon_grid_places(files, graphic, i + 1);
    let q = i / 8;
    let r = i % 8;
    vstd::arithmetic::div_mod::lemma_fundamental_div_mod(i, 8);
    if r == 7 {
        vstd::arithmetic::div_mod::lemma_fundamental_div_mod_converse(i + 1, 8, q + 1, 0);
        lemma_column_fits(files.len() as int, q + 1);
    } else {
        vstd::arithmetic::div_mod::lemma_fundamental_div_mod_converse(i + 1, 8, q, r + 1);
        lemma_column_fits(files.len() as int, q);
    }
}

/// Every file of the icon grid gets its own place: no two icons share a
/// top-left corner.
pub proof fn lemma_icon_origins_distinct(i: int, j: int)
    requires
        0 <= i < j,
        icon_count_fits(j + 1),
    ensures
        icon_origin(i) != icon_origin(j),
{
    vstd::arithmetic::div_mod::lemma_fundamental_div_mod(i, 8);
    vstd::arithmetic::div_mod::lemma_fundamental_div_mod(j, 8);
    lemma_column_fits(j + 1, j / 8);
    assert(0 <= i / 8 <= j / 8) by {
        vstd::arithmetic::div_mod::lemma_div_is_ordered(i, j, 8);
        vstd::arithmetic::div_mod::lemma_div_pos_is_pos(i, 8);
    }
    if i / 8 == j / 8 {
        assert(i % 8 != j % 8);
    }
}

impl IconController {
    /// The type invariant: every column the grid lays out has a position
    /// within the range of a coordinate.
    #[verifier::type_invariant]
    closed spec fn fits(self) -> bool {
        icon_count_fits(self.inner.files@.len() as int)
    }

    /// The files shown, in order.
    pub closed spec fn files(self) -> Seq<String> {
        self.inner.files@
    }

    /// The area of the grid.
    pub closed spec fn graphic(self) -> Graphics {
        self.inner.graphic
    }

    /// An icon grid for `files`, covering the whole screen.
    pub fn new(files: Vec<String>) -> (c: IconController)
        requires
            icon_count_fits(files@.len() as int),
        ensures
            c.files() == files@,
            c.graphic() == (Graphics {
                size: Size { width: VIRTGPU_XRES, height: VIRTGPU_YRES },
                point: Point { x: 0, y: 0 },
            }),
    {
        IconController {
            inner: IconControllerInner {
                files,
                graphic: Graphics::new(Size::new(VIRTGPU_XRES, VIRTGPU_YRES), Point::new(0, 0)),
            },
        }
    }

    /// Draws, for each file in order, its icon at its place in the grid and
    /// its name below the icon.
    pub fn paint(&self) -> (ops: Vec<DrawOp>)
        ensures
            ops@ == painted(Component::Icons(*self)),
            ops@ == icon_ops(self.files(), self.graphic()),
            ops@.len() == 2 * self.files().len(),
            forall|i: int|
                0 <= i < self.files().len() ==> #[trigger] ops@[2 * i] == (DrawOp::Image {
                    graphic: self.graphic(),
                    origin: Point { x: (10 + 70 * (i / 8)) as i32, y: (10 + 90 * (i % 8)) as i32 },
                    image: Asset::File,
                }),
    {
        proof {
            use_type_invariant(self);
        }
        let mut ops: Vec<DrawOp> = Vec::new();
        let n = self.inner.files.len();
        let mut x: i32 = 10;
        let mut y: i32 = 10;
        let ghost mut col: int = 0;
        let ghost mut row: int = 0;
        let mut i: usize = 0;
        while i < n
            invariant
                n == self.inner.files@.len(),
                icon_count_fits(n as int),
                i <= n,
                0 <= col,
                0 <= row < 8,
                i == 8 * col + row,
                x == 10 + 70 * col,
                y == 10 + 90 * row,
                ops@ == icon_ops(self.inner.files@.take(i as int), self.inner.graphic),
            decreases n - i,
        {
            proof {
                lemma_grid_cell(col, row);
                assert(self.inner.files@.take(i + 1).drop_last() =~= self.inner.files@.take(
                    i as int,
                ));
            }
            let file = self.inner.files[i].clone();
            ops.push(DrawOp::Image { graphic: self.inner.graphic, origin: Point::new(x, y), image: Asset::File });
            ops.push(
                DrawOp::TextEdit {
                    graphic: Graphics::new(Size::new(64, 20), Point::new(x, y + 64)),
                    text: file,
                    color: Color::white(),
                },
            );
            if y >= 600 {
                proof {
                    lemma_column_fits(n as int, col + 1);
                    col = col + 1;
                    row = 0;
                }
                x = x + 70;
                y = 10;
            } else {
                proof {
                    row = row + 1;
                }
                y = y + 90;
            }
            i = i + 1;
        }
        assert(self.inner.files@.take(n as int) =~= self.inner.files@);
        proof {
            law_icon_grid_places_len(self.inner.files@, self.inner.graphic);
            assert forall|i: int| 0 <= i < self.inner.files@.len() implies #[trigger] ops@[2 * i] == (DrawOp::Image {
                graphic: self.inner.graphic,
                origin: Point { x: (10 + 70 * (i / 8)) as i32, y: (10 + 90 * (i % 8)) as i32 },
                image: Asset::File,
            }) by {
                law_icon_grid_places(self.inner.files@, self.inner.graphic, i);
            }
        }
        ops
    }
}

/// The area of the `k`-th button of the title bar of a window of `size` at
/// `point`, counting from the right: each button is 16x16, the first ends
/// at the window's right edge, and the buttons are 4 pixels apart.
pub open spec fn title_button_area(size: Size, point: Point, k: int) -> Graphics {
    Graphics {
        size: Size { width: TITLE_ICON_WH as u32, height: TITLE_ICON_WH as u32 },
        point: Point {
            x: (point.x + width_as_i32(size.width) - TITLE_ICON_WH * k - TITLE_ICON_SPACE * (k
                - 1)) as i32,
            y: (point.y - TITLE_BAR_HEIGHT + 2) as i32,
        },
    }
}

/// The area of the title bar of a window of `size` at `point`: as wide as
/// the window and directly above it.
pub open spec fn title_bar_area(size: Size, point: Point) -> Graphics {
    Graphics {
        size: Size { width: size.width, height: TITLE_BAR_HEIGHT as u32 },
        point: Point { x: point.x, y: (point.y - TITLE_BAR_HEIGHT) as i32 },
    }
}

/// Whether `c` is an image widget showing `image` in `graphic`.
pub open spec fn is_image(c: Component, graphic: Graphics, image: Asset) -> bool {
    c is Image && c->Image_0.graphic() == graphic && c->Image_0.image() == image
}

/// Whether a window of `size` at `point` has its title bar and its buttons
/// within the range of coordinates.
pub open spec fn window_fits(size: Size, point: Point) -> bool {
    &&& point.y - TITLE_BAR_HEIGHT >= i32::MIN
    &&& point.x + width_as_i32(size.width) <= i32::MAX
    &&& point.x + width_as_i32(size.width) - TITLE_ICON_WH * 3 - TITLE_ICON_SPACE * 2 >= i32::MIN
}

/// The buttons of a window's title bar sit side by side from its right
/// edge leftwards: the first ends at the window's right edge, each is 16
/// pixels wide, and the next starts 4 pixels to the left of it, all on one
/// row 2 pixels below the top of the title bar.
pub proof fn lemma_title_buttons_adjacent(size: Size, point: Point, k: int)
    requires
        window_fits(size, point),
        1 <= k < 3,
    ensures
        title_button_area(size, point, 1).point.x + 16 == point.x + width_as_i32(size.width),
        title_button_area(size, point, k + 1).point.x + 16 + 4 == title_button_area(
            size,
            point,
            k,
        ).point.x,
        title_button_area(size, point, k).size == (Size { width: 16, height: 16 }),
        title_button_area(size, point, k + 1).point.y == title_button_area(size, point, k).point.y,
        title_button_area(size, point, k).point.y == point.y - 18,
        title_bar_area(size, point) == (Graphics {
            size: Size { width: size.width, height: 20 },
            point: Point { x: point.x, y: (point.y - 20) as i32 },
        }),
{
}

/// One step in the life of a window: `b` is `a` renamed, `a` with one more
/// widget added, or `a` unchanged (as painting and asking for its bounds
/// leave it). In every case the window keeps its area.
pub open spec fn window_step(a: Windows, b: Windows) -> bool {
    &&& b.graphic() == a.graphic()
    &&& {
        ||| b.children() == a.children()
        ||| exists|c: Component| b.children() == a.children().push(c) && b.name() == a.name()
    }
}

/// A window keeps its size and position over any sequence of renames,
/// additions and paints: the first and the last of a run of windows, each a
/// step from the one before, have the same area.
pub proof fn lemma_window_area_stable(ws: Seq<Windows>)
    requires
        ws.len() > 0,
        forall|i: int| 0 <= i < ws.len() - 1 ==> window_step(#[trigger] ws[i], ws[i + 1]),
    ensures
        ws.last().graphic() == ws[0].graphic(),
        forall|i: int| 0 <= i < ws.len() ==> (#[trigger] ws[i]).graphic() == ws[0].graphic(),
    decreases ws.len(),
{
    if ws.len() > 1 {
        let front = ws.drop_last();
        assert forall|i: int| 0 <= i < front.len() - 1 implies window_step(#[trigger] front[i], front[i + 1]) by {
            assert(window_step(ws[i], ws[i + 1]));
        }
        lemma_window_area_stable(front);
        assert(window_step(ws[ws.len() - 2], ws[ws.len() - 1]));
        assert forall|i: int| 0 <= i < ws.len() implies (#[trigger] ws[i]).graphic() == ws[0].graphic() by {
            if i < ws.len() - 1 {
                assert(front[i] == ws[i]);
            }
        }
    }
}

impl Windows {
    /// The type invariant: the title bar lies within the range of coordinates.
    #[verifier::type_invariant]
    closed spec fn fits(self) -> bool {
        self.inner.graphic.point.y - TITLE_BAR_HEIGHT >= i32::MIN
    }

    /// The window's name.
    pub closed spec fn name(self) -> Seq<char> {
        self.inner.name@
    }

    /// The widgets of the window, in painting order.
    pub closed spec fn children(self) -> Seq<Component> {
        self.inner.component@
    }

    /// The area of the window below its title bar.
    pub closed spec fn graphic(self) -> Graphics {
        self.inner.graphic
    }

    /// A window of `size` at `point`, with no name. Its widgets are its
    /// title bar, holding the minimize, close and maximize buttons in that
    /// order, and then an empty white panel covering the window.
    pub fn new(size: Size, point: Point) -> (w: Windows)
        requires
            window_fits(size, point),
        ensures
            w.name() == Seq::<char>::empty(),
            w.graphic() == (Graphics { size, point }),
            w.children().len() == 2,
            w.children()[0] is Bar,
            w.children()[0]->Bar_0.graphic() == title_bar_area(size, point),
            w.children()[0]->Bar_0.children().len() == 3,
            is_image(
                w.children()[0]->Bar_0.children()[0],
                title_button_area(size, point, 3),
                Asset::Minimize,
            ),
            is_image(
                w.children()[0]->Bar_0.children()[1],
                title_button_area(size, point, 1),
                Asset::Close,
            ),
            is_image(
                w.children()[0]->Bar_0.children()[2],
                title_button_area(size, point, 2),
                Asset::Maximize,
            ),
            w.children()[1] is Panel,
            w.children()[1]->Panel_0.graphic() == (Graphics { size, point }),
            w.children()[1]->Panel_0.back_color() == white(),
            w.children()[1]->Panel_0.children() == Seq::<Component>::empty(),
            painted(Component::Windows(w)).len() == 5,
            painted(Component::Windows(w))[0] == image_op(
                title_button_area(size, point, 3),
                Asset::Minimize,
            ),
            painted(Component::Windows(w))[1] == image_op(title_button_area(size, point, 1), Asset::Close),
            painted(Component::Windows(w))[2] == image_op(
                title_button_area(size, point, 2),
                Asset::Maximize,
            ),
            painted(Component::Windows(w))[3] == fill_op(Graphics { size, point }, white()),
            painted(Component::Windows(w))[4] matches DrawOp::Title { graphic, origin, text, color }
                && graphic == title_area(Graphics { size, point }) && origin == (Point { x: 0, y: 0 })
                && text@ == Seq::<char>::empty() && color == black(),
    {
        let bar_size = Size::new(size.width, TITLE_BAR_HEIGHT as u32);
        let bar_point = Point::new(point.x, point.y - TITLE_BAR_HEIGHT);
        let mut bar = Bar::new(bar_size, bar_point);
        let width = size.width as i32;
        let close_img = ImageComp::new(
            Size::new(TITLE_ICON_WH as u32, TITLE_ICON_WH as u32),
            Point::new(point.x + width - TITLE_ICON_WH, point.y - TITLE_BAR_HEIGHT + 2),
            Asset::Close,
        );
        let max_img = ImageComp::new(
            Size::new(TITLE_ICON_WH as u32, TITLE_ICON_WH as u32),
            Point::new(
                point.x + width - TITLE_ICON_WH * 2 - TITLE_ICON_SPACE,
                point.y - TITLE_BAR_HEIGHT + 2,
            ),
            Asset::Maximize,
        );
        let min_img = ImageComp::new(
            Size::new(TITLE_ICON_WH as u32, TITLE_ICON_WH as u32),
            Point::new(
                point.x + width - TITLE_ICON_WH * 3 - TITLE_ICON_SPACE * 2,
                point.y - TITLE_BAR_HEIGHT + 2,
            ),
            Asset::Minimize,
        );
        bar.add(Component::Image(min_img));
        bar.add(Component::Image(close_img));
        bar.add(Component::Image(max_img));
        let windows = Panel::new(size, point);
        let mut component: Vec<Component> = Vec::new();
        component.push(Component::Bar(bar));
        component.push(Component::Panel(windows));
        let w = Windows {
            inner: WindowsInner { name: String::new(), component, graphic: Graphics::new(size, point) },
        };
        proof {
            let cs = w.inner.component@;
            lemma_painted_all_push(seq![cs[0]], cs[1]);
            lemma_painted_all_push(Seq::empty(), cs[0]);
            assert(seq![cs[0]] =~= Seq::<Component>::empty().push(cs[0]));
            assert(cs =~= seq![cs[0]].push(cs[1]));
            assert(painted_all(Seq::<Component>::empty()) == Seq::<DrawOp>::empty());
        }
        w
    }

    /// Gives the window `name`.
    pub fn with_name(&mut self, name: &str) -> (r: &Self)
        ensures
            *r == *final(self),
            window_step(*old(self), *final(self)),
            final(self).name() == name@,
            final(self).graphic() == old(self).graphic(),
            final(self).children() == old(self).children(),
            painted(Component::Windows(*final(self))).len() == painted(
                Component::Windows(*old(self)),
            ).len(),
            painted(Component::Windows(*final(self))).drop_last() == painted(
                Component::Windows(*old(self)),
            ).drop_last(),
            painted(Component::Windows(*final(self))).last() matches DrawOp::Title {
                graphic,
                origin,
                text,
                color,
            } && graphic == title_area(old(self).graphic()) && origin == (Point { x: 0, y: 0 })
                && text@ == name@ && color == black(),
    {
        proof {
            use_type_invariant(&*self);
        }
        let mut new_name = name.to_owned();
        std::mem::swap(&mut new_name, &mut self.inner.name);
        proof {
            lemma_painted_windows(*old(self));
            lemma_painted_windows(*self);
        }
        self
    }

    /// Adds `comp` after the window's widgets; it is painted before the
    /// window's name.
    pub fn add(&mut self, comp: Component)
        ensures
            window_step(*old(self), *final(self)),
            final(self).name() == old(self).name(),
            final(self).graphic() == old(self).graphic(),
            final(self).children() == old(self).children().push(comp),
            painted(Component::Windows(*final(self))) == painted(
                Component::Windows(*old(self)),
            ).drop_last() + painted(comp) + seq![painted(Component::Windows(*old(self))).last()],
    {
        proof {
            use_type_invariant(&*self);
        }
        let mut component: Vec<Component> = Vec::new();
        std::mem::swap(&mut component, &mut self.inner.component);
        component.push(comp);
        std::mem::swap(&mut component, &mut self.inner.component);
        proof {
            lemma_painted_all_push(old(self).inner.component@, comp);
            let before = painted(Component::Windows(*old(self)));
            assert(before.drop_last() =~= painted_all(old(self).inner.component@));
        }
    }

    /// The size and position of the window below its title bar.
    pub fn bound(&self) -> (r: (Size, Point))
        ensures
            r == (self.graphic().size, self.graphic().point),
    {
        (self.inner.graphic.size, self.inner.graphic.point)
    }

    /// Paints the window's widgets in order, then writes the window's name
    /// over the title bar.
    pub fn paint(&self) -> (ops: Vec<DrawOp>)
        ensures
            ops@ == painted(Component::Windows(*self)),
        decreases self,
    {
        proof {
            use_type_invariant(self);
            lemma_windows_smaller(*self);
        }
        let gra = Graphics::new(
            Size::new(100, 20),
            Point::new(self.inner.graphic.point.x, self.inner.graphic.point.y - TITLE_BAR_HEIGHT),
        );
        let mut ops = paint_children(&self.inner.component);
        ops.push(
            DrawOp::Title {
                graphic: gra,
                origin: Point::new(0, 0),
                text: self.inner.name.clone(),
                color: Color::black(),
            },
        );
        ops
    }
}

/// The desktop: a white panel covering the screen, holding the wallpaper
/// and, over it, the icon grid for `files`.
pub fn desktop_panel(files: Vec<String>) -> (p: Panel)
    requires
        icon_count_fits(files@.len() as int),
    ensures
        p.graphic() == (Graphics {
            size: Size { width: VIRTGPU_XRES, height: VIRTGPU_YRES },
            point: Point { x: 0, y: 0 },
        }),
        p.back_color() == white(),
        p.children().len() == 2,
        is_image(p.children()[0], p.graphic(), Asset::Desktop),
        p.children()[1] is Icons,
        p.children()[1]->Icons_0.files() == files@,
        p.children()[1]->Icons_0.graphic() == p.graphic(),
        painted(Component::Panel(p)) == seq![
            fill_op(p.graphic(), white()),
            image_op(p.graphic(), Asset::Desktop),
        ] + icon_ops(files@, p.graphic()),
{
    let size = Size::new(VIRTGPU_XRES, VIRTGPU_YRES);
    let mut p = Panel::new(size, Point::new(0, 0));
    let image = ImageComp::new(size, Point::new(0, 0), Asset::Desktop);
    let icon = IconController::new(files);
    p.add(Component::Image(image));
    p.add(Component::Icons(icon));
    p
}

/// The area of the menu button of the desktop bar.
pub open spec fn menu_area() -> Graphics {
    Graphics { size: Size { width: 48, height: 48 }, point: Point { x: 0, y: 752 } }
}

/// The area of the clock of the desktop bar: 100x48, placed
/// `VIRTGPU_XRES - 100` across and at the top row.
pub open spec fn clock_area() -> Graphics {
    Graphics {
        size: Size { width: 100, height: 48 },
        point: Point { x: (VIRTGPU_XRES - 100) as i32, y: 0 },
    }
}

/// The desktop bar: a 48-pixel strip along the bottom of the screen holding
/// the 48x48 menu button at its left end and then a clock button showing
/// `time`.
pub fn desktop_bar(time: String) -> (b: Bar)
    ensures
        b.graphic() == (Graphics {
            size: Size { width: VIRTGPU_XRES, height: 48 },
            point: Point { x: 0, y: 752 },
        }),
        b.children().len() == 2,
        is_image(b.children()[0], menu_area(), Asset::Menu),
        b.children()[1] is Button,
        b.children()[1]->Button_0.graphic() == clock_area(),
        b.children()[1]->Button_0.text() == time@,
        painted(Component::Bar(b)).len() == 2,
        painted(Component::Bar(b))[0] == image_op(menu_area(), Asset::Menu),
        painted(Component::Bar(b))[1] matches DrawOp::Button { graphic, text } && graphic
            == clock_area() && text@ == time@,
{
    let mut bar = Bar::new(Size::new(VIRTGPU_XRES, 48), Point::new(0, 752));
    let img = ImageComp::new(Size::new(48, 48), bar.bound().1, Asset::Menu);
    bar.add(Component::Image(img));
    let time_button = Button::new(Size::new(100, 48), Point::new(VIRTGPU_XRES as i32 - 100, 0), time);
    bar.add(Component::Button(time_button));
    bar
}

} // verus!
