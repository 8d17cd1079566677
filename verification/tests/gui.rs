use rcore_gui::draw::{Asset, DrawOp};
use rcore_gui::geometry::{Color, Graphics, Point, Size};
use rcore_gui::gui::{desktop_panel, icon_grid_fits, Bar, Button, Component, IconController, ImageComp, Panel, Windows};

fn g(w: u32, h: u32, x: i32, y: i32) -> Graphics {
    Graphics::new(Size::new(w, h), Point::new(x, y))
}

fn image(graphic: Graphics, image: Asset) -> DrawOp {
    DrawOp::Image { graphic, origin: Point::new(0, 0), image }
}

fn fill(graphic: Graphics, color: Color) -> DrawOp {
    DrawOp::FillRect { graphic, origin: Point::new(0, 0), size: graphic.size, color }
}

fn title(graphic: Graphics, text: &str) -> DrawOp {
    DrawOp::Title { graphic, origin: Point::new(0, 0), text: text.to_string(), color: Color::black() }
}

#[test]
fn new_window_paints_bar_panel_and_title() {
    let w = Windows::new(Size::new(500, 500), Point::new(40, 40));
    let ops = w.paint();
    assert_eq!(
        ops,
        vec![
            image(g(16, 16, 40 + 500 - 56, 22), Asset::Minimize),
            image(g(16, 16, 40 + 500 - 16, 22), Asset::Close),
            image(g(16, 16, 40 + 500 - 36, 22), Asset::Maximize),
            fill(g(500, 500, 40, 40), Color::white()),
            title(g(100, 20, 40, 20), ""),
        ]
    );
    assert_eq!(w.bound(), (Size::new(500, 500), Point::new(40, 40)));
}

#[test]
fn named_windows_write_their_name() {
    let mut w = Windows::new(Size::new(500, 500), Point::new(40, 40));
    let ops = w.with_name("windows").paint();
    assert_eq!(ops.len(), 5);
    assert_eq!(ops[4], title(g(100, 20, 40, 20), "windows"));
    let mut w1 = Windows::new(Size::new(500, 500), Point::new(500, 200));
    let ops1 = w1.with_name("Terminal").paint();
    assert_eq!(ops1[0], image(g(16, 16, 944, 182), Asset::Minimize));
    assert_eq!(ops1[4], title(g(100, 20, 500, 180), "Terminal"));
}

#[test]
fn renaming_keeps_the_window_in_place() {
    let mut w = Windows::new(Size::new(300, 200), Point::new(10, 30));
    w.with_name("a");
    w.with_name("b");
    assert_eq!(w.bound(), (Size::new(300, 200), Point::new(10, 30)));
    assert_eq!(w.paint()[4], title(g(100, 20, 10, 10), "b"));
}

#[test]
fn window_add_paints_before_the_title() {
    let mut w = Windows::new(Size::new(100, 100), Point::new(0, 20));
    let before = w.paint();
    w.add(Component::Image(ImageComp::new(Size::new(10, 10), Point::new(5, 25), Asset::Menu)));
    let after = w.paint();
    assert_eq!(after.len(), before.len() + 1);
    assert_eq!(after[4], image(g(10, 10, 5, 25), Asset::Menu));
    assert_eq!(after[5], before[4]);
}

#[test]
fn panel_fills_then_paints_children_in_order() {
    let mut p = Panel::new(Size::new(30, 40), Point::new(1, 2)).with_color(Color::black());
    assert_eq!(p.paint(), vec![fill(g(30, 40, 1, 2), Color::black())]);
    p.add(Component::Image(ImageComp::new(Size::new(3, 4), Point::new(5, 6), Asset::File)));
    p.add(Component::Image(ImageComp::new(Size::new(7, 8), Point::new(9, 10), Asset::Close)));
    assert_eq!(
        p.paint(),
        vec![
            fill(g(30, 40, 1, 2), Color::black()),
            image(g(3, 4, 5, 6), Asset::File),
            image(g(7, 8, 9, 10), Asset::Close),
        ]
    );
    assert_eq!(p.bound(), (Size::new(30, 40), Point::new(1, 2)));
}

#[test]
fn new_panel_is_white() {
    let p = Panel::new(Size::new(2, 2), Point::new(0, 0));
    assert_eq!(p.paint(), vec![fill(g(2, 2, 0, 0), Color::white())]);
}

#[test]
fn bar_paints_only_its_children() {
    let mut b = Bar::new(Size::new(1280, 48), Point::new(0, 752));
    assert_eq!(b.paint(), vec![]);
    let pos = b.bound().1;
    b.add(Component::Image(ImageComp::new(Size::new(48, 48), pos, Asset::Menu)));
    assert_eq!(b.paint(), vec![image(g(48, 48, 0, 752), Asset::Menu)]);
    assert_eq!(b.bound(), (Size::new(1280, 48), Point::new(0, 752)));
}

#[test]
fn nested_components_paint_depth_first() {
    let mut inner = Component::Panel(Panel::new(Size::new(10, 10), Point::new(1, 1)));
    inner.add(Component::Image(ImageComp::new(Size::new(2, 2), Point::new(3, 3), Asset::File)));
    let mut outer = Component::Bar(Bar::new(Size::new(50, 50), Point::new(0, 0)));
    outer.add(inner);
    outer.add(Component::Image(ImageComp::new(Size::new(4, 4), Point::new(6, 6), Asset::Close)));
    assert_eq!(
        outer.paint(),
        vec![
            fill(g(10, 10, 1, 1), Color::white()),
            image(g(2, 2, 3, 3), Asset::File),
            image(g(4, 4, 6, 6), Asset::Close),
        ]
    );
    assert_eq!(outer.bound(), (Size::new(50, 50), Point::new(0, 0)));
}

#[test]
fn image_paints_at_its_corner() {
    let i = ImageComp::new(Size::new(16, 16), Point::new(7, 9), Asset::Maximize);
    assert_eq!(i.paint(), vec![image(g(16, 16, 7, 9), Asset::Maximize)]);
    assert_eq!(i.bound(), (Size::new(16, 16), Point::new(7, 9)));
}

#[test]
fn icons_fill_columns_of_eight() {
    let files: Vec<String> = (0..10).map(|i| format!("f{}", i)).collect();
    let ic = IconController::new(files);
    let ops = ic.paint();
    assert_eq!(ops.len(), 20);
    let screen = g(1280, 800, 0, 0);
    let expected = [
        (10, 10), (10, 100), (10, 190), (10, 280), (10, 370), (10, 460), (10, 550), (10, 640),
        (80, 10), (80, 100),
    ];
    for (i, (x, y)) in expected.iter().enumerate() {
        assert_eq!(
            ops[2 * i],
            DrawOp::Image { graphic: screen, origin: Point::new(*x, *y), image: Asset::File }
        );
        assert_eq!(
            ops[2 * i + 1],
            DrawOp::TextEdit { graphic: g(64, 20, *x, *y + 64), text: format!("f{}", i), color: Color::white() }
        );
    }
}

#[test]
fn empty_icon_grid_paints_nothing() {
    let ic = IconController::new(Vec::new());
    assert_eq!(ic.paint(), vec![]);
}

#[test]
fn desktop_shows_wallpaper_then_icons() {
    let p = desktop_panel(vec!["initproc".to_string(), "snake".to_string()]);
    let ops = p.paint();
    let screen = g(1280, 800, 0, 0);
    assert_eq!(ops.len(), 6);
    assert_eq!(ops[0], fill(screen, Color::white()));
    assert_eq!(ops[1], image(screen, Asset::Desktop));
    assert_eq!(ops[2], DrawOp::Image { graphic: screen, origin: Point::new(10, 10), image: Asset::File });
    assert_eq!(ops[5], DrawOp::TextEdit { graphic: g(64, 20, 10, 164), text: "snake".to_string(), color: Color::white() });
    assert_eq!(p.bound(), (Size::new(1280, 800), Point::new(0, 0)));
}

#[test]
fn icon_grid_limit() {
    assert!(icon_grid_fits(0));
    assert!(icon_grid_fits(8 * 30678337 + 7));
    assert!(!icon_grid_fits(8 * 30678338));
}

#[test]
fn adding_through_the_component_keeps_the_title_last() {
    let mut c = Component::Windows(Windows::new(Size::new(50, 50), Point::new(0, 100)));
    c.add(Component::Panel(Panel::new(Size::new(5, 5), Point::new(1, 101))));
    let ops = c.paint();
    assert_eq!(ops.len(), 6);
    assert_eq!(ops[4], fill(g(5, 5, 1, 101), Color::white()));
    assert_eq!(ops[5], title(g(100, 20, 0, 80), ""));
    assert_eq!(c.bound(), (Size::new(50, 50), Point::new(0, 100)));
}

#[test]
fn desktop_bar_holds_the_menu_and_the_clock() {
    let b = rcore_gui::gui::desktop_bar("2024-05-01 12:00:00".to_string());
    assert_eq!(b.bound(), (Size::new(1280, 48), Point::new(0, 752)));
    assert_eq!(
        b.paint(),
        vec![
            image(g(48, 48, 0, 752), Asset::Menu),
            DrawOp::Button { graphic: g(100, 48, 1180, 0), text: "2024-05-01 12:00:00".to_string() },
        ]
    );
}

#[test]
fn button_paints_its_text() {
    let b = Button::new(Size::new(30, 10), Point::new(4, 5), "ok".to_string());
    assert_eq!(b.bound(), (Size::new(30, 10), Point::new(4, 5)));
    assert_eq!(b.paint(), vec![DrawOp::Button { graphic: g(30, 10, 4, 5), text: "ok".to_string() }]);
    let c = Component::Button(b);
    assert_eq!(c.bound(), (Size::new(30, 10), Point::new(4, 5)));
    assert_eq!(c.paint().len(), 1);
}

#[test]
fn renaming_changes_only_the_title() {
    let mut w = Windows::new(Size::new(200, 100), Point::new(10, 50));
    let before = w.paint();
    let after = w.with_name("Terminal").paint();
    assert_eq!(after.len(), before.len());
    assert_eq!(after[..4], before[..4]);
    assert_eq!(after[4], title(g(100, 20, 10, 30), "Terminal"));
}

#[test]
fn panel_counts_its_children() {
    let mut p = desktop_panel(vec![]);
    assert_eq!(p.children_count(), 2);
    p.add(Component::Bar(rcore_gui::gui::desktop_bar("t".to_string())));
    assert_eq!(p.children_count(), 3);
}

#[test]
fn window_keeps_its_area_through_renames_adds_and_paints() {
    let mut w = Windows::new(Size::new(320, 240), Point::new(60, 80));
    for i in 0..5 {
        w.with_name(&format!("w{}", i));
        w.add(Component::Image(ImageComp::new(Size::new(8, 8), Point::new(i, i), Asset::File)));
        let _ = w.paint();
        assert_eq!(w.bound(), (Size::new(320, 240), Point::new(60, 80)));
    }
    assert_eq!(w.paint().len(), 10);
}
