use shooter::collider::{collider_bounds, AlphaMask, ColliderBounds, SearchRect};
use shooter::color::HexColor;
use shooter::drops::{Asteroid, DropCount, Drops};
use shooter::sprites::{cell_rect, Cell, CellSize, PixelRect, Tilt, TiltSprite};

#[test]
fn hex_color_channels() {
    assert_eq!(HexColor(0xfff540).channels(), (0xff, 0xf5, 0x40));
    assert_eq!(HexColor(0x3dff6e).channels(), (0x3d, 0xff, 0x6e));
    assert_eq!(HexColor(0xAB123456).channels(), (0x12, 0x34, 0x56));
}

#[test]
fn cell_rects() {
    assert_eq!(
        cell_rect(CellSize::Sixteen, 1, 4),
        PixelRect { min_x: 16, min_y: 64, max_x: 32, max_y: 80 }
    );
    assert_eq!(
        cell_rect(CellSize::TwentyFour, 2, 1),
        PixelRect { min_x: 48, min_y: 24, max_x: 72, max_y: 48 }
    );
    let tilt = TiltSprite {
        size: CellSize::Eight,
        left: Cell { x: 0, y: 0 },
        center: Cell { x: 1, y: 0 },
        right: Cell { x: 2, y: 0 },
    };
    assert_eq!(tilt.rect(Tilt::Right), PixelRect { min_x: 16, min_y: 0, max_x: 24, max_y: 8 });
    assert_eq!(tilt.rect(Tilt::Center).min_x, 8);
}

fn mask(rows: &[&str]) -> AlphaMask {
    AlphaMask { rows: rows.iter().map(|r| r.chars().map(|c| c == '#').collect()).collect() }
}

#[test]
fn collider_around_opaque_pixels() {
    let m = mask(&["....", ".##.", ".#..", "...."]);
    let r = SearchRect { min_x: 0, min_y: 0, max_x: 4, max_y: 4 };
    let b = collider_bounds(&m, r, false, false);
    assert_eq!(b, ColliderBounds { min_x: 1, max_x: 2, max_y: 1, min_y: -2 });
    assert_eq!(b.size(), (1, 3));
    let f = collider_bounds(&m, r, true, true);
    assert_eq!(f, ColliderBounds { min_x: 2, max_x: 1, max_y: -2, min_y: 1 });
    assert_eq!(f.size(), (1, 3));
}

#[test]
fn collider_of_transparent_image_is_empty() {
    let m = mask(&["..", ".."]);
    let r = SearchRect { min_x: 0, min_y: 0, max_x: 2, max_y: 2 };
    assert_eq!(collider_bounds(&m, r, false, false).size(), (0, 0));
}

#[test]
fn collider_within_search_rect() {
    let m = mask(&["#.......", "........", "....#...", "........"]);
    let r = SearchRect { min_x: 2, min_y: 1, max_x: 8, max_y: 4 };
    let b = collider_bounds(&m, r, false, false);
    assert_eq!(b, ColliderBounds { min_x: 2, max_x: 2, max_y: 1, min_y: -1 });
}

#[test]
fn drop_counts() {
    assert_eq!(DropCount::Static(3).count(), 3);
    for _ in 0..50 {
        let n = DropCount::Range(2, 5).count();
        assert!((2..5).contains(&n));
    }
    let d = Drops::splat(DropCount::Static(6));
    assert_eq!(d.roll(), (6, 6));
    let d = Drops::new(DropCount::Static(1), DropCount::Range(0, 1));
    assert_eq!(d.roll(), (1, 0));
}

#[test]
fn ranged_drops_are_drawn_at_random() {
    let draws: Vec<usize> = (0..100).map(|_| DropCount::Range(10, 1_000_010).count()).collect();
    assert!(draws.iter().all(|n| (10..1_000_010).contains(n)));
    let first = draws[0];
    assert!(draws.iter().any(|n| *n != first));
}

#[test]
fn asteroid_clusters() {
    assert_eq!(Asteroid::Big.cluster(), (10, 0));
    assert_eq!(Asteroid::Small.cluster(), (5, 0));
}
