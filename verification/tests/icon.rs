use pciewatch::icon::{icon, ICON_SIZE};
use pciewatch::level::Level;

fn pixel(rgba: &[u8], x: usize, y: usize) -> [u8; 4] {
    let i = (y * ICON_SIZE as usize + x) * 4;
    [rgba[i], rgba[i + 1], rgba[i + 2], rgba[i + 3]]
}

#[test]
fn levels_have_their_colors() {
    assert_eq!(Level::Normal.color(), (86, 198, 108));
    assert_eq!(Level::Warn.color(), (255, 183, 3));
    assert_eq!(Level::Degraded.color(), (255, 138, 0));
    assert_eq!(Level::Lost.color(), (239, 65, 58));
}

#[test]
fn every_pixel_matches_the_geometry() {
    for level in [Level::Normal, Level::Warn, Level::Degraded, Level::Lost] {
        let rgba = icon(level);
        assert_eq!(rgba.len(), 32 * 32 * 4);
        let (r, g, b) = level.color();
        let c = 15.0f32;
        let rad = 9.0f32;
        for y in 0..32usize {
            for x in 0..32usize {
                let ax = (x as f32 - c).abs();
                let ay = (y as f32 - c).abs();
                let mut inside = ax <= c && ay <= c;
                if ax > c - rad && ay > c - rad {
                    let dx = ax - (c - rad);
                    let dy = ay - (c - rad);
                    inside = dx * dx + dy * dy <= rad * rad;
                }
                let want = if inside { [r, g, b, 255] } else { [0; 4] };
                assert_eq!(pixel(&rgba, x, y), want);
            }
        }
    }
}

#[test]
fn corners_are_clear_and_centre_is_not() {
    let rgba = icon(Level::Warn);
    for (x, y) in [(0, 0), (31, 0), (0, 31), (31, 31), (30, 30), (30, 0)] {
        assert_eq!(pixel(&rgba, x, y), [0; 4]);
    }
    assert_eq!(pixel(&rgba, 15, 15), [255, 183, 3, 255]);
    assert_eq!(pixel(&rgba, 0, 15), [255, 183, 3, 255]);
    assert_eq!(pixel(&rgba, 30, 15), [255, 183, 3, 255]);
}

#[test]
fn square_is_symmetric() {
    let rgba = icon(Level::Lost);
    for y in 0..31 {
        for x in 0..31 {
            assert_eq!(pixel(&rgba, x, y), pixel(&rgba, y, x));
            assert_eq!(pixel(&rgba, x, y), pixel(&rgba, 30 - x, y));
        }
    }
}
