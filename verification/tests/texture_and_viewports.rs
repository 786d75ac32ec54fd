use xrloop::session::Layer;
use xrloop::stereo::{layer_viewports, stereo_viewports, Viewport};
use xrloop::texture::uv_debug_texture_data;

const PALETTE: [u8; 32] = [
    255, 102, 159, 255, 255, 159, 102, 255, 236, 255, 102, 255, 121, 255, 102, 255, 102, 255,
    198, 255, 102, 198, 255, 255, 121, 102, 255, 255, 236, 102, 255, 255,
];

#[test]
fn texture_first_row_is_the_palette() {
    let data = uv_debug_texture_data();
    assert_eq!(data.len(), 256);
    assert_eq!(&data[0..32], &PALETTE);
}

#[test]
fn texture_rows_rotate_right_one_pixel() {
    let data = uv_debug_texture_data();
    // The second row starts with the palette's last pixel.
    assert_eq!(&data[32..36], &[236, 102, 255, 255]);
    // Row y, byte j equals palette byte (j - 4*y) mod 32.
    for y in 0..8usize {
        for j in 0..32usize {
            assert_eq!(data[y * 32 + j], PALETTE[(j + 28 * y) % 32]);
        }
    }
    // A spot value: row 7, byte 8.
    assert_eq!(data[7 * 32 + 8], 121);
}

#[test]
fn stereo_split_even_width() {
    let (left, right) = stereo_viewports(1000, 800);
    assert_eq!(left, Viewport { x: 0, y: 0, width: 500, height: 800 });
    assert_eq!(right, Viewport { x: 500, y: 0, width: 500, height: 800 });
}

#[test]
fn stereo_split_odd_width() {
    let (left, right) = stereo_viewports(7, 5);
    assert_eq!(left, Viewport { x: 0, y: 0, width: 3, height: 5 });
    assert_eq!(right, Viewport { x: 3, y: 0, width: 3, height: 5 });
    assert!(right.x + right.width <= 7);
}

#[test]
fn viewports_from_layer() {
    let layer = Layer { id: 1, framebuffer_width: 2048, framebuffer_height: 1024 };
    let (left, right) = layer_viewports(&layer);
    assert_eq!(left.width, 1024);
    assert_eq!(right.x, 1024);
    assert_eq!(left.height, 1024);
}
