use pds_project::canvas_to_pixels::{
    composite_over, crop_buffer, draw_on_buffer, CropRect, PixelBuffer,
};

fn buffer(width: u32, height: u32, pixels: &[[u8; 4]]) -> PixelBuffer {
    let mut data = Vec::new();
    for p in pixels {
        data.extend_from_slice(p);
    }
    PixelBuffer::from_raw(width, height, data).unwrap()
}

fn pixel(buf: &PixelBuffer, x: u32, y: u32) -> [u8; 4] {
    let base = (4 * (y * buf.width + x)) as usize;
    [buf.data[base], buf.data[base + 1], buf.data[base + 2], buf.data[base + 3]]
}

#[test]
fn from_raw_rejects_wrong_byte_counts() {
    assert!(PixelBuffer::from_raw(2, 2, vec![0u8; 16]).is_some());
    assert!(PixelBuffer::from_raw(2, 2, vec![0u8; 15]).is_none());
    assert!(PixelBuffer::from_raw(2, 2, vec![0u8; 17]).is_none());
}

#[test]
fn transparent_layer_keeps_the_source() {
    let layer = buffer(2, 1, &[[0, 0, 0, 0], [0, 0, 0, 0]]);
    let image = buffer(2, 1, &[[10, 20, 30, 255], [40, 50, 60, 255]]);
    let out = composite_over(&layer, &image);
    assert_eq!(pixel(&out, 0, 0), [10, 20, 30, 255]);
    assert_eq!(pixel(&out, 1, 0), [40, 50, 60, 255]);
}

#[test]
fn opaque_layer_replaces_the_source() {
    let layer = buffer(1, 1, &[[255, 0, 0, 255]]);
    let image = buffer(1, 1, &[[10, 20, 30, 255]]);
    let out = composite_over(&layer, &image);
    assert_eq!(pixel(&out, 0, 0), [255, 0, 0, 255]);
}

#[test]
fn half_transparent_layer_blends_source_over() {
    // Premultiplied half-opaque gray (128,128,128 at alpha 128) over an
    // opaque white pixel: each channel is 128 + 255*(255-128)/255 = 255,
    // clamped; over black: 128 + 0 = 128.
    let layer = buffer(2, 1, &[[128, 128, 128, 128], [128, 128, 128, 128]]);
    let image = buffer(2, 1, &[[255, 255, 255, 255], [0, 0, 0, 255]]);
    let out = composite_over(&layer, &image);
    assert_eq!(pixel(&out, 0, 0), [255, 255, 255, 255]);
    assert_eq!(pixel(&out, 1, 0), [128, 128, 128, 255]);
}

#[test]
fn crop_cuts_the_requested_subrectangle() {
    let image = buffer(
        2,
        2,
        &[[1, 1, 1, 255], [2, 2, 2, 255], [3, 3, 3, 255], [4, 4, 4, 255]],
    );
    let out = crop_buffer(&image, CropRect { x: 1, y: 1, width: 1, height: 1 });
    assert_eq!(out.width, 1);
    assert_eq!(out.height, 1);
    assert_eq!(pixel(&out, 0, 0), [4, 4, 4, 255]);
}

#[test]
fn crop_is_clamped_to_the_buffer() {
    let image = buffer(
        2,
        2,
        &[[1, 1, 1, 255], [2, 2, 2, 255], [3, 3, 3, 255], [4, 4, 4, 255]],
    );
    let out = crop_buffer(&image, CropRect { x: 1, y: 0, width: 10, height: 10 });
    assert_eq!(out.width, 1);
    assert_eq!(out.height, 2);
    assert_eq!(pixel(&out, 0, 0), [2, 2, 2, 255]);
    assert_eq!(pixel(&out, 0, 1), [4, 4, 4, 255]);
}

#[test]
fn draw_on_buffer_composites_and_crops() {
    let layer = buffer(
        2,
        2,
        &[[0, 0, 0, 0], [0, 0, 0, 0], [0, 0, 0, 0], [255, 0, 0, 255]],
    );
    let image = buffer(
        2,
        2,
        &[[1, 1, 1, 255], [2, 2, 2, 255], [3, 3, 3, 255], [4, 4, 4, 255]],
    );

    let full = draw_on_buffer(&layer, &image, None).unwrap();
    assert_eq!(pixel(&full, 0, 0), [1, 1, 1, 255]);
    assert_eq!(pixel(&full, 1, 1), [255, 0, 0, 255]);

    let cropped =
        draw_on_buffer(&layer, &image, Some(CropRect { x: 1, y: 1, width: 1, height: 1 })).unwrap();
    assert_eq!(cropped.width, 1);
    assert_eq!(cropped.height, 1);
    assert_eq!(pixel(&cropped, 0, 0), [255, 0, 0, 255]);
}

#[test]
fn draw_on_buffer_reports_unusable_extents() {
    let empty = PixelBuffer::from_raw(0, 4, Vec::new()).unwrap();
    let empty2 = PixelBuffer::from_raw(0, 4, Vec::new()).unwrap();
    assert!(draw_on_buffer(&empty, &empty2, None).is_none());

    let one = buffer(1, 1, &[[0, 0, 0, 0]]);
    let two = buffer(2, 1, &[[1, 1, 1, 255], [2, 2, 2, 255]]);
    assert!(draw_on_buffer(&one, &two, None).is_none());
}
