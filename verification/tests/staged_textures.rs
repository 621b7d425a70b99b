use herbolution::gpu_sync::Staged;
use herbolution::texture::identity_image;

#[test]
fn staged_value_sent_after_write_only() {
    let mut staged = Staged::new(5u32);
    assert_eq!(*staged.value(), 5);
    assert!(!staged.submit());
    *staged.value_mut() = 9;
    assert_eq!(*staged.value(), 9);
    assert!(staged.submit());
    assert!(!staged.submit());
    assert_eq!(*staged.value(), 9);
}

#[test]
fn staged_borrow_without_change_still_sends() {
    let mut staged = Staged::new(1u8);
    let _ = staged.value_mut();
    assert!(staged.submit());
}

#[test]
fn identity_image_is_one_colour() {
    let color = [128u8, 128, 255, 255];
    let canvas = identity_image((3, 2), color);
    assert_eq!(canvas.inner.dimensions(), (3, 2));
    for y in 0..2 {
        for x in 0..3 {
            assert_eq!(canvas.pixel(x, y), color);
        }
    }
}

#[test]
fn identity_image_of_no_pixels() {
    let canvas = identity_image((0, 4), [255, 255, 255, 255]);
    assert_eq!(canvas.inner.dimensions(), (0, 4));
    assert!(canvas.inner.as_raw().is_empty());
}

#[test]
fn identity_image_differs_from_blank() {
    let canvas = identity_image((1, 1), [1, 2, 3, 4]);
    assert_eq!(canvas.pixel(0, 0), [1, 2, 3, 4]);
    assert_ne!(canvas.pixel(0, 0), [0, 0, 0, 0]);
}

#[test]
fn canvas_reports_its_dimensions() {
    let canvas = identity_image((4, 3), [9, 9, 9, 9]);
    assert_eq!(canvas.dimensions(), (4, 3));
    let (w, h) = canvas.dimensions();
    assert_eq!(canvas.pixel(w - 1, h - 1), [9, 9, 9, 9]);
}
