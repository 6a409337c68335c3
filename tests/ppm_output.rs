use raytracer::image::ImageSize;
use raytracer::ppm::{encode_image, push_decimal, push_header, push_pixel, EncodeError, Rgb};

fn text(bytes: &[u8]) -> String {
    String::from_utf8(bytes.to_vec()).unwrap()
}

#[test]
fn decimal_digits() {
    for (n, s) in [(0u64, "0"), (7, "7"), (10, "10"), (255, "255"), (1200, "1200")] {
        let mut out = Vec::new();
        push_decimal(&mut out, n);
        assert_eq!(text(&out), s);
    }
    let mut out = b"x".to_vec();
    push_decimal(&mut out, u64::MAX);
    assert_eq!(text(&out), format!("x{}", u64::MAX));
}

#[test]
fn header_names_size_and_range() {
    let mut out = Vec::new();
    push_header(&mut out, &ImageSize::new(1200, 800).unwrap());
    assert_eq!(text(&out), "P3\n1200 800\n255\n");
}

#[test]
fn pixel_line() {
    let mut out = Vec::new();
    push_pixel(&mut out, Rgb::new(255, 181, 0));
    assert_eq!(text(&out), "255 181 0\n");
}

#[test]
fn whole_image() {
    let size = ImageSize::new(2, 1).unwrap();
    let pixels = vec![Rgb::new(1, 2, 3), Rgb::new(40, 50, 255)];
    let bytes = encode_image(&size, &pixels).unwrap();
    assert_eq!(text(&bytes), "P3\n2 1\n255\n1 2 3\n40 50 255\n");
}

#[test]
fn pixel_count_must_match() {
    let size = ImageSize::new(2, 2).unwrap();
    let pixels = vec![Rgb::new(0, 0, 0); 3];
    assert_eq!(encode_image(&size, &pixels), Err(EncodeError::PixelCountMismatch));
    let pixels = vec![Rgb::new(0, 0, 0); 5];
    assert_eq!(encode_image(&size, &pixels), Err(EncodeError::PixelCountMismatch));
}
