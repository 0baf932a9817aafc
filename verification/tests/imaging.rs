use voutil::imaging::{decode_rgba, pack_rgba_plane, Interpolation, RgbaImage};
use voutil::library::{make_thumbnail, THUMBNAIL_SIZE};
use voutil::selection::SelectionRect;

fn px(v: u8) -> [u8; 4] {
    [v, v + 1, v + 2, 255]
}

fn image_of(width: u32, height: u32, values: &[u8]) -> RgbaImage {
    let mut bytes = Vec::new();
    for v in values {
        bytes.extend_from_slice(&px(*v));
    }
    RgbaImage::from_raw(width, height, bytes).unwrap()
}

fn values_of(img: &RgbaImage) -> Vec<u8> {
    img.pixels().chunks(4).map(|c| c[0]).collect()
}

#[test]
fn from_raw_checks_the_length() {
    assert!(RgbaImage::from_raw(2, 2, vec![0; 15]).is_none());
    assert!(RgbaImage::from_raw(2, 2, vec![0; 17]).is_none());
    let img = RgbaImage::from_raw(2, 2, vec![7; 16]).unwrap();
    assert_eq!(img.width(), 2);
    assert_eq!(img.height(), 2);
    assert_eq!(img.into_pixels(), vec![7; 16]);
    assert!(RgbaImage::from_raw(0, 5, vec![]).is_some());
    assert!(RgbaImage::from_raw(u32::MAX, u32::MAX, vec![]).is_none());
}

#[test]
fn flip_mirrors_each_row() {
    let img = image_of(3, 2, &[10, 20, 30, 40, 50, 60]);
    let flipped = img.flip_horizontal();
    assert_eq!(flipped.width(), 3);
    assert_eq!(flipped.height(), 2);
    assert_eq!(values_of(&flipped), vec![30, 20, 10, 60, 50, 40]);
    assert_eq!(&flipped.pixels()[0..4], &px(30));
}

#[test]
fn flip_twice_restores_the_image() {
    let img = image_of(4, 1, &[1, 2, 3, 4]);
    let before = img.pixels().clone();
    assert_eq!(img.flip_horizontal().flip_horizontal().into_pixels(), before);
}

#[test]
fn rotate_turns_clockwise() {
    // A B        C A
    // C D   ->   D B
    let img = image_of(2, 2, &[10, 20, 30, 40]);
    let turned = img.rotate_right();
    assert_eq!(values_of(&turned), vec![30, 10, 40, 20]);
    let wide = image_of(3, 1, &[1, 2, 3]);
    let tall = wide.rotate_right();
    assert_eq!(tall.width(), 1);
    assert_eq!(tall.height(), 3);
    assert_eq!(values_of(&tall), vec![1, 2, 3]);
}

#[test]
fn crop_cuts_at_the_edges() {
    let img = image_of(3, 3, &[1, 2, 3, 4, 5, 6, 7, 8, 9]);
    let part = img.crop(SelectionRect { x: 1, y: 0, w: 2, h: 2 }).unwrap();
    assert_eq!((part.width(), part.height()), (2, 2));
    assert_eq!(values_of(&part), vec![2, 3, 5, 6]);
    let edge = img.crop(SelectionRect { x: 1, y: 1, w: 50, h: 50 }).unwrap();
    assert_eq!((edge.width(), edge.height()), (2, 2));
    assert_eq!(values_of(&edge), vec![5, 6, 8, 9]);
    let outside = img.crop(SelectionRect { x: 10, y: 10, w: 5, h: 5 }).unwrap();
    assert_eq!((outside.width(), outside.height()), (0, 0));
    assert!(img.crop(SelectionRect { x: 0, y: 0, w: 0, h: 2 }).is_none());
    assert!(img.crop(SelectionRect { x: 0, y: 0, w: 2, h: 0 }).is_none());
}

#[test]
fn resize_sets_the_size() {
    let img = image_of(2, 2, &[10, 20, 30, 40]);
    let same = img.resize(2, 2, Interpolation::Lanczos3);
    assert_eq!(same.pixels(), img.pixels());
    let bigger = img.resize(4, 3, Interpolation::Nearest);
    assert_eq!((bigger.width(), bigger.height()), (4, 3));
    assert_eq!(bigger.pixels().len(), 48);
    let flat = image_of(1, 1, &[100]).resize(3, 2, Interpolation::Nearest);
    assert_eq!(values_of(&flat), vec![100; 6]);
    let empty = RgbaImage::from_raw(0, 0, vec![]).unwrap().resize(2, 1, Interpolation::Triangle);
    assert_eq!(empty.into_pixels(), vec![0; 8]);
}

#[test]
fn interpolation_names() {
    assert_eq!(Interpolation::from_name("Nearest"), Interpolation::Nearest);
    assert_eq!(Interpolation::from_name("Triangle"), Interpolation::Triangle);
    assert_eq!(Interpolation::from_name("CatmullRom"), Interpolation::CatmullRom);
    assert_eq!(Interpolation::from_name("Gaussian"), Interpolation::Gaussian);
    assert_eq!(Interpolation::from_name("Lanczos3"), Interpolation::Lanczos3);
    assert_eq!(Interpolation::from_name("nearest"), Interpolation::Lanczos3);
    assert_eq!(Interpolation::from_name(""), Interpolation::Lanczos3);
}

#[test]
fn plane_rows_are_packed() {
    // Two rows of two pixels, each row padded to 10 bytes.
    let data: Vec<u8> = vec![
        1, 2, 3, 4, 5, 6, 7, 8, 0, 0, //
        9, 10, 11, 12, 13, 14, 15, 16, 0, 0,
    ];
    let packed = pack_rgba_plane(&data, 2, 2, 10);
    assert_eq!(packed, (1..=16).collect::<Vec<u8>>());
    assert_eq!(pack_rgba_plane(&data, 1, 2, 10), vec![1, 2, 3, 4, 9, 10, 11, 12]);
    assert_eq!(pack_rgba_plane(&data, 2, 0, 10), Vec::<u8>::new());
    assert_eq!(pack_rgba_plane(&[], 0, 3, 7), Vec::<u8>::new());
}

fn png_of(width: u32, height: u32, value: u8) -> Vec<u8> {
    let img = image::RgbaImage::from_pixel(width, height, image::Rgba([value, value, value, 255]));
    let mut bytes = Vec::new();
    img.write_to(&mut std::io::Cursor::new(&mut bytes), image::ImageFormat::Png).unwrap();
    bytes
}

#[test]
fn decode_reads_file_bytes() {
    let img = decode_rgba(&png_of(3, 2, 7)).unwrap();
    assert_eq!((img.width(), img.height()), (3, 2));
    assert_eq!(img.pixels(), &[7, 7, 7, 255].repeat(6));
    assert!(decode_rgba(b"not an image").is_none());
    assert!(decode_rgba(&[]).is_none());
}

#[test]
fn thumbnail_fits_the_box() {
    let wide = image_of(240, 120, &vec![50; 240 * 120]);
    let t = wide.thumbnail(120, 120);
    assert_eq!((t.width(), t.height()), (120, 60));
    assert_eq!(values_of(&t), vec![50; 120 * 60]);
    let tall = image_of(10, 40, &vec![9; 400]);
    let t = tall.thumbnail(120, 120);
    assert_eq!((t.width(), t.height()), (30, 120));
    let tiny = image_of(1, 1, &[3]).thumbnail(0, 0);
    assert_eq!((tiny.width(), tiny.height()), (1, 1));
}

#[test]
fn thumbnails_of_files() {
    let t = make_thumbnail(&png_of(480, 240, 200)).unwrap();
    assert_eq!((t.width(), t.height()), (THUMBNAIL_SIZE, THUMBNAIL_SIZE / 2));
    assert_eq!(&t.pixels()[0..4], &[200, 200, 200, 255]);
    assert!(make_thumbnail(b"garbage").is_none());
}
