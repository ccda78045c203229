use image::{ImageFormat, Rgb, RgbImage};
use mandala_smart_book::light::{LightShow, Rgb8, ShowError, ShowMaster, NUM_LEDS, SHOWS};


fn png(width: u32, height: u32) -> Vec<u8> {
    let mut img = RgbImage::new(width, height);
    for x in 0..width {
        for y in 0..height {
            img.put_pixel(x, y, Rgb([x as u8, y as u8, (x * 10 + y) as u8]));
        }
    }
    let mut bytes = Vec::new();
    img.write_to(&mut std::io::Cursor::new(&mut bytes), ImageFormat::Png).unwrap();
    bytes
}

fn blank() -> [Rgb8; NUM_LEDS] {
    [Rgb8 { r: 1, g: 2, b: 3 }; NUM_LEDS]
}

#[test]
fn constant_show_samples_its_colour() {
    let color = Rgb8 { r: 10, g: 20, b: 30 };
    let show = LightShow::constant(color);
    assert_eq!(show.steps(), 1);
    let mut buffer = blank();
    show.sample(0, &mut buffer);
    assert!(buffer.iter().all(|c| *c == color));
}

#[test]
fn off_white_and_default() {
    let mut buffer = blank();
    LightShow::off().sample(0, &mut buffer);
    assert!(buffer.iter().all(|c| *c == Rgb8 { r: 0, g: 0, b: 0 }));
    LightShow::white().sample(0, &mut buffer);
    assert!(buffer.iter().all(|c| *c == Rgb8 { r: 255, g: 255, b: 255 }));
    assert_eq!(LightShow::default(), LightShow::off());
    assert_eq!(LightShow::white().clone(), LightShow::white());
}

#[test]
fn image_show_samples_columns() {
    let show = LightShow::from_image_bytes(&png(3, 24)).unwrap();
    assert_eq!(show.steps(), 3);
    let mut buffer = blank();
    show.sample(2, &mut buffer);
    for (row, c) in buffer.iter().enumerate() {
        assert_eq!(*c, Rgb8 { r: 2, g: row as u8, b: (20 + row) as u8 });
    }
    show.sample(0, &mut buffer);
    assert_eq!(buffer[23], Rgb8 { r: 0, g: 23, b: 23 });
}

#[test]
fn image_with_wrong_height_is_refused() {
    match LightShow::from_image_bytes(&png(4, 12)) {
        Err(ShowError::InvalidSize { width, height }) => assert_eq!((width, height), (4, 12)),
        other => panic!("unexpected result {:?}", other),
    }
}

#[test]
fn undecodable_bytes_are_refused() {
    assert!(matches!(LightShow::from_image_bytes(b"not an image"), Err(ShowError::Decode(_))));
    assert!(matches!(LightShow::from_image_bytes(&[]), Err(ShowError::Decode(_))));
}

fn solid_png(red: u8) -> Vec<u8> {
    let img = RgbImage::from_pixel(2, 24, Rgb([red, 0, 0]));
    let mut bytes = Vec::new();
    img.write_to(&mut std::io::Cursor::new(&mut bytes), ImageFormat::Png).unwrap();
    bytes
}

fn master() -> ShowMaster {
    ShowMaster::new(&solid_png(1), &solid_png(2), &solid_png(3), &solid_png(4)).unwrap()
}

#[test]
fn show_master_refuses_bad_animations() {
    let good = solid_png(1);
    assert!(matches!(
        ShowMaster::new(&good, b"broken", &good, &png(2, 10)),
        Err(ShowError::Decode(_))
    ));
    match ShowMaster::new(&good, &good, &png(2, 10), b"broken") {
        Err(ShowError::InvalidSize { width, height }) => assert_eq!((width, height), (2, 10)),
        other => panic!("unexpected result {:?}", other.map(|_| ())),
    }
}

fn first_red(show: &LightShow) -> u8 {
    let mut buffer = blank();
    show.sample(0, &mut buffer);
    buffer[0].r
}

#[test]
fn show_master_starts_off() {
    let m = master();
    assert_eq!(*m.show(), LightShow::off());
}

#[test]
fn show_master_selection() {
    let mut m = master();
    m.next();
    assert_eq!(*m.show(), LightShow::off());
    m.on();
    assert_eq!(*m.show(), LightShow::white());
    m.next();
    assert_eq!(first_red(m.show()), 1);
    m.previous();
    assert_eq!(*m.show(), LightShow::white());
    m.previous();
    assert_eq!(*m.show(), LightShow::white());
    for _ in 0..10 {
        m.next();
    }
    assert_eq!(first_red(m.show()), (SHOWS - 1) as u8);
    m.off();
    assert_eq!(*m.show(), LightShow::off());
    m.previous();
    m.on();
    assert_eq!(first_red(m.show()), 4);
    m.previous();
    assert_eq!(first_red(m.show()), 3);
}

#[test]
fn decoded_images_of_the_wrong_size_are_refused() {
    assert!(matches!(
        LightShow::from_decoded(0, 24, Vec::new()),
        Err(ShowError::InvalidSize { width: 0, height: 24 })
    ));
    assert!(matches!(
        LightShow::from_decoded(1, 23, vec![0; 69]),
        Err(ShowError::InvalidSize { width: 1, height: 23 })
    ));
    let s = LightShow::from_decoded(1, 24, vec![7; 72]).unwrap();
    let mut buffer = [Rgb8::default(); NUM_LEDS];
    s.sample(0, &mut buffer);
    assert!(buffer.iter().all(|c| *c == Rgb8 { r: 7, g: 7, b: 7 }));
}
