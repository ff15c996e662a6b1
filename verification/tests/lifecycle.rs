use libva_image::display::{Display, NativeCall};
use libva_image::image::{Image, VaImage};
use libva_image::picture::Picture;

fn descriptor() -> VaImage {
    VaImage { image_id: 7, buf: 3, width: 64, height: 16, data_size: 4096 }
}

#[test]
fn map_buffer_reports_configured_address() {
    let mut display = Display::new(1, 0, 0xDEAD0000);
    let r = display.map_buffer(3);
    assert_eq!(r.map_err(|e| e.status()), Ok(0xDEAD0000));
    assert_eq!(display.log().as_slice(), &[NativeCall::MapBuffer { buf: 3 }]);
}

#[test]
fn successful_map_spans_data_size() {
    let mut display = Display::new(1, 0, 0xDEAD0000);
    let picture = Picture::new(&display, 42);
    assert_eq!(picture.display_handle(), display.handle());
    assert_eq!(picture.surface_id(), 42);
    let image = Image::new(&mut display, &picture, descriptor(), true).unwrap();
    assert_eq!(image.as_bytes().len(), 4096);
    assert_eq!(image.image().data_size, 4096);
    assert_eq!(image.image().image_id, 7);
    assert_eq!(image.image().buf, 3);
}

#[test]
fn success_then_teardown_records_map_unmap_destroy() {
    let mut display = Display::new(1, 0, 0xDEAD0000);
    let picture = Picture::new(&display, 42);
    let image = Image::new(&mut display, &picture, descriptor(), true).unwrap();
    assert_eq!(image.as_bytes().len(), 4096);
    image.destroy(&mut display);
    assert_eq!(
        display.log().as_slice(),
        &[
            NativeCall::MapBuffer { buf: 3 },
            NativeCall::UnmapBuffer { buf: 3 },
            NativeCall::DestroyImage { image_id: 7 },
        ]
    );
}

#[test]
fn teardown_unmaps_once_before_destroying_once() {
    let mut display = Display::new(1, 0, 0xDEAD0000);
    let picture = Picture::new(&display, 42);
    let image = Image::new(&mut display, &picture, descriptor(), false).unwrap();
    image.destroy(&mut display);
    let log = display.log();
    let unmaps: Vec<usize> = log
        .iter()
        .enumerate()
        .filter(|(_, c)| matches!(c, NativeCall::UnmapBuffer { .. }))
        .map(|(i, _)| i)
        .collect();
    let destroys: Vec<usize> = log
        .iter()
        .enumerate()
        .filter(|(_, c)| matches!(c, NativeCall::DestroyImage { .. }))
        .map(|(i, _)| i)
        .collect();
    assert_eq!(unmaps.len(), 1);
    assert_eq!(destroys.len(), 1);
    assert!(unmaps[0] < destroys[0]);
}

#[test]
fn derived_flag_round_trips() {
    let mut display = Display::new(1, 0, 0xDEAD0000);
    let picture = Picture::new(&display, 42);
    let derived = Image::new(&mut display, &picture, descriptor(), true).unwrap();
    assert!(derived.is_derived());
    let mut other = Display::new(2, 0, 0xBEEF0000);
    let other_picture = Picture::new(&other, 43);
    let created = Image::new(&mut other, &other_picture, descriptor(), false).unwrap();
    assert!(!created.is_derived());
    assert!(derived.is_derived());
    derived.destroy(&mut display);
    created.destroy(&mut other);
}

#[test]
fn accessors_are_pure_and_stable() {
    let mut display = Display::new(1, 0, 0xDEAD0000);
    let picture = Picture::new(&display, 42);
    let image = Image::new(&mut display, &picture, descriptor(), true).unwrap();
    let calls_after_map = display.log().len();
    let first_bytes: Vec<u8> = image.as_bytes().to_vec();
    for _ in 0..3 {
        assert_eq!(image.image(), image.image());
        assert_eq!(image.is_derived(), true);
        assert_eq!(image.as_bytes(), first_bytes.as_slice());
    }
    assert_eq!(display.log().len(), calls_after_map);
    image.destroy(&mut display);
}

#[test]
fn zero_sized_descriptor_maps_to_empty_view() {
    let mut display = Display::new(1, 0, 0xDEAD0000);
    let picture = Picture::new(&display, 42);
    let image = VaImage { image_id: 9, buf: 8, width: 0, height: 0, data_size: 0 };
    let mapped = Image::new(&mut display, &picture, image, true).unwrap();
    assert_eq!(mapped.as_bytes().len(), 0);
    mapped.destroy(&mut display);
}
