//! Images, fonts, texts, deamons and tasks of an application without windows.
use azul::app::{data_or_error, App, RuntimeError};
use azul::images::{decode, DecodeError, ImageType, RawImage};
use azul::palette::palette_is_broken;
use azul::platform::Platform;
use azul::registry::Registry;
use azul::resources::AppResources;
use azul::text_cache::TextCache;
use image::ImageFormat;
use std::io::Cursor;
use std::sync::{Arc, Mutex};

struct Headless;

impl Platform for Headless {
    type NativeWindow = u32;
    type WindowState = String;
    type Display = u8;
    type WindowCreateError = String;
    type CssProperty = i32;
    type Dom = ();
    type Callback = u64;
    type UiDescription = String;
    type Font = Vec<u8>;
    type FontError = String;
    type Deamon = u16;
    type Task = u64;
}

fn app() -> App<String, Headless> {
    App::new(String::from("data"))
}

fn s(text: &str) -> String {
    String::from(text)
}

/// A red and a translucent green pixel, as a file.
fn two_pixels(format: ImageFormat) -> Vec<u8> {
    let image = image::RgbaImage::from_raw(2, 1, vec![255, 0, 0, 255, 0, 255, 0, 128]).unwrap();
    let mut file = Cursor::new(Vec::new());
    image.write_to(&mut file, format).unwrap();
    file.into_inner()
}

#[test]
fn a_known_format_is_decoded() {
    let raw = match decode(&two_pixels(ImageFormat::Png), ImageType::Format(ImageFormat::Png)) {
        Ok(raw) => raw,
        Err(_) => panic!("a valid file"),
    };
    assert_eq!((raw.width, raw.height), (2, 1));
    assert_eq!(raw.pixels, vec![255, 0, 0, 255, 0, 255, 0, 128]);
}

#[test]
fn each_format_has_its_decoder() {
    let file = two_pixels(ImageFormat::Tga);
    match decode(&file, ImageType::Format(ImageFormat::Tga)) {
        Ok(raw) => assert_eq!(raw.pixels, vec![255, 0, 0, 255, 0, 255, 0, 128]),
        Err(_) => panic!("a valid file"),
    }
}

#[test]
fn an_unknown_format_is_guessed() {
    let mut file = b"farbfeld".to_vec();
    file.extend([0, 0, 0, 1, 0, 0, 0, 2]);
    file.extend([255, 255, 0, 0, 0, 0, 255, 255]);
    file.extend([0, 0, 255, 255, 0, 0, 128, 128]);
    let raw = match decode(&file, ImageType::GuessImageFormat) {
        Ok(raw) => raw,
        Err(_) => panic!("a valid file"),
    };
    assert_eq!((raw.width, raw.height), (1, 2));
    assert_eq!(raw.pixels, vec![255, 0, 0, 255, 0, 255, 0, 128]);
}

/// A chunk of a PNG.
fn chunk(kind: &[u8; 4], contents: &[u8]) -> Vec<u8> {
    let mut checked = kind.to_vec();
    checked.extend_from_slice(contents);
    let mut crc = u32::MAX;
    for byte in &checked {
        crc ^= u32::from(*byte);
        for _ in 0..8 {
            crc = if crc & 1 == 1 { (crc >> 1) ^ 0xedb8_8320 } else { crc >> 1 };
        }
    }
    let mut chunk = (contents.len() as u32).to_be_bytes().to_vec();
    chunk.extend(checked);
    chunk.extend((!crc).to_be_bytes());
    chunk
}

/// A PNG with one pixel of this color type, and with these chunks before its image data.
fn one_pixel(color_type: u8, chunks: &[Vec<u8>], pixel: &[u8]) -> Vec<u8> {
    let mut row = vec![0];
    row.extend_from_slice(pixel);
    let (mut low, mut high) = (1u32, 0u32);
    for byte in &row {
        low += u32::from(*byte);
        high += low;
    }
    let len = row.len() as u8;
    let mut data = vec![0x78, 0x01, 1, len, 0, !len, 255];
    data.extend(row);
    data.extend(((high << 16) | low).to_be_bytes());
    let mut file = vec![137, 80, 78, 71, 13, 10, 26, 10];
    file.extend(chunk(b"IHDR", &[0, 0, 0, 1, 0, 0, 0, 1, 8, color_type, 0, 0, 0]));
    for chunk in chunks {
        file.extend_from_slice(chunk);
    }
    file.extend(chunk(b"IDAT", &data));
    file.extend(chunk(b"IEND", &[]));
    file
}

#[test]
fn a_palette_has_whole_colors() {
    let note = chunk(b"tEXt", b"Title\0PLTE");
    let palette = chunk(b"PLTE", &[1, 2, 3, 40, 50, 60]);
    let file = one_pixel(3, &[note.clone(), palette], &[1]);
    assert!(!palette_is_broken(&file));
    match decode(&file, ImageType::GuessImageFormat) {
        Ok(raw) => assert_eq!(raw.pixels, vec![40, 50, 60, 255]),
        Err(_) => panic!("a valid file"),
    }
    for len in [4, 5, 7] {
        let palette = chunk(b"PLTE", &vec![9; len]);
        let file = one_pixel(3, &[note.clone(), palette], &[0]);
        assert!(palette_is_broken(&file));
        for image_type in [ImageType::GuessImageFormat, ImageType::Format(ImageFormat::Png)] {
            assert!(matches!(decode(&file, image_type), Err(DecodeError::BadPng)));
        }
        // To another decoder, the bytes are no PNG.
        let farbfeld = ImageType::Format(ImageFormat::Farbfeld);
        assert!(matches!(decode(&file, farbfeld), Err(DecodeError::Decoder(_))));
    }
}

#[test]
fn a_palette_counts_only_where_pixels_are_indices() {
    let file = one_pixel(2, &[chunk(b"PLTE", &[1, 2, 3, 4])], &[10, 20, 30]);
    assert!(!palette_is_broken(&file));
    match decode(&file, ImageType::GuessImageFormat) {
        Ok(raw) => assert_eq!(raw.pixels, vec![10, 20, 30, 255]),
        Err(_) => panic!("a valid file"),
    }
}

#[test]
fn a_palette_counts_only_before_the_image_data() {
    let broken = chunk(b"PLTE", &[1, 2, 3, 4]);
    let mut file = one_pixel(3, &[chunk(b"PLTE", &[7, 8, 9])], &[0]);
    file.extend(broken);
    assert!(!palette_is_broken(&file));
    match decode(&file, ImageType::GuessImageFormat) {
        Ok(raw) => assert_eq!(raw.pixels, vec![7, 8, 9, 255]),
        Err(_) => panic!("a valid file"),
    }
}

#[test]
fn a_png_may_end_anywhere() {
    let file = one_pixel(3, &[chunk(b"PLTE", &[1, 2, 3, 4])], &[0]);
    for len in 0..file.len() {
        // The length and the type of the palette's chunk start after the header.
        assert_eq!(palette_is_broken(&file[..len]), len >= 41);
        assert!(decode(&file[..len], ImageType::Format(ImageFormat::Png)).is_err());
    }
    let mut endless = file;
    endless[33..37].copy_from_slice(&u32::MAX.to_be_bytes());
    assert!(!palette_is_broken(&endless));
    assert!(decode(&endless, ImageType::GuessImageFormat).is_err());
}

#[test]
fn deep_channels_are_narrowed() {
    let pixels = vec![0xffff, 0x8080, 0, 0xffff];
    let deep: image::ImageBuffer<image::Rgba<u16>, Vec<u16>> =
        image::ImageBuffer::from_raw(1, 1, pixels).unwrap();
    let mut file = Cursor::new(Vec::new());
    deep.write_to(&mut file, ImageFormat::Png).unwrap();
    match decode(&file.into_inner(), ImageType::GuessImageFormat) {
        Ok(raw) => assert_eq!(raw.pixels, vec![255, 128, 0, 255]),
        Err(_) => panic!("a valid file"),
    }
}

#[test]
fn the_decoder_says_what_is_wrong() {
    match decode(b"no image", ImageType::GuessImageFormat) {
        Err(DecodeError::Decoder(e)) => assert!(matches!(e, image::ImageError::Unsupported(_))),
        _ => panic!("not a valid file"),
    }
    let mut file = two_pixels(ImageFormat::Png);
    file.truncate(20);
    match decode(&file, ImageType::GuessImageFormat) {
        Err(DecodeError::Decoder(e)) => assert!(!matches!(e, image::ImageError::Unsupported(_))),
        _ => panic!("not a valid file"),
    }
}

#[test]
fn the_wrong_format_is_refused() {
    let file = two_pixels(ImageFormat::Png);
    assert!(decode(&file, ImageType::Format(ImageFormat::Farbfeld)).is_err());
    assert!(decode(&[1, 2, 3], ImageType::GuessImageFormat).is_err());
    assert!(decode(&[], ImageType::GuessImageFormat).is_err());
}

#[test]
fn other_formats_are_not_supported() {
    for format in [ImageFormat::Bmp, ImageFormat::Jpeg, ImageFormat::Hdr] {
        match decode(&[0; 64], ImageType::Format(format)) {
            Err(DecodeError::Decoder(e)) => assert!(matches!(e, image::ImageError::Unsupported(_))),
            _ => panic!("no decoder"),
        }
    }
}

#[test]
fn images_are_added_once() {
    let mut app = app();
    let file = two_pixels(ImageFormat::Png);
    assert!(!app.has_image("logo"));
    assert!(matches!(app.add_image(s("logo"), &file, ImageType::GuessImageFormat), Ok(None)));
    assert!(app.has_image("logo"));
    assert!(!app.has_image("Logo"));
    // The same ID again: the old image stays, and what comes instead is not even looked at.
    assert!(matches!(app.add_image(s("logo"), &[0], ImageType::GuessImageFormat), Ok(Some(()))));
    let image = app.app_state.resources.get_image(&s("logo")).unwrap();
    assert_eq!((image.width, image.height), (2, 1));
    assert_eq!(image.pixels, vec![255, 0, 0, 255, 0, 255, 0, 128]);
}

#[test]
fn a_broken_image_is_not_added() {
    let mut app = app();
    assert!(app.add_image(s("logo"), b"no image", ImageType::GuessImageFormat).is_err());
    assert!(!app.has_image("logo"));
    let mut file = two_pixels(ImageFormat::Png);
    file.truncate(20);
    assert!(app.add_image(s("logo"), &file, ImageType::Format(ImageFormat::Png)).is_err());
    assert!(!app.has_image("logo"));
}

#[test]
fn images_are_deleted_at_once() {
    let mut app = app();
    let file = two_pixels(ImageFormat::Png);
    assert!(app.add_image(s("a"), &file, ImageType::GuessImageFormat).is_ok());
    assert!(app.add_image(s("b"), &file, ImageType::GuessImageFormat).is_ok());
    assert_eq!(app.delete_image("a"), Some(()));
    assert_eq!(app.delete_image("a"), None);
    assert!(!app.has_image("a"));
    assert!(app.has_image("b"));
    assert!(matches!(app.add_image(s("a"), &file, ImageType::GuessImageFormat), Ok(None)));
}

#[test]
fn decoded_images_are_registered() {
    let mut resources: AppResources<Headless> = AppResources::new();
    let raw = RawImage { width: 1, height: 1, pixels: vec![1, 2, 3, 4] };
    assert!(matches!(resources.register_image(s("x"), Ok(raw)), Ok(None)));
    let other = RawImage { width: 7, height: 7, pixels: vec![] };
    assert!(matches!(resources.register_image(s("x"), Ok(other)), Ok(Some(()))));
    assert_eq!(resources.get_image(&s("x")).unwrap().pixels, vec![1, 2, 3, 4]);
    let failed = decode(b"?", ImageType::GuessImageFormat);
    assert!(resources.register_image(s("y"), failed).is_err());
    assert!(resources.get_image(&s("y")).is_none());
}

#[test]
fn fonts_are_added_once() {
    let mut app = app();
    assert_eq!(app.add_font(s("Helvetica-Bold"), Ok(vec![1])), Ok(None));
    assert_eq!(app.add_font(s("Helvetica-Bold"), Ok(vec![2])), Ok(Some(())));
    assert_eq!(app.add_font(s("Helvetica-Bold"), Err(s("broken"))), Ok(Some(())));
    assert_eq!(app.add_font(s("Arial"), Err(s("broken"))), Err(s("broken")));
    assert!(app.has_font(s("Helvetica-Bold")));
    assert!(!app.has_font(s("Arial")));
}

#[test]
fn deleted_fonts_go_with_the_next_draw_call() {
    let mut app = app();
    assert_eq!(app.add_font(s("a"), Ok(vec![1])), Ok(None));
    assert_eq!(app.add_font(s("b"), Ok(vec![2])), Ok(None));
    assert_eq!(app.delete_font(s("c")), None);
    assert_eq!(app.delete_font(s("a")), Some(()));
    assert_eq!(app.delete_font(s("a")), Some(()));
    assert!(app.has_font(s("a")));
    app.app_state.resources.draw();
    assert!(!app.has_font(s("a")));
    assert!(app.has_font(s("b")));
    assert_eq!(app.delete_font(s("a")), None);
    assert_eq!(app.add_font(s("a"), Ok(vec![3])), Ok(None));
    app.app_state.resources.draw();
    assert!(app.has_font(s("a")));
}

#[test]
fn deamons_are_added_once_and_deleted_once() {
    let mut app = app();
    assert!(app.add_deamon(s("clock"), 1));
    assert!(!app.add_deamon(s("clock"), 2));
    assert!(app.add_deamon(s("mail"), 3));
    assert_eq!(app.app_state.deamons.get(&s("clock")), Some(&1));
    assert!(app.delete_deamon("clock"));
    assert!(!app.delete_deamon("clock"));
    assert_eq!(app.app_state.deamons.ids(), vec![s("mail")]);
    assert!(app.add_deamon(s("clock"), 2));
    assert_eq!(app.app_state.deamons.get(&s("clock")), Some(&2));
}

#[test]
fn texts_are_kept_under_their_ids() {
    let mut app = app();
    let hello = app.add_text(s("hello"));
    let world = app.add_text(s("world"));
    assert_ne!(hello, world);
    assert_eq!(app.app_state.resources.text(hello), Some(&s("hello")));
    app.delete_text(hello);
    app.delete_text(hello);
    assert_eq!(app.app_state.resources.text(hello), None);
    assert_eq!(app.app_state.resources.text(world), Some(&s("world")));
    app.clear_all_texts();
    assert_eq!(app.app_state.resources.text(world), None);
    let again = app.add_text(s("again"));
    assert_ne!(again, hello);
    assert_ne!(again, world);
    assert_eq!(app.app_state.resources.text(again), Some(&s("again")));
}

#[test]
fn an_id_of_another_cache_finds_nothing() {
    let mut full = TextCache::new();
    let _ = full.add_text(s("a"));
    let id = full.add_text(s("b"));
    let mut empty = TextCache::new();
    assert_eq!(empty.get(id), None);
    empty.delete_text(id);
    assert_eq!(full.get(id), Some(&s("b")));
}

#[test]
fn finished_tasks_are_cleaned_up() {
    let mut app = app();
    for task in [10, 11, 12, 13] {
        app.add_task(task);
    }
    app.app_state.clean_up_finished_tasks(&vec![true, false, true, false]);
    assert_eq!(app.app_state.tasks, vec![11, 13]);
    app.app_state.clean_up_finished_tasks(&vec![false, false]);
    assert_eq!(app.app_state.tasks, vec![11, 13]);
    app.app_state.clean_up_finished_tasks(&vec![true, true]);
    assert!(app.app_state.tasks.is_empty());
}

#[test]
fn registered_values_are_found_and_taken_out() {
    let mut registry: Registry<u8> = Registry::new();
    assert!(registry.insert(s("a"), 1));
    assert!(registry.insert(s("b"), 2));
    assert!(registry.insert(s("c"), 3));
    assert!(!registry.insert(s("b"), 9));
    assert_eq!(registry.remove(&s("b")), Some(2));
    assert_eq!(registry.remove(&s("b")), None);
    assert_eq!(registry.get(&s("c")), Some(&3));
    assert!(!registry.contains(&s("b")));
    assert_eq!(registry.ids(), vec![s("a"), s("c")]);
}

#[test]
fn a_new_application_holds_its_data_and_no_window() {
    let app = app();
    assert_eq!(app.window_count(), 0);
    assert_eq!(app.user_window_count(), 0);
    assert_eq!(*app.app_state.data.lock().unwrap(), "data");
}

#[test]
fn the_data_comes_back() {
    let app = app();
    app.app_state.data.lock().unwrap().push_str(" and more");
    match app.into_data() {
        Ok(data) => assert_eq!(data, "data and more"),
        Err(_) => panic!("nobody else uses the data"),
    }
}

#[test]
fn data_in_use_does_not_come_back() {
    let app = app();
    let kept: Arc<Mutex<String>> = app.app_state.data.clone();
    assert!(matches!(app.into_data(), Err(RuntimeError::ArcUnlockError)));
    assert_eq!(*kept.lock().unwrap(), "data");
}

#[test]
fn poisoned_data_comes_back_as_an_error() {
    let poison = std::sync::PoisonError::new(5);
    match data_or_error(Some(Err(poison))) {
        Err(RuntimeError::MutexPoisonError(e)) => assert_eq!(e.into_inner(), 5),
        _ => panic!("the data was poisoned"),
    }
    assert!(matches!(data_or_error(Some(Ok(5))), Ok(5)));
    assert!(matches!(data_or_error::<u8>(None), Err(RuntimeError::ArcUnlockError)));
}

#[test]
fn errors_are_converted() {
    let swap: RuntimeError<u8> = RuntimeError::from(glium::SwapBuffersError::ContextLost);
    assert!(matches!(swap, RuntimeError::GlSwapError(glium::SwapBuffersError::ContextLost)));
    let poison: RuntimeError<u8> = RuntimeError::from(std::sync::PoisonError::new(3));
    assert!(matches!(poison, RuntimeError::MutexPoisonError(_)));
    assert_eq!(swap.message(), "could not swap the display");
    assert_eq!(poison.message(), "the data of the application is poisoned");
    let used: RuntimeError<u8> = RuntimeError::ArcUnlockError;
    assert_eq!(used.message(), "the data of the application is still in use");
}
