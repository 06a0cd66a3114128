use roygbiv::{Action, CanvasState, Error, Layer, Message, Placement, Rect, Roygbiv, Size, BACKGROUND_RGBA};
use roygbiv::geometry::{display_size, fit_to_bounds};
use roygbiv::canvas::compose;

fn layer(name: &str, width: u32, height: u32) -> Layer {
    Layer::from_decoded(
        Some(name.to_string()),
        vec![],
        Some((width, height)),
        Size { width: 1280, height: 720 },
    )
}

fn png_bytes(width: u32, height: u32) -> Vec<u8> {
    let img = image::RgbaImage::new(width, height);
    let mut out = std::io::Cursor::new(Vec::new());
    img.write_to(&mut out, image::ImageFormat::Png).unwrap();
    out.into_inner()
}

fn names(e: &Roygbiv) -> Vec<String> {
    e.layer_names().clone()
}

#[test]
fn wide_layer_is_narrowed_keeping_its_ratio() {
    let r = fit_to_bounds(Size { width: 2000, height: 1000 }, 800);
    assert_eq!(r, Size { width: 780, height: 390 });
}

#[test]
fn narrow_layer_is_drawn_unscaled() {
    let r = fit_to_bounds(Size { width: 100, height: 50 }, 800);
    assert_eq!(r, Size { width: 100, height: 50 });
}

#[test]
fn layer_exactly_as_wide_as_bounds_is_kept() {
    let r = fit_to_bounds(Size { width: 800, height: 333 }, 800);
    assert_eq!(r, Size { width: 800, height: 333 });
}

#[test]
fn bounds_below_margin_draw_nothing() {
    let r = fit_to_bounds(Size { width: 100, height: 50 }, 15);
    assert_eq!(r, Size { width: 0, height: 0 });
}

#[test]
fn undecodable_bytes_take_canvas_less_margin() {
    let l = Layer::from_image(None, vec![1, 2, 3, 4], Size { width: 1280, height: 720 });
    assert_eq!((l.width, l.height), (1260, 700));
    assert_eq!(l.name, "Unnamed");
    assert_eq!(l.pixels, vec![1, 2, 3, 4]);
    assert_eq!((l.x, l.y, l.scale_percent, l.opacity_percent), (0, 0, 100, 100));
}

#[test]
fn decoded_image_gives_its_size() {
    let l = Layer::from_image(Some("tiny.png".to_string()), png_bytes(3, 2), Size { width: 1280, height: 720 });
    assert_eq!((l.width, l.height), (3, 2));
    assert_eq!(l.label(), "tiny.png");
}

#[test]
fn zero_sized_decode_falls_back() {
    let l = Layer::from_decoded(None, vec![], Some((0, 10)), Size { width: 100, height: 50 });
    assert_eq!((l.width, l.height), (80, 30));
}

#[test]
fn names_follow_append_order() {
    let mut e = Roygbiv::new(1280, 720);
    for (i, n) in ["a", "b", "c"].iter().enumerate() {
        e.append_layer(layer(n, 10, 10));
        assert_eq!(e.selected_layer_index(), i);
    }
    assert_eq!(names(&e), vec!["a", "b", "c"]);
    assert_eq!(e.canvas_state().names(), vec!["a", "b", "c"]);
}

#[test]
fn append_selects_the_new_layer() {
    let mut e = Roygbiv::new(1280, 720);
    e.select(7);
    e.append_layer(layer("a", 10, 10));
    assert_eq!(e.selected_layer_index(), 0);
    e.append_layer(layer("b", 10, 10));
    assert_eq!(e.selected_layer_index(), 1);
    assert_eq!(e.current().unwrap().name, "b");
}

#[test]
fn removing_selected_layer_selects_last() {
    let mut e = Roygbiv::new(1280, 720);
    e.append_layer(layer("a", 10, 10));
    e.append_layer(layer("b", 10, 10));
    e.append_layer(layer("c", 10, 10));
    e.select(1);
    let removed = e.remove_layer(1).unwrap();
    assert_eq!(removed.name, "b");
    assert_eq!(e.selected_layer_index(), 1);
    assert_eq!(names(&e), vec!["a", "c"]);
}

#[test]
fn remove_out_of_range_changes_nothing() {
    let mut e = Roygbiv::new(1280, 720);
    e.append_layer(layer("a", 10, 10));
    e.select(0);
    assert!(matches!(e.remove_layer(1), Err(Error::IndexOutOfRange)));
    assert_eq!(names(&e), vec!["a"]);
    assert_eq!(e.selected_layer_index(), 0);
    assert_eq!(e.canvas_state().len(), 1);

    let mut c = CanvasState::new();
    assert!(matches!(c.remove_at(0), Err(Error::IndexOutOfRange)));
    assert_eq!(c.len(), 0);
}

#[test]
fn remove_last_remaining_layer_selects_zero() {
    let mut e = Roygbiv::new(1280, 720);
    e.append_layer(layer("a", 10, 10));
    e.remove_layer(0).unwrap();
    assert_eq!(e.selected_layer_index(), 0);
    assert!(e.current().is_none());
    assert!(names(&e).is_empty());
}

#[test]
fn append_two_remove_first_scenario() {
    let mut e = Roygbiv::new(1280, 720);
    e.append_layer(layer("A", 10, 10));
    e.append_layer(layer("B", 10, 10));
    e.remove_layer(0).unwrap();
    assert_eq!(names(&e), vec!["B"]);
    assert_eq!(e.selected_layer_index(), 0);
}

#[test]
fn selection_out_of_range_has_no_current() {
    let mut e = Roygbiv::new(1280, 720);
    e.append_layer(layer("a", 10, 10));
    e.select(5);
    assert_eq!(e.selected_layer_index(), 5);
    assert!(e.current().is_none());
}

#[test]
fn second_query_at_same_size_is_cached() {
    let mut c = CanvasState::new();
    c.append(layer("a", 2000, 1000));
    let b = Size { width: 800, height: 600 };
    let first = c.draw_layers(b);
    assert_eq!(c.layer_redraws(), 1);
    let second = c.draw_layers(b);
    assert_eq!(first, second);
    assert_eq!(c.layer_redraws(), 1);
}

#[test]
fn query_at_other_size_redraws() {
    let mut c = CanvasState::new();
    c.append(layer("a", 2000, 1000));
    c.draw_layers(Size { width: 800, height: 600 });
    let r = c.draw_layers(Size { width: 1000, height: 600 });
    assert_eq!(c.layer_redraws(), 2);
    assert_eq!(r[0].rect, Rect { x: 0, y: 0, width: 980, height: 490 });
}

#[test]
fn append_and_remove_force_redraw() {
    let mut c = CanvasState::new();
    let b = Size { width: 800, height: 600 };
    c.draw_layers(b);
    assert_eq!(c.layer_redraws(), 1);
    c.append(layer("a", 100, 50));
    let r = c.draw_layers(b);
    assert_eq!(c.layer_redraws(), 2);
    assert_eq!(r.len(), 1);
    c.remove_at(0).unwrap();
    let r = c.draw_layers(b);
    assert_eq!(c.layer_redraws(), 3);
    assert!(r.is_empty());
}

#[test]
fn tick_forces_redraw_of_layers_only() {
    let mut c = CanvasState::new();
    let b = Size { width: 800, height: 600 };
    c.draw(b);
    c.update();
    let d = c.draw(b);
    assert_eq!(c.layer_redraws(), 2);
    assert_eq!(c.background_redraws(), 1);
    assert_eq!(d.background.size, b);
    assert_eq!(d.background.rgba, BACKGROUND_RGBA);
}

#[test]
fn background_redraws_on_resize_only() {
    let mut c = CanvasState::new();
    c.draw_background(Size { width: 800, height: 600 });
    c.draw_background(Size { width: 800, height: 600 });
    assert_eq!(c.background_redraws(), 1);
    let f = c.draw_background(Size { width: 640, height: 480 });
    assert_eq!(c.background_redraws(), 2);
    assert_eq!(f.size, Size { width: 640, height: 480 });
}

#[test]
fn composite_keeps_paint_order_and_positions() {
    let mut big = layer("big", 2000, 1000);
    big.x = 5;
    big.y = -3;
    let layers = vec![big, layer("small", 100, 50)];
    let r = compose(&layers, Size { width: 800, height: 600 });
    assert_eq!(
        r,
        vec![
            Placement { layer: 0, rect: Rect { x: 5, y: -3, width: 780, height: 390 } },
            Placement { layer: 1, rect: Rect { x: 0, y: 0, width: 100, height: 50 } },
        ]
    );
}

#[test]
fn canvas_display_size_narrows_wide_canvas() {
    assert_eq!(display_size(Size { width: 1280, height: 720 }, 640), Some(Size { width: 640, height: 360 }));
    assert_eq!(display_size(Size { width: 1280, height: 720 }, 1280), None);
}

#[test]
fn messages_drive_the_editor() {
    let mut e = Roygbiv::new(1280, 720);
    assert_eq!(e.update(Message::AddImageLayer), Ok(Action::PickImageFile));
    assert_eq!(e.update(Message::ImageFileOpened(Ok((Some("x.png".to_string()), vec![9, 9])))), Ok(Action::Nothing));
    let l = e.current().unwrap();
    assert_eq!((l.width, l.height), (1260, 700));
    assert_eq!(names(&e), vec!["x.png"]);
    assert_eq!(e.update(Message::ImageFileOpened(Ok((None, png_bytes(4, 7))))), Ok(Action::Nothing));
    let l = e.current().unwrap();
    assert_eq!((l.width, l.height), (4, 7));
    assert_eq!(names(&e), vec!["x.png", "Unnamed"]);
    assert_eq!(e.update(Message::LayerSelected(0)), Ok(Action::Nothing));
    assert_eq!(e.selected_layer_index(), 0);
    assert_eq!(e.update(Message::ImageFileOpened(Err(Error::DialogClosed))), Ok(Action::Nothing));
    assert_eq!(e.selected_layer_index(), 1);
    assert_eq!(e.update(Message::RemoveLayer(2)), Err(Error::IndexOutOfRange));
    assert_eq!(e.update(Message::RemoveLayer(1)), Ok(Action::Nothing));
    assert_eq!(names(&e), vec!["x.png"]);
}

#[test]
fn audio_messages_track_loading() {
    let mut e = Roygbiv::new(1280, 720);
    assert_eq!(e.update(Message::OpenAudioFile), Ok(Action::PickAudioFile));
    assert!(e.is_loading_file());
    assert_eq!(e.update(Message::OpenAudioFile), Ok(Action::Nothing));
    assert_eq!(e.update(Message::AudioFileOpened(Ok(("song.wav".to_string(), vec![1])))), Ok(Action::Nothing));
    assert!(!e.is_loading_file());
    assert_eq!(e.audio_file_path().unwrap(), "song.wav");
    assert_eq!(e.update(Message::RemoveAudioFile), Ok(Action::Nothing));
    assert!(e.audio_file_path().is_none());
    assert_eq!(e.update(Message::OpenAudioFile), Ok(Action::PickAudioFile));
    let err = Error::IoError(std::io::ErrorKind::NotFound);
    assert_eq!(e.update(Message::AudioFileOpened(Err(err))), Ok(Action::Nothing));
    assert!(!e.is_loading_file());
    assert!(e.audio_file_path().is_none());
}

#[test]
fn canvas_size_keeps_room_for_fallback() {
    let mut e = Roygbiv::new(1280, 720);
    assert_eq!(e.update(Message::SetCanvasSize(10, 10)), Ok(Action::Nothing));
    assert_eq!(e.canvas_size(), Size { width: 1280, height: 720 });
    assert_eq!(e.update(Message::SetCanvasSize(640, 480)), Ok(Action::Nothing));
    assert_eq!(e.canvas_size(), Size { width: 640, height: 480 });
    e.update(Message::ImageFileOpened(Ok((None, vec![0])))).unwrap();
    let l = e.current().unwrap();
    assert_eq!((l.width, l.height), (620, 460));
}

#[test]
fn tick_message_redraws_layers() {
    let mut e = Roygbiv::new(1280, 720);
    e.append_layer(layer("a", 2000, 1000));
    let b = Size { width: 800, height: 600 };
    let first = e.draw(b);
    let again = e.draw(b);
    assert_eq!(first.layers, again.layers);
    assert_eq!(e.canvas_state().layer_redraws(), 1);
    assert_eq!(e.update(Message::Tick), Ok(Action::Nothing));
    let after = e.draw(b);
    assert_eq!(e.canvas_state().layer_redraws(), 2);
    assert_eq!(after.layers, first.layers);
    assert_eq!(first.layers[0].rect, Rect { x: 0, y: 0, width: 780, height: 390 });
    assert_eq!(e.update(Message::SelectLastLayer), Ok(Action::Nothing));
    assert_eq!(e.selected_layer_index(), 0);
}

#[test]
fn scale_and_opacity_do_not_change_drawing() {
    let mut l = layer("a", 2000, 1000);
    l.scale_percent = 250;
    l.opacity_percent = 40;
    let r = compose(&vec![l], Size { width: 800, height: 600 });
    assert_eq!(r, vec![Placement { layer: 0, rect: Rect { x: 0, y: 0, width: 780, height: 390 } }]);
}

#[test]
fn opened_images_are_listed_in_order() {
    let mut e = Roygbiv::new(1280, 720);
    for n in ["one.png", "two.jpg", "three.webp"] {
        let r = e.update(Message::ImageFileOpened(Ok((Some(n.to_string()), png_bytes(2, 2)))));
        assert_eq!(r, Ok(Action::Nothing));
    }
    assert_eq!(names(&e), vec!["one.png", "two.jpg", "three.webp"]);
    assert_eq!(e.canvas_state().len(), 3);
    assert_eq!(e.selected_layer_index(), 2);
}
