use music_player::graphic_handler::decide;
use music_player::graphic_handler::draw_order;
use music_player::graphic_handler::Widget;
use music_player::graphic_handler::layout;
use music_player::graphic_handler::listener_marker;
use music_player::graphic_handler::music_failed;
use music_player::graphic_handler::playback_tick;
use music_player::graphic_handler::pointer_over_playlist;
use music_player::graphic_handler::scroll_playlist;
use music_player::graphic_handler::select_music;
use music_player::graphic_handler::Command;
use music_player::graphic_handler::ElementGeometry;
use music_player::graphic_handler::InputEvent;
use music_player::graphic_handler::Key;
use music_player::graphic_handler::MouseButton;
use music_player::graphic_handler::PlaybackStatus;
use music_player::graphic_handler::PointerHits;
use music_player::graphic_handler::Tick;
use music_player::graphic_handler::START_POSITION;
use music_player::graphic_playlist::GraphicPlayList;
use music_player::graphic_playlist::Rgb;
use music_player::graphic_playlist::TextColor;
use music_player::graphic_playlist::Vector2i;
use music_player::graphic_playlist::Vector2u;

fn no_hits() -> PointerHits {
    PointerHits {
        music_bar: false,
        volume_bar: false,
        musics: false,
        graph_sound: false,
        spectrum_button: false,
        position_button: false,
        spectrum_pushed: true,
        position_pushed: false,
    }
}

fn left_click() -> InputEvent {
    InputEvent::MouseButtonReleased { button: MouseButton::Left, x: 5, y: 6 }
}

fn playlist() -> GraphicPlayList {
    let musics = (0..5).map(|i| format!("m{}.ogg", i)).collect();
    GraphicPlayList::new_init(musics, &Vector2u { x: 10, y: 20 }, &Vector2u { x: 200, y: 100 })
}

#[test]
fn keys_map_to_commands() {
    let h = no_hits();
    assert_eq!(decide(&InputEvent::Closed, &h), Command::CloseWindow);
    assert_eq!(decide(&InputEvent::KeyReleased(Key::Escape), &h), Command::CloseWindow);
    assert_eq!(decide(&InputEvent::KeyReleased(Key::Up), &h), Command::PlayPrevious);
    assert_eq!(decide(&InputEvent::KeyReleased(Key::Down), &h), Command::PlayNext);
    assert_eq!(decide(&InputEvent::KeyReleased(Key::Space), &h), Command::TogglePause);
    assert_eq!(decide(&InputEvent::KeyReleased(Key::Delete), &h), Command::RemoveCurrent);
    assert_eq!(decide(&InputEvent::KeyReleased(Key::Add), &h), Command::Ignore);
    assert_eq!(decide(&InputEvent::KeyPressed(Key::Add), &h), Command::VolumeUp);
    assert_eq!(decide(&InputEvent::KeyPressed(Key::Subtract), &h), Command::VolumeDown);
    assert_eq!(decide(&InputEvent::KeyPressed(Key::Up), &h), Command::Ignore);
    assert_eq!(decide(&InputEvent::NoEvent, &h), Command::EndOfEvents);
    assert_eq!(decide(&InputEvent::Other, &h), Command::Ignore);
    assert_eq!(
        decide(&InputEvent::MouseWheelMoved { delta: -2 }, &h),
        Command::ScrollPlaylist { delta: -2 }
    );
}

#[test]
fn clicks_go_to_first_widget_hit() {
    let mut h = no_hits();
    assert_eq!(decide(&left_click(), &h), Command::Ignore);
    h.position_button = true;
    assert_eq!(decide(&left_click(), &h), Command::ShowPosition { x: 5, y: 6 });
    h.position_pushed = true;
    assert_eq!(decide(&left_click(), &h), Command::Ignore);
    h.spectrum_button = true;
    assert_eq!(decide(&left_click(), &h), Command::Ignore);
    h.spectrum_pushed = false;
    assert_eq!(decide(&left_click(), &h), Command::ShowSpectrum { x: 5, y: 6 });
    h.graph_sound = true;
    assert_eq!(decide(&left_click(), &h), Command::MoveListener { x: 5, y: 6 });
    h.musics = true;
    assert_eq!(decide(&left_click(), &h), Command::SelectMusic { x: 5, y: 6 });
    h.volume_bar = true;
    assert_eq!(decide(&left_click(), &h), Command::SetVolume { x: 5, y: 6 });
    h.music_bar = true;
    assert_eq!(decide(&left_click(), &h), Command::Seek { x: 5, y: 6 });
    let right = InputEvent::MouseButtonReleased { button: MouseButton::Other, x: 5, y: 6 };
    assert_eq!(decide(&right, &h), Command::Ignore);
}

#[test]
fn pointer_moves_report_hits() {
    let mut h = no_hits();
    h.musics = true;
    h.position_button = true;
    assert_eq!(
        decide(&InputEvent::MouseMoved { x: 1, y: 2 }, &h),
        Command::PointerMoved { x: 1, y: 2, musics: true, spectrum_button: false, position_button: true }
    );
}

#[test]
fn tick_follows_position() {
    assert_eq!(
        playback_tick(PlaybackStatus::Playing { position: 500 }, 100),
        Tick { refresh_displays: true, progress: Some(500), play_next: false, position: 500, redraw: true }
    );
    assert_eq!(
        playback_tick(PlaybackStatus::Playing { position: 500 }, 500),
        Tick { refresh_displays: false, progress: Some(500), play_next: false, position: 500, redraw: false }
    );
    assert_eq!(
        playback_tick(PlaybackStatus::Stopped, 900),
        Tick { refresh_displays: false, progress: None, play_next: true, position: START_POSITION, redraw: true }
    );
    assert_eq!(playback_tick(PlaybackStatus::Stopped, 100).redraw, false);
}

#[test]
fn tick_settles() {
    let first = playback_tick(PlaybackStatus::Playing { position: 42 }, 7);
    let second = playback_tick(PlaybackStatus::Playing { position: 42 }, first.position);
    assert!(first.redraw);
    assert!(!second.redraw);
}

#[test]
fn layout_of_default_window() {
    let l = layout(1024, 768);
    let black = Rgb { r: 0, g: 0, b: 0 };
    let g = |w: i64, h: i64, x: i64, y: i64, color: Rgb| ElementGeometry {
        size: Vector2i { x: w, y: h },
        position: Vector2i { x, y },
        color,
    };
    assert_eq!(l.musics, g(513, 736, 513, 0, black));
    assert_eq!(l.timer, g(391, 27, 634, 734, black));
    assert_eq!(l.music_bar, g(1026, 8, -1, 760, Rgb { r: 255, g: 255, b: 255 }));
    assert_eq!(l.volume_bar, g(120, 20, 512, 738, Rgb { r: 255, g: 25, b: 25 }));
    assert_eq!(l.spectrum_button, g(256, 25, 0, 0, black));
    assert_eq!(l.position_button, g(256, 25, 256, 0, black));
    assert_eq!(l.spectrum, g(512, 735, 0, 25, Rgb { r: 50, g: 100, b: 30 }));
    assert_eq!(l.graph_sound, g(512, 733, 0, 26, black));
    assert_eq!(l.music_bar_maximum, 1);
    assert_eq!(l.volume_maximum, 100);
    assert_eq!(l.volume, 100);
    assert!(l.spectrum_pushed);
    assert_eq!(l.spectrum_label, "Spectrum");
    assert_eq!(l.position_label, "3D position");
}

#[test]
fn layout_of_small_window() {
    let l = layout(0, 0);
    assert_eq!(l.musics.size, Vector2i { x: -511, y: -32 });
    assert_eq!(l.timer.position, Vector2i { x: 634, y: -34 });
}

#[test]
fn listener_marker_places_l() {
    let template = "|.......................<1>......................<2>....................|";
    let line = listener_marker(0);
    assert_eq!(line.len(), 73);
    let mut expected = template.as_bytes().to_vec();
    expected[36] = b'L';
    assert_eq!(line, expected);
    let line = listener_marker(29);
    let mut expected = template.as_bytes().to_vec();
    expected[71] = b'L';
    assert_eq!(line, expected);
    let line = listener_marker(10);
    assert_eq!(line.iter().position(|&b| b == b'L'), Some(40 * 73 / 60));
}

#[test]
fn failed_music_is_removed() {
    let mut pl = playlist();
    assert_eq!(music_failed(&mut pl, 2, 4), Ok(()));
    assert_eq!(pl.text_count(), 4);
    assert_eq!(pl.text_label(2), "m3.ogg");
    let r = music_failed(&mut pl, 0, 0);
    assert_eq!(r, Err("No more music".to_string()));
    assert_eq!(pl.text_count(), 3);
}

#[test]
fn wheel_scrolls_playlist() {
    let mut pl = playlist();
    pl.set_current(4);
    assert_eq!(pl.get_add_to_view(), 1);
    scroll_playlist(&mut pl, 1);
    assert_eq!(pl.get_add_to_view(), 0);
    scroll_playlist(&mut pl, -1);
    assert_eq!(pl.get_add_to_view(), 1);
    scroll_playlist(&mut pl, -1);
    assert_eq!(pl.get_add_to_view(), 1);
    scroll_playlist(&mut pl, 0);
    assert_eq!(pl.get_add_to_view(), 1);
}

#[test]
fn selecting_music_reports_change() {
    let mut pl = playlist();
    assert_eq!(select_music(&mut pl, 20 + 22 * 3), Some(3));
    assert_eq!(select_music(&mut pl, 20 + 22 * 3 + 5), None);
    assert_eq!(select_music(&mut pl, 0), None);
    assert_eq!(pl.get_current(), 3);
}

#[test]
fn pointer_over_playlist_highlights() {
    let mut pl = playlist();
    pointer_over_playlist(&mut pl, true, 20 + 22);
    assert_eq!(pl.get_hover_element(), Some(1));
    pointer_over_playlist(&mut pl, false, 20 + 22);
    assert_eq!(pl.get_hover_element(), None);
    assert_eq!(pl.text_color(1), TextColor::Normal);
}

#[test]
fn window_draws_one_view() {
    let common = [Widget::Musics, Widget::VolumeBar, Widget::Timer, Widget::SpectrumButton, Widget::PositionButton];
    let mut with_spectrum = common.to_vec();
    with_spectrum.push(Widget::Spectrum);
    with_spectrum.push(Widget::MusicBar);
    let mut with_position = common.to_vec();
    with_position.push(Widget::GraphSound);
    with_position.push(Widget::MusicBar);
    assert_eq!(draw_order(true), with_spectrum);
    assert_eq!(draw_order(false), with_position);
}

#[test]
fn failed_music_out_of_range() {
    let mut pl = playlist();
    assert_eq!(music_failed(&mut pl, 9, 3), Ok(()));
    assert_eq!(pl.text_count(), 5);
}
