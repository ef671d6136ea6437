use music_player::graphic_playlist::label_of;
use music_player::graphic_playlist::GraphicPlayList;
use music_player::graphic_playlist::Rgb;
use music_player::graphic_playlist::TextColor;
use music_player::graphic_playlist::Vector2i;
use music_player::graphic_playlist::Vector2u;

fn musics(n: usize) -> Vec<String> {
    (0..n).map(|i| format!("music/dir/song{}.ogg", i)).collect()
}

fn colors(pl: &GraphicPlayList) -> Vec<TextColor> {
    (0..pl.text_count()).map(|i| pl.text_color(i)).collect()
}

fn ys(pl: &GraphicPlayList) -> Vec<i64> {
    (0..pl.text_count()).map(|i| pl.text_position(i).y).collect()
}

/// Five rows in a widget 100 pixels high at (10, 20): all five fit.
fn five_rows() -> GraphicPlayList {
    GraphicPlayList::new_init(musics(5), &Vector2u { x: 10, y: 20 }, &Vector2u { x: 200, y: 100 })
}

#[test]
fn label_is_last_path_component() {
    assert_eq!(label_of(&"a/b/c.mp3".to_string()), "c.mp3");
    assert_eq!(label_of(&"song.ogg".to_string()), "song.ogg");
    assert_eq!(label_of(&"dir/sub/".to_string()), "sub");
    assert_eq!(label_of(&"/".to_string()), "");
    assert_eq!(label_of(&"a//".to_string()), "");
    assert_eq!(label_of(&"/music/été.flac".to_string()), "été.flac");
}

#[test]
fn new_scrolls_to_show_first_row() {
    let pl = GraphicPlayList::new(musics(3));
    assert_eq!(pl.get_current(), 0);
    assert_eq!(pl.get_add_to_view(), 2);
    assert_eq!(colors(&pl), vec![TextColor::Current, TextColor::Normal, TextColor::Normal]);
    assert_eq!(ys(&pl), vec![-44, -22, 0]);
    assert_eq!(pl.text_position(0).x, 4);
    assert_eq!(pl.text_label(2), "song2.ogg");
    assert_eq!(pl.border(), (Vector2i { x: -1, y: 0 }, Vector2i { x: 0, y: 1 }));
    assert!(pl.draw().is_empty());
}

#[test]
fn new_init_lays_rows_out() {
    let pl = five_rows();
    assert_eq!(pl.get_current(), 0);
    assert_eq!(pl.get_add_to_view(), 0);
    assert_eq!(ys(&pl), vec![40, 62, 84, 106, 128]);
    assert_eq!(pl.text_position(3).x, 14);
    assert_eq!(pl.border(), (Vector2i { x: 9, y: 20 }, Vector2i { x: 1, y: 100 }));
    assert_eq!(pl.draw(), vec![0, 1, 2, 3, 4]);
    assert_eq!(pl.get_hover_element(), None);
}

#[test]
fn rows_that_fit_are_counted() {
    // 45 pixels high: rows at 0, 22 and 44 start above the bottom.
    let pl = GraphicPlayList::new_init(musics(6), &Vector2u { x: 0, y: 0 }, &Vector2u { x: 50, y: 45 });
    assert_eq!(pl.get_add_to_view(), 0);
    assert_eq!(pl.draw(), vec![0, 1, 2]);
    // 44 pixels high: only the rows at 0 and 22.
    let pl = GraphicPlayList::new_init(musics(6), &Vector2u { x: 0, y: 0 }, &Vector2u { x: 50, y: 44 });
    assert_eq!(pl.get_add_to_view(), 0);
    assert_eq!(pl.draw(), vec![0, 1]);
}

#[test]
fn set_current_scrolls_towards_row() {
    let mut pl = five_rows();
    pl.set_current(4);
    assert_eq!(pl.get_current(), 4);
    assert_eq!(pl.get_add_to_view(), 1);
    assert_eq!(
        colors(&pl),
        vec![TextColor::Normal, TextColor::Normal, TextColor::Normal, TextColor::Normal, TextColor::Current]
    );
    assert_eq!(ys(&pl), vec![-2, 20, 42, 64, 86]);
    assert_eq!(pl.draw(), vec![1, 2, 3, 4]);
    // the same row again changes nothing
    pl.set_current(4);
    assert_eq!(pl.get_add_to_view(), 1);
}

#[test]
fn set_to_add_refuses_bad_offsets() {
    let mut pl = five_rows();
    pl.set_to_add(-1);
    assert_eq!(pl.get_add_to_view(), 0);
    // 2 + 5 rows is not below 5 + 2
    pl.set_to_add(2);
    assert_eq!(pl.get_add_to_view(), 0);
    pl.set_to_add(1);
    assert_eq!(pl.get_add_to_view(), 1);
    assert_eq!(ys(&pl), vec![-2, 20, 42, 64, 86]);
    // scrolling back restores the rows
    pl.set_to_add(0);
    assert_eq!(pl.get_add_to_view(), 0);
    assert_eq!(ys(&pl), vec![20, 42, 64, 86, 108]);
}

#[test]
fn set_position_keeps_offset() {
    let mut pl = five_rows();
    pl.set_to_add(1);
    pl.set_position(&Vector2u { x: 0, y: 5 });
    assert_eq!(pl.get_add_to_view(), 1);
    assert_eq!(ys(&pl), vec![10, 32, 54, 76, 98]);
    assert_eq!(pl.text_position(0).x, 4);
    assert_eq!(pl.border().0, Vector2i { x: -1, y: 5 });
}

#[test]
fn click_selects_row() {
    let mut pl = five_rows();
    pl.set_current(4);
    // offset 1: height 20 is the top of row 1
    assert!(pl.click(20));
    assert_eq!(pl.get_current(), 1);
    assert_eq!(pl.get_add_to_view(), 0);
    assert_eq!(pl.text_color(1), TextColor::Current);
    assert_eq!(pl.text_color(4), TextColor::Normal);
    // above the widget
    assert!(!pl.click(19));
    // below the last row
    assert!(!pl.click(20 + 22 * 5));
    assert_eq!(pl.get_current(), 1);
    // row 3 at height 20 + 66
    assert!(pl.click(20 + 66 + 21));
    assert_eq!(pl.get_current(), 3);
}

#[test]
fn click_clears_highlight() {
    let mut pl = five_rows();
    pl.cursor_moved(20 + 44);
    assert_eq!(pl.get_hover_element(), Some(2));
    assert!(pl.click(20 + 22));
    assert_eq!(pl.get_hover_element(), None);
    assert_eq!(pl.text_color(2), TextColor::Normal);
    assert_eq!(pl.get_current(), 1);
}

#[test]
fn cursor_moves_highlight() {
    let mut pl = five_rows();
    pl.cursor_moved(19);
    assert_eq!(pl.get_hover_element(), None);
    // over the current row: nothing
    pl.cursor_moved(20);
    assert_eq!(pl.get_hover_element(), None);
    pl.cursor_moved(43);
    assert_eq!(pl.get_hover_element(), Some(1));
    assert_eq!(pl.text_color(1), TextColor::Hovered);
    pl.cursor_moved(70);
    assert_eq!(pl.get_hover_element(), Some(2));
    assert_eq!(pl.text_color(1), TextColor::Normal);
    assert_eq!(pl.text_color(2), TextColor::Hovered);
    // back over the current row
    pl.cursor_moved(25);
    assert_eq!(pl.get_hover_element(), None);
    assert_eq!(pl.text_color(2), TextColor::Normal);
    assert_eq!(pl.text_color(0), TextColor::Current);
    // below the rows: the highlight is dropped, the colour stays
    pl.cursor_moved(43);
    pl.cursor_moved(1000);
    assert_eq!(pl.get_hover_element(), None);
    assert_eq!(pl.text_color(1), TextColor::Hovered);
}

#[test]
fn mouse_leave_restores_colour() {
    let mut pl = five_rows();
    pl.cursor_moved(70);
    pl.mouse_leave();
    assert_eq!(pl.get_hover_element(), None);
    assert_eq!(pl.text_color(2), TextColor::Normal);
    pl.mouse_leave();
    assert_eq!(pl.get_hover_element(), None);
}

#[test]
fn remove_music_lays_out_again() {
    let mut pl = five_rows();
    pl.set_current(4);
    pl.remove_music(1);
    assert_eq!(pl.text_count(), 4);
    assert_eq!(pl.text_label(1), "song2.ogg");
    assert_eq!(ys(&pl), vec![40, 62, 84, 106]);
    assert_eq!(pl.get_current(), 4);
    assert_eq!(pl.get_add_to_view(), 1);
    assert_eq!(pl.draw(), vec![1, 2, 3]);
    assert_eq!(pl.text_color(3), TextColor::Current);
}

#[test]
fn is_inside_includes_edges() {
    let pl = five_rows();
    assert!(pl.is_inside(&Vector2u { x: 10, y: 20 }));
    assert!(pl.is_inside(&Vector2u { x: 210, y: 120 }));
    assert!(!pl.is_inside(&Vector2u { x: 211, y: 120 }));
    assert!(!pl.is_inside(&Vector2u { x: 10, y: 121 }));
    assert!(!pl.is_inside(&Vector2u { x: 9, y: 50 }));
    let far = GraphicPlayList::new_init(
        musics(2),
        &Vector2u { x: u32::MAX, y: u32::MAX },
        &Vector2u { x: u32::MAX, y: u32::MAX },
    );
    assert!(far.is_inside(&Vector2u { x: u32::MAX, y: u32::MAX }));
}

#[test]
fn colours_have_their_components() {
    assert_eq!(TextColor::Normal.rgb(), Rgb { r: 255, g: 255, b: 255 });
    assert_eq!(TextColor::Current.rgb(), Rgb { r: 255, g: 125, b: 25 });
    assert_eq!(TextColor::Hovered.rgb(), Rgb { r: 255, g: 175, b: 100 });
}

#[test]
fn current_row_stays_drawn() {
    let mut pl = GraphicPlayList::new_init(musics(20), &Vector2u { x: 0, y: 0 }, &Vector2u { x: 50, y: 66 });
    for c in [7usize, 19, 3, 0, 12] {
        pl.set_current(c);
        assert!(pl.draw().contains(&c), "row {} not drawn", c);
    }
}

#[test]
fn rows_stay_evenly_spaced() {
    let mut pl = five_rows();
    pl.set_current(4);
    pl.set_position(&Vector2u { x: 3, y: 7 });
    pl.set_to_add(0);
    let y = ys(&pl);
    for i in 0..y.len() - 1 {
        assert_eq!(y[i + 1] - y[i], 22);
    }
}

#[test]
fn remove_music_out_of_range_only_lays_out() {
    let mut pl = five_rows();
    pl.set_to_add(1);
    pl.remove_music(5);
    assert_eq!(pl.text_count(), 5);
    assert_eq!(ys(&pl), vec![40, 62, 84, 106, 128]);
    assert_eq!(pl.get_add_to_view(), 1);
}
