use vstd::prelude::*;
use vstd::string::StringExecFns;
use crate::graphic_playlist::GraphicPlayList;
use crate::graphic_playlist::PlaylistView;
use crate::graphic_playlist::Rgb;
use crate::graphic_playlist::Vector2i;

verus! {

/// Keys the player reacts to.
#[derive(Clone, Copy, Debug, PartialEq, Eq, Structural)]
pub enum Key {
    Escape,
    Up,
    Down,
    Space,
    Delete,
    Add,
    Subtract,
    Other,
}

/// Mouse buttons, as far as the player tells them apart.
#[derive(Clone, Copy, Debug, PartialEq, Eq, Structural)]
pub enum MouseButton {
    Left,
    Other,
}

/// An event of the player window.
#[derive(Clone, Copy, Debug, PartialEq, Eq, Structural)]
pub enum InputEvent {
    Closed,
    KeyReleased(Key),
    KeyPressed(Key),
    MouseButtonReleased { button: MouseButton, x: i32, y: i32 },
    MouseWheelMoved { delta: i32 },
    MouseMoved { x: i32, y: i32 },
    NoEvent,
    Other,
}

/// Which widgets of the window lie under the mouse.
#[derive(Clone, Copy, Debug, PartialEq, Eq, Structural)]
pub struct PointerHits {
    pub music_bar: bool,
    pub volume_bar: bool,
    pub musics: bool,
    pub graph_sound: bool,
    pub spectrum_button: bool,
    pub position_button: bool,
    /// Whether the spectrum button is pushed in.
    pub spectrum_pushed: bool,
    /// Whether the 3D position button is pushed in.
    pub position_pushed: bool,
}

/// What the player does in answer to an event.
#[derive(Clone, Copy, Debug, PartialEq, Eq, Structural)]
pub enum Command {
    /// Close the window.
    CloseWindow,
    /// Play the previous music of the playlist.
    PlayPrevious,
    /// Play the next music of the playlist.
    PlayNext,
    /// Pause the music, or resume it.
    TogglePause,
    /// Take the current music out of the playlist and play the one that
    /// takes its place.
    RemoveCurrent,
    /// Raise the volume by one step.
    VolumeUp,
    /// Lower the volume by one step.
    VolumeDown,
    /// Move in the music to the point clicked on the music bar.
    Seek { x: i32, y: i32 },
    /// Set the volume to the point clicked on the volume bar.
    SetVolume { x: i32, y: i32 },
    /// Select the music clicked in the playlist, and play it if it changed.
    SelectMusic { x: i32, y: i32 },
    /// Move the listener to the point clicked on the 3D position view.
    MoveListener { x: i32, y: i32 },
    /// Push the spectrum button in, release the other, show the spectrum.
    ShowSpectrum { x: i32, y: i32 },
    /// Push the 3D position button in, release the other, show the view.
    ShowPosition { x: i32, y: i32 },
    /// Scroll the playlist by `delta` wheel steps.
    ScrollPlaylist { delta: i32 },
    /// The mouse moved: each widget is told whether it is under it.
    PointerMoved { x: i32, y: i32, musics: bool, spectrum_button: bool, position_button: bool },
    /// No event is waiting: stop polling for this frame.
    EndOfEvents,
    /// Nothing to do.
    Ignore,
}

/// The answer to a click of the left button at `(x, y)`: the first widget
/// under the mouse in the order music bar, volume bar, playlist, 3D position
/// view, then a button that is not pushed in yet.
pub open spec fn click_command(hits: PointerHits, x: i32, y: i32) -> Command {
    if hits.music_bar {
        Command::Seek { x, y }
    } else if hits.volume_bar {
        Command::SetVolume { x, y }
    } else if hits.musics {
        Command::SelectMusic { x, y }
    } else if hits.graph_sound {
        Command::MoveListener { x, y }
    } else if hits.spectrum_button && !hits.spectrum_pushed {
        Command::ShowSpectrum { x, y }
    } else if hits.position_button && !hits.position_pushed {
        Command::ShowPosition { x, y }
    } else {
        Command::Ignore
    }
}

/// The answer to each event of the player window.
pub open spec fn command_for(event: InputEvent, hits: PointerHits) -> Command {
    match event {
        InputEvent::Closed => Command::CloseWindow,
        InputEvent::KeyReleased(key) => match key {
            Key::Escape => Command::CloseWindow,
            Key::Up => Command::PlayPrevious,
            Key::Down => Command::PlayNext,
            Key::Space => Command::TogglePause,
            Key::Delete => Command::RemoveCurrent,
            _ => Command::Ignore,
        },
        InputEvent::KeyPressed(key) => match key {
            Key::Add => Command::VolumeUp,
            Key::Subtract => Command::VolumeDown,
            _ => Command::Ignore,
        },
        InputEvent::MouseButtonReleased { button, x, y } => match button {
            MouseButton::Left => click_command(hits, x, y),
            MouseButton::Other => Command::Ignore,
        },
        InputEvent::MouseWheelMoved { delta } => Command::ScrollPlaylist { delta },
        InputEvent::MouseMoved { x, y } => Command::PointerMoved {
            x,
            y,
            musics: hits.musics,
            spectrum_button: hits.spectrum_button,
            position_button: hits.position_button,
        },
        InputEvent::NoEvent => Command::EndOfEvents,
        InputEvent::Other => Command::Ignore,
    }
}

/// Decides what the player does in answer to `event`, given which widgets
/// lie under the mouse.
pub fn decide(event: &InputEvent, hits: &PointerHits) -> (cmd: Command)
    ensures
        cmd == command_for(*event, *hits),
{
    match *event {
        InputEvent::Closed => Command::CloseWindow,
        InputEvent::KeyReleased(key) => match key {
            Key::Escape => Command::CloseWindow,
            Key::Up => Command::PlayPrevious,
            Key::Down => Command::PlayNext,
            Key::Space => Command::TogglePause,
            Key::Delete => Command::RemoveCurrent,
            _ => Command::Ignore,
        },
        InputEvent::KeyPressed(key) => match key {
            Key::Add => Command::VolumeUp,
            Key::Subtract => Command::VolumeDown,
            _ => Command::Ignore,
        },
        InputEvent::MouseButtonReleased { button, x, y } => match button {
            MouseButton::Left => {
                if hits.music_bar {
                    Command::Seek { x, y }
                } else if hits.volume_bar {
                    Command::SetVolume { x, y }
                } else if hits.musics {
                    Command::SelectMusic { x, y }
                } else if hits.graph_sound {
                    Command::MoveListener { x, y }
                } else if hits.spectrum_button && !hits.spectrum_pushed {
                    Command::ShowSpectrum { x, y }
                } else if hits.position_button && !hits.position_pushed {
                    Command::ShowPosition { x, y }
                } else {
                    Command::Ignore
                }
            },
            MouseButton::Other => Command::Ignore,
        },
        InputEvent::MouseWheelMoved { delta } => Command::ScrollPlaylist { delta },
        InputEvent::MouseMoved { x, y } => Command::PointerMoved {
            x,
            y,
            musics: hits.musics,
            spectrum_button: hits.spectrum_button,
            position_button: hits.position_button,
        },
        InputEvent::NoEvent => Command::EndOfEvents,
        InputEvent::Other => Command::Ignore,
    }
}

/// Scrolls the playlist by `delta` wheel steps: a step up shows one row
/// more at the top.
pub fn scroll_playlist(musics: &mut GraphicPlayList, delta: i32)
    requires
        old(musics)@.wf(),
    ensures
        final(musics)@ == old(musics)@.scrolled(old(musics)@.add_to_view - delta),
        final(musics)@.wf(),
{
    let tmp = musics.get_add_to_view();
    musics.set_to_add(tmp - delta as i64);
}

/// A click at height `y` in the playlist. Returns the row to play when the
/// click made another row current.
pub fn select_music(musics: &mut GraphicPlayList, y: i64) -> (selected: Option<usize>)
    requires
        old(musics)@.wf(),
        old(musics)@.click_selects(y as int) ==> {
            &&& old(musics)@.current < old(musics)@.len()
            &&& old(musics)@.hover_element matches Some(s) ==> s < old(musics)@.len()
        },
    ensures
        final(musics)@ == old(musics)@.clicked(y as int),
        final(musics)@.wf(),
        selected == (if final(musics)@.current != old(musics)@.current {
            Some(final(musics)@.current as usize)
        } else {
            None
        }),
{
    let old_c = musics.get_current();
    musics.click(y);
    let c = musics.get_current();
    if old_c != c {
        Some(c)
    } else {
        None
    }
}

/// The mouse moved to height `y`, over the playlist or not.
pub fn pointer_over_playlist(musics: &mut GraphicPlayList, over: bool, y: i64)
    requires
        old(musics)@.wf(),
        over && y >= old(musics)@.position.y && old(musics)@.row_at(y as int)
            < old(musics)@.len() ==> (old(musics)@.hover_element matches Some(s) ==> s
            < old(musics)@.len()),
        !over ==> (old(musics)@.hover_element matches Some(s) ==> s < old(musics)@.len()),
    ensures
        final(musics)@ == if over {
            old(musics)@.hovered(y as int)
        } else {
            old(musics)@.unhovered()
        },
        final(musics)@.wf(),
{
    if over {
        musics.cursor_moved(y);
    } else {
        musics.mouse_leave();
    }
}

/// The music of row `pos` could not be loaded: its row, if there is one,
/// is taken out of the playlist. With `remaining` musics left in the play
/// order, the player tries the music that takes its place, or gives up when
/// none is left.
pub fn music_failed(musics: &mut GraphicPlayList, pos: usize, remaining: usize) -> (r: Result<
    (),
    String,
>)
    requires
        old(musics)@.wf(),
    ensures
        final(musics)@ == (if pos < old(musics)@.len() {
            old(musics)@.without_row(pos as int)
        } else {
            old(musics)@.placed(old(musics)@.position)
        }),
        final(musics)@.wf(),
        r is Err <==> remaining == 0,
        r matches Err(msg) ==> msg@ == "No more music"@,
{
    musics.remove_music(pos);
    if remaining == 0 {
        Err(String::from_str("No more music"))
    } else {
        Ok(())
    }
}

/// Whether the channel is still playing, and where.
#[derive(Clone, Copy, Debug, PartialEq, Eq, Structural)]
pub enum PlaybackStatus {
    /// Playing, `position` milliseconds into the music.
    Playing { position: usize },
    /// The music has ended.
    Stopped,
}

/// What one turn of the player loop does once the events are handled.
#[derive(Clone, Copy, Debug, PartialEq, Eq, Structural)]
pub struct Tick {
    /// Refresh the spectrum and the timer with the new position.
    pub refresh_displays: bool,
    /// Value the music bar is set to, if any.
    pub progress: Option<usize>,
    /// The music has ended: play the next one.
    pub play_next: bool,
    /// Position remembered for the next turn.
    pub position: usize,
    /// Draw the window again.
    pub redraw: bool,
}

/// Position remembered after a music starts, before it reports one.
pub const START_POSITION: usize = 100;

/// One turn of the player loop: a new position refreshes the displays and
/// the music bar and asks for a redraw; the same position only sets the bar;
/// a music that has ended moves to the next one and the remembered position
/// starts again.
pub open spec fn tick_for(status: PlaybackStatus, old_position: usize) -> Tick {
    match status {
        PlaybackStatus::Playing { position } => Tick {
            refresh_displays: position != old_position,
            progress: Some(position),
            play_next: false,
            position,
            redraw: position != old_position,
        },
        PlaybackStatus::Stopped => Tick {
            refresh_displays: false,
            progress: None,
            play_next: true,
            position: START_POSITION,
            redraw: old_position != START_POSITION,
        },
    }
}

/// Runs one turn of the player loop, as `tick_for` says.
pub fn playback_tick(status: PlaybackStatus, old_position: usize) -> (t: Tick)
    ensures
        t == tick_for(status, old_position),
{
    let (refresh_displays, progress, play_next, new_position) = match status {
        PlaybackStatus::Playing { position } => {
            if position != old_position {
                (true, Some(position), false, position)
            } else {
                (false, Some(old_position), false, old_position)
            }
        },
        PlaybackStatus::Stopped => (false, None, true, START_POSITION),
    };
    Tick {
        refresh_displays,
        progress,
        play_next,
        position: new_position,
        redraw: old_position != new_position,
    }
}

/// Size, position and colour of a widget of the player window.
#[derive(Clone, Copy, Debug, PartialEq, Eq, Structural)]
pub struct ElementGeometry {
    pub size: Vector2i,
    pub position: Vector2i,
    pub color: Rgb,
}

/// Where each widget of a player window stands, and how the controls start.
#[derive(Debug)]
pub struct Layout {
    pub musics: ElementGeometry,
    pub timer: ElementGeometry,
    pub music_bar: ElementGeometry,
    pub volume_bar: ElementGeometry,
    pub spectrum_button: ElementGeometry,
    pub position_button: ElementGeometry,
    pub spectrum: ElementGeometry,
    pub graph_sound: ElementGeometry,
    /// Maximum of the music bar before a music is loaded.
    pub music_bar_maximum: usize,
    pub volume_maximum: usize,
    pub volume: usize,
    /// The spectrum button starts pushed in.
    pub spectrum_pushed: bool,
    pub spectrum_label: String,
    pub position_label: String,
}

pub open spec fn geometry(w: int, h: int, x: int, y: int, color: Rgb) -> ElementGeometry {
    ElementGeometry {
        size: Vector2i { x: w as i64, y: h as i64 },
        position: Vector2i { x: x as i64, y: y as i64 },
        color,
    }
}

/// Builds a geometry from values in range.
fn element(w: i64, h: i64, x: i64, y: i64, color: Rgb) -> (g: ElementGeometry)
    ensures
        g == geometry(w as int, h as int, x as int, y as int, color),
{
    ElementGeometry { size: Vector2i { x: w, y: h }, position: Vector2i { x, y }, color }
}

/// Lays the widgets out in a window of `width` by `height` pixels: the
/// buttons along the top left, the spectrum and 3D position views below
/// them, the playlist on the right, the timer and the volume bar along the
/// bottom, and the music bar across the whole bottom edge.
pub fn layout(width: u32, height: u32) -> (l: Layout)
    ensures
        l.musics == geometry(width - 511, height - 32, 513, 0, Rgb { r: 0, g: 0, b: 0 }),
        l.timer == geometry(width - 633, 27, width - (width - 634), height - 34, Rgb { r: 0, g: 0, b: 0 }),
        l.music_bar == geometry(width + 2, 8, -1, height - 8, Rgb { r: 255, g: 255, b: 255 }),
        l.volume_bar == geometry(120, 20, 512, height - 30, Rgb { r: 255, g: 25, b: 25 }),
        l.spectrum_button == geometry(256, 25, 0, 0, Rgb { r: 0, g: 0, b: 0 }),
        l.position_button == geometry(256, 25, 256, 0, Rgb { r: 0, g: 0, b: 0 }),
        l.spectrum == geometry(512, height - 33, 0, 25, Rgb { r: 50, g: 100, b: 30 }),
        l.graph_sound == geometry(512, height - 35, 0, 26, Rgb { r: 0, g: 0, b: 0 }),
        l.music_bar_maximum == 1,
        l.volume_maximum == 100,
        l.volume == 100,
        l.spectrum_pushed,
        l.spectrum_label@ == "Spectrum"@,
        l.position_label@ == "3D position"@,
{
    let w = width as i64;
    let h = height as i64;
    let black = Rgb { r: 0, g: 0, b: 0 };
    Layout {
        musics: element(w - 511, h - 32, 513, 0, black),
        timer: element(w - 633, 27, w - (w - 634), h - 34, black),
        music_bar: element(w + 2, 8, -1, h - 8, Rgb { r: 255, g: 255, b: 255 }),
        volume_bar: element(120, 20, 512, h - 30, Rgb { r: 255, g: 25, b: 25 }),
        spectrum_button: element(256, 25, 0, 0, black),
        position_button: element(256, 25, 256, 0, black),
        spectrum: element(512, h - 33, 0, 25, Rgb { r: 50, g: 100, b: 30 }),
        graph_sound: element(512, h - 35, 0, 26, black),
        music_bar_maximum: 1,
        volume_maximum: 100,
        volume: 100,
        spectrum_pushed: true,
        spectrum_label: String::from_str("Spectrum"),
        position_label: String::from_str("3D position"),
    }
}

/// The widgets of the player window.
#[derive(Clone, Copy, Debug, PartialEq, Eq, Structural)]
pub enum Widget {
    Musics,
    VolumeBar,
    Timer,
    SpectrumButton,
    PositionButton,
    Spectrum,
    GraphSound,
    MusicBar,
}

/// Order in which the window is drawn: the playlist, the volume bar, the
/// timer and both buttons, then the spectrum when its button is pushed in
/// and the 3D position view otherwise, and the music bar on top.
pub open spec fn draw_sequence(spectrum_pushed: bool) -> Seq<Widget> {
    seq![
        Widget::Musics,
        Widget::VolumeBar,
        Widget::Timer,
        Widget::SpectrumButton,
        Widget::PositionButton,
        if spectrum_pushed {
            Widget::Spectrum
        } else {
            Widget::GraphSound
        },
        Widget::MusicBar,
    ]
}

/// The widgets to draw, in order, before the window is displayed.
pub fn draw_order(spectrum_pushed: bool) -> (order: Vec<Widget>)
    ensures
        order@ == draw_sequence(spectrum_pushed),
{
    let mut order: Vec<Widget> = Vec::new();
    order.push(Widget::Musics);
    order.push(Widget::VolumeBar);
    order.push(Widget::Timer);
    order.push(Widget::SpectrumButton);
    order.push(Widget::PositionButton);
    if spectrum_pushed {
        order.push(Widget::Spectrum);
    } else {
        order.push(Widget::GraphSound);
    }
    order.push(Widget::MusicBar);
    assert(order@ =~= draw_sequence(spectrum_pushed));
    order
}

/// The window shows exactly one of the spectrum and the 3D position view,
/// as the spectrum button says, and the music bar is drawn last.
pub proof fn law_one_view_shown(spectrum_pushed: bool)
    ensures
        draw_sequence(spectrum_pushed).contains(Widget::Spectrum) == spectrum_pushed,
        draw_sequence(spectrum_pushed).contains(Widget::GraphSound) == !spectrum_pushed,
        draw_sequence(spectrum_pushed).last() == Widget::MusicBar,
{
    let s = draw_sequence(spectrum_pushed);
    if spectrum_pushed {
        assert(s[5] == Widget::Spectrum);
        assert(!s.contains(Widget::GraphSound)) by {
            if s.contains(Widget::GraphSound) {
                let i = choose|i: int| 0 <= i < s.len() && s[i] == Widget::GraphSound;
                assert(0 <= i < 7);
            }
        }
    } else {
        assert(s[5] == Widget::GraphSound);
        assert(!s.contains(Widget::Spectrum)) by {
            if s.contains(Widget::Spectrum) {
                let i = choose|i: int| 0 <= i < s.len() && s[i] == Widget::Spectrum;
                assert(0 <= i < 7);
            }
        }
    }
}

/// Length of the line that shows where the listener stands.
pub const MARKER_LINE_LEN: usize = 73;

/// The line drawn under the player, before the listener is marked on it: a
/// ruler between two bars, with the two sound sources shown as `<1>` and
/// `<2>`.
pub open spec fn marker_template(i: int) -> u8 {
    if i == 0 || i == 72 {
        '|' as u8
    } else if i == 24 || i == 49 {
        '<' as u8
    } else if i == 25 {
        '1' as u8
    } else if i == 50 {
        '2' as u8
    } else if i == 26 || i == 51 {
        '>' as u8
    } else {
        '.' as u8
    }
}

/// Where the listener at `x` is marked on the line.
pub open spec fn marker_index(x: int) -> int {
    (x + 30) * 73 / 60
}

fn template_byte(i: usize) -> (b: u8)
    ensures
        b == marker_template(i as int),
{
    if i == 0 || i == 72 {
        124
    } else if i == 24 || i == 49 {
        60
    } else if i == 25 {
        49
    } else if i == 50 {
        50
    } else if i == 26 || i == 51 {
        62
    } else {
        46
    }
}

/// The line that shows where the listener stands, `x` steps along from the
/// left: the ruler with an `L` where the listener is.
pub fn listener_marker(x: usize) -> (line: Vec<u8>)
    requires
        x < 30,
    ensures
        line@.len() == MARKER_LINE_LEN,
        0 <= marker_index(x as int) < MARKER_LINE_LEN,
        line@ == Seq::new(MARKER_LINE_LEN as nat, |i: int| marker_template(i)).update(
            marker_index(x as int),
            'L' as u8,
        ),
{
    let mut t: Vec<u8> = Vec::new();
    let mut i: usize = 0;
    while i < MARKER_LINE_LEN
        invariant
            i <= MARKER_LINE_LEN,
            t@.len() == i,
            forall|k: int| 0 <= k < i ==> #[trigger] t@[k] == marker_template(k),
        decreases MARKER_LINE_LEN - i,
    {
        t.push(template_byte(i));
        i = i + 1;
    }
    let le = t.len();
    assert((x + 30) * le < 60 * 73 && (x + 30) * le / 60 < 73) by (nonlinear_arith)
        requires
            x < 30,
            le == 73,
    ;
    let idx = (x + 30) * le / 60;
    t.set(idx, 76);
    assert(t@ =~= Seq::new(MARKER_LINE_LEN as nat, |i: int| marker_template(i)).update(
        marker_index(x as int),
        'L' as u8,
    ));
    t
}

/// The window is drawn again only when the remembered position changes: a
/// second turn that finds the music where the first left it draws nothing.
pub proof fn law_tick_settles(status: PlaybackStatus, old_position: usize)
    ensures
        tick_for(status, old_position).redraw <==> tick_for(status, old_position).position
            != old_position,
        status is Playing ==> !tick_for(status, tick_for(status, old_position).position).redraw,
{
}

/// A button that is pushed in ignores clicks, and clicking the other one
/// switches the view: the two view buttons behave as a pair of radio buttons.
pub proof fn law_view_buttons(hits: PointerHits, x: i32, y: i32)
    requires
        !hits.music_bar && !hits.volume_bar && !hits.musics && !hits.graph_sound,
    ensures
        hits.spectrum_button && !hits.position_button && hits.spectrum_pushed ==> click_command(
            hits,
            x,
            y,
        ) == Command::Ignore,
        hits.position_button && !hits.spectrum_button && hits.position_pushed ==> click_command(
            hits,
            x,
            y,
        ) == Command::Ignore,
        hits.spectrum_button && !hits.spectrum_pushed ==> click_command(hits, x, y)
            == (Command::ShowSpectrum { x, y }),
        hits.position_button && !hits.position_pushed && !hits.spectrum_button ==> click_command(
            hits,
            x,
            y,
        ) == (Command::ShowPosition { x, y }),
{
}

/// The listener mark always falls strictly between the two bars of the
/// ruler, and moves right as the listener does.
pub proof fn law_marker_inside_ruler(x1: int, x2: int)
    requires
        0 <= x1 <= x2 < 30,
    ensures
        36 <= marker_index(x1) <= marker_index(x2) <= 71,
{
    assert(36 <= marker_index(x1) <= marker_index(x2) <= 71) by (nonlinear_arith)
        requires
            0 <= x1 <= x2 < 30,
    ;
}

/// Pausing answers the release of the space bar and nothing else; pressing
/// a key only ever changes the volume, or does nothing.
pub proof fn law_pause_on_space_release(e: InputEvent, h: PointerHits)
    ensures
        (command_for(e, h) == Command::TogglePause) <==> (e == InputEvent::KeyReleased(Key::Space)),
        e matches InputEvent::KeyPressed(k) ==> (command_for(e, h) == Command::VolumeUp
            || command_for(e, h) == Command::VolumeDown || command_for(e, h) == Command::Ignore),
        e == InputEvent::KeyPressed(Key::Add) <==> command_for(e, h) == Command::VolumeUp,
        e == InputEvent::KeyPressed(Key::Subtract) <==> command_for(e, h) == Command::VolumeDown,
{
}

/// While a music plays, the turn reports the new position, and the spectrum
/// and timer are refreshed exactly when the window is redrawn, which is
/// exactly when the position differs from the remembered one, whichever way
/// it moved.
pub proof fn law_tick_refreshes_on_any_move(position: usize, old_position: usize)
    ensures
        ({
            let t = tick_for(PlaybackStatus::Playing { position }, old_position);
            &&& t.refresh_displays == t.redraw
            &&& t.refresh_displays <==> position != old_position
            &&& t.position == position
            &&& t.progress == Some(position)
            &&& !t.play_next
        }),
{
}

/// A left click acts on a widget only when that widget is under the mouse,
/// the bars before the playlist, the playlist before the 3D view, and a
/// view button only when it is not pushed in; the command carries the
/// click's point.
pub proof fn law_click_goes_to_widget_hit(hits: PointerHits, x: i32, y: i32)
    ensures
        ({
            let c = click_command(hits, x, y);
            &&& (c == Command::Seek { x, y }) <==> hits.music_bar
            &&& (c == Command::SetVolume { x, y }) <==> (hits.volume_bar && !hits.music_bar)
            &&& (c == Command::SelectMusic { x, y }) <==> (hits.musics && !hits.music_bar
                && !hits.volume_bar)
            &&& (c == Command::MoveListener { x, y }) <==> (hits.graph_sound && !hits.music_bar
                && !hits.volume_bar && !hits.musics)
            &&& c is ShowSpectrum ==> hits.spectrum_button && !hits.spectrum_pushed
            &&& c is ShowPosition ==> hits.position_button && !hits.position_pushed
            &&& c == Command::Ignore <==> !(hits.music_bar || hits.volume_bar || hits.musics
                || hits.graph_sound || (hits.spectrum_button && !hits.spectrum_pushed) || (
            hits.position_button && !hits.position_pushed))
        }),
{
}

/// Keys released only ever close, move in the playlist, pause or remove;
/// the volume changes only on a key press.
pub proof fn law_key_release_commands(k: Key, h: PointerHits)
    ensures
        command_for(InputEvent::KeyReleased(k), h) != Command::VolumeUp,
        command_for(InputEvent::KeyReleased(k), h) != Command::VolumeDown,
        (command_for(InputEvent::KeyReleased(k), h) == Command::CloseWindow) <==> k == Key::Escape,
        (command_for(InputEvent::KeyReleased(k), h) == Command::PlayPrevious) <==> k == Key::Up,
        (command_for(InputEvent::KeyReleased(k), h) == Command::PlayNext) <==> k == Key::Down,
        (command_for(InputEvent::KeyReleased(k), h) == Command::RemoveCurrent) <==> k
            == Key::Delete,
{
}

/// Once a music has ended, the next one is asked for, nothing is refreshed,
/// and the remembered position starts again from the start value.
pub proof fn law_tick_after_end(old_position: usize)
    ensures
        tick_for(PlaybackStatus::Stopped, old_position).play_next,
        tick_for(PlaybackStatus::Stopped, old_position).position == START_POSITION,
        tick_for(PlaybackStatus::Stopped, old_position).progress is None,
        !tick_for(PlaybackStatus::Stopped, old_position).refresh_displays,
        tick_for(PlaybackStatus::Stopped, old_position).redraw <==> old_position != 100,
{
}

} // verus!
