use vstd::prelude::*;
use vstd::string::StrSliceExecFns;
use vstd::string::StringExecFns;

verus! {

/// Height in pixels of one row of the playlist.
pub const ROW_HEIGHT: u32 = 22;

/// Largest number of rows a playlist holds: a row index plus a few rows
/// still fits in a 32-bit `usize`, and every coordinate in an `i64`.
pub const MAX_TEXTS: usize = 2147483647;

/// A point or a size with unsigned coordinates, in pixels.
#[derive(Clone, Copy, Debug, PartialEq, Eq, Structural)]
pub struct Vector2u {
    pub x: u32,
    pub y: u32,
}

/// A point or a size with signed coordinates, in pixels.
#[derive(Clone, Copy, Debug, PartialEq, Eq, Structural)]
pub struct Vector2i {
    pub x: i64,
    pub y: i64,
}

/// A colour by its red, green and blue components.
#[derive(Clone, Copy, Debug, PartialEq, Eq, Structural)]
pub struct Rgb {
    pub r: u8,
    pub g: u8,
    pub b: u8,
}

/// The colour a row of the playlist is drawn in.
#[derive(Clone, Copy, Debug, PartialEq, Eq, Structural)]
pub enum TextColor {
    /// A row that is neither playing nor under the mouse.
    Normal,
    /// The row of the music being played.
    Current,
    /// The row under the mouse.
    Hovered,
}

/// Red, green and blue components of each row colour.
pub open spec fn color_rgb(c: TextColor) -> Rgb {
    match c {
        TextColor::Normal => Rgb { r: 255, g: 255, b: 255 },
        TextColor::Current => Rgb { r: 255, g: 125, b: 25 },
        TextColor::Hovered => Rgb { r: 255, g: 175, b: 100 },
    }
}

impl TextColor {
    /// The red, green and blue components of this colour.
    pub fn rgb(&self) -> (c: Rgb)
        ensures
            c == color_rgb(*self),
    {
        match self {
            TextColor::Normal => Rgb { r: 255, g: 255, b: 255 },
            TextColor::Current => Rgb { r: 255, g: 125, b: 25 },
            TextColor::Hovered => Rgb { r: 255, g: 175, b: 100 },
        }
    }
}

/// Index one past the last character of the label of `path`: a single
/// trailing `/` is not part of it.
pub open spec fn label_end(path: Seq<char>) -> int {
    if path.len() > 0 && path.last() == '/' {
        path.len() - 1
    } else {
        path.len() as int
    }
}

/// Index just after the last `/` found before index `end` of `path`
/// (0 when there is none).
pub open spec fn label_start(path: Seq<char>, end: int) -> int
    decreases end,
{
    if end <= 0 {
        0
    } else if path[end - 1] == '/' {
        end
    } else {
        label_start(path, end - 1)
    }
}

/// The text shown for a music file: the last `/`-separated component of
/// its path, where a trailing `/` ends the path without starting an empty
/// component.
pub open spec fn music_label(path: Seq<char>) -> Seq<char> {
    path.subrange(label_start(path, label_end(path)), label_end(path))
}

/// Number of rows, out of `n`, whose top lies above the bottom of a widget
/// `height` pixels high.
pub open spec fn visible_count(n: int, height: int) -> int {
    if n < (height + 21) / 22 {
        n
    } else {
        (height + 21) / 22
    }
}

/// How far the view must scroll so that row `c` stands two rows above the
/// bottom of a view showing `to_draw` rows.
pub open spec fn scroll_target(c: int, to_draw: int) -> int {
    if c + 2 >= to_draw {
        c + 2 - to_draw
    } else {
        0
    }
}

/// The state of a playlist widget as values.
#[verifier::ext_equal]
pub struct PlaylistView {
    /// Paths of the musics the widget was built with.
    pub musics: Seq<Seq<char>>,
    /// Text of each row.
    pub labels: Seq<Seq<char>>,
    /// Position of each row's text.
    pub positions: Seq<(int, int)>,
    /// Colour of each row's text.
    pub colors: Seq<TextColor>,
    pub graphic_size: Vector2u,
    pub position: Vector2u,
    /// Number of rows that fit in the widget.
    pub to_draw: nat,
    /// Row of the music being played.
    pub current: nat,
    pub border_position: (int, int),
    pub border_size: (int, int),
    /// Row under the mouse, if it is highlighted.
    pub hover_element: Option<nat>,
    /// Number of rows scrolled out above the widget.
    pub add_to_view: int,
}

impl PlaylistView {
    pub open spec fn len(self) -> nat {
        self.labels.len()
    }

    /// What every playlist keeps: one position and one colour per row, a
    /// bounded number of rows, the number of rows that fit in the widget,
    /// and a scroll offset that is never negative.
    pub open spec fn wf(self) -> bool {
        &&& self.shaped()
        &&& self.to_draw == visible_count(self.labels.len() as int, self.graphic_size.y as int)
    }

    /// One position and one colour per row, a bounded number of rows and a
    /// bounded scroll offset that is never negative.
    pub open spec fn shaped(self) -> bool {
        &&& self.positions.len() == self.labels.len()
        &&& self.colors.len() == self.labels.len()
        &&& self.labels.len() <= MAX_TEXTS
        &&& 0 <= self.add_to_view <= MAX_TEXTS + 2
    }

    /// A widget just built from `musics`, before it is laid out: one row per
    /// music, labelled with its name and drawn in the normal colour, with
    /// the second row taken as current.
    pub open spec fn initial(
        musics: Seq<Seq<char>>,
        graphic_size: Vector2u,
        position: Vector2u,
        border_size: (int, int),
    ) -> Self {
        PlaylistView {
            musics,
            labels: Seq::new(musics.len(), |i: int| music_label(musics[i])),
            positions: Seq::new(musics.len(), |i: int| (0int, 0int)),
            colors: Seq::new(musics.len(), |i: int| TextColor::Normal),
            graphic_size,
            position,
            to_draw: 0,
            current: 1,
            border_position: (0, 0),
            border_size,
            hover_element: None,
            add_to_view: 0,
        }
    }

    pub open spec fn with_positions(self, positions: Seq<(int, int)>) -> Self {
        PlaylistView {
            musics: self.musics,
            labels: self.labels,
            positions,
            colors: self.colors,
            graphic_size: self.graphic_size,
            position: self.position,
            to_draw: self.to_draw,
            current: self.current,
            border_position: self.border_position,
            border_size: self.border_size,
            hover_element: self.hover_element,
            add_to_view: self.add_to_view,
        }
    }

    pub open spec fn with_colors(self, colors: Seq<TextColor>) -> Self {
        PlaylistView {
            musics: self.musics,
            labels: self.labels,
            positions: self.positions,
            colors,
            graphic_size: self.graphic_size,
            position: self.position,
            to_draw: self.to_draw,
            current: self.current,
            border_position: self.border_position,
            border_size: self.border_size,
            hover_element: self.hover_element,
            add_to_view: self.add_to_view,
        }
    }

    pub open spec fn with_hover(self, hover_element: Option<nat>) -> Self {
        PlaylistView {
            musics: self.musics,
            labels: self.labels,
            positions: self.positions,
            colors: self.colors,
            graphic_size: self.graphic_size,
            position: self.position,
            to_draw: self.to_draw,
            current: self.current,
            border_position: self.border_position,
            border_size: self.border_size,
            hover_element,
            add_to_view: self.add_to_view,
        }
    }

    /// The widget moved to `position`: every row is laid out again from the
    /// top, the number of rows that fit is counted again, and the border
    /// follows. The scroll offset is kept as it was.
    pub open spec fn placed(self, position: Vector2u) -> Self {
        PlaylistView {
            musics: self.musics,
            labels: self.labels,
            positions: Seq::new(
                self.labels.len(),
                |i: int| (position.x + 4, 2 * position.y + 22 * i),
            ),
            colors: self.colors,
            graphic_size: self.graphic_size,
            position,
            to_draw: visible_count(self.labels.len() as int, self.graphic_size.y as int) as nat,
            current: self.current,
            border_position: (position.x - 1, position.y as int),
            border_size: self.border_size,
            hover_element: self.hover_element,
            add_to_view: self.add_to_view,
        }
    }

    /// A scroll to offset `to_add` takes effect when it changes the offset,
    /// is not negative, and leaves the last shown row within two rows of the
    /// end of the list.
    pub open spec fn scroll_accepted(self, to_add: int) -> bool {
        &&& self.add_to_view != to_add
        &&& to_add * 22 >= 0
        &&& to_add * 22 + self.to_draw * 22 < (self.labels.len() + 2) * 22
    }

    /// The view scrolled so that `to_add` rows lie above the widget.
    pub open spec fn scrolled(self, to_add: int) -> Self {
        if self.scroll_accepted(to_add) {
            PlaylistView {
                musics: self.musics,
                labels: self.labels,
                positions: Seq::new(
                    self.positions.len(),
                    |i: int| (self.positions[i].0, self.position.y - to_add * 22 + 22 * i),
                ),
                colors: self.colors,
                graphic_size: self.graphic_size,
                position: self.position,
                to_draw: self.to_draw,
                current: self.current,
                border_position: self.border_position,
                border_size: self.border_size,
                hover_element: self.hover_element,
                add_to_view: to_add,
            }
        } else {
            self
        }
    }

    /// Row `c` becomes the current one: it takes the current colour, the
    /// old current row goes back to normal, and the view scrolls towards it.
    pub open spec fn with_current(self, c: nat) -> Self {
        if c == self.current {
            self
        } else {
            let recolored = PlaylistView {
                musics: self.musics,
                labels: self.labels,
                positions: self.positions,
                colors: self.colors.update(c as int, TextColor::Current).update(
                    self.current as int,
                    TextColor::Normal,
                ),
                graphic_size: self.graphic_size,
                position: self.position,
                to_draw: self.to_draw,
                current: c,
                border_position: self.border_position,
                border_size: self.border_size,
                hover_element: self.hover_element,
                add_to_view: self.add_to_view,
            };
            recolored.scrolled(scroll_target(c as int, self.to_draw as int))
        }
    }

    /// Row `i` taken out, then the widget laid out again where it stands.
    pub open spec fn without_row(self, i: int) -> Self {
        PlaylistView {
            musics: self.musics,
            labels: self.labels.remove(i),
            positions: self.positions.remove(i),
            colors: self.colors.remove(i),
            graphic_size: self.graphic_size,
            position: self.position,
            to_draw: self.to_draw,
            current: self.current,
            border_position: self.border_position,
            border_size: self.border_size,
            hover_element: self.hover_element,
            add_to_view: self.add_to_view,
        }.placed(self.position)
    }

    /// Whether `p` lies in the widget, its edges included.
    pub open spec fn contains_point(self, p: Vector2u) -> bool {
        &&& p.y >= self.position.y
        &&& p.y <= self.position.y + self.graphic_size.y
        &&& p.x >= self.position.x
        &&& p.x <= self.position.x + self.graphic_size.x
    }

    /// The highlighted row, if any, goes back to normal.
    pub open spec fn unhovered(self) -> Self {
        match self.hover_element {
            Some(s) => self.with_colors(self.colors.update(s as int, TextColor::Normal)).with_hover(
                None,
            ),
            None => self,
        }
    }

    /// Row under the height `y`, counted from the top of the list.
    pub open spec fn row_at(self, y: int) -> int {
        (y - self.position.y) / 22 + self.add_to_view
    }

    /// Whether a click at height `y` falls on a row.
    pub open spec fn click_selects(self, y: int) -> bool {
        y >= self.position.y && self.row_at(y) < self.labels.len()
    }

    /// A click at height `y`: on a row it clears the highlight and makes the
    /// row current; elsewhere it changes nothing.
    pub open spec fn clicked(self, y: int) -> Self {
        if self.click_selects(y) {
            self.unhovered().with_current(self.row_at(y) as nat)
        } else {
            self
        }
    }

    /// The mouse moved to height `y`: the row under it is highlighted unless
    /// it is the current one.
    pub open spec fn hovered(self, y: int) -> Self {
        if y < self.position.y {
            self
        } else {
            let r = self.row_at(y);
            if r >= self.labels.len() {
                self.with_hover(None)
            } else {
                match self.hover_element {
                    Some(s) => {
                        if self.current == r {
                            self.with_colors(self.colors.update(s as int, TextColor::Normal)).with_hover(
                                None,
                            )
                        } else if s != r {
                            self.with_colors(
                                self.colors.update(s as int, TextColor::Normal).update(
                                    r,
                                    TextColor::Hovered,
                                ),
                            ).with_hover(Some(r as nat))
                        } else {
                            self
                        }
                    },
                    None => {
                        if self.current != r {
                            self.with_colors(self.colors.update(r, TextColor::Hovered)).with_hover(
                                Some(r as nat),
                            )
                        } else {
                            self
                        }
                    },
                }
            }
        }
    }

    /// Index one past the last row drawn.
    pub open spec fn draw_end(self) -> int {
        if self.labels.len() < self.to_draw + self.add_to_view {
            self.labels.len() as int
        } else {
            self.to_draw + self.add_to_view
        }
    }

    /// Rows drawn, top first: those from the scroll offset on, as many as
    /// fit in the widget.
    pub open spec fn drawn_rows(self) -> Seq<int> {
        let n = if self.draw_end() > self.add_to_view {
            self.draw_end() - self.add_to_view
        } else {
            0
        };
        Seq::new(n as nat, |k: int| self.add_to_view + k)
    }
}

/// A vertical list of music names that can be scrolled, with the playing
/// music and the one under the mouse highlighted.
pub struct GraphicPlayList {
    musics: Vec<String>,
    labels: Vec<String>,
    positions: Vec<Vector2i>,
    colors: Vec<TextColor>,
    graphic_size: Vector2u,
    position: Vector2u,
    to_draw: usize,
    current: usize,
    border_position: Vector2i,
    border_size: Vector2i,
    hover_element: Option<usize>,
    add_to_view: i64,
}

pub open spec fn point_view(p: Vector2i) -> (int, int) {
    (p.x as int, p.y as int)
}

pub open spec fn strings_view(v: Seq<String>) -> Seq<Seq<char>> {
    v.map_values(|s: String| s@)
}

pub open spec fn hover_view(h: Option<usize>) -> Option<nat> {
    match h {
        Some(s) => Some(s as nat),
        None => None,
    }
}

impl View for GraphicPlayList {
    type V = PlaylistView;

    closed spec fn view(&self) -> PlaylistView {
        PlaylistView {
            musics: strings_view(self.musics@),
            labels: strings_view(self.labels@),
            positions: self.positions@.map_values(|p: Vector2i| point_view(p)),
            colors: self.colors@,
            graphic_size: self.graphic_size,
            position: self.position,
            to_draw: self.to_draw as nat,
            current: self.current as nat,
            border_position: point_view(self.border_position),
            border_size: point_view(self.border_size),
            hover_element: hover_view(self.hover_element),
            add_to_view: self.add_to_view as int,
        }
    }
}

proof fn lemma_label_start_bounds(path: Seq<char>, end: int)
    requires
        0 <= end <= path.len(),
    ensures
        0 <= label_start(path, end) <= end,
        forall|k: int| label_start(path, end) <= k < end ==> path[k] != '/',
    decreases end,
{
    if end > 0 && path[end - 1] != '/' {
        lemma_label_start_bounds(path, end - 1);
    }
}

proof fn lemma_row_visible(i: int, h: int)
    requires
        i >= 0,
        h >= 0,
    ensures
        (22 * i < h) == (i < (h + 21) / 22),
{
    assert((22 * i < h) == (i < (h + 21) / 22)) by (nonlinear_arith)
        requires
            i >= 0,
            h >= 0,
    ;
}

/// The label of a music path: what follows its last `/`, a single trailing
/// `/` aside. An empty path has no label.
pub fn label_of(path: &String) -> (label: String)
    requires
        path@.len() > 0,
    ensures
        label@ == music_label(path@),
{
    let s = path.as_str();
    let n = s.unicode_len();
    let end: usize = if s.get_char(n - 1) == '/' {
        n - 1
    } else {
        n
    };
    let mut start: usize = end;
    while start > 0 && s.get_char(start - 1) != '/'
        invariant
            n == path@.len(),
            s@ == path@,
            end as int == label_end(path@),
            start <= end,
            label_start(path@, start as int) == label_start(path@, end as int),
        decreases start,
    {
        start = start - 1;
    }
    proof {
        lemma_label_start_bounds(path@, start as int);
    }
    let sub = s.substring_char(start, end);
    String::from_str(sub)
}

impl GraphicPlayList {
    fn build(
        musics: Vec<String>,
        graphic_size: Vector2u,
        position: Vector2u,
        border_size: Vector2i,
    ) -> (pl: Self)
        requires
            2 <= musics.len() <= MAX_TEXTS,
            forall|i: int| 0 <= i < musics.len() ==> (#[trigger] musics@[i])@.len() > 0,
        ensures
            pl@ == PlaylistView::initial(
                strings_view(musics@),
                graphic_size,
                position,
                point_view(border_size),
            ).placed(position).with_current(0),
            pl@.wf(),
    {
        let n = musics.len();
        let mut labels: Vec<String> = Vec::new();
        let mut positions: Vec<Vector2i> = Vec::new();
        let mut colors: Vec<TextColor> = Vec::new();
        let mut i: usize = 0;
        while i < n
            invariant
                n == musics@.len(),
                i <= n,
                forall|k: int| 0 <= k < musics.len() ==> (#[trigger] musics@[k])@.len() > 0,
                labels@.len() == i,
                positions@.len() == i,
                colors@.len() == i,
                forall|k: int| 0 <= k < i ==> (#[trigger] labels@[k])@ == music_label(musics@[k]@),
                forall|k: int| 0 <= k < i ==> #[trigger] positions@[k] == (Vector2i { x: 0, y: 0 }),
                forall|k: int| 0 <= k < i ==> #[trigger] colors@[k] == TextColor::Normal,
            decreases n - i,
        {
            labels.push(label_of(&musics[i]));
            positions.push(Vector2i { x: 0, y: 0 });
            colors.push(TextColor::Normal);
            i = i + 1;
        }
        let mut pl = GraphicPlayList {
            musics,
            labels,
            positions,
            colors,
            graphic_size,
            position,
            to_draw: 0,
            current: 1,
            border_position: Vector2i { x: 0, y: 0 },
            border_size,
            hover_element: None,
            add_to_view: 0,
        };
        let ghost start = PlaylistView::initial(
            strings_view(pl.musics@),
            graphic_size,
            position,
            point_view(border_size),
        );
        assert(pl@ =~= start);
        pl.set_position(&position);
        pl.set_current(0);
        pl
    }

    /// A playlist of `musics` at the top left corner, with no room to show
    /// any row; the first music is the current one.
    pub fn new(musics: Vec<String>) -> (pl: Self)
        requires
            2 <= musics.len() <= MAX_TEXTS,
            forall|i: int| 0 <= i < musics.len() ==> (#[trigger] musics@[i])@.len() > 0,
        ensures
            pl@ == PlaylistView::initial(
                strings_view(musics@),
                Vector2u { x: 0, y: 0 },
                Vector2u { x: 0, y: 0 },
                (0, 1),
            ).placed(Vector2u { x: 0, y: 0 }).with_current(0),
            pl@.wf(),
    {
        Self::build(musics, Vector2u { x: 0, y: 0 }, Vector2u { x: 0, y: 0 }, Vector2i { x: 0, y: 1 })
    }

    /// A playlist of `musics` at `position`, `size` pixels large; the first
    /// music is the current one.
    pub fn new_init(musics: Vec<String>, position: &Vector2u, size: &Vector2u) -> (pl: Self)
        requires
            2 <= musics.len() <= MAX_TEXTS,
            forall|i: int| 0 <= i < musics.len() ==> (#[trigger] musics@[i])@.len() > 0,
        ensures
            pl@ == PlaylistView::initial(
                strings_view(musics@),
                *size,
                *position,
                (1, size.y as int),
            ).placed(*position).with_current(0),
            pl@.wf(),
    {
        Self::build(musics, *size, *position, Vector2i { x: 1, y: size.y as i64 })
    }

    /// Moves the widget to `position` and lays its rows out again from the
    /// top.
    pub fn set_position(&mut self, position: &Vector2u)
        requires
            old(self)@.shaped(),
        ensures
            final(self)@ == old(self)@.placed(*position),
            final(self)@.wf(),
    {
        let n = self.labels.len();
        let ghost old_view = self@;
        let limit: u64 = self.graphic_size.y as u64 + position.y as u64;
        let mut positions: Vec<Vector2i> = Vec::new();
        let mut to_draw: usize = 0;
        let mut i: usize = 0;
        while i < n
            invariant
                n <= MAX_TEXTS,
                i <= n,
                limit == self.graphic_size.y + position.y,
                positions@.len() == i,
                to_draw as int == visible_count(i as int, self.graphic_size.y as int),
                forall|k: int|
                    0 <= k < i ==> #[trigger] positions@[k] == (Vector2i {
                        x: (position.x + 4) as i64,
                        y: (2 * position.y + 22 * k) as i64,
                    }),
            decreases n - i,
        {
            let pos: u64 = position.y as u64 + 22 * (i as u64);
            positions.push(
                Vector2i { x: position.x as i64 + 4, y: pos as i64 + position.y as i64 },
            );
            proof {
                lemma_row_visible(i as int, self.graphic_size.y as int);
            }
            if pos < limit {
                to_draw = to_draw + 1;
            }
            i = i + 1;
        }
        self.position = *position;
        self.to_draw = to_draw;
        self.border_position = Vector2i { x: position.x as i64 - 1, y: position.y as i64 };
        self.positions = positions;
        assert(self@.positions =~= old_view.placed(*position).positions);
        assert(self@ =~= old_view.placed(*position));
    }

    /// Scrolls the view so that `to_add` rows lie above it, when that offset
    /// is new, not negative, and keeps the last shown row within two rows of
    /// the end of the list; otherwise nothing changes.
    pub fn set_to_add(&mut self, to_add: i64)
        requires
            old(self)@.wf(),
        ensures
            final(self)@ == old(self)@.scrolled(to_add as int),
            final(self)@.wf(),
    {
        let ghost old_view = self@;
        let n = self.positions.len();
        let tmp_add: i128 = to_add as i128 * 22;
        let max: i128 = (n as i128 + 2) * 22;
        if self.add_to_view != to_add && tmp_add >= 0 && tmp_add + self.to_draw as i128 * 22 < max {
            let mut positions: Vec<Vector2i> = Vec::new();
            let mut pos: i64 = self.position.y as i64 - tmp_add as i64;
            let mut i: usize = 0;
            while i < n
                invariant
                    n == self.positions@.len(),
                    n <= MAX_TEXTS,
                    0 <= tmp_add < (n + 2) * 22,
                    tmp_add == to_add * 22,
                    i <= n,
                    positions@.len() == i,
                    pos == self.position.y - tmp_add + 22 * i,
                    forall|k: int|
                        0 <= k < i ==> #[trigger] positions@[k] == (Vector2i {
                            x: self.positions@[k].x,
                            y: (self.position.y - to_add * 22 + 22 * k) as i64,
                        }),
                decreases n - i,
            {
                let x = self.positions[i].x;
                positions.push(Vector2i { x, y: pos });
                pos = pos + 22;
                i = i + 1;
            }
            self.positions = positions;
            self.add_to_view = to_add;
            assert(self@.positions =~= old_view.scrolled(to_add as int).positions);
            assert(self@ =~= old_view.scrolled(to_add as int));
        }
    }

    /// Makes row `current` the current one: it is drawn in the current
    /// colour, the former current row in the normal colour, and the view
    /// scrolls so that the row stands two rows above the bottom when it can.
    pub fn set_current(&mut self, current: usize)
        requires
            old(self)@.wf(),
            current != old(self)@.current ==> current < old(self)@.len() && old(self)@.current
                < old(self)@.len(),
        ensures
            final(self)@ == old(self)@.with_current(current as nat),
            final(self)@.wf(),
    {
        let ghost old_view = self@;
        if current != self.current {
            self.colors.set(current, TextColor::Current);
            self.colors.set(self.current, TextColor::Normal);
            self.current = current;
            let ghost recolored = self@;
            assert(recolored =~= PlaylistView {
                musics: old_view.musics,
                labels: old_view.labels,
                positions: old_view.positions,
                colors: old_view.colors.update(current as int, TextColor::Current).update(
                    old_view.current as int,
                    TextColor::Normal,
                ),
                graphic_size: old_view.graphic_size,
                position: old_view.position,
                to_draw: old_view.to_draw,
                current: current as nat,
                border_position: old_view.border_position,
                border_size: old_view.border_size,
                hover_element: old_view.hover_element,
                add_to_view: old_view.add_to_view,
            });
            assert(self.current < old_view.len() <= MAX_TEXTS);
            if self.current + 2 >= self.to_draw {
                let target = self.current + 2 - self.to_draw;
                self.set_to_add(target as i64);
            } else {
                self.set_to_add(0);
            }
        }
    }
}

impl GraphicPlayList {
    /// Row of the music being played.
    pub fn get_current(&self) -> (c: usize)
        ensures
            c == self@.current,
    {
        self.current
    }

    /// Number of rows scrolled out above the widget.
    pub fn get_add_to_view(&self) -> (a: i64)
        ensures
            a == self@.add_to_view,
    {
        self.add_to_view
    }

    /// Takes row `pos` out of the list, when there is such a row, and lays
    /// the rows out again. The current and highlighted row numbers are kept
    /// as they were.
    pub fn remove_music(&mut self, pos: usize)
        requires
            old(self)@.wf(),
        ensures
            final(self)@ == (if pos < old(self)@.len() {
                old(self)@.without_row(pos as int)
            } else {
                old(self)@.placed(old(self)@.position)
            }),
            final(self)@.wf(),
    {
        let ghost old_view = self@;
        if pos < self.labels.len() {
            self.labels.remove(pos);
            self.positions.remove(pos);
            self.colors.remove(pos);
            let ghost removed = PlaylistView {
                musics: old_view.musics,
                labels: old_view.labels.remove(pos as int),
                positions: old_view.positions.remove(pos as int),
                colors: old_view.colors.remove(pos as int),
                graphic_size: old_view.graphic_size,
                position: old_view.position,
                to_draw: old_view.to_draw,
                current: old_view.current,
                border_position: old_view.border_position,
                border_size: old_view.border_size,
                hover_element: old_view.hover_element,
                add_to_view: old_view.add_to_view,
            };
            assert(self@.labels =~= removed.labels);
            assert(self@.positions =~= removed.positions);
            assert(self@ =~= removed);
        }
        let tmp = self.position;
        self.set_position(&tmp);
    }

    /// Whether `pos` lies in the widget, its edges included.
    pub fn is_inside(&self, pos: &Vector2u) -> (inside: bool)
        ensures
            inside == self@.contains_point(*pos),
    {
        pos.y >= self.position.y && pos.y as u64 <= self.position.y as u64
            + self.graphic_size.y as u64 && pos.x >= self.position.x && pos.x as u64
            <= self.position.x as u64 + self.graphic_size.x as u64
    }

    /// The mouse left the widget: the highlighted row, if any, goes back to
    /// the normal colour.
    pub fn mouse_leave(&mut self)
        requires
            old(self)@.wf(),
            old(self)@.hover_element matches Some(s) ==> s < old(self)@.len(),
        ensures
            final(self)@ == old(self)@.unhovered(),
            final(self)@.wf(),
    {
        match self.hover_element {
            Some(s) => {
                self.colors.set(s, TextColor::Normal);
                self.hover_element = None;
                assert(self@ =~= old(self)@.unhovered());
            },
            None => {},
        }
    }

    /// Row under the height `y`, which lies at or below the top of the
    /// widget.
    fn row_at(&self, y: i64) -> (row: i64)
        requires
            self@.wf(),
            y >= self.position.y,
        ensures
            row == self@.row_at(y as int),
            row >= 0,
    {
        let offset: u64 = (y - self.position.y as i64) as u64;
        (offset / 22) as i64 + self.add_to_view
    }

    /// A click at height `y`: when it falls on a row, the highlight is
    /// cleared and the row becomes the current one. Returns whether it fell
    /// on a row.
    pub fn click(&mut self, y: i64) -> (selected: bool)
        requires
            old(self)@.wf(),
            old(self)@.click_selects(y as int) ==> {
                &&& old(self)@.current < old(self)@.len()
                &&& old(self)@.hover_element matches Some(s) ==> s < old(self)@.len()
            },
        ensures
            selected == old(self)@.click_selects(y as int),
            final(self)@ == old(self)@.clicked(y as int),
            final(self)@.wf(),
    {
        if y >= self.position.y as i64 {
            let tmp = self.row_at(y);
            if (tmp as u64) < self.labels.len() as u64 {
                self.mouse_leave();
                self.set_current(tmp as usize);
                true
            } else {
                false
            }
        } else {
            false
        }
    }

    /// The mouse moved to height `y`: the row under it is highlighted
    /// unless it is the current one, and a row no longer under it goes back
    /// to the normal colour. Below the last row nothing is highlighted any
    /// more, though the former highlighted row keeps its colour.
    pub fn cursor_moved(&mut self, y: i64)
        requires
            old(self)@.wf(),
            y >= old(self)@.position.y && old(self)@.row_at(y as int) < old(self)@.len()
                ==> (old(self)@.hover_element matches Some(s) ==> s < old(self)@.len()),
        ensures
            final(self)@ == old(self)@.hovered(y as int),
            final(self)@.wf(),
    {
        let ghost old_view = self@;
        if y >= self.position.y as i64 {
            let tmp_row = self.row_at(y);
            if tmp_row as u64 >= self.labels.len() as u64 {
                self.hover_element = None;
                assert(self@ =~= old_view.hovered(y as int));
                return ;
            }
            let tmp = tmp_row as usize;
            match self.hover_element {
                Some(s) => {
                    if self.current == tmp {
                        self.colors.set(s, TextColor::Normal);
                        self.hover_element = None;
                    } else if s != tmp {
                        self.colors.set(s, TextColor::Normal);
                        self.hover_element = Some(tmp);
                        self.colors.set(tmp, TextColor::Hovered);
                    }
                },
                None => {
                    if self.current != tmp {
                        self.hover_element = Some(tmp);
                        self.colors.set(tmp, TextColor::Hovered);
                    }
                },
            }
            assert(self@ =~= old_view.hovered(y as int));
        }
    }

    /// Rows to draw, top first: those from the scroll offset on, as many as
    /// fit in the widget. The border is drawn after them.
    pub fn draw(&self) -> (rows: Vec<usize>)
        requires
            self@.wf(),
        ensures
            rows@.len() == self@.drawn_rows().len(),
            forall|k: int| 0 <= k < rows@.len() ==> rows@[k] as int == self@.drawn_rows()[k],
    {
        let n = self.labels.len();
        let mut rows: Vec<usize> = Vec::new();
        let mut it: usize = 0;
        while it < n
            invariant
                n == self@.len(),
                self@.wf(),
                it <= n,
                it <= self@.to_draw + self@.add_to_view,
                rows@.len() == if it > self@.add_to_view {
                    it - self@.add_to_view
                } else {
                    0
                },
                forall|k: int| 0 <= k < rows@.len() ==> rows@[k] as int == self@.add_to_view + k,
            ensures
                it == self@.draw_end(),
                rows@.len() == if it > self@.add_to_view {
                    it - self@.add_to_view
                } else {
                    0
                },
                forall|k: int| 0 <= k < rows@.len() ==> rows@[k] as int == self@.add_to_view + k,
            decreases n - it,
        {
            if it as i64 == self.to_draw as i64 + self.add_to_view {
                break;
            }
            if it as i64 >= self.add_to_view {
                rows.push(it);
            }
            it = it + 1;
        }
        rows
    }

    /// Number of rows.
    pub fn text_count(&self) -> (n: usize)
        ensures
            n == self@.len(),
    {
        self.labels.len()
    }

    /// Text of row `i`.
    pub fn text_label(&self, i: usize) -> (label: &String)
        requires
            self@.wf(),
            i < self@.len(),
        ensures
            label@ == self@.labels[i as int],
    {
        &self.labels[i]
    }

    /// Position of the text of row `i`.
    pub fn text_position(&self, i: usize) -> (p: Vector2i)
        requires
            self@.wf(),
            i < self@.len(),
        ensures
            point_view(p) == self@.positions[i as int],
    {
        self.positions[i]
    }

    /// Colour of the text of row `i`.
    pub fn text_color(&self, i: usize) -> (c: TextColor)
        requires
            self@.wf(),
            i < self@.len(),
        ensures
            c == self@.colors[i as int],
    {
        self.colors[i]
    }

    /// Position and size of the border drawn along the left of the widget.
    pub fn border(&self) -> (b: (Vector2i, Vector2i))
        ensures
            point_view(b.0) == self@.border_position,
            point_view(b.1) == self@.border_size,
    {
        (self.border_position, self.border_size)
    }

    /// Row under the mouse, if it is highlighted.
    pub fn get_hover_element(&self) -> (h: Option<usize>)
        ensures
            hover_view(h) == self@.hover_element,
    {
        self.hover_element
    }
}

/// Whether consecutive rows are one row height apart, top to bottom.
pub open spec fn evenly_spaced(positions: Seq<(int, int)>) -> bool {
    forall|i: int|
        0 <= i < positions.len() - 1 ==> #[trigger] positions[i + 1].1 == positions[i].1 + 22
}

/// Making a row current keeps it in view: once row `c` has become current,
/// it is among the rows drawn, provided the widget shows at least two rows.
pub proof fn law_current_row_is_drawn(v: PlaylistView, c: nat)
    requires
        v.wf(),
        c < v.len(),
        v.current < v.len(),
        c != v.current,
        v.to_draw >= 2,
    ensures
        v.with_current(c).current == c,
        v.with_current(c).colors[c as int] == TextColor::Current,
        v.with_current(c).drawn_rows().contains(c as int),
{
    let w = v.with_current(c);
    let k = c - w.add_to_view;
    assert(w.add_to_view <= c < w.add_to_view + w.to_draw);
    assert(w.drawn_rows()[k] == c);
}

/// A click that falls on a row makes that row current and leaves no row
/// highlighted.
pub proof fn law_click_selects_row(v: PlaylistView, y: int)
    requires
        v.wf(),
        v.click_selects(y),
        v.current < v.len(),
        v.hover_element matches Some(s) ==> s < v.len(),
    ensures
        v.clicked(y).current == v.row_at(y),
        v.clicked(y).hover_element is None,
        v.clicked(y).wf(),
{
}

/// Once the mouse has moved over the widget, the highlighted row is never
/// the current one.
pub proof fn law_hover_is_not_current(v: PlaylistView, y: int)
    requires
        v.wf(),
        y >= v.position.y,
    ensures
        v.hovered(y).hover_element != Some(v.hovered(y).current),
{
}

/// Rows stay one row height apart: laying the widget out spaces them so,
/// and scrolling keeps them so.
pub proof fn law_rows_evenly_spaced(v: PlaylistView, position: Vector2u, to_add: int)
    requires
        v.wf(),
    ensures
        evenly_spaced(v.placed(position).positions),
        evenly_spaced(v.positions) ==> evenly_spaced(v.scrolled(to_add).positions),
{
}

/// The rows drawn are consecutive rows of the list, at most as many as fit
/// in the widget, starting at the scroll offset.
pub proof fn law_drawn_rows_fit(v: PlaylistView)
    requires
        v.wf(),
    ensures
        v.drawn_rows().len() <= v.to_draw,
        forall|k: int|
            0 <= k < v.drawn_rows().len() ==> 0 <= #[trigger] v.drawn_rows()[k] < v.len(),
        forall|k: int|
            0 <= k < v.drawn_rows().len() ==> #[trigger] v.drawn_rows()[k] == v.add_to_view + k,
{
}

/// Whether each row stands where scrolling to offset `add` puts it.
pub open spec fn laid_out_for_offset(v: PlaylistView, add: int) -> bool {
    forall|i: int|
        0 <= i < v.positions.len() ==> (#[trigger] v.positions[i]).1 == v.position.y - add * 22
            + 22 * i
}

/// Scrolling away and back undoes itself: when both scrolls take effect
/// and the rows stood where the first offset puts them, the widget is as it
/// was.
pub proof fn law_scroll_round_trip(v: PlaylistView, to_add: int)
    requires
        v.wf(),
        laid_out_for_offset(v, v.add_to_view),
        v.scroll_accepted(to_add),
        v.scrolled(to_add).scroll_accepted(v.add_to_view),
    ensures
        v.scrolled(to_add).scrolled(v.add_to_view) == v,
{
    let w = v.scrolled(to_add).scrolled(v.add_to_view);
    assert(w.positions =~= v.positions);
    assert(w =~= v);
}

/// A label never holds a `/`, and the path ends with it, but for a single
/// trailing `/`.
pub proof fn law_label_has_no_slash(path: Seq<char>)
    ensures
        !music_label(path).contains('/'),
        music_label(path).is_suffix_of(path.take(label_end(path))),
{
    let end = label_end(path);
    lemma_label_start_bounds(path, end);
    let label = music_label(path);
    let start = label_start(path, end);
    if label.contains('/') {
        let i = choose|i: int| 0 <= i < label.len() && label[i] == '/';
        assert(path[start + i] == '/');
    }
    let prefix = path.take(end);
    assert(prefix.subrange(prefix.len() - label.len(), prefix.len() as int) =~= label);
}

/// The label is the whole last component of the path: it holds no `/`, the
/// path (less one trailing `/`) ends with it, and it reaches back either to
/// the start of the path or to a `/`.
pub proof fn law_label_is_last_component(path: Seq<char>)
    ensures
        !music_label(path).contains('/'),
        path.len() > 0 && path.last() != '/' ==> music_label(path).is_suffix_of(path),
        path.len() > 0 && path.last() == '/' ==> music_label(path).is_suffix_of(
            path.drop_last(),
        ),
        path.len() > 0 && path.last() != '/' ==> {
            let start = path.len() - music_label(path).len();
            start == 0 || path[start - 1] == '/'
        },
        path.len() > 0 && path.last() == '/' ==> {
            let start = path.len() - 1 - music_label(path).len();
            start == 0 || path[start - 1] == '/'
        },
{
    let end = label_end(path);
    lemma_label_start_bounds(path, end);
    lemma_label_start_reaches_slash(path, end);
    law_label_has_no_slash(path);
    if path.len() > 0 && path.last() == '/' {
        assert(path.take(end) =~= path.drop_last());
    } else if path.len() > 0 {
        assert(path.take(end) =~= path);
    }
}

proof fn lemma_label_start_reaches_slash(path: Seq<char>, end: int)
    requires
        0 <= end <= path.len(),
    ensures
        label_start(path, end) == 0 || path[label_start(path, end) - 1] == '/',
    decreases end,
{
    if end > 0 && path[end - 1] != '/' {
        lemma_label_start_reaches_slash(path, end - 1);
    }
}

/// A click on a row other than the current one makes the row under the
/// mouse, counted from the top of the list, current and draws it in the
/// current colour, even when it was the highlighted row; no row stays
/// highlighted.
pub proof fn law_click_colors_clicked_row(v: PlaylistView, y: int)
    requires
        v.wf(),
        y >= v.position.y,
        (y - v.position.y) / 22 + v.add_to_view < v.len(),
        (y - v.position.y) / 22 + v.add_to_view != v.current,
        v.current < v.len(),
        v.hover_element matches Some(s) ==> s < v.len(),
    ensures
        ({
            let r = (y - v.position.y) / 22 + v.add_to_view;
            let w = v.clicked(y);
            &&& w.current == r
            &&& w.colors[r] == TextColor::Current
            &&& w.colors[v.current as int] == TextColor::Normal
            &&& w.hover_element is None
            &&& w.colors.len() == v.colors.len()
        }),
{
}

/// Moving the mouse over a row highlights the row under it, counted from
/// the top of the list with the scroll offset, unless it is the current
/// row, in which case nothing stays highlighted; past the last row nothing
/// is highlighted either.
pub proof fn law_hover_follows_mouse(v: PlaylistView, y: int)
    requires
        v.wf(),
        y >= v.position.y,
        v.hover_element matches Some(s) ==> s < v.len(),
    ensures
        ({
            let r = (y - v.position.y) / 22 + v.add_to_view;
            let w = v.hovered(y);
            &&& r < v.len() && r != v.current ==> w.hover_element == Some(r as nat)
            &&& r < v.len() && r != v.current && v.hover_element != Some(r as nat)
                ==> w.colors[r] == TextColor::Hovered
            &&& r < v.len() && r == v.current ==> w.hover_element is None
            &&& r >= v.len() ==> w.hover_element is None
            &&& w.current == v.current
            &&& w.add_to_view == v.add_to_view
        }),
{
}

/// Making another row current moves the current colour from the old row
/// to the new one and touches no other row, label or position but through
/// the scroll.
pub proof fn law_set_current_moves_colour(v: PlaylistView, c: nat)
    requires
        v.wf(),
        c < v.len(),
        v.current < v.len(),
        c != v.current,
    ensures
        ({
            let w = v.with_current(c);
            &&& w.current == c
            &&& w.colors.len() == v.colors.len()
            &&& w.colors[c as int] == TextColor::Current
            &&& w.colors[v.current as int] == TextColor::Normal
            &&& forall|i: int|
                0 <= i < v.colors.len() && i != c && i != v.current ==> #[trigger] w.colors[i]
                    == v.colors[i]
            &&& w.labels == v.labels
            &&& w.hover_element == v.hover_element
            &&& w.to_draw == v.to_draw
        }),
{
}

/// A scroll to offset `t` takes effect exactly when `t` is new, not
/// negative, and leaves the shown rows within two rows past the end of the
/// list; it then puts row `i` at height `position.y - 22 t + 22 i`, keeping
/// each row's column. Otherwise nothing changes.
pub proof fn law_scroll_moves_rows(v: PlaylistView, t: int)
    requires
        v.wf(),
    ensures
        ({
            let w = v.scrolled(t);
            let takes = t != v.add_to_view && t >= 0 && t + v.to_draw < v.len() + 2;
            &&& takes ==> w.add_to_view == t
            &&& takes ==> w.positions.len() == v.positions.len()
            &&& takes ==> forall|i: int|
                0 <= i < v.positions.len() ==> #[trigger] w.positions[i] == (
                    v.positions[i].0,
                    v.position.y - 22 * t + 22 * i,
                )
            &&& !takes ==> w == v
            &&& w.labels == v.labels
            &&& w.colors == v.colors
            &&& w.current == v.current
        }),
{
}

/// Laying the widget out at `p` puts row `i` at `(p.x + 4, 2 p.y + 22 i)`,
/// the border at `(p.x - 1, p.y)`, and counts as shown exactly the rows
/// whose top `22 i` lies above the widget's height.
pub proof fn law_layout_rows(v: PlaylistView, p: Vector2u)
    requires
        v.wf(),
    ensures
        ({
            let w = v.placed(p);
            &&& w.positions.len() == v.len()
            &&& forall|i: int|
                0 <= i < v.len() ==> #[trigger] w.positions[i] == (p.x + 4, 2 * p.y + 22 * i) && (i
                    < w.to_draw <==> 22 * i < v.graphic_size.y)
            &&& w.border_position == (p.x - 1, p.y as int)
            &&& w.to_draw <= v.len()
            &&& w.position == p
            &&& w.add_to_view == v.add_to_view
            &&& w.wf()
        }),
{
    assert forall|i: int| 0 <= i < v.len() implies #[trigger] v.placed(p).positions[i] == (p.x
        + 4, 2 * p.y + 22 * i) && (i < v.placed(p).to_draw <==> 22 * i < v.graphic_size.y) by {
        lemma_row_visible(i, v.graphic_size.y as int);
    }
}

/// Removing row `i` takes exactly that row's label and colour out, keeps
/// the others in order, and lays the rows out again where the widget stands.
pub proof fn law_remove_row(v: PlaylistView, i: int)
    requires
        v.wf(),
        0 <= i < v.len(),
    ensures
        ({
            let w = v.without_row(i);
            &&& w.len() == v.len() - 1
            &&& forall|k: int| 0 <= k < i ==> #[trigger] w.labels[k] == v.labels[k]
            &&& forall|k: int| i <= k < w.len() ==> #[trigger] w.labels[k] == v.labels[k + 1]
            &&& forall|k: int| 0 <= k < i ==> #[trigger] w.colors[k] == v.colors[k]
            &&& forall|k: int| i <= k < w.len() ==> #[trigger] w.colors[k] == v.colors[k + 1]
            &&& w.position == v.position
            &&& w.current == v.current
            &&& w.wf()
        }),
{
}

/// Every row from the scroll offset on that fits in the widget and exists
/// is drawn, and only those.
pub proof fn law_drawn_rows_complete(v: PlaylistView, r: int)
    requires
        v.wf(),
    ensures
        v.drawn_rows().contains(r) <==> (v.add_to_view <= r && r < v.add_to_view + v.to_draw
            && r < v.len()),
{
    let d = v.drawn_rows();
    if v.add_to_view <= r && r < v.add_to_view + v.to_draw && r < v.len() {
        assert(d[r - v.add_to_view] == r);
    }
}

/// A click falls on a row exactly when it is at or below the top of the
/// widget and the row under it, with the scroll offset, exists; a click
/// elsewhere changes nothing.
pub proof fn law_click_hits_row(v: PlaylistView, y: int)
    requires
        v.wf(),
    ensures
        v.click_selects(y) <==> (y >= v.position.y && (y - v.position.y) / 22 + v.add_to_view
            < v.len()),
        !v.click_selects(y) ==> v.clicked(y) == v,
{
}

/// Size of the characters of the rows, in points.
pub const CHARACTER_SIZE: u32 = 20;

} // verus!
