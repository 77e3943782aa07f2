//! The scrolling track list: which tracks are on screen, which one the cursor is on,
//! which one plays, and what each change paints.

use crate::colors::{Colors, Rgb};
use crate::draw::{put, put_str, views, Draw, DrawView};
use crate::paint::{
    borders, clear_area, clear_rows, draw_horizontal_lines, draw_vertical_lines, line_length,
    put_row, repeated, row_draw,
};
use crate::queue::Queue;
use crate::repeat::Repeat;
use crate::search::{answers, first_answer, first_answer_of, lemma_no_answer};
use crate::text::{clock_text, cut_string, decimal, display_name, format_time, push_decimal, texts};
use vstd::prelude::*;

verus! {

/// A place on the screen: column `x` of row `y`, both counted from 1.
#[derive(Clone, Copy, Debug, PartialEq, Eq, Structural)]
pub struct Point {
    pub x: u16,
    pub y: u16,
}

/// Where the changing parts of the status area stand.
#[derive(Clone, Copy, Debug, PartialEq, Eq, Structural)]
pub struct Layout {
    pub name: Point,
    pub status: Point,
    pub repeat: Point,
    pub shuffle: Point,
    pub volume: Point,
    pub queue: Point,
    pub bar: Point,
}

/// How a row of the list is set off from the others.
#[derive(Clone, Copy, Debug, PartialEq, Eq, Structural)]
pub enum Highlight {
    /// Neither under the cursor nor playing.
    Plain,
    /// Under the cursor.
    Selected,
    /// Playing.
    NowPlaying,
    /// Under the cursor and playing.
    Both,
}

/// Why no screen can be set up.
#[derive(Clone, Copy, Debug, PartialEq, Eq, Structural)]
pub enum UiError {
    /// There is no track to list.
    NoTracks,
    /// There are more tracks than can be numbered.
    TooManyTracks,
    /// The terminal has under 8 columns or under 8 rows.
    TooSmall,
}

/// The most tracks that a list can hold.
pub const MAX_TRACKS: usize = 65535;

/// The fewest columns a terminal must have for the list to be set up: the borders,
/// the margins and the numbers of the list take 8 columns, and the names what is left.
pub const MIN_WIDTH: u16 = 8;

/// The fewest columns a terminal must have for the name of the playing track to be
/// shown: its label and the borders take 17 columns, and the name what is left.
pub const NAME_WIDTH: u16 = 17;

/// The fewest columns a terminal must have for the progress bar to be shown: the two
/// times stand 6 columns to the left of its middle.
pub const BAR_WIDTH: u16 = 12;

/// The fewest rows a terminal must have.
pub const MIN_HEIGHT: u16 = 8;

/// The screen as plain values.
pub struct UiView {
    /// The display name of each track.
    pub names: Seq<Seq<char>>,
    pub colors: Colors,
    /// How many rows of the list are on screen.
    pub lines: u16,
    /// The track on the first row; tracks are counted from 0.
    pub offset: u16,
    /// The row the cursor is on, counted from 1, or 0 while nothing is selected.
    pub cursor_pos: u16,
    /// The track that plays.
    pub now_playing: u16,
    pub width: u16,
    pub height: u16,
    pub layout: Layout,
}

impl UiView {
    /// What holds of every screen: the window lies within the list, the cursor within
    /// the window, the window stands at the start of the list while nothing is
    /// selected, and the playing track is one of the list.
    pub open spec fn wf(self) -> bool {
        &&& 1 <= self.names.len() <= MAX_TRACKS
        &&& self.width >= MIN_WIDTH
        &&& self.height >= MIN_HEIGHT
        &&& self.lines == window_lines(self.names.len(), self.height)
        &&& self.offset + self.lines <= self.names.len()
        &&& self.cursor_pos <= self.lines
        &&& self.cursor_pos == 0 ==> self.offset == 0
        &&& self.now_playing < self.names.len()
    }

    /// The number on the list of the track under the cursor, counted from 1, or 0
    /// while nothing is selected.
    pub open spec fn selected(self) -> int {
        self.cursor_pos + self.offset
    }

    /// Whether `track` stands on one of the rows on screen.
    pub open spec fn visible(self, track: int) -> bool {
        self.offset <= track < self.offset + self.lines
    }

    /// The screen row on which the visible `track` stands.
    pub open spec fn row_of(self, track: int) -> u16 {
        (track - self.offset + 2) as u16
    }

    /// How the row of `track` is set off.
    pub open spec fn highlight_of(self, track: int) -> Highlight {
        let under_cursor = self.cursor_pos != 0 && self.selected() == track + 1;
        let playing = self.now_playing == track;
        if under_cursor && playing {
            Highlight::Both
        } else if under_cursor {
            Highlight::Selected
        } else if playing {
            Highlight::NowPlaying
        } else {
            Highlight::Plain
        }
    }
}

/// How many rows the list takes on a terminal of `height` rows: one for each of the
/// `tracks`, as far as the rows above the status area go.
pub open spec fn window_lines(tracks: nat, height: u16) -> u16 {
    if tracks > height - 7 {
        (height - 7) as u16
    } else {
        tracks as u16
    }
}

/// The color in which a row set off as `highlight` is written; none for a plain row.
pub open spec fn highlight_color(colors: Colors, highlight: Highlight) -> Option<Rgb> {
    match highlight {
        Highlight::Plain => None,
        Highlight::Selected => Some(colors.selected),
        Highlight::NowPlaying => Some(colors.now_playing),
        Highlight::Both => Some(colors.both),
    }
}

/// The screen of the player: the track list in its window, with the cursor and the
/// playing track, above the status area.
pub struct Ui {
    colors: Colors,
    lines: u16,
    offset: u16,
    cursor_pos: u16,
    now_playing: u16,
    music_list_names: Vec<String>,
    width: u16,
    height: u16,
    layout: Layout,
}

impl View for Ui {
    type V = UiView;

    closed spec fn view(&self) -> UiView {
        UiView {
            names: texts(self.music_list_names@),
            colors: self.colors,
            lines: self.lines,
            offset: self.offset,
            cursor_pos: self.cursor_pos,
            now_playing: self.now_playing,
            width: self.width,
            height: self.height,
            layout: self.layout,
        }
    }
}

/// The screen as it is first set up for the files `music_list`.
pub open spec fn fresh_view(music_list: Seq<Seq<char>>, colors: Colors, width: u16, height: u16) -> UiView {
    UiView {
        names: Seq::new(music_list.len(), |i: int| display_name(music_list[i], (width - 8) as nat)),
        colors,
        lines: window_lines(music_list.len(), height),
        offset: 0,
        cursor_pos: 0,
        now_playing: 0,
        width,
        height,
        layout: no_layout(),
    }
}

/// The layout before any of its places is known.
pub open spec fn no_layout() -> Layout {
    let origin = Point { x: 0, y: 0 };
    Layout {
        name: origin,
        status: origin,
        repeat: origin,
        shuffle: origin,
        volume: origin,
        queue: origin,
        bar: origin,
    }
}

/// Why no screen can be set up for `tracks` tracks on a terminal of this size, if
/// it cannot.
pub open spec fn setup_error(tracks: nat, width: u16, height: u16) -> Option<UiError> {
    if tracks == 0 {
        Some(UiError::NoTracks)
    } else if tracks > MAX_TRACKS {
        Some(UiError::TooManyTracks)
    } else if width < MIN_WIDTH || height < MIN_HEIGHT {
        Some(UiError::TooSmall)
    } else {
        None
    }
}

impl Ui {
    /// Sets up the screen for the files `music_list` on a terminal of `width` columns
    /// and `height` rows. The list shows each file by its display name, from the first
    /// track on, with nothing selected. The places of the status area are not known yet.
    pub fn new(music_list: &Vec<String>, colors: Colors, width: u16, height: u16) -> (made: Result<
        Ui,
        UiError,
    >)
        ensures
            match made {
                Ok(ui) => setup_error(music_list@.len(), width, height).is_none() && ui@
                    == fresh_view(texts(music_list@), colors, width, height) && ui@.wf(),
                Err(e) => setup_error(music_list@.len(), width, height) == Some(e),
            },
    {
        if music_list.len() == 0 {
            return Err(UiError::NoTracks);
        }
        if music_list.len() > MAX_TRACKS {
            return Err(UiError::TooManyTracks);
        }
        if width < MIN_WIDTH || height < MIN_HEIGHT {
            return Err(UiError::TooSmall);
        }
        let lines: u16 = if music_list.len() > (height - 7) as usize {
            height - 7
        } else {
            music_list.len() as u16
        };
        let ghost files = texts(music_list@);
        let mut names: Vec<String> = Vec::new();
        let mut i: usize = 0;
        while i < music_list.len()
            invariant
                i <= music_list.len(),
                width >= MIN_WIDTH,
                files == texts(music_list@),
                names@.len() == i,
                forall|k: int|
                    0 <= k < i ==> (#[trigger] names@[k])@ == display_name(
                        files[k],
                        (width - 8) as nat,
                    ),
            decreases music_list.len() - i,
        {
            let name = cut_string(music_list[i].clone(), (width - 8) as usize);
            names.push(name);
            i += 1;
        }
        let origin = Point { x: 0, y: 0 };
        let ui = Ui {
            colors,
            lines,
            offset: 0,
            cursor_pos: 0,
            now_playing: 0,
            music_list_names: names,
            width,
            height,
            layout: Layout {
                name: origin,
                status: origin,
                repeat: origin,
                shuffle: origin,
                volume: origin,
                queue: origin,
                bar: origin,
            },
        };
        assert(ui@.names =~= fresh_view(files, colors, width, height).names);
        Ok(ui)
    }

    /// How many tracks the list holds.
    pub fn track_count(&self) -> (n: u16)
        requires
            self@.wf(),
        ensures
            n == self@.names.len(),
    {
        self.music_list_names.len() as u16
    }

    /// How many columns the terminal has.
    pub fn width(&self) -> (n: u16)
        ensures
            n == self@.width,
    {
        self.width
    }

    /// How many rows the terminal has.
    pub fn height(&self) -> (n: u16)
        ensures
            n == self@.height,
    {
        self.height
    }

    /// How many rows of the list are on screen.
    pub fn lines(&self) -> (n: u16)
        ensures
            n == self@.lines,
    {
        self.lines
    }

    /// The track on the first row of the list.
    pub fn offset(&self) -> (n: u16)
        ensures
            n == self@.offset,
    {
        self.offset
    }

    /// The row the cursor is on, counted from 1, or 0 while nothing is selected.
    pub fn cursor_pos(&self) -> (n: u16)
        ensures
            n == self@.cursor_pos,
    {
        self.cursor_pos
    }

    /// The track that plays.
    pub fn now_playing(&self) -> (n: u16)
        ensures
            n == self@.now_playing,
    {
        self.now_playing
    }

    /// Where the changing parts of the status area stand.
    pub fn layout(&self) -> (layout: Layout)
        ensures
            layout == self@.layout,
    {
        self.layout
    }

    /// The number on the list of the track under the cursor, counted from 1, or 0
    /// while nothing is selected.
    pub fn get_selected(&self) -> (selected: u16)
        requires
            self@.wf(),
        ensures
            selected == self@.selected(),
    {
        self.cursor_pos + self.offset
    }

    /// How the row of `track` is set off: by the cursor, as the playing track, as
    /// both, or not at all.
    pub fn highlight(&self, track: u16) -> (highlight: Highlight)
        requires
            self@.wf(),
        ensures
            highlight == self@.highlight_of(track as int),
    {
        let under_cursor = self.cursor_pos != 0 && (self.cursor_pos + self.offset) as u32 == track as u32 + 1;
        let playing = self.now_playing == track;
        if under_cursor && playing {
            Highlight::Both
        } else if under_cursor {
            Highlight::Selected
        } else if playing {
            Highlight::NowPlaying
        } else {
            Highlight::Plain
        }
    }
}

/// The cursor and the playing track set a row off each in its own way where they
/// differ, and in a third way where they meet.
pub proof fn lemma_highlights(ui: UiView, track: int)
    requires
        ui.wf(),
        0 <= track < ui.names.len(),
    ensures
        ui.cursor_pos != 0 && ui.selected() == track + 1 && ui.now_playing == track
            ==> ui.highlight_of(track) == Highlight::Both,
        ui.cursor_pos != 0 && ui.selected() == track + 1 && ui.now_playing != track
            ==> ui.highlight_of(track) == Highlight::Selected && ui.highlight_of(
            ui.now_playing as int,
        ) == Highlight::NowPlaying,
        Highlight::Both != Highlight::Selected,
        Highlight::Both != Highlight::NowPlaying,
        Highlight::Selected != Highlight::NowPlaying,
{
}

/// The rows of the cursor and of the playing track are painted by their highlights:
/// where the cursor is on the playing track both are painted in the color for both;
/// where they are apart, the row of the cursor is painted in the color for the cursor
/// and the row of the playing track in the color for the playing track.
pub proof fn lemma_row_colors(ui: UiView)
    requires
        ui.wf(),
        ui.cursor_pos != 0,
        ui.visible(ui.now_playing as int),
    ensures
        ui.selected() == ui.now_playing + 1 ==> ui.selected_row()[1] == DrawView::Fg(
            ui.colors.both,
        ) && ui.playing_row()[1] == DrawView::Fg(ui.colors.both),
        ui.selected() != ui.now_playing + 1 ==> ui.selected_row()[1] == DrawView::Fg(
            ui.colors.selected,
        ) && ui.playing_row()[1] == DrawView::Fg(ui.colors.now_playing),
{
}

/// The first track to show so that the track with number `selected` is on screen, in
/// a window of `lines` rows over `tracks` tracks: the start of the list where the
/// track stands on its first rows, else the track comes to stand on the last row
/// but one, as far as the end of the list and the size of the window allow.
pub open spec fn search_offset(selected: int, lines: int, tracks: int) -> int {
    if selected <= lines {
        0
    } else {
        let wanted = selected - lines + 1;
        let last = tracks - lines;
        let bounded = if wanted <= last {
            wanted
        } else {
            last
        };
        if bounded <= selected - 1 {
            bounded
        } else {
            selected - 1
        }
    }
}

impl UiView {
    /// What paints the row of the playing track as a plain row, if it is on screen.
    pub open spec fn plain_playing(self) -> Seq<DrawView> {
        let track = self.now_playing as int;
        if self.visible(track) {
            row_draw(self.row_of(track), None, (track + 1) as nat, false, self.names[track], 2)
        } else {
            Seq::empty()
        }
    }

    /// What paints the row of the playing track as such, if it is on screen: in the
    /// color for both where the cursor is on it, else in the color for the playing
    /// track.
    pub open spec fn playing_row(self) -> Seq<DrawView> {
        let track = self.now_playing as int;
        let highlight = self.highlight_of(track);
        if self.visible(track) {
            row_draw(
                self.row_of(track),
                highlight_color(self.colors, highlight),
                (track + 1) as nat,
                highlight == Highlight::Both,
                self.names[track],
                if highlight == Highlight::Both {
                    0
                } else {
                    2
                },
            )
        } else {
            Seq::empty()
        }
    }

    /// What paints the row of the playing track anew.
    pub open spec fn repaint_playing(self) -> Seq<DrawView> {
        self.plain_playing() + self.playing_row()
    }

    /// What paints the row under the cursor as such, if the cursor is on a row: in the
    /// color for both where the track plays, else in the color for the cursor.
    pub open spec fn selected_row(self) -> Seq<DrawView> {
        let track = self.selected() - 1;
        if self.cursor_pos == 0 {
            Seq::empty()
        } else {
            row_draw(
                (self.cursor_pos + 1) as u16,
                highlight_color(self.colors, self.highlight_of(track)),
                self.selected() as nat,
                true,
                self.names[track],
                0,
            )
        }
    }

    /// What paints the row under the cursor as a plain row, and the row of the playing
    /// track anew, if the cursor is on a row.
    pub open spec fn deselected(self) -> Seq<DrawView> {
        let track = self.selected() - 1;
        if self.cursor_pos == 0 {
            Seq::empty()
        } else {
            row_draw(
                (self.cursor_pos + 1) as u16,
                None,
                self.selected() as nat,
                false,
                self.names[track],
                1,
            ) + self.repaint_playing()
        }
    }

    /// What paints the first `upto` rows of the window as plain rows.
    pub open spec fn list_rows(self, upto: int) -> Seq<DrawView>
        decreases upto,
    {
        if upto <= 0 {
            Seq::empty()
        } else {
            self.list_rows(upto - 1) + row_draw(
                (upto + 1) as u16,
                None,
                (upto + self.offset) as nat,
                false,
                self.names[upto - 1 + self.offset],
                0,
            )
        }
    }

    /// What paints the window anew: it is blanked, each row is written plain, and the
    /// row of the playing track is painted.
    pub open spec fn scrolled(self) -> Seq<DrawView> {
        clear_rows(3, self.width - 1, 2, self.lines + 1) + self.list_rows(self.lines as int)
            + self.repaint_playing()
    }

    /// The screen after the track `id` has become the playing one.
    pub open spec fn playing(self, id: u16) -> UiView {
        UiView { now_playing: id, ..self }
    }

    /// The screen after the cursor went down one track: where it stood on the last
    /// track nothing changes; where it stood on the last row the window moves down by
    /// one track; else the cursor moves down by one row.
    pub open spec fn after_next(self) -> UiView {
        if self.selected() >= self.names.len() {
            self
        } else if self.cursor_pos + 1 > self.lines {
            UiView { offset: (self.offset + 1) as u16, ..self }
        } else {
            UiView { cursor_pos: (self.cursor_pos + 1) as u16, ..self }
        }
    }

    /// What the move of the cursor down one track paints.
    pub open spec fn next_draw(self) -> Seq<DrawView> {
        let after = self.after_next();
        if self.selected() >= self.names.len() {
            Seq::empty()
        } else if self.cursor_pos + 1 > self.lines {
            self.deselected() + after.scrolled() + after.deselected() + after.selected_row()
        } else {
            self.deselected() + after.deselected() + after.selected_row()
        }
    }

    /// The screen after the cursor went up one track: with nothing selected nothing
    /// changes; where the cursor stood on the first row the window moves up by one
    /// track, unless it is at the start of the list; else the cursor moves up by one
    /// row.
    pub open spec fn after_previous(self) -> UiView {
        if self.cursor_pos == 0 {
            self
        } else if self.cursor_pos == 1 {
            if self.offset != 0 {
                UiView { offset: (self.offset - 1) as u16, ..self }
            } else {
                self
            }
        } else {
            UiView { cursor_pos: (self.cursor_pos - 1) as u16, ..self }
        }
    }

    /// What the move of the cursor up one track paints.
    pub open spec fn previous_draw(self) -> Seq<DrawView> {
        let after = self.after_previous();
        if self.cursor_pos == 0 {
            Seq::empty()
        } else if self.cursor_pos == 1 {
            self.deselected() + after.scrolled() + after.deselected() + after.selected_row()
        } else {
            self.deselected() + after.deselected() + after.selected_row()
        }
    }

    /// The screen after a search that found the track `found`, or none: the found
    /// track is under the cursor and on screen; without one nothing changes.
    pub open spec fn after_match(self, found: Option<int>) -> UiView {
        match found {
            Some(track) => {
                let offset = search_offset(track + 1, self.lines as int, self.names.len() as int);
                UiView { offset: offset as u16, cursor_pos: (track + 1 - offset) as u16, ..self }
            },
            None => self,
        }
    }

    /// What a search that found the track `found`, or none, paints: the old row of
    /// the cursor plain, the window anew, and the new row of the cursor.
    pub open spec fn match_draw(self, found: Option<int>) -> Seq<DrawView> {
        let after = self.after_match(found);
        self.deselected() + after.scrolled() + after.selected_row()
    }
}

impl Ui {
    /// Appends what paints the row of the playing track as a plain row.
    fn put_plain_playing(&self, out: &mut Vec<Draw>)
        requires
            self@.wf(),
        ensures
            views(final(out)@) == views(old(out)@) + self@.plain_playing(),
    {
        let track = self.now_playing;
        if track < self.offset || track as u32 >= self.offset as u32 + self.lines as u32 {
            assert(views(out@) =~= views(old(out)@) + self@.plain_playing());
            return ;
        }
        put_row(
            out,
            track - self.offset + 2,
            None,
            track + 1,
            false,
            self.music_list_names[track as usize].as_str(),
            2,
        );
    }

    /// Appends what paints the row of the playing track as such.
    fn put_playing_row(&self, out: &mut Vec<Draw>)
        requires
            self@.wf(),
        ensures
            views(final(out)@) == views(old(out)@) + self@.playing_row(),
    {
        let track = self.now_playing;
        if track < self.offset || track as u32 >= self.offset as u32 + self.lines as u32 {
            assert(views(out@) =~= views(old(out)@) + self@.playing_row());
            return ;
        }
        let name = self.music_list_names[track as usize].as_str();
        if self.cursor_pos == track - self.offset + 1 {
            put_row(out, track - self.offset + 2, Some(self.colors.both), track + 1, true, name, 0);
        } else {
            put_row(
                out,
                track - self.offset + 2,
                Some(self.colors.now_playing),
                track + 1,
                false,
                name,
                2,
            );
        }
    }

    /// Appends what paints the row of the playing track anew.
    fn put_repaint_playing(&self, out: &mut Vec<Draw>)
        requires
            self@.wf(),
        ensures
            views(final(out)@) == views(old(out)@) + self@.repaint_playing(),
    {
        self.put_plain_playing(out);
        self.put_playing_row(out);
        assert(views(out@) =~= views(old(out)@) + self@.repaint_playing());
    }

    /// Appends what paints the row under the cursor as such.
    fn put_selected_row(&self, out: &mut Vec<Draw>)
        requires
            self@.wf(),
        ensures
            views(final(out)@) == views(old(out)@) + self@.selected_row(),
    {
        if self.cursor_pos == 0 {
            assert(views(out@) =~= views(old(out)@) + self@.selected_row());
            return ;
        }
        let selected = self.cursor_pos + self.offset;
        let name = self.music_list_names[(selected - 1) as usize].as_str();
        let paint = if self.now_playing == selected - 1 {
            self.colors.both
        } else {
            self.colors.selected
        };
        put_row(out, self.cursor_pos + 1, Some(paint), selected, true, name, 0);
    }

    /// Appends what paints the row under the cursor as a plain row, and the row of
    /// the playing track anew.
    fn put_deselected(&self, out: &mut Vec<Draw>)
        requires
            self@.wf(),
        ensures
            views(final(out)@) == views(old(out)@) + self@.deselected(),
    {
        if self.cursor_pos == 0 {
            assert(views(out@) =~= views(old(out)@) + self@.deselected());
            return ;
        }
        let selected = self.cursor_pos + self.offset;
        let name = self.music_list_names[(selected - 1) as usize].as_str();
        put_row(out, self.cursor_pos + 1, None, selected, false, name, 1);
        self.put_repaint_playing(out);
        assert(views(out@) =~= views(old(out)@) + self@.deselected());
    }

    /// Appends what paints the rows of the window as plain rows.
    fn put_list_rows(&self, out: &mut Vec<Draw>)
        requires
            self@.wf(),
        ensures
            views(final(out)@) == views(old(out)@) + self@.list_rows(self@.lines as int),
    {
        let ghost before = views(out@);
        let mut i: u16 = 0;
        assert(views(out@) =~= before + self@.list_rows(0));
        while i < self.lines
            invariant
                self@.wf(),
                i <= self.lines,
                views(out@) == before + self@.list_rows(i as int),
            decreases self.lines - i,
        {
            let name = self.music_list_names[(i + self.offset) as usize].as_str();
            put_row(out, i + 2, None, i + 1 + self.offset, false, name, 0);
            i += 1;
            assert(views(out@) =~= before + self@.list_rows(i as int));
        }
    }

    /// Appends what paints the window anew.
    fn put_scrolled(&self, out: &mut Vec<Draw>)
        requires
            self@.wf(),
        ensures
            views(final(out)@) == views(old(out)@) + self@.scrolled(),
    {
        clear_area(out, 3, 2, self.width - 1, self.lines + 1);
        self.put_list_rows(out);
        self.put_repaint_playing(out);
        assert(views(out@) =~= views(old(out)@) + self@.scrolled());
    }

    /// Paints the window anew: blanks it, writes each of its rows plain, and paints
    /// the row of the playing track.
    pub fn scroll_music_list(&self) -> (out: Vec<Draw>)
        requires
            self@.wf(),
        ensures
            views(out@) == self@.scrolled(),
    {
        let mut out: Vec<Draw> = Vec::new();
        self.put_scrolled(&mut out);
        assert(views(out@) =~= self@.scrolled());
        out
    }

    /// Paints the row of the playing track as a plain row, if it is on screen.
    pub fn dehighlight_playing(&self) -> (out: Vec<Draw>)
        requires
            self@.wf(),
        ensures
            views(out@) == self@.plain_playing(),
    {
        let mut out: Vec<Draw> = Vec::new();
        self.put_plain_playing(&mut out);
        assert(views(out@) =~= self@.plain_playing());
        out
    }

    /// Makes `id` the playing track: the row of the track that played is painted
    /// plain, and the row of `id` as the playing one, each if it is on screen. Where
    /// the cursor is on the row of `id` it is painted in the color for both.
    pub fn highlight_playing(&mut self, id: u16) -> (out: Vec<Draw>)
        requires
            old(self)@.wf(),
            id < old(self)@.names.len(),
        ensures
            final(self)@ == old(self)@.playing(id),
            final(self)@.wf(),
            views(out@) == old(self)@.plain_playing() + final(self)@.playing_row(),
    {
        let mut out: Vec<Draw> = Vec::new();
        self.put_plain_playing(&mut out);
        self.now_playing = id;
        self.put_playing_row(&mut out);
        assert(views(out@) =~= old(self)@.plain_playing() + self@.playing_row());
        out
    }

    /// Paints the row under the cursor as the selected one, if the cursor is on a
    /// row. Where the track on it plays it is painted in the color for both.
    pub fn select_track(&self) -> (out: Vec<Draw>)
        requires
            self@.wf(),
        ensures
            views(out@) == self@.selected_row(),
    {
        let mut out: Vec<Draw> = Vec::new();
        self.put_selected_row(&mut out);
        assert(views(out@) =~= self@.selected_row());
        out
    }

    /// Moves the cursor down one track. On the last row of the window the window
    /// moves instead of the cursor and is painted anew; on the last track of the list
    /// nothing happens.
    pub fn select_next_track(&mut self) -> (out: Vec<Draw>)
        requires
            old(self)@.wf(),
        ensures
            final(self)@ == old(self)@.after_next(),
            final(self)@.wf(),
            views(out@) == old(self)@.next_draw(),
    {
        let mut out: Vec<Draw> = Vec::new();
        if (self.cursor_pos + self.offset) as usize >= self.music_list_names.len() {
            assert(views(out@) =~= old(self)@.next_draw());
            return out;
        }
        self.put_deselected(&mut out);
        if self.cursor_pos + 1 > self.lines {
            self.offset += 1;
            self.put_scrolled(&mut out);
        } else {
            self.cursor_pos += 1;
        }
        self.put_deselected(&mut out);
        self.put_selected_row(&mut out);
        assert(views(out@) =~= old(self)@.next_draw());
        out
    }

    /// Moves the cursor up one track. On the first row of the window the window
    /// moves instead of the cursor, unless it is at the start of the list, and is
    /// painted anew; with nothing selected nothing happens.
    pub fn select_previous_track(&mut self) -> (out: Vec<Draw>)
        requires
            old(self)@.wf(),
        ensures
            final(self)@ == old(self)@.after_previous(),
            final(self)@.wf(),
            views(out@) == old(self)@.previous_draw(),
    {
        let mut out: Vec<Draw> = Vec::new();
        if self.cursor_pos == 0 {
            assert(views(out@) =~= old(self)@.previous_draw());
            return out;
        }
        self.put_deselected(&mut out);
        if self.cursor_pos == 1 {
            if self.offset != 0 {
                self.offset -= 1;
            }
            self.put_scrolled(&mut out);
        } else {
            self.cursor_pos -= 1;
        }
        self.put_deselected(&mut out);
        self.put_selected_row(&mut out);
        assert(views(out@) =~= old(self)@.previous_draw());
        out
    }

    /// Shows what a search found. With a track found, the window moves so that the
    /// track is on screen, and the cursor goes onto it; with none found, window and
    /// cursor stay. Either way the window is painted anew.
    pub fn show_match(&mut self, found: Option<u16>) -> (out: Vec<Draw>)
        requires
            old(self)@.wf(),
            found matches Some(track) ==> track < old(self)@.names.len(),
        ensures
            final(self)@ == old(self)@.after_match(track_place(found)),
            final(self)@.wf(),
            views(out@) == old(self)@.match_draw(track_place(found)),
    {
        let mut out: Vec<Draw> = Vec::new();
        self.put_deselected(&mut out);
        match found {
            Some(track) => {
                let selected: u16 = track + 1;
                let tracks: u16 = self.music_list_names.len() as u16;
                if selected > self.lines {
                    let wanted: u16 = selected - self.lines + 1;
                    let last: u16 = tracks - self.lines;
                    let bounded: u16 = if wanted <= last {
                        wanted
                    } else {
                        last
                    };
                    self.offset = if bounded <= selected - 1 {
                        bounded
                    } else {
                        selected - 1
                    };
                } else {
                    self.offset = 0;
                }
                self.cursor_pos = selected - self.offset;
            },
            None => {},
        }
        self.put_scrolled(&mut out);
        self.put_selected_row(&mut out);
        assert(views(out@) =~= old(self)@.match_draw(track_place(found)));
        out
    }

    /// Searches the list for `search_str` and shows what was found: the first track
    /// in whose display name the text stands, whatever the case of the letters.
    pub fn highlight_searched(&mut self, search_str: &str) -> (out: Vec<Draw>)
        requires
            old(self)@.wf(),
        ensures
            final(self)@ == old(self)@.after_match(
                first_answer_of(old(self)@.names, search_str@),
            ),
            final(self)@.wf(),
            views(out@) == old(self)@.match_draw(first_answer_of(old(self)@.names, search_str@)),
    {
        let found = match first_answer(&self.music_list_names, search_str) {
            Some(i) => Some(i as u16),
            None => None,
        };
        self.show_match(found)
    }
}

/// The track `found` as a place in the list.
pub open spec fn track_place(found: Option<u16>) -> Option<int> {
    match found {
        Some(track) => Some(track as int),
        None => None,
    }
}

/// A move of the cursor down goes to the next track and no further: the selected
/// track goes up by one, except on the last track, where nothing changes.
pub proof fn lemma_next_moves_one(ui: UiView)
    requires
        ui.wf(),
    ensures
        ui.after_next().wf(),
        ui.selected() < ui.names.len() ==> ui.after_next().selected() == ui.selected() + 1,
        ui.selected() >= ui.names.len() ==> ui.after_next() == ui,
        ui.after_next().selected() <= ui.names.len(),
        ui.after_next().cursor_pos >= 1,
{
}

/// A move of the cursor up goes to the track before and no further: the selected
/// track goes down by one, except on the first track and with nothing selected,
/// where nothing changes.
pub proof fn lemma_previous_moves_one(ui: UiView)
    requires
        ui.wf(),
    ensures
        ui.after_previous().wf(),
        ui.selected() >= 2 ==> ui.after_previous().selected() == ui.selected() - 1,
        ui.selected() <= 1 ==> ui.after_previous() == ui,
        ui.cursor_pos >= 1 ==> ui.after_previous().cursor_pos >= 1,
{
}

/// A track that a search found is on screen and under the cursor afterwards.
pub proof fn lemma_match_is_selected(ui: UiView, track: int)
    requires
        ui.wf(),
        0 <= track < ui.names.len(),
    ensures
        ui.after_match(Some(track)).wf(),
        ui.after_match(Some(track)).cursor_pos >= 1,
        ui.after_match(Some(track)).selected() == track + 1,
        ui.after_match(Some(track)).visible(track),
{
}

/// A search that no track answers leaves window and cursor where they are.
pub proof fn lemma_no_match_changes_nothing(ui: UiView, query: Seq<char>)
    requires
        forall|k: int| 0 <= k < ui.names.len() ==> !answers(#[trigger] ui.names[k], query),
    ensures
        ui.after_match(first_answer_of(ui.names, query)) == ui,
{
    lemma_no_answer(ui.names, query);
}

/// The queue as it reads on screen: each waiting track's number with a space behind it.
pub open spec fn entries_text(waiting: Seq<u16>) -> Seq<char>
    decreases waiting.len(),
{
    if waiting.len() == 0 {
        Seq::empty()
    } else {
        entries_text(waiting.drop_last()) + decimal(waiting.last() as nat) + seq![' ']
    }
}

/// What the queue line says of the queue: its entries, or that it is empty.
pub open spec fn queue_text(waiting: Seq<u16>) -> Seq<char> {
    if waiting.len() == 0 {
        "empty"@
    } else {
        entries_text(waiting)
    }
}

/// How many hundredths of a track of length `duration` have played after `time`,
/// both taken in whole milliseconds and given in nanoseconds; 0 for a track of no
/// length.
pub open spec fn played_percent(duration: u64, time: u64) -> nat {
    if duration / 1_000_000 == 0 {
        0
    } else {
        ((time / 1_000_000) * 100 / ((duration / 1_000_000) as int)) as nat
    }
}

/// What paints the cell of the progress bar in column `space` of a screen `width`
/// wide: filled where the column's share of the width is within `percent`.
pub open spec fn bar_cell(width: u16, percent: nat, fill: Rgb, space: int) -> Seq<DrawView> {
    if space * 100 / (width as int) <= percent {
        seq![DrawView::Bg(fill), DrawView::Text(seq![' ']), DrawView::BgReset]
    } else {
        seq![DrawView::Text(seq![' '])]
    }
}

/// What paints the cells of the progress bar in the columns 2 to `upto - 1`.
pub open spec fn bar_cells(width: u16, percent: nat, fill: Rgb, upto: int) -> Seq<DrawView>
    decreases upto,
{
    if upto <= 2 {
        Seq::empty()
    } else {
        bar_cells(width, percent, fill, upto - 1) + bar_cell(width, percent, fill, upto - 1)
    }
}

/// The times on the progress bar: how long the track has played, and how long it is.
pub open spec fn times_text(duration: u64, time: u64) -> Seq<char> {
    seq!['-'] + clock_text((time / 1_000_000_000) as nat) + seq!['/'] + clock_text(
        (duration / 1_000_000_000) as nat,
    ) + seq!['-']
}

impl UiView {
    /// What writes `text` at `at` in the color `paint`, after blanking the row from
    /// there to column `fin_x`.
    pub open spec fn field_draw(at: Point, fin_x: int, paint: Rgb, text: Seq<char>) -> Seq<DrawView> {
        clear_rows(at.x as int, fin_x, at.y as int, at.y as int) + seq![
            DrawView::Goto(at.x, at.y),
            DrawView::Fg(paint),
            DrawView::Text(text),
        ]
    }

    /// What shows `name` as the name of the playing track.
    pub open spec fn name_draw(self, name: Seq<char>) -> Seq<DrawView> {
        Self::field_draw(
            self.layout.name,
            self.width - 1,
            self.colors.name,
            display_name(name, (self.width - 17) as nat),
        )
    }

    /// What shows whether the player is paused.
    pub open spec fn status_draw(self, paused: bool) -> Seq<DrawView> {
        Self::field_draw(
            self.layout.status,
            self.layout.status.x.saturating_add(8) as int,
            self.colors.status,
            if paused {
                "Paused"@
            } else {
                "Playing"@
            },
        )
    }

    /// What shows whether shuffle is on.
    pub open spec fn shuffle_draw(self, on: bool) -> Seq<DrawView> {
        Self::field_draw(
            self.layout.shuffle,
            self.layout.shuffle.x.saturating_add(5) as int,
            self.colors.shuffle,
            if on {
                "true"@
            } else {
                "false"@
            },
        )
    }

    /// What shows the repeat mode.
    pub open spec fn repeat_draw(self, repeat: Repeat) -> Seq<DrawView> {
        Self::field_draw(
            self.layout.repeat,
            self.layout.repeat.x.saturating_add(5) as int,
            self.colors.repeat,
            repeat.label_text(),
        )
    }

    /// What shows the volume, which reads `volume`.
    pub open spec fn volume_draw(self, volume: Seq<char>) -> Seq<DrawView> {
        Self::field_draw(
            self.layout.volume,
            self.layout.volume.x.saturating_add(3) as int,
            self.colors.volume,
            volume,
        )
    }

    /// What shows the queue.
    pub open spec fn queue_draw(self, waiting: Seq<u16>) -> Seq<DrawView> {
        Self::field_draw(
            self.layout.queue,
            self.width - 1,
            self.colors.queue,
            "Queue: "@ + queue_text(waiting),
        )
    }

    /// What shows the text that is searched for, in place of the queue.
    pub open spec fn search_draw(self, query: Seq<char>) -> Seq<DrawView> {
        let at = self.layout.queue;
        clear_rows(at.x as int, self.width - 1, at.y as int, at.y as int) + seq![
            DrawView::Goto(at.x, at.y),
            DrawView::Text("Search: "@ + query),
        ]
    }

    /// What shows how far a track of length `duration` has played after `time`, both
    /// in nanoseconds: the bar, and the two times in its middle.
    pub open spec fn bar_draw(self, duration: u64, time: u64) -> Seq<DrawView> {
        let at = self.layout.bar;
        seq![DrawView::Goto(at.x, at.y)] + bar_cells(
            self.width,
            played_percent(duration, time),
            self.colors.bar_bg,
            self.width as int,
        ) + seq![
            DrawView::Goto((self.width / 2 - 6) as u16, at.y),
            DrawView::Fg(self.colors.bar_fg),
            DrawView::Text(times_text(duration, time)),
        ]
    }

    /// The screen after the place of part `part` of the status area has become known.
    /// The parts are, from 0 on: name, status, repeat mode, shuffle, volume, queue,
    /// progress bar.
    pub open spec fn placed(self, part: u8, at: Point) -> UiView {
        let layout = self.layout;
        let layout = if part == 0 {
            Layout { name: at, ..layout }
        } else if part == 1 {
            Layout { status: at, ..layout }
        } else if part == 2 {
            Layout { repeat: at, ..layout }
        } else if part == 3 {
            Layout { shuffle: at, ..layout }
        } else if part == 4 {
            Layout { volume: at, ..layout }
        } else if part == 5 {
            Layout { queue: at, ..layout }
        } else if part == 6 {
            Layout { bar: at, ..layout }
        } else {
            layout
        };
        UiView { layout, ..self }
    }

    /// What draws part `part` of the frame. After each of the parts 0 to 6 the cursor
    /// of the terminal stands where the part of the status area with that number
    /// begins; part 7 ends the frame.
    pub open spec fn frame_draw(self, part: u8) -> Seq<DrawView> {
        if part == 0 {
            seq![DrawView::Goto(1, 1), DrawView::Text(repeated('\u{af}', line_length(self.width)))]
                + seq![DrawView::Goto(3, 2)] + self.list_rows(self.lines as int) + seq![
                DrawView::Text("\n\r"@),
                DrawView::Goto(1, (self.height - 5) as u16),
                DrawView::Text(repeated('-', line_length(self.width))),
                DrawView::Text("\n\r "@),
                DrawView::Fg(self.colors.name),
                DrawView::Text("Now playing: "@),
            ]
        } else if part == 1 {
            seq![DrawView::Text("\r\n "@)]
        } else if part == 2 {
            seq![
                DrawView::Fg(self.colors.status),
                DrawView::Text("Playing  "@),
                DrawView::Fg(self.colors.repeat),
                DrawView::Text("Repeat: "@),
            ]
        } else if part == 3 {
            seq![
                DrawView::Text("None    "@),
                DrawView::Fg(self.colors.shuffle),
                DrawView::Text("Shuffle: "@),
            ]
        } else if part == 4 {
            seq![
                DrawView::Text("false  "@),
                DrawView::Fg(self.colors.volume),
                DrawView::Text("Volume: "@),
            ]
        } else if part == 5 {
            seq![DrawView::Text("100  "@)]
        } else if part == 6 {
            seq![
                DrawView::Fg(self.colors.queue),
                DrawView::Text("Queue: "@),
                DrawView::Text("empty"@),
                DrawView::Text("\r\n\n "@),
            ]
        } else if part == 7 {
            seq![
                DrawView::Text("\r\n"@),
                DrawView::FgReset,
                DrawView::Text(repeated('_', line_length(self.width))),
                DrawView::FgReset,
                DrawView::BgReset,
            ] + borders(self.width, self.height as int)
        } else {
            Seq::empty()
        }
    }
}

/// Appends to `out` what writes `text` at `at` in the color `paint`, after blanking
/// the row from there to column `fin_x`.
fn put_field(out: &mut Vec<Draw>, at: Point, fin_x: u16, paint: Rgb, text: String)
    ensures
        views(final(out)@) == views(old(out)@) + UiView::field_draw(at, fin_x as int, paint, text@),
{
    clear_area(out, at.x, at.y, fin_x, at.y);
    put(out, Draw::Goto(at.x, at.y));
    put(out, Draw::Fg(paint));
    put(out, Draw::Text(text));
    assert(views(out@) =~= views(old(out)@) + UiView::field_draw(
        at,
        fin_x as int,
        paint,
        text@,
    ));
}

impl Ui {
    /// Records where part `part` of the status area begins. The parts are, from 0 on:
    /// name, status, repeat mode, shuffle, volume, queue, progress bar; another number
    /// records nothing.
    pub fn place(&mut self, part: u8, at: Point)
        ensures
            final(self)@ == old(self)@.placed(part, at),
            old(self)@.wf() ==> final(self)@.wf(),
    {
        if part == 0 {
            self.layout.name = at;
        } else if part == 1 {
            self.layout.status = at;
        } else if part == 2 {
            self.layout.repeat = at;
        } else if part == 3 {
            self.layout.shuffle = at;
        } else if part == 4 {
            self.layout.volume = at;
        } else if part == 5 {
            self.layout.queue = at;
        } else if part == 6 {
            self.layout.bar = at;
        }
    }

    /// Shows `name` as the name of the playing track, cut to the room there is. The
    /// terminal has to be wide enough for the name's label.
    pub fn change_name(&self, name: &str) -> (out: Vec<Draw>)
        requires
            self@.wf(),
            self@.width >= NAME_WIDTH,
        ensures
            views(out@) == self@.name_draw(name@),
    {
        let mut out: Vec<Draw> = Vec::new();
        let shown = cut_string(name.to_owned(), (self.width - 17) as usize);
        put_field(&mut out, self.layout.name, self.width - 1, self.colors.name, shown);
        assert(views(out@) =~= self@.name_draw(name@));
        out
    }

    /// Shows whether the player is paused.
    pub fn update_status(&self, s: bool) -> (out: Vec<Draw>)
        ensures
            views(out@) == self@.status_draw(s),
    {
        let mut out: Vec<Draw> = Vec::new();
        let text = if s {
            "Paused"
        } else {
            "Playing"
        };
        let at = self.layout.status;
        put_field(&mut out, at, at.x.saturating_add(8), self.colors.status, text.to_owned());
        assert(views(out@) =~= self@.status_draw(s));
        out
    }

    /// Shows whether shuffle is on.
    pub fn update_shuffle(&self, s: bool) -> (out: Vec<Draw>)
        ensures
            views(out@) == self@.shuffle_draw(s),
    {
        let mut out: Vec<Draw> = Vec::new();
        let text = if s {
            "true"
        } else {
            "false"
        };
        let at = self.layout.shuffle;
        put_field(&mut out, at, at.x.saturating_add(5), self.colors.shuffle, text.to_owned());
        assert(views(out@) =~= self@.shuffle_draw(s));
        out
    }

    /// Shows the repeat mode.
    pub fn update_repeat(&self, r: Repeat) -> (out: Vec<Draw>)
        ensures
            views(out@) == self@.repeat_draw(r),
    {
        let mut out: Vec<Draw> = Vec::new();
        let at = self.layout.repeat;
        put_field(&mut out, at, at.x.saturating_add(5), self.colors.repeat, r.label().to_owned());
        assert(views(out@) =~= self@.repeat_draw(r));
        out
    }

    /// Shows the volume, which reads `v`: its number in hundredths of the full one.
    pub fn update_volume(&self, v: &str) -> (out: Vec<Draw>)
        ensures
            views(out@) == self@.volume_draw(v@),
    {
        let mut out: Vec<Draw> = Vec::new();
        let at = self.layout.volume;
        put_field(&mut out, at, at.x.saturating_add(3), self.colors.volume, v.to_owned());
        assert(views(out@) =~= self@.volume_draw(v@));
        out
    }

    /// Shows the queue `q`: the numbers of the waiting tracks in their order, or
    /// that none waits.
    pub fn update_queue(&self, q: &Queue) -> (out: Vec<Draw>)
        requires
            self@.wf(),
        ensures
            views(out@) == self@.queue_draw(q@),
    {
        let mut out: Vec<Draw> = Vec::new();
        let mut text = String::from_str("Queue: ");
        let n = q.len();
        if n == 0 {
            text.append("empty");
        } else {
            let ghost head = text@;
            let mut i: usize = 0;
            assert(q@.take(0) =~= Seq::<u16>::empty());
            assert(text@ =~= head + entries_text(q@.take(0)));
            while i < n
                invariant
                    i <= n == q@.len(),
                    text@ == head + entries_text(q@.take(i as int)),
                decreases n - i,
            {
                let ghost so_far = text@;
                push_decimal(&mut text, q.get(i) as u64);
                text.push(' ');
                i += 1;
                proof {
                    let now = q@.take(i as int);
                    assert(now.drop_last() =~= q@.take(i - 1));
                    assert(now.last() == q@[i - 1]);
                    assert(text@ =~= head + entries_text(now));
                }
            }
            assert(q@.take(n as int) =~= q@);
        }
        put_field(&mut out, self.layout.queue, self.width - 1, self.colors.queue, text);
        assert(views(out@) =~= self@.queue_draw(q@));
        out
    }

    /// Shows the text `s` that is searched for, in place of the queue.
    pub fn display_searching(&self, s: &str) -> (out: Vec<Draw>)
        requires
            self@.wf(),
        ensures
            views(out@) == self@.search_draw(s@),
    {
        let mut out: Vec<Draw> = Vec::new();
        let at = self.layout.queue;
        clear_area(&mut out, at.x, at.y, self.width - 1, at.y);
        put(&mut out, Draw::Goto(at.x, at.y));
        let mut text = String::from_str("Search: ");
        text.append(s);
        put(&mut out, Draw::Text(text));
        assert(views(out@) =~= self@.search_draw(s@));
        out
    }

    /// Shows how far a track of length `duration` has played after `time`, both in
    /// nanoseconds. The bar fills the row between the borders; a column is filled
    /// where its share of the width is within the share of the track that has
    /// played. The two times stand in the middle of the row, for which the terminal
    /// has to be wide enough.
    pub fn update_bar(&self, duration: u64, time: u64) -> (out: Vec<Draw>)
        requires
            self@.wf(),
            self@.width >= BAR_WIDTH,
        ensures
            views(out@) == self@.bar_draw(duration, time),
    {
        let mut out: Vec<Draw> = Vec::new();
        let whole = duration / 1_000_000;
        let percent: u64 = if whole == 0 {
            0
        } else {
            (time / 1_000_000) * 100 / whole
        };
        let at = self.layout.bar;
        put(&mut out, Draw::Goto(at.x, at.y));
        let ghost before = views(out@);
        let width = self.width;
        let fill = self.colors.bar_bg;
        let mut space: u16 = 2;
        assert(views(out@) =~= before + bar_cells(width, percent as nat, fill, 2));
        while space < width
            invariant
                2 <= space <= width,
                width >= MIN_WIDTH,
                views(out@) == before + bar_cells(width, percent as nat, fill, space as int),
            decreases width - space,
        {
            let share: u32 = (space as u32 * 100) / (width as u32);
            let mut blank = String::new();
            blank.push(' ');
            assert(blank@ =~= seq![' ']);
            if share as u64 <= percent {
                put(&mut out, Draw::Bg(fill));
                put(&mut out, Draw::Text(blank));
                put(&mut out, Draw::BgReset);
            } else {
                put(&mut out, Draw::Text(blank));
            }
            space += 1;
            assert(views(out@) =~= before + bar_cells(width, percent as nat, fill, space as int));
        }
        put(&mut out, Draw::Goto(width / 2 - 6, at.y));
        put(&mut out, Draw::Fg(self.colors.bar_fg));
        let mut text = String::new();
        text.push('-');
        text.append(format_time(time / 1_000_000_000).as_str());
        text.push('/');
        text.append(format_time(duration / 1_000_000_000).as_str());
        text.push('-');
        assert(text@ =~= times_text(duration, time));
        put(&mut out, Draw::Text(text));
        assert(views(out@) =~= self@.bar_draw(duration, time));
        out
    }

    /// Draws part `part` of the frame round the list and the status area. The parts
    /// 0 to 7 follow each other; after each of the parts 0 to 6 the cursor of the
    /// terminal stands where the part of the status area with that number begins.
    /// Another number draws nothing.
    pub fn frame(&self, part: u8) -> (out: Vec<Draw>)
        requires
            self@.wf(),
        ensures
            views(out@) == self@.frame_draw(part),
    {
        let mut out: Vec<Draw> = Vec::new();
        if part == 0 {
            put(&mut out, Draw::Goto(1, 1));
            draw_horizontal_lines(&mut out, self.width, '\u{af}');
            put(&mut out, Draw::Goto(3, 2));
            self.put_list_rows(&mut out);
            put_str(&mut out, "\n\r");
            put(&mut out, Draw::Goto(1, self.height - 5));
            draw_horizontal_lines(&mut out, self.width, '-');
            put_str(&mut out, "\n\r ");
            put(&mut out, Draw::Fg(self.colors.name));
            put_str(&mut out, "Now playing: ");
        } else if part == 1 {
            put_str(&mut out, "\r\n ");
        } else if part == 2 {
            put(&mut out, Draw::Fg(self.colors.status));
            put_str(&mut out, "Playing  ");
            put(&mut out, Draw::Fg(self.colors.repeat));
            put_str(&mut out, "Repeat: ");
        } else if part == 3 {
            put_str(&mut out, "None    ");
            put(&mut out, Draw::Fg(self.colors.shuffle));
            put_str(&mut out, "Shuffle: ");
        } else if part == 4 {
            put_str(&mut out, "false  ");
            put(&mut out, Draw::Fg(self.colors.volume));
            put_str(&mut out, "Volume: ");
        } else if part == 5 {
            put_str(&mut out, "100  ");
        } else if part == 6 {
            put(&mut out, Draw::Fg(self.colors.queue));
            put_str(&mut out, "Queue: ");
            put_str(&mut out, "empty");
            put_str(&mut out, "\r\n\n ");
        } else if part == 7 {
            put_str(&mut out, "\r\n");
            put(&mut out, Draw::FgReset);
            draw_horizontal_lines(&mut out, self.width, '_');
            draw_vertical_lines(&mut out, self.width, self.height);
        }
        assert(views(out@) =~= self@.frame_draw(part));
        out
    }
}

} // verus!
