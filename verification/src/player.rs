//! The player's state and the rules by which it moves from track to track.

use crate::colors::Colors;
use crate::draw::{put_all, views, Draw, DrawView};
use crate::queue::Queue;
use crate::repeat::Repeat;
use crate::search::{answers, first_answer_of, is_first_answer, lemma_first_answer_unique};
use crate::shuffle::{is_shuffle_order, position_of, shuffle_list};
use crate::text::{display_name, texts};
use crate::ui::{
    fresh_view, lemma_match_is_selected, lemma_no_match_changes_nothing, setup_error, Point, Ui,
    UiError, UiView, BAR_WIDTH, NAME_WIDTH,
};
use vstd::prelude::*;

verus! {

/// The player as plain values.
pub struct PlayerView {
    /// The file name of each track.
    pub music_list: Seq<Seq<char>>,
    /// The order in which the tracks play while shuffle is on.
    pub shuffled_list: Seq<u16>,
    /// The numbers of the tracks that wait to be played next, counted from 1.
    pub queue: Seq<u16>,
    /// The place in the playing order that the player has reached.
    pub now_playing_id: u16,
    pub repeat: Repeat,
    pub shuffle: bool,
    pub ui: UiView,
    /// The length of the playing track, in nanoseconds.
    pub duration: u64,
    /// How long the playing track has played, in nanoseconds.
    pub time_playing: u64,
    pub paused: bool,
}

/// The place that follows `position` among `tracks` tracks under the repeat mode
/// `repeat`, or none where the player stays put. `skip` says that the listener asked
/// for the next track; without it the track has come to its end.
pub open spec fn next_position(repeat: Repeat, skip: bool, position: u16, tracks: nat) -> Option<
    u16,
> {
    let last = position + 1 >= tracks;
    match repeat {
        Repeat::Off => if last {
            None
        } else {
            Some((position + 1) as u16)
        },
        Repeat::Single => if !skip {
            Some(position)
        } else if last {
            None
        } else {
            Some((position + 1) as u16)
        },
        Repeat::All => if last {
            Some(0)
        } else {
            Some((position + 1) as u16)
        },
    }
}

impl PlayerView {
    /// What holds of every player: the screen lists the tracks by their display
    /// names, the shuffle order holds each track once, the place reached is one of
    /// the list, and so is every track that waits.
    pub open spec fn wf(self) -> bool {
        &&& self.ui.wf()
        &&& self.music_list.len() == self.ui.names.len()
        &&& forall|i: int|
            0 <= i < self.music_list.len() ==> #[trigger] self.ui.names[i] == display_name(
                self.music_list[i],
                (self.ui.width - 8) as nat,
            )
        &&& is_shuffle_order(self.shuffled_list, self.music_list.len())
        &&& self.now_playing_id < self.music_list.len()
        &&& forall|k: int|
            0 <= k < self.queue.len() ==> 1 <= #[trigger] self.queue[k] <= self.music_list.len()
    }

    /// The track that stands at `position` of the playing order: the one the shuffle
    /// order names while shuffle is on, else the one with that number.
    pub open spec fn track_at(self, position: u16) -> u16 {
        if self.shuffle {
            self.shuffled_list[position as int]
        } else {
            position
        }
    }

    /// The track that an advance leads to, or none where the player stays put: the
    /// track that has waited longest, if one waits; else the track at the place that
    /// follows under the repeat mode.
    pub open spec fn advance_target(self, skip: bool) -> Option<u16> {
        if self.queue.len() > 0 {
            Some((self.queue[0] - 1) as u16)
        } else {
            match next_position(
                self.repeat,
                skip,
                self.now_playing_id,
                self.music_list.len(),
            ) {
                Some(position) => Some(self.track_at(position)),
                None => None,
            }
        }
    }

    /// The player after an advance: a waiting track leaves the queue, and the place
    /// reached stays; with none waiting, the player goes to the place that follows,
    /// if there is one.
    pub open spec fn after_advance(self, skip: bool) -> PlayerView {
        if self.queue.len() > 0 {
            PlayerView { queue: self.queue.skip(1), ..self }
        } else {
            match next_position(
                self.repeat,
                skip,
                self.now_playing_id,
                self.music_list.len(),
            ) {
                Some(position) => PlayerView { now_playing_id: position, time_playing: 0, ..self },
                None => self,
            }
        }
    }

    /// What an advance paints: the queue, where a track left it.
    pub open spec fn advance_draw(self, skip: bool) -> Seq<DrawView> {
        if self.queue.len() > 0 {
            self.ui.queue_draw(self.queue.skip(1))
        } else {
            Seq::empty()
        }
    }

    /// Whether the player gives up after `failed` tracks in a row could not be
    /// played: it does, once as many have failed as the list holds.
    pub open spec fn gives_up(self, failed: u16) -> bool {
        failed >= self.music_list.len()
    }

    /// The player after a track could not be played.
    pub open spec fn after_failure(self, failed: u16) -> PlayerView {
        if self.gives_up(failed) {
            self
        } else {
            self.after_advance(true)
        }
    }

    /// The track to try after a track could not be played, if any.
    pub open spec fn failure_target(self, failed: u16) -> Option<u16> {
        if self.gives_up(failed) {
            None
        } else {
            self.advance_target(true)
        }
    }

    /// What is painted after a track could not be played.
    pub open spec fn failure_draw(self, failed: u16) -> Seq<DrawView> {
        if self.gives_up(failed) {
            Seq::empty()
        } else {
            self.advance_draw(true)
        }
    }

    /// The player after a step back: one place back, unless it is at the first.
    pub open spec fn after_previous(self) -> PlayerView {
        if self.now_playing_id == 0 {
            self
        } else {
            PlayerView { now_playing_id: (self.now_playing_id - 1) as u16, time_playing: 0, ..self }
        }
    }

    /// The track that a step back leads to, or none at the first place.
    pub open spec fn previous_target(self) -> Option<u16> {
        if self.now_playing_id == 0 {
            None
        } else {
            Some(self.track_at((self.now_playing_id - 1) as u16))
        }
    }

    /// The track under the cursor, or none while nothing is selected.
    pub open spec fn selected_target(self) -> Option<u16> {
        if self.ui.selected() == 0 {
            None
        } else {
            Some((self.ui.selected() - 1) as u16)
        }
    }

    /// The player after the track `id`, `duration` nanoseconds long, has started.
    pub open spec fn started(self, id: u16, duration: u64) -> PlayerView {
        PlayerView { duration, time_playing: 0, paused: false, ui: self.ui.playing(id), ..self }
    }

    /// What the start of the track `id` paints: its name, and its row as the playing
    /// one in place of the row of the track that played.
    pub open spec fn start_draw(self, id: u16) -> Seq<DrawView> {
        self.ui.name_draw(self.music_list[id as int]) + self.ui.plain_playing()
            + self.ui.playing(id).playing_row()
    }

    /// The player after the listener has changed the text of the search to `query`:
    /// the first track that answers it is under the cursor and on screen; where none
    /// answers, window and cursor stay.
    pub open spec fn after_search(self, query: Seq<char>) -> PlayerView {
        PlayerView { ui: self.ui.after_match(first_answer_of(self.ui.names, query)), ..self }
    }

    /// What the search for `query` paints: the query, and what the search found.
    pub open spec fn search_draw(self, query: Seq<char>) -> Seq<DrawView> {
        self.ui.search_draw(query) + self.ui.match_draw(first_answer_of(self.ui.names, query))
    }
}

/// The player: which track plays and which comes next, over the screen that shows it.
pub struct Player {
    music_list: Vec<String>,
    shuffled_list: Vec<u16>,
    queue: Queue,
    now_playing_id: u16,
    repeat: Repeat,
    shuffle: bool,
    ui: Ui,
    duration: u64,
    time_playing: u64,
    paused: bool,
}

impl View for Player {
    type V = PlayerView;

    closed spec fn view(&self) -> PlayerView {
        PlayerView {
            music_list: texts(self.music_list@),
            shuffled_list: self.shuffled_list@,
            queue: self.queue@,
            now_playing_id: self.now_playing_id,
            repeat: self.repeat,
            shuffle: self.shuffle,
            ui: self.ui@,
            duration: self.duration,
            time_playing: self.time_playing,
            paused: self.paused,
        }
    }
}

impl Player {
    /// Sets up a player for the files `music_list` on a terminal of `width` columns
    /// and `height` rows. It stands at the first place, with nothing waiting, nothing
    /// selected and no time played, and holds a fresh shuffle order.
    pub fn new(
        music_list: Vec<String>,
        repeat: Repeat,
        shuffle: bool,
        colors: Colors,
        width: u16,
        height: u16,
    ) -> (made: Result<Player, UiError>)
        ensures
            match made {
                Ok(player) => {
                    &&& setup_error(music_list@.len(), width, height).is_none()
                    &&& player@.wf()
                    &&& player@ == (PlayerView {
                        music_list: texts(music_list@),
                        shuffled_list: player@.shuffled_list,
                        queue: Seq::empty(),
                        now_playing_id: 0,
                        repeat,
                        shuffle,
                        ui: fresh_view(texts(music_list@), colors, width, height),
                        duration: 0,
                        time_playing: 0,
                        paused: false,
                    })
                },
                Err(e) => setup_error(music_list@.len(), width, height) == Some(e),
            },
    {
        let ui = match Ui::new(&music_list, colors, width, height) {
            Ok(ui) => ui,
            Err(e) => {
                return Err(e);
            },
        };
        let shuffled_list = shuffle_list(music_list.len() as u16);
        let player = Player {
            music_list,
            shuffled_list,
            queue: Queue::new(),
            now_playing_id: 0,
            repeat,
            shuffle,
            ui,
            duration: 0,
            time_playing: 0,
            paused: false,
        };
        Ok(player)
    }

    /// The screen.
    pub fn ui(&self) -> (ui: &Ui)
        ensures
            ui@ == self@.ui,
    {
        &self.ui
    }

    /// The tracks that wait to be played next.
    pub fn queue(&self) -> (queue: &Queue)
        ensures
            queue@ == self@.queue,
    {
        &self.queue
    }

    /// The repeat mode.
    pub fn repeat(&self) -> (repeat: Repeat)
        ensures
            repeat == self@.repeat,
    {
        self.repeat
    }

    /// Whether shuffle is on.
    pub fn shuffle(&self) -> (shuffle: bool)
        ensures
            shuffle == self@.shuffle,
    {
        self.shuffle
    }

    /// The place in the playing order that the player has reached.
    pub fn position(&self) -> (position: u16)
        ensures
            position == self@.now_playing_id,
    {
        self.now_playing_id
    }

    /// The order in which the tracks play while shuffle is on.
    pub fn shuffled_list(&self) -> (order: &Vec<u16>)
        ensures
            order@ == self@.shuffled_list,
    {
        &self.shuffled_list
    }

    /// The length of the playing track, in nanoseconds.
    pub fn duration(&self) -> (duration: u64)
        ensures
            duration == self@.duration,
    {
        self.duration
    }

    /// How long the playing track has played, in nanoseconds.
    pub fn time_playing(&self) -> (time: u64)
        ensures
            time == self@.time_playing,
    {
        self.time_playing
    }

    /// Whether the player plays, that is, is not paused.
    pub fn is_playing(&self) -> (playing: bool)
        ensures
            playing == !self@.paused,
    {
        !self.paused
    }

    /// Records where part `part` of the status area begins on the screen.
    pub fn place(&mut self, part: u8, at: Point)
        requires
            old(self)@.wf(),
        ensures
            final(self)@ == (PlayerView { ui: old(self)@.ui.placed(part, at), ..old(self)@ }),
            final(self)@.wf(),
    {
        self.ui.place(part, at);
    }

    /// Moves the cursor down one track.
    pub fn select_next_track(&mut self) -> (out: Vec<Draw>)
        requires
            old(self)@.wf(),
        ensures
            final(self)@ == (PlayerView { ui: old(self)@.ui.after_next(), ..old(self)@ }),
            final(self)@.wf(),
            views(out@) == old(self)@.ui.next_draw(),
    {
        self.ui.select_next_track()
    }

    /// Moves the cursor up one track.
    pub fn select_previous_track(&mut self) -> (out: Vec<Draw>)
        requires
            old(self)@.wf(),
        ensures
            final(self)@ == (PlayerView { ui: old(self)@.ui.after_previous(), ..old(self)@ }),
            final(self)@.wf(),
            views(out@) == old(self)@.ui.previous_draw(),
    {
        self.ui.select_previous_track()
    }

    /// Turns shuffle on or off. Turning it on draws a fresh shuffle order; turning it
    /// off keeps the order. The place reached stays as it is.
    pub fn toggle_shuffle(&mut self) -> (out: Vec<Draw>)
        requires
            old(self)@.wf(),
        ensures
            final(self)@ == (PlayerView {
                shuffle: !old(self)@.shuffle,
                shuffled_list: final(self)@.shuffled_list,
                ..old(self)@
            }),
            old(self)@.shuffle ==> final(self)@.shuffled_list == old(self)@.shuffled_list,
            final(self)@.wf(),
            views(out@) == old(self)@.ui.shuffle_draw(!old(self)@.shuffle),
    {
        self.shuffle = !self.shuffle;
        if self.shuffle {
            self.shuffled_list = shuffle_list(self.music_list.len() as u16);
        }
        self.ui.update_shuffle(self.shuffle)
    }

    /// Sets the repeat mode to `o`, or, with none given, to the mode that follows the
    /// present one in the ring Off, Single, All.
    pub fn toggle_repeat(&mut self, o: Option<Repeat>) -> (out: Vec<Draw>)
        requires
            old(self)@.wf(),
        ensures
            final(self)@ == (PlayerView {
                repeat: match o {
                    Some(r) => r,
                    None => old(self)@.repeat.successor(),
                },
                ..old(self)@
            }),
            final(self)@.wf(),
            views(out@) == old(self)@.ui.repeat_draw(final(self)@.repeat),
    {
        self.repeat = match o {
            Some(r) => r,
            None => self.repeat.next(),
        };
        self.ui.update_repeat(self.repeat)
    }

    /// Pauses the player, or lets it play on.
    pub fn toggle_pause(&mut self) -> (out: Vec<Draw>)
        requires
            old(self)@.wf(),
        ensures
            final(self)@ == (PlayerView { paused: !old(self)@.paused, ..old(self)@ }),
            final(self)@.wf(),
            views(out@) == old(self)@.ui.status_draw(!old(self)@.paused),
    {
        self.paused = !self.paused;
        self.ui.update_status(self.paused)
    }

    /// Puts the track under the cursor behind all that wait. While nothing is
    /// selected nothing is put in.
    pub fn put_selected_in_queue(&mut self) -> (out: Vec<Draw>)
        requires
            old(self)@.wf(),
        ensures
            final(self)@ == (PlayerView {
                queue: if old(self)@.ui.selected() == 0 {
                    old(self)@.queue
                } else {
                    old(self)@.queue.push(old(self)@.ui.selected() as u16)
                },
                ..old(self)@
            }),
            final(self)@.wf(),
            views(out@) == old(self)@.ui.queue_draw(final(self)@.queue),
    {
        let selected = self.ui.get_selected();
        if selected != 0 {
            self.queue.enqueue(selected);
        }
        self.ui.update_queue(&self.queue)
    }

    /// Takes note that the track `id`, `duration` nanoseconds long, has started: no
    /// time has played, the player is not paused, and the screen shows the track's
    /// name and its row as the playing one. The terminal has to be wide enough for the
    /// name's label.
    pub fn play(&mut self, id: u16, duration: u64) -> (out: Vec<Draw>)
        requires
            old(self)@.wf(),
            old(self)@.ui.width >= NAME_WIDTH,
            id < old(self)@.music_list.len(),
        ensures
            final(self)@ == old(self)@.started(id, duration),
            final(self)@.wf(),
            views(out@) == old(self)@.start_draw(id),
    {
        self.duration = duration;
        self.time_playing = 0;
        self.paused = false;
        let mut out = self.ui.change_name(self.music_list[id as usize].as_str());
        let row = self.ui.highlight_playing(id);
        put_all(&mut out, row);
        assert(views(out@) =~= old(self)@.start_draw(id));
        out
    }

    /// The track at `position` of the playing order.
    fn track_at(&self, position: u16) -> (track: u16)
        requires
            self@.wf(),
            position < self@.music_list.len(),
        ensures
            track == self@.track_at(position),
            track < self@.music_list.len(),
    {
        if self.shuffle {
            self.shuffled_list[position as usize]
        } else {
            position
        }
    }

    /// Steps back one place in the playing order, and says which track is to play;
    /// at the first place nothing happens.
    pub fn play_previous(&mut self) -> (target: Option<u16>)
        requires
            old(self)@.wf(),
        ensures
            final(self)@ == old(self)@.after_previous(),
            final(self)@.wf(),
            target == old(self)@.previous_target(),
            target matches Some(track) ==> track < final(self)@.music_list.len(),
    {
        if self.now_playing_id == 0 {
            return None;
        }
        self.time_playing = 0;
        self.now_playing_id -= 1;
        Some(self.track_at(self.now_playing_id))
    }

    /// Advances from the playing track, and says which track is to play. A track
    /// that waits in the queue goes first, whatever the repeat mode and the shuffle,
    /// and the place reached stays. With none waiting the repeat mode decides: Off
    /// goes on to the next place and stays put at the last; Single stays at the
    /// place, unless `skip` asks for the next one; All goes on and starts over after
    /// the last place.
    pub fn play_next(&mut self, skip: bool) -> (step: (Option<u16>, Vec<Draw>))
        requires
            old(self)@.wf(),
        ensures
            final(self)@ == old(self)@.after_advance(skip),
            final(self)@.wf(),
            step.0 == old(self)@.advance_target(skip),
            step.0 matches Some(track) ==> track < final(self)@.music_list.len(),
            views(step.1@) == old(self)@.advance_draw(skip),
    {
        match self.queue.dequeue() {
            Some(number) => {
                assert(old(self)@.queue[0] == number);
                assert forall|k: int| 0 <= k < self@.queue.len() implies 1
                    <= #[trigger] self@.queue[k] <= self@.music_list.len() by {
                    assert(self@.queue[k] == old(self)@.queue[k + 1]);
                }
                let out = self.ui.update_queue(&self.queue);
                return (Some(number - 1), out);
            },
            None => {},
        }
        let out: Vec<Draw> = Vec::new();
        assert(views(out@) =~= Seq::<DrawView>::empty());
        let tracks: u16 = self.music_list.len() as u16;
        let last = self.now_playing_id + 1 >= tracks;
        match self.repeat {
            Repeat::Off => {
                if last {
                    return (None, out);
                }
                self.now_playing_id += 1;
            },
            Repeat::Single => {
                if skip {
                    if last {
                        return (None, out);
                    }
                    self.now_playing_id += 1;
                }
            },
            Repeat::All => {
                if last {
                    self.now_playing_id = 0;
                } else {
                    self.now_playing_id += 1;
                }
            },
        }
        self.time_playing = 0;
        (Some(self.track_at(self.now_playing_id)), out)
    }

    /// Decides what follows when a track could not be played, after `failed` tracks
    /// in a row could not: the player advances as if the listener had asked for the
    /// next track. Once as many tracks have failed as the list holds, it gives up:
    /// nothing changes and nothing is to play.
    pub fn skip_failed(&mut self, failed: u16) -> (step: (Option<u16>, Vec<Draw>))
        requires
            old(self)@.wf(),
        ensures
            final(self)@ == old(self)@.after_failure(failed),
            final(self)@.wf(),
            step.0 == old(self)@.failure_target(failed),
            step.0 matches Some(track) ==> track < final(self)@.music_list.len(),
            views(step.1@) == old(self)@.failure_draw(failed),
    {
        if failed as usize >= self.music_list.len() {
            let out: Vec<Draw> = Vec::new();
            assert(views(out@) =~= Seq::<DrawView>::empty());
            return (None, out);
        }
        self.play_next(true)
    }

    /// Goes to the track under the cursor, and says which track is to play: the
    /// player stands at that track's place in the playing order afterwards. While
    /// nothing is selected nothing happens.
    pub fn play_selected(&mut self) -> (target: Option<u16>)
        requires
            old(self)@.wf(),
        ensures
            target == old(self)@.selected_target(),
            target.is_none() ==> final(self)@ == old(self)@,
            target matches Some(track) ==> track < final(self)@.music_list.len() && final(self)@
                == (PlayerView { now_playing_id: final(self)@.now_playing_id, ..old(self)@ })
                && final(self)@.track_at(final(self)@.now_playing_id) == track,
            final(self)@.wf(),
    {
        let selected = self.ui.get_selected();
        if selected == 0 {
            return None;
        }
        let track = selected - 1;
        self.now_playing_id = if self.shuffle {
            position_of(&self.shuffled_list, track)
        } else {
            track
        };
        Some(track)
    }

    /// Shows how far the playing track has played, and then counts the `t`
    /// nanoseconds that have passed since as played. The count stops at the largest
    /// number it can hold. The terminal has to be wide enough for the times on the bar.
    pub fn update_bar(&mut self, t: u64) -> (out: Vec<Draw>)
        requires
            old(self)@.wf(),
            old(self)@.ui.width >= BAR_WIDTH,
        ensures
            final(self)@ == (PlayerView {
                time_playing: old(self)@.time_playing.saturating_add(t),
                ..old(self)@
            }),
            final(self)@.wf(),
            views(out@) == old(self)@.ui.bar_draw(old(self)@.duration, old(self)@.time_playing),
    {
        let out = self.ui.update_bar(self.duration, self.time_playing);
        self.time_playing = self.time_playing.saturating_add(t);
        out
    }

    /// Shows the text `search_str` that is searched for, searches the list for it and
    /// shows what was found. It is called anew whenever the text changes.
    pub fn search_for(&mut self, search_str: &str) -> (out: Vec<Draw>)
        requires
            old(self)@.wf(),
        ensures
            final(self)@ == old(self)@.after_search(search_str@),
            final(self)@.wf(),
            views(out@) == old(self)@.search_draw(search_str@),
    {
        let mut out = self.ui.display_searching(search_str);
        let found = self.ui.highlight_searched(search_str);
        put_all(&mut out, found);
        assert(views(out@) =~= old(self)@.search_draw(search_str@));
        out
    }
}

/// With repeat All, an advance from the last place leads to the first.
pub proof fn lemma_repeat_all_wraps(player: PlayerView, skip: bool)
    requires
        player.wf(),
        player.queue.len() == 0,
        player.repeat == Repeat::All,
        player.now_playing_id == player.music_list.len() - 1,
    ensures
        player.after_advance(skip).now_playing_id == 0,
        player.advance_target(skip) == Some(player.track_at(0)),
{
}

/// With repeat Off, an advance from the last place changes nothing and plays nothing.
pub proof fn lemma_repeat_off_stops(player: PlayerView, skip: bool)
    requires
        player.wf(),
        player.queue.len() == 0,
        player.repeat == Repeat::Off,
        player.now_playing_id == player.music_list.len() - 1,
    ensures
        player.after_advance(skip) == player,
        player.advance_target(skip).is_none(),
{
}

/// With repeat Single, a track that has come to its end plays again, and a request
/// for the next track leads one place on. At the last place there is no place to go
/// on to: there the request changes nothing and plays nothing.
pub proof fn lemma_repeat_single(player: PlayerView)
    requires
        player.wf(),
        player.queue.len() == 0,
        player.repeat == Repeat::Single,
    ensures
        player.after_advance(false).now_playing_id == player.now_playing_id,
        player.advance_target(false) == Some(player.track_at(player.now_playing_id)),
        player.now_playing_id + 1 < player.music_list.len() ==> player.after_advance(
            true,
        ).now_playing_id == player.now_playing_id + 1,
        player.now_playing_id + 1 >= player.music_list.len() ==> player.after_advance(true)
            == player && player.advance_target(true).is_none(),
{
}

/// A track that waits in the queue goes first, whatever the repeat mode, the shuffle
/// and the request: the advance plays the track at the front of the queue, takes it
/// out, and leaves the place reached as it is.
pub proof fn lemma_queue_goes_first(player: PlayerView, skip: bool)
    requires
        player.wf(),
        player.queue.len() > 0,
    ensures
        player.advance_target(skip) == Some((player.queue[0] - 1) as u16),
        player.after_advance(skip).queue == player.queue.skip(1),
        player.after_advance(skip).now_playing_id == player.now_playing_id,
        player.after_advance(skip) == (PlayerView { queue: player.queue.skip(1), ..player }),
{
}

/// An advance never leaves the list: the place reached stays one of the list, and so
/// does the track that plays.
pub proof fn lemma_advance_stays_in_list(player: PlayerView, skip: bool)
    requires
        player.wf(),
    ensures
        player.after_advance(skip).now_playing_id < player.music_list.len(),
        player.advance_target(skip) matches Some(track) ==> track < player.music_list.len(),
{
    if player.queue.len() > 0 {
        assert(1 <= player.queue[0] <= player.music_list.len());
    }
}

/// A search that no track answers leaves the player as it is, whatever the length of
/// the text.
pub proof fn lemma_search_without_answer(player: PlayerView, query: Seq<char>)
    requires
        forall|k: int|
            0 <= k < player.ui.names.len() ==> !answers(#[trigger] player.ui.names[k], query),
    ensures
        player.after_search(query) == player,
{
    lemma_no_match_changes_nothing(player.ui, query);
}

/// A search puts the first track that answers it under the cursor and on screen,
/// whatever the length of the text.
pub proof fn lemma_search_selects_first_answer(player: PlayerView, query: Seq<char>, track: int)
    requires
        player.wf(),
        is_first_answer(player.ui.names, query, Some(track)),
    ensures
        player.after_search(query).wf(),
        player.after_search(query).ui.selected() == track + 1,
        player.after_search(query).ui.visible(track),
{
    lemma_first_answer_unique(player.ui.names, query, Some(track), Some(track));
    lemma_match_is_selected(player.ui, track);
}

} // verus!
