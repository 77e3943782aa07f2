use bwmp::colors::Colors;
use bwmp::draw::Draw;
use bwmp::player::Player;
use bwmp::repeat::Repeat;
use bwmp::ui::{Point, UiError};

fn tracks(n: usize) -> Vec<String> {
    (0..n).map(|i| format!("song{}.mp3", i + 1)).collect()
}

fn player(n: usize, repeat: Repeat, shuffle: bool) -> Player {
    let mut p = Player::new(tracks(n), repeat, shuffle, Colors::new_default(), 80, 24).unwrap();
    p.place(5, Point { x: 56, y: 21 });
    p
}

fn select(p: &mut Player, number: u16) {
    while p.ui().get_selected() < number {
        p.select_next_track();
    }
    while p.ui().get_selected() > number {
        p.select_previous_track();
    }
}

fn queue_draw(shown: &str) -> Vec<Draw> {
    let mut out = Vec::new();
    for x in 56..=79u16 {
        out.push(Draw::Goto(x, 21));
        out.push(Draw::Text(" ".to_string()));
    }
    out.push(Draw::Goto(56, 21));
    out.push(Draw::Fg(Colors::new_default().queue));
    out.push(Draw::Text(shown.to_string()));
    out
}

#[test]
fn no_player_without_a_screen() {
    let c = Colors::new_default();
    assert_eq!(Player::new(Vec::new(), Repeat::Off, false, c, 80, 24).err(), Some(UiError::NoTracks));
    assert_eq!(Player::new(tracks(3), Repeat::Off, false, c, 7, 24).err(), Some(UiError::TooSmall));
    assert!(Player::new(tracks(3), Repeat::Off, false, c, 9, 8).is_ok());
    assert_eq!(Player::new(tracks(3), Repeat::Off, false, c, 80, 5).err(), Some(UiError::TooSmall));
    let many = vec![String::from("a.mp3"); 70000];
    assert_eq!(Player::new(many, Repeat::Off, false, c, 80, 24).err(), Some(UiError::TooManyTracks));
}

#[test]
fn fresh_player_stands_at_the_first_place() {
    let p = player(5, Repeat::Single, true);
    assert_eq!(p.position(), 0);
    assert_eq!(p.repeat(), Repeat::Single);
    assert!(p.shuffle());
    assert!(p.is_playing());
    assert!(p.queue().is_empty());
    assert_eq!(p.duration(), 0);
    assert_eq!(p.time_playing(), 0);
    assert_eq!(p.ui().track_count(), 5);
    assert_eq!(p.ui().get_selected(), 0);
    let mut order = p.shuffled_list().clone();
    order.sort();
    assert_eq!(order, vec![0, 1, 2, 3, 4]);
}

#[test]
fn repeat_off_plays_to_the_end_and_stops() {
    let mut p = player(3, Repeat::Off, false);
    assert_eq!(p.play_next(false), (Some(1), Vec::new()));
    assert_eq!(p.position(), 1);
    assert_eq!(p.play_next(false), (Some(2), Vec::new()));
    assert_eq!(p.position(), 2);
    assert_eq!(p.play_next(false), (None, Vec::new()));
    assert_eq!(p.position(), 2);
    assert_eq!(p.play_next(true), (None, Vec::new()));
    assert_eq!(p.position(), 2);
}

#[test]
fn repeat_off_at_the_end_changes_nothing() {
    let mut p = player(3, Repeat::Off, false);
    p.play_next(false);
    p.play_next(false);
    p.play(2, 90);
    p.update_bar(40);
    assert_eq!(p.play_next(false), (None, Vec::new()));
    assert_eq!(p.position(), 2);
    assert_eq!(p.time_playing(), 40);
    assert_eq!(p.duration(), 90);
    assert_eq!(p.ui().now_playing(), 2);
    assert_eq!(p.repeat(), Repeat::Off);
    assert!(!p.shuffle());
    assert!(p.queue().is_empty());
}

#[test]
fn repeat_all_starts_over_after_the_last_track() {
    let mut p = player(3, Repeat::All, false);
    assert_eq!(p.play_next(false).0, Some(1));
    assert_eq!(p.play_next(false).0, Some(2));
    assert_eq!(p.play_next(false).0, Some(0));
    assert_eq!(p.position(), 0);
    assert_eq!(p.play_next(true).0, Some(1));
    let mut p = player(1, Repeat::All, false);
    assert_eq!(p.play_next(false).0, Some(0));
    assert_eq!(p.position(), 0);
}

#[test]
fn repeat_single_plays_the_track_again() {
    let mut p = player(3, Repeat::Single, false);
    assert_eq!(p.play_next(false).0, Some(0));
    assert_eq!(p.position(), 0);
    assert_eq!(p.play_next(false).0, Some(0));
    assert_eq!(p.position(), 0);
}

#[test]
fn repeat_single_goes_on_when_asked() {
    let mut p = player(3, Repeat::Single, false);
    assert_eq!(p.play_next(true).0, Some(1));
    assert_eq!(p.position(), 1);
    assert_eq!(p.play_next(false).0, Some(1));
    assert_eq!(p.play_next(true).0, Some(2));
    assert_eq!(p.position(), 2);
}

#[test]
fn repeat_single_stays_in_the_list_when_asked_at_the_end() {
    let mut p = player(3, Repeat::Single, false);
    p.play_next(true);
    p.play_next(true);
    assert_eq!(p.position(), 2);
    assert_eq!(p.play_next(true), (None, Vec::new()));
    assert_eq!(p.position(), 2);
    assert_eq!(p.play_next(false).0, Some(2));
}

#[test]
fn advance_starts_the_count_of_time_anew() {
    let mut p = player(3, Repeat::Single, false);
    p.update_bar(500);
    assert_eq!(p.time_playing(), 500);
    p.play_next(false);
    assert_eq!(p.time_playing(), 0);
}

#[test]
fn queue_goes_first_in_every_mode() {
    for repeat in [Repeat::Off, Repeat::Single, Repeat::All] {
        for shuffle in [false, true] {
            for skip in [false, true] {
                let mut p = player(5, repeat, shuffle);
                select(&mut p, 4);
                p.put_selected_in_queue();
                select(&mut p, 2);
                p.put_selected_in_queue();
                assert_eq!(p.queue().len(), 2);
                assert_eq!(p.play_next(skip), (Some(3), queue_draw("Queue: 2 ")));
                assert_eq!(p.position(), 0);
                assert_eq!(p.play_next(skip), (Some(1), queue_draw("Queue: empty")));
                assert_eq!(p.position(), 0);
                assert!(p.queue().is_empty());
            }
        }
    }
}

#[test]
fn queue_goes_first_at_the_end_of_the_list() {
    let mut p = player(3, Repeat::Off, false);
    p.play_next(false);
    p.play_next(false);
    select(&mut p, 1);
    p.put_selected_in_queue();
    assert_eq!(p.play_next(false).0, Some(0));
    assert_eq!(p.position(), 2);
    assert_eq!(p.play_next(false).0, None);
}

#[test]
fn the_order_goes_on_from_its_place_after_the_queue() {
    let mut p = player(5, Repeat::Off, false);
    p.play_next(false);
    select(&mut p, 5);
    p.put_selected_in_queue();
    assert_eq!(p.play_next(false).0, Some(4));
    assert_eq!(p.position(), 1);
    assert_eq!(p.play_next(false).0, Some(2));
    assert_eq!(p.position(), 2);
}

#[test]
fn selected_track_joins_the_queue() {
    let mut p = player(5, Repeat::Off, false);
    select(&mut p, 3);
    assert_eq!(p.put_selected_in_queue(), queue_draw("Queue: 3 "));
    select(&mut p, 5);
    assert_eq!(p.put_selected_in_queue(), queue_draw("Queue: 3 5 "));
    assert_eq!(p.put_selected_in_queue(), queue_draw("Queue: 3 5 5 "));
    assert_eq!(p.queue().len(), 3);
    assert_eq!(p.queue().get(0), 3);
    assert_eq!(p.queue().get(1), 5);
    assert_eq!(p.queue().get(2), 5);
}

#[test]
fn nothing_joins_the_queue_while_nothing_is_selected() {
    let mut p = player(5, Repeat::Off, false);
    assert_eq!(p.put_selected_in_queue(), queue_draw("Queue: empty"));
    assert!(p.queue().is_empty());
    assert_eq!(p.play_next(false).0, Some(1));
}

#[test]
fn previous_steps_back_and_stops_at_the_first_place() {
    let mut p = player(3, Repeat::Off, false);
    assert_eq!(p.play_previous(), None);
    assert_eq!(p.position(), 0);
    p.play_next(false);
    p.play_next(false);
    p.update_bar(100);
    assert_eq!(p.play_previous(), Some(1));
    assert_eq!(p.position(), 1);
    assert_eq!(p.time_playing(), 0);
    assert_eq!(p.play_previous(), Some(0));
    assert_eq!(p.play_previous(), None);
    assert_eq!(p.position(), 0);
}

#[test]
fn previous_at_the_first_place_changes_nothing() {
    let mut p = player(3, Repeat::All, false);
    p.update_bar(100);
    assert_eq!(p.play_previous(), None);
    assert_eq!(p.time_playing(), 100);
}

#[test]
fn shuffle_plays_in_the_shuffled_order() {
    let mut p = player(20, Repeat::All, true);
    let order = p.shuffled_list().clone();
    for step in 1..=40usize {
        let target = p.play_next(false).0;
        assert_eq!(p.position() as usize, step % 20);
        assert_eq!(target, Some(order[step % 20]));
    }
    assert_eq!(p.play_previous(), None);
    p.play_next(false);
    p.play_next(false);
    assert_eq!(p.play_previous(), Some(order[1]));
    assert_eq!(p.position(), 1);
}

#[test]
fn toggle_shuffle_switches_the_order() {
    let mut p = player(20, Repeat::Off, false);
    assert_eq!(p.play_next(false).0, Some(1));
    p.toggle_shuffle();
    assert!(p.shuffle());
    assert_eq!(p.position(), 1);
    let order = p.shuffled_list().clone();
    assert_eq!(p.play_next(false).0, Some(order[2]));
    p.toggle_shuffle();
    assert!(!p.shuffle());
    assert_eq!(p.position(), 2);
    assert_eq!(p.shuffled_list(), &order);
    assert_eq!(p.play_next(false).0, Some(3));
}

#[test]
fn toggle_shuffle_on_draws_a_fresh_order() {
    let mut p = player(200, Repeat::Off, false);
    let first = p.shuffled_list().clone();
    p.toggle_shuffle();
    let second = p.shuffled_list().clone();
    assert_ne!(first, second);
    let mut sorted = second.clone();
    sorted.sort();
    assert_eq!(sorted, (0..200).collect::<Vec<u16>>());
    p.toggle_shuffle();
    assert_eq!(p.shuffled_list(), &second);
}

#[test]
fn toggle_shuffle_shows_the_new_state() {
    let mut p = player(3, Repeat::Off, false);
    p.place(3, Point { x: 36, y: 21 });
    let out = p.toggle_shuffle();
    assert_eq!(out, p.ui().update_shuffle(true));
    let out = p.toggle_shuffle();
    assert_eq!(out, p.ui().update_shuffle(false));
}

#[test]
fn toggle_repeat_goes_round_the_ring() {
    let mut p = player(3, Repeat::Off, false);
    p.toggle_repeat(None);
    assert_eq!(p.repeat(), Repeat::Single);
    p.toggle_repeat(None);
    assert_eq!(p.repeat(), Repeat::All);
    p.toggle_repeat(None);
    assert_eq!(p.repeat(), Repeat::Off);
    p.toggle_repeat(None);
    assert_eq!(p.repeat(), Repeat::Single);
}

#[test]
fn toggle_repeat_sets_a_given_mode() {
    let mut p = player(3, Repeat::Off, false);
    let out = p.toggle_repeat(Some(Repeat::All));
    assert_eq!(p.repeat(), Repeat::All);
    assert_eq!(out, p.ui().update_repeat(Repeat::All));
    p.toggle_repeat(Some(Repeat::All));
    assert_eq!(p.repeat(), Repeat::All);
    p.toggle_repeat(Some(Repeat::Off));
    assert_eq!(p.repeat(), Repeat::Off);
    let out = p.toggle_repeat(None);
    assert_eq!(out, p.ui().update_repeat(Repeat::Single));
}

#[test]
fn toggle_pause_pauses_and_plays_on() {
    let mut p = player(3, Repeat::Off, false);
    p.update_bar(70);
    let out = p.toggle_pause();
    assert!(!p.is_playing());
    assert_eq!(out, p.ui().update_status(true));
    assert_eq!(p.time_playing(), 70);
    let out = p.toggle_pause();
    assert!(p.is_playing());
    assert_eq!(out, p.ui().update_status(false));
    assert_eq!(p.time_playing(), 70);
}

#[test]
fn play_starts_a_track() {
    let mut p = player(3, Repeat::Off, false);
    p.update_bar(70);
    p.toggle_pause();
    let before_name = p.ui().change_name("song3.mp3");
    let before_row = p.ui().dehighlight_playing();
    let out = p.play(2, 180_000_000_000);
    assert_eq!(p.duration(), 180_000_000_000);
    assert_eq!(p.time_playing(), 0);
    assert!(p.is_playing());
    assert_eq!(p.ui().now_playing(), 2);
    assert_eq!(p.position(), 0);
    let mut expected = before_name;
    expected.extend(before_row);
    expected.push(Draw::Goto(3, 4));
    expected.push(Draw::Fg(Colors::new_default().now_playing));
    expected.push(Draw::Text("3.song3  ".to_string()));
    assert_eq!(out, expected);
}

#[test]
fn play_selected_goes_to_the_selected_track() {
    let mut p = player(5, Repeat::Off, false);
    assert_eq!(p.play_selected(), None);
    assert_eq!(p.position(), 0);
    select(&mut p, 4);
    assert_eq!(p.play_selected(), Some(3));
    assert_eq!(p.position(), 3);
    assert_eq!(p.play_next(false).0, Some(4));
    select(&mut p, 1);
    assert_eq!(p.play_selected(), Some(0));
    assert_eq!(p.position(), 0);
}

#[test]
fn play_selected_finds_the_place_in_the_shuffled_order() {
    let mut p = player(20, Repeat::All, true);
    let order = p.shuffled_list().clone();
    for number in [1u16, 7, 20, 13] {
        select(&mut p, number);
        assert_eq!(p.play_selected(), Some(number - 1));
        let place = p.position() as usize;
        assert_eq!(order[place], number - 1);
        assert_eq!(p.play_next(false).0, Some(order[(place + 1) % 20]));
    }
}

#[test]
fn update_bar_counts_the_time_played() {
    let mut p = player(3, Repeat::Off, false);
    p.place(6, Point { x: 2, y: 23 });
    p.play(0, 100_000_000_000);
    let out = p.update_bar(50_000_000);
    assert_eq!(out, p.ui().update_bar(100_000_000_000, 0));
    assert_eq!(p.time_playing(), 50_000_000);
    let out = p.update_bar(50_000_000);
    assert_eq!(out, p.ui().update_bar(100_000_000_000, 50_000_000));
    assert_eq!(p.time_playing(), 100_000_000);
}

#[test]
fn update_bar_stops_counting_at_the_largest_number() {
    let mut p = player(3, Repeat::Off, false);
    p.update_bar(u64::MAX - 5);
    p.update_bar(3);
    assert_eq!(p.time_playing(), u64::MAX - 2);
    p.update_bar(3);
    assert_eq!(p.time_playing(), u64::MAX);
    p.update_bar(1);
    assert_eq!(p.time_playing(), u64::MAX);
}

#[test]
fn search_runs_on_every_change_of_the_text() {
    let mut p = player(30, Repeat::Off, false);
    // One character is enough: the first track with a 3 in its name is the third.
    p.search_for("3");
    assert_eq!(p.ui().get_selected(), 3);
    p.search_for("30");
    assert_eq!(p.ui().get_selected(), 30);
    // The last track: the window of 17 rows ends with the list.
    assert_eq!((p.ui().offset(), p.ui().cursor_pos()), (13, 17));
    // A character taken off again: the search runs anew.
    p.search_for("3");
    assert_eq!(p.ui().get_selected(), 3);
    assert_eq!((p.ui().offset(), p.ui().cursor_pos()), (0, 3));
    p.search_for("G2");
    assert_eq!(p.ui().get_selected(), 2);
    p.search_for("NG25");
    assert_eq!(p.ui().get_selected(), 25);
}

#[test]
fn the_empty_text_stands_in_every_name() {
    let mut p = player(30, Repeat::Off, false);
    p.search_for("song30");
    assert_eq!(p.ui().get_selected(), 30);
    let out = p.search_for("");
    assert_eq!(p.ui().get_selected(), 1);
    let query = p.ui().display_searching("");
    assert_eq!(out[..query.len()], query[..]);
}

#[test]
fn short_text_without_a_match_leaves_the_screen() {
    for query in ["x", "zz", "9", "\u{3042}"] {
        let mut p = player(8, Repeat::Off, false);
        select(&mut p, 5);
        let before = (p.ui().offset(), p.ui().cursor_pos());
        p.search_for(query);
        assert_eq!((p.ui().offset(), p.ui().cursor_pos()), before);
        let mut p = player(8, Repeat::Off, false);
        p.search_for(query);
        assert_eq!((p.ui().offset(), p.ui().cursor_pos()), (0, 0));
    }
}

#[test]
fn search_without_a_match_leaves_the_screen() {
    let mut p = player(50, Repeat::Off, false);
    select(&mut p, 20);
    let before = (p.ui().offset(), p.ui().cursor_pos());
    p.search_for("nothing like it");
    assert_eq!((p.ui().offset(), p.ui().cursor_pos()), before);
    assert_eq!(p.ui().get_selected(), 20);
}

#[test]
fn search_shows_the_query_and_the_match() {
    let mut p = player(3, Repeat::Off, false);
    let query = p.ui().display_searching("song3");
    let out = p.search_for("song3");
    assert_eq!(p.ui().get_selected(), 3);
    assert_eq!(out[..query.len()], query[..]);
    assert_eq!(out[out.len() - 1], Draw::Text("3. song3".to_string()));
}

#[test]
fn cursor_moves_leave_the_player_alone() {
    let mut p = player(5, Repeat::All, false);
    p.play_next(false);
    p.select_next_track();
    p.select_next_track();
    p.select_previous_track();
    assert_eq!(p.ui().get_selected(), 1);
    assert_eq!(p.position(), 1);
    assert_eq!(p.repeat(), Repeat::All);
}

#[test]
fn a_failed_track_is_skipped() {
    let mut p = player(3, Repeat::Single, false);
    assert_eq!(p.skip_failed(0).0, Some(1));
    assert_eq!(p.skip_failed(1).0, Some(2));
    assert_eq!(p.skip_failed(2), (None, Vec::new()));
    let mut p = player(3, Repeat::All, false);
    assert_eq!(p.skip_failed(0).0, Some(1));
    assert_eq!(p.skip_failed(1).0, Some(2));
    assert_eq!(p.skip_failed(2).0, Some(0));
}

#[test]
fn the_player_gives_up_when_every_track_has_failed() {
    let mut p = player(3, Repeat::All, false);
    assert_eq!(p.skip_failed(3), (None, Vec::new()));
    assert_eq!(p.position(), 0);
    assert_eq!(p.skip_failed(u16::MAX), (None, Vec::new()));
    assert_eq!(p.position(), 0);
}

#[test]
fn a_failed_track_gives_way_to_the_queue() {
    let mut p = player(3, Repeat::Off, false);
    select(&mut p, 3);
    p.put_selected_in_queue();
    assert_eq!(p.skip_failed(1), (Some(2), queue_draw("Queue: empty")));
    assert_eq!(p.position(), 0);
}
