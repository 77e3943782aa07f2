use bwmp::colors::{parse_rgb, Colors, Rgb};

#[test]
fn default_colors_are_the_built_in_ones() {
    let c = Colors::new_default();
    assert_eq!(c.name, Rgb(255, 255, 0));
    assert_eq!(c.status, Rgb(255, 0, 255));
    assert_eq!(c.repeat, Rgb(255, 0, 0));
    assert_eq!(c.shuffle, Rgb(0, 255, 0));
    assert_eq!(c.volume, Rgb(255, 255, 255));
    assert_eq!(c.bar_fg, Rgb(255, 255, 255));
    assert_eq!(c.bar_bg, Rgb(0, 255, 255));
    assert_eq!(c.selected, Rgb(255, 0, 0));
    assert_eq!(c.now_playing, Rgb(0, 255, 255));
    assert_eq!(c.both, Rgb(255, 0, 255));
    assert_eq!(c.queue, Rgb(0, 0, 0));
}

#[test]
fn parse_rgb_reads_three_components() {
    assert_eq!(parse_rgb("1,2,3"), Rgb(1, 2, 3));
    assert_eq!(parse_rgb("255,0,128"), Rgb(255, 0, 128));
    assert_eq!(parse_rgb("007,+8,0"), Rgb(7, 8, 0));
}

#[test]
fn parse_rgb_defaults_what_is_missing_or_malformed() {
    assert_eq!(parse_rgb(""), Rgb(0, 0, 0));
    assert_eq!(parse_rgb("12"), Rgb(12, 0, 0));
    assert_eq!(parse_rgb("12,34"), Rgb(12, 34, 0));
    assert_eq!(parse_rgb(",,9"), Rgb(0, 0, 9));
    assert_eq!(parse_rgb("256,1,2"), Rgb(0, 1, 2));
    assert_eq!(parse_rgb("-1,x,2a"), Rgb(0, 0, 0));
    assert_eq!(parse_rgb("+,1,2"), Rgb(0, 1, 2));
    assert_eq!(parse_rgb("99999999999999999999999,1,2"), Rgb(0, 1, 2));
    assert_eq!(parse_rgb("1 ,2,3"), Rgb(0, 2, 3));
}

#[test]
fn parse_rgb_passes_over_what_follows_the_third() {
    assert_eq!(parse_rgb("1,2,3,4"), Rgb(1, 2, 3));
    assert_eq!(parse_rgb("1,2,3,"), Rgb(1, 2, 3));
}

#[test]
fn config_sets_the_named_colors() {
    let c = Colors::new_from_config("name:1,2,3\nqueue:4,5,6\nboth:7,8,9");
    let mut expected = Colors::new_default();
    expected.name = Rgb(1, 2, 3);
    expected.queue = Rgb(4, 5, 6);
    expected.both = Rgb(7, 8, 9);
    assert_eq!(c, expected);
}

#[test]
fn config_knows_every_key() {
    let text = "name:1,1,1\nstatus:2,2,2\nrepeat:3,3,3\nshuffle:4,4,4\nvolume:5,5,5\n\
                bar_fg:6,6,6\nbar_bg:7,7,7\nselected:8,8,8\nnow_playing:9,9,9\nboth:10,10,10\n\
                queue:11,11,11\n";
    let c = Colors::new_from_config(text);
    assert_eq!(
        c,
        Colors {
            name: Rgb(1, 1, 1),
            status: Rgb(2, 2, 2),
            repeat: Rgb(3, 3, 3),
            shuffle: Rgb(4, 4, 4),
            volume: Rgb(5, 5, 5),
            bar_fg: Rgb(6, 6, 6),
            bar_bg: Rgb(7, 7, 7),
            selected: Rgb(8, 8, 8),
            now_playing: Rgb(9, 9, 9),
            both: Rgb(10, 10, 10),
            queue: Rgb(11, 11, 11),
        }
    );
}

#[test]
fn config_leaves_white_space_aside() {
    let c = Colors::new_from_config("  na me : 1 , 2 ,\t3 \r\n\tqueue:\t4,5,6\r\n");
    let mut expected = Colors::new_default();
    expected.name = Rgb(1, 2, 3);
    expected.queue = Rgb(4, 5, 6);
    assert_eq!(c, expected);
}

#[test]
fn config_passes_over_other_keys() {
    let c = Colors::new_from_config("title:1,2,3\n\nNAME:1,2,3\n# note\nnames:1,2,3");
    assert_eq!(c, Colors::new_default());
    assert_eq!(Colors::new_from_config(""), Colors::new_default());
}

#[test]
fn config_takes_the_last_line_for_a_key() {
    let c = Colors::new_from_config("name:1,2,3\nname:4,5,6");
    assert_eq!(c.name, Rgb(4, 5, 6));
}

#[test]
fn config_key_without_a_value_sets_black() {
    let c = Colors::new_from_config("name\nstatus:");
    assert_eq!(c.name, Rgb(0, 0, 0));
    assert_eq!(c.status, Rgb(0, 0, 0));
    assert_eq!(c.repeat, Rgb(255, 0, 0));
}

#[test]
fn config_reads_the_value_up_to_a_second_colon() {
    let c = Colors::new_from_config("name:1,2,3:9,9,9");
    assert_eq!(c.name, Rgb(1, 2, 3));
    let c = Colors::new_from_config("name:1,2:3");
    assert_eq!(c.name, Rgb(1, 2, 0));
}
