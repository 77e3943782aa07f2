use bwmp::args::{parse_args, Options};
use bwmp::repeat::{match_repeat, Repeat};

fn line(args: &[&str]) -> Vec<String> {
    args.iter().map(|a| a.to_string()).collect()
}

fn defaults() -> Options {
    Options { help: false, repeat: Repeat::Off, shuffle: false, path: ".".to_string(), volume: None }
}

#[test]
fn match_repeat_reads_the_three_letters() {
    assert_eq!(match_repeat("n"), Some(Repeat::Off));
    assert_eq!(match_repeat("s"), Some(Repeat::Single));
    assert_eq!(match_repeat("a"), Some(Repeat::All));
}

#[test]
fn match_repeat_reads_nothing_else() {
    assert_eq!(match_repeat(""), None);
    assert_eq!(match_repeat("N"), None);
    assert_eq!(match_repeat("all"), None);
    assert_eq!(match_repeat("x"), None);
    assert_eq!(match_repeat("na"), None);
}

#[test]
fn no_arguments_give_the_defaults() {
    assert_eq!(parse_args(&line(&["bwmp"])), defaults());
    assert_eq!(parse_args(&Vec::new()), defaults());
}

#[test]
fn the_program_name_is_no_flag() {
    assert_eq!(parse_args(&line(&["-s"])), defaults());
    assert_eq!(parse_args(&line(&["-h"])), defaults());
}

#[test]
fn flags_set_their_options() {
    let options = parse_args(&line(&["bwmp", "-d", "/music", "-s", "-r", "a", "-v", "50"]));
    assert_eq!(
        options,
        Options {
            help: false,
            repeat: Repeat::All,
            shuffle: true,
            path: "/music".to_string(),
            volume: Some("50".to_string()),
        }
    );
}

#[test]
fn repeat_flag_with_another_letter_gives_off() {
    let options = parse_args(&line(&["bwmp", "-r", "s", "-r", "x"]));
    assert_eq!(options.repeat, Repeat::Off);
    let options = parse_args(&line(&["bwmp", "-r", "s"]));
    assert_eq!(options.repeat, Repeat::Single);
    let options = parse_args(&line(&["bwmp", "-r", "n"]));
    assert_eq!(options.repeat, Repeat::Off);
}

#[test]
fn unknown_arguments_are_passed_over() {
    let options = parse_args(&line(&["bwmp", "-x", "song", "--shuffle", "-", "-ss", "-s"]));
    let mut expected = defaults();
    expected.shuffle = true;
    assert_eq!(options, expected);
}

#[test]
fn a_flag_takes_the_next_argument_whatever_it_is() {
    let options = parse_args(&line(&["bwmp", "-d", "-s", "-v", "-h"]));
    let mut expected = defaults();
    expected.path = "-s".to_string();
    expected.volume = Some("-h".to_string());
    assert_eq!(options, expected);
}

#[test]
fn a_flag_without_its_value_does_nothing() {
    assert_eq!(parse_args(&line(&["bwmp", "-d"])), defaults());
    assert_eq!(parse_args(&line(&["bwmp", "-r"])), defaults());
    let options = parse_args(&line(&["bwmp", "-s", "-v"]));
    let mut expected = defaults();
    expected.shuffle = true;
    assert_eq!(options, expected);
}

#[test]
fn help_ends_the_reading() {
    let options = parse_args(&line(&["bwmp", "-s", "-h", "-d", "/music"]));
    let mut expected = defaults();
    expected.shuffle = true;
    expected.help = true;
    assert_eq!(options, expected);
}

#[test]
fn the_volume_is_kept_as_written() {
    let options = parse_args(&line(&["bwmp", "-v", "12.5"]));
    assert_eq!(options.volume, Some("12.5".to_string()));
    let options = parse_args(&line(&["bwmp", "-v", "loud"]));
    assert_eq!(options.volume, Some("loud".to_string()));
}
