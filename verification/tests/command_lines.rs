use sleepwatcher_rs::command::{
    executable_name, get_args, is_running, is_whitespace, should_spawn_once, split_command,
    split_words,
};

fn strings(words: &[&str]) -> Vec<String> {
    words.iter().map(|w| w.to_string()).collect()
}

#[test]
fn get_args_splits_executable_from_arguments() {
    let (cmd, args) = get_args("foo --bar baz".to_string());
    assert_eq!(cmd, "foo");
    assert_eq!(args, strings(&["--bar", "baz"]));
}

#[test]
fn get_args_without_arguments() {
    let (cmd, args) = get_args("swaylock".to_string());
    assert_eq!(cmd, "swaylock");
    assert!(args.is_empty());
}

#[test]
fn get_args_collapses_runs_of_whitespace() {
    let (cmd, args) = get_args("  notify-send \t 'hi'\n  there  ".to_string());
    assert_eq!(cmd, "notify-send");
    assert_eq!(args, strings(&["'hi'", "there"]));
}

#[test]
fn split_words_agrees_with_split_whitespace() {
    let samples = [
        "",
        " ",
        "a",
        " a",
        "a ",
        "a b",
        "a  b",
        "\ta\u{00a0}b\u{3000}c\n",
        "brightnessctl set 10%",
        "\u{2003}em\u{2009}thin\u{0085}nel",
        "caf\u{e9} na\u{ef}ve",
    ];
    for sample in samples {
        let expected: Vec<String> = sample.split_whitespace().map(|w| w.to_string()).collect();
        assert_eq!(split_words(sample), expected, "{:?}", sample);
    }
}

#[test]
fn is_whitespace_agrees_with_char() {
    let mut n: u32 = 0;
    while n <= 0x3100 {
        if let Some(c) = char::from_u32(n) {
            assert_eq!(is_whitespace(c), c.is_whitespace(), "U+{:04X}", n);
        }
        n += 1;
    }
    assert!(!is_whitespace('\u{200b}'));
    assert!(!is_whitespace('\u{feff}'));
}

#[test]
fn split_command_of_blank_line_is_none() {
    assert_eq!(split_command(""), None);
    assert_eq!(split_command("   \t\n"), None);
}

#[test]
fn split_command_of_words() {
    assert_eq!(
        split_command("systemctl suspend"),
        Some(("systemctl".to_string(), strings(&["suspend"])))
    );
}

#[test]
fn executable_name_drops_directories() {
    assert_eq!(executable_name("/usr/bin/foo"), "foo");
    assert_eq!(executable_name("foo"), "foo");
    assert_eq!(executable_name("./foo"), "foo");
    assert_eq!(executable_name("dir/"), "");
    assert_eq!(executable_name(""), "");
}

#[test]
fn is_running_looks_for_the_exact_name() {
    let running = strings(&["systemd", "foo", "bash"]);
    assert!(is_running(&"foo".to_string(), &running));
    assert!(!is_running(&"fo".to_string(), &running));
    assert!(!is_running(&"foo".to_string(), &Vec::new()));
}

#[test]
fn run_once_spawns_at_most_once_while_running() {
    // Nothing called foo runs yet: the first request spawns.
    let mut running = strings(&["systemd", "bash"]);
    assert!(should_spawn_once("foo --bar", &running));
    // The process is there now; a second request spawns nothing.
    running.push("foo".to_string());
    assert!(!should_spawn_once("foo --bar", &running));
    // The key is the executable, not the command line.
    assert!(!should_spawn_once("foo --other", &running));
    assert!(!should_spawn_once("/usr/local/bin/foo", &running));
    assert!(should_spawn_once("foobar --bar", &running));
}

#[test]
fn run_once_of_blank_line_spawns_nothing() {
    assert!(!should_spawn_once("   ", &Vec::new()));
}
