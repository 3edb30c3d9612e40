use adventure::command::{parse_command, Direction};

#[test]
fn single_letters_map_to_directions() {
    assert_eq!(parse_command("n"), Direction::North);
    assert_eq!(parse_command("s"), Direction::South);
    assert_eq!(parse_command("e"), Direction::East);
    assert_eq!(parse_command("w"), Direction::West);
    assert_eq!(parse_command("q"), Direction::Quit);
}

#[test]
fn full_words_map_to_directions() {
    assert_eq!(parse_command("north"), Direction::North);
    assert_eq!(parse_command("south"), Direction::South);
    assert_eq!(parse_command("east"), Direction::East);
    assert_eq!(parse_command("west"), Direction::West);
    assert_eq!(parse_command("quit"), Direction::Quit);
}

#[test]
fn matching_is_case_insensitive() {
    assert_eq!(parse_command("N"), Direction::North);
    assert_eq!(parse_command("NORTH"), Direction::North);
    assert_eq!(parse_command("North"), Direction::North);
    assert_eq!(parse_command("sOuTh"), Direction::South);
    assert_eq!(parse_command("QUIT"), Direction::Quit);
    assert_eq!(parse_command("Q"), Direction::Quit);
}

#[test]
fn surrounding_whitespace_is_trimmed() {
    assert_eq!(parse_command("n\n"), Direction::North);
    assert_eq!(parse_command("  east  "), Direction::East);
    assert_eq!(parse_command("\tquit\r\n"), Direction::Quit);
    assert_eq!(parse_command(" w"), Direction::West);
    // Trimming covers the whole Unicode white-space set, as str::trim does.
    assert_eq!(parse_command("\u{a0}north\u{3000}"), Direction::North);
    assert_eq!("\u{a0}north\u{3000}".trim(), "north");
}

#[test]
fn unrecognized_input_is_invalid() {
    assert_eq!(parse_command(""), Direction::Invalid);
    assert_eq!(parse_command("   "), Direction::Invalid);
    assert_eq!(parse_command("x"), Direction::Invalid);
    assert_eq!(parse_command("no"), Direction::Invalid);
    assert_eq!(parse_command("northh"), Direction::Invalid);
    assert_eq!(parse_command("go north"), Direction::Invalid);
    assert_eq!(parse_command("quit now"), Direction::Invalid);
    assert_eq!(parse_command("xyzzy"), Direction::Invalid);
}

#[test]
fn no_partial_or_inner_matches() {
    assert_eq!(parse_command("nor"), Direction::Invalid);
    assert_eq!(parse_command("qu"), Direction::Invalid);
    assert_eq!(parse_command("n e"), Direction::Invalid);
}
