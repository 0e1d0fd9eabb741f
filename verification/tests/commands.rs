use chat_rooms::commands::Command as LineCommand;
use chat_rooms::models::commands::{Command, CommandError};

const ROOM: u128 = 0x67e5_5044_10b1_426f_9247_bb68_0e5f_e0c8;

#[test]
fn any_line_is_a_message() {
    assert!(matches!(LineCommand::parse("hello"), Ok(LineCommand::Msg(m)) if m == "hello"));
    assert!(matches!(LineCommand::parse(""), Ok(LineCommand::Msg(m)) if m.is_empty()));
    assert!(matches!("/join x".parse::<LineCommand>(), Ok(LineCommand::Msg(m)) if m == "/join x"));
}

#[test]
fn create_command() {
    assert_eq!(Command::parse("/create"), Ok(Command::Create));
    assert_eq!(Command::parse("/create my room"), Ok(Command::Create));
    assert_eq!(Command::parse("/createx"), Ok(Command::Create));
    assert_eq!("/create".parse::<Command>(), Ok(Command::Create));
}

#[test]
fn join_command_takes_the_last_word() {
    assert_eq!(Command::parse("/join 67e55044-10b1-426f-9247-bb680e5fe0c8"), Ok(Command::Join(ROOM)));
    assert_eq!(Command::parse("/join   67e55044-10b1-426f-9247-bb680e5fe0c8 \t\n"), Ok(Command::Join(ROOM)));
    assert_eq!(Command::parse("/join junk 67e55044-10b1-426f-9247-bb680e5fe0c8"), Ok(Command::Join(ROOM)));
    assert_eq!(Command::parse("/join\u{3000}67e55044-10b1-426f-9247-bb680e5fe0c8"), Ok(Command::Join(ROOM)));
}

#[test]
fn only_white_space_separates_words() {
    assert_eq!(Command::parse("/join\u{85}67e55044-10b1-426f-9247-bb680e5fe0c8"), Ok(Command::Join(ROOM)));
    assert_eq!(Command::parse("/join\u{200b}67e55044-10b1-426f-9247-bb680e5fe0c8"), Err(CommandError));
}

#[test]
fn join_command_without_room_id_fails() {
    assert_eq!(Command::parse("/join"), Err(CommandError));
    assert_eq!(Command::parse("/join   "), Err(CommandError));
    assert_eq!(Command::parse("/join not-a-room"), Err(CommandError));
    assert_eq!(Command::parse("/join 67e55044-10b1-426f-9247-bb680e5fe0c8 extra"), Err(CommandError));
}

#[test]
fn other_lines_are_no_command() {
    assert_eq!(Command::parse("hello"), Err(CommandError));
    assert_eq!(Command::parse(""), Err(CommandError));
    assert_eq!(Command::parse(" /create"), Err(CommandError));
    assert_eq!(Command::parse("/jo"), Err(CommandError));
}

#[test]
fn command_error_text() {
    assert_eq!(CommandError.to_string(), "Invalid command");
}
