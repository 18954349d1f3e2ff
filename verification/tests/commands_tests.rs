use snake_game::commands::{
    Command, Direction, InvalidCommandError, KeyModifier, KeyStroke,
};

fn plain(ch: char) -> KeyStroke {
    KeyStroke {
        modifier: KeyModifier::Plain,
        character: Some(ch),
    }
}

fn control(ch: char) -> KeyStroke {
    KeyStroke {
        modifier: KeyModifier::Control,
        character: Some(ch),
    }
}

#[test]
fn the_fixed_key_mapping() {
    assert_eq!(Command::from_key(plain('q')), Ok(Command::Quit));
    assert_eq!(
        Command::from_key(plain('j')),
        Ok(Command::Move(Direction::Down))
    );
    assert_eq!(
        Command::from_key(plain('k')),
        Ok(Command::Move(Direction::Up))
    );
    assert_eq!(
        Command::from_key(plain('h')),
        Ok(Command::Move(Direction::Left))
    );
    assert_eq!(
        Command::from_key(plain('l')),
        Ok(Command::Move(Direction::Right))
    );
    assert_eq!(Command::from_key(control('c')), Ok(Command::Quit));
}

#[test]
fn unmapped_keys_are_rejected() {
    assert_eq!(Command::from_key(plain('x')), Err(InvalidCommandError));
    assert_eq!(Command::from_key(control('q')), Err(InvalidCommandError));
    assert_eq!(
        Command::from_key(KeyStroke {
            modifier: KeyModifier::Plain,
            character: None,
        }),
        Err(InvalidCommandError)
    );
    assert_eq!(
        Command::from_key(KeyStroke {
            modifier: KeyModifier::OtherModifier,
            character: Some('q'),
        }),
        Err(InvalidCommandError)
    );
}

#[test]
fn is_opposite_pairs() {
    let mut up = Direction::Up;
    let mut down = Direction::Down;
    let mut left = Direction::Left;
    let mut right = Direction::Right;
    assert!(up.is_opposite(&Direction::Down));
    assert!(down.is_opposite(&Direction::Up));
    assert!(left.is_opposite(&Direction::Right));
    assert!(right.is_opposite(&Direction::Left));
    assert!(!up.is_opposite(&Direction::Up));
    assert!(!up.is_opposite(&Direction::Left));
    assert!(!up.is_opposite(&Direction::Right));
    assert!(!left.is_opposite(&Direction::Up));
}

#[test]
fn direction_move_to_applies_the_opposite_rule() {
    let mut heading = Direction::Up;
    heading.move_to(Direction::Down);
    assert_eq!(heading, Direction::Up);
    heading.move_to(Direction::Right);
    assert_eq!(heading, Direction::Right);
    heading.move_to(Direction::Left);
    assert_eq!(heading, Direction::Right);
    heading.move_to(Direction::Up);
    assert_eq!(heading, Direction::Up);
}
