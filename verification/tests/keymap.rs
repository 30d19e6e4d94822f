use music_player::keymap::{
    dispatch, Command, Key, KeyPress, Modifiers, SEEK_STEP_SECONDS, VOLUME_STEP,
};
use music_player::navigation::AppMode;

fn press(key: Key) -> KeyPress {
    KeyPress { key, modifiers: Modifiers::Plain }
}

#[test]
fn one_key_press_moves_the_volume_by_a_twentieth() {
    assert_eq!(VOLUME_STEP, 50);
    assert_eq!(SEEK_STEP_SECONDS, 5);
}

#[test]
fn normal_mode_bindings() {
    let normal = |key: Key, modifiers: Modifiers| dispatch(AppMode::Normal, KeyPress { key, modifiers });
    assert_eq!(normal(Key::Enter, Modifiers::Plain), Command::PlaySelected);
    assert_eq!(normal(Key::Char('j'), Modifiers::Plain), Command::MoveDown);
    assert_eq!(normal(Key::Down, Modifiers::Plain), Command::MoveDown);
    assert_eq!(normal(Key::Char('k'), Modifiers::Plain), Command::MoveUp);
    assert_eq!(normal(Key::Up, Modifiers::Plain), Command::MoveUp);
    assert_eq!(normal(Key::Char('d'), Modifiers::Control), Command::HalfPageDown);
    assert_eq!(normal(Key::Char('u'), Modifiers::Control), Command::HalfPageUp);
    assert_eq!(normal(Key::Char('g'), Modifiers::Plain), Command::GoToTop);
    assert_eq!(normal(Key::Char('G'), Modifiers::Shift), Command::GoToBottom);
    assert_eq!(normal(Key::Char('/'), Modifiers::Plain), Command::StartSearch);
    assert_eq!(normal(Key::Char('p'), Modifiers::Plain), Command::ShowPlay);
    assert_eq!(normal(Key::Char('h'), Modifiers::Plain), Command::ShowHelp);
    assert_eq!(normal(Key::Char('q'), Modifiers::Plain), Command::Quit);
    assert_eq!(normal(Key::Esc, Modifiers::Plain), Command::Quit);
}

#[test]
fn normal_mode_ignores_the_rest() {
    let normal = |key: Key, modifiers: Modifiers| dispatch(AppMode::Normal, KeyPress { key, modifiers });
    assert_eq!(normal(Key::Char('d'), Modifiers::Plain), Command::Ignore);
    assert_eq!(normal(Key::Char('u'), Modifiers::Plain), Command::Ignore);
    assert_eq!(normal(Key::Char('j'), Modifiers::Control), Command::Ignore);
    assert_eq!(normal(Key::Char('G'), Modifiers::Plain), Command::Ignore);
    assert_eq!(normal(Key::Char('g'), Modifiers::Shift), Command::Ignore);
    assert_eq!(normal(Key::Enter, Modifiers::Shift), Command::Ignore);
    assert_eq!(normal(Key::Esc, Modifiers::Other), Command::Ignore);
    assert_eq!(normal(Key::Char('q'), Modifiers::Other), Command::Ignore);
    assert_eq!(normal(Key::Char(' '), Modifiers::Plain), Command::Ignore);
    assert_eq!(normal(Key::Left, Modifiers::Plain), Command::Ignore);
    assert_eq!(normal(Key::Backspace, Modifiers::Plain), Command::Ignore);
    assert_eq!(normal(Key::Other, Modifiers::Plain), Command::Ignore);
}

#[test]
fn play_mode_bindings() {
    let play = |key: Key| dispatch(AppMode::Play, press(key));
    assert_eq!(play(Key::Esc), Command::ShowNormal);
    assert_eq!(play(Key::Char(' ')), Command::TogglePause);
    assert_eq!(play(Key::Right), Command::SeekForward);
    assert_eq!(play(Key::Left), Command::SeekBackward);
    assert_eq!(play(Key::Char('+')), Command::VolumeUp);
    assert_eq!(play(Key::Char('-')), Command::VolumeDown);
    assert_eq!(play(Key::Char('q')), Command::Quit);
    assert_eq!(play(Key::Char('j')), Command::Ignore);
    assert_eq!(play(Key::Enter), Command::Ignore);
    assert_eq!(
        dispatch(AppMode::Play, KeyPress { key: Key::Char('+'), modifiers: Modifiers::Shift }),
        Command::Ignore
    );
    assert_eq!(
        dispatch(AppMode::Play, KeyPress { key: Key::Esc, modifiers: Modifiers::Control }),
        Command::Ignore
    );
}

#[test]
fn search_mode_bindings_ignore_modifiers() {
    for modifiers in [Modifiers::Plain, Modifiers::Control, Modifiers::Shift, Modifiers::Other] {
        let search = |key: Key| dispatch(AppMode::Search, KeyPress { key, modifiers });
        assert_eq!(search(Key::Char('q')), Command::SearchType('q'));
        assert_eq!(search(Key::Char('/')), Command::SearchType('/'));
        assert_eq!(search(Key::Char('Ä')), Command::SearchType('Ä'));
        assert_eq!(search(Key::Backspace), Command::SearchErase);
        assert_eq!(search(Key::Esc), Command::SearchCancel);
        assert_eq!(search(Key::Enter), Command::SearchAccept);
        assert_eq!(search(Key::Up), Command::Ignore);
        assert_eq!(search(Key::Other), Command::Ignore);
    }
}

#[test]
fn help_mode_bindings() {
    let help = |key: Key| dispatch(AppMode::Help, press(key));
    assert_eq!(help(Key::Esc), Command::ShowNormal);
    assert_eq!(help(Key::Char('q')), Command::Quit);
    assert_eq!(help(Key::Char('h')), Command::Ignore);
    assert_eq!(help(Key::Enter), Command::Ignore);
    assert_eq!(
        dispatch(AppMode::Help, KeyPress { key: Key::Char('q'), modifiers: Modifiers::Control }),
        Command::Ignore
    );
}
