use guessing_game::chrome::{button_commands, title_bar_command, ButtonClicks, WindowCommand};
use guessing_game::game::{Feedback, Game, Phase, SECRET_MAX, SECRET_MIN};
use guessing_game::palette::{Rgb, Tone};
use guessing_game::text::read_guess;

fn submit(game: &mut Game, text: &str) {
    game.set_input(text.to_string());
    game.submit();
}

#[test]
fn scenario_secret_42() {
    let mut game = Game::with_secret(42);
    assert_eq!(game.message(), "Guess the number!");

    submit(&mut game, "50");
    assert_eq!(game.message(), "Too big!");
    assert_eq!(game.phase(), Phase::Playing);

    submit(&mut game, "10");
    assert_eq!(game.message(), "Too small!");
    assert_eq!(game.phase(), Phase::Playing);

    submit(&mut game, "abc");
    assert_eq!(game.message(), "Please enter a valid number!");
    assert_eq!(game.input(), "");
    assert_eq!(game.phase(), Phase::Playing);

    submit(&mut game, "42");
    assert_eq!(game.message(), "You win! Congratulations!");
    assert_eq!(game.phase(), Phase::Won);
    assert!(game.shows_win_controls());
}

#[test]
fn exact_guess_wins() {
    for secret in [SECRET_MIN, 7, 63, SECRET_MAX] {
        let mut game = Game::with_secret(secret);
        submit(&mut game, &secret.to_string());
        assert_eq!(game.phase(), Phase::Won);
        assert_eq!(game.feedback(), Feedback::Win);
        assert_eq!(game.message_tone(), Tone::Success);
        assert_eq!(game.last_guess(), Some(secret));
        assert!(!game.wants_input_focus());
    }
}

#[test]
fn low_guess_is_too_small() {
    let mut game = Game::with_secret(30);
    submit(&mut game, "29");
    assert_eq!(game.phase(), Phase::Playing);
    assert_eq!(game.feedback(), Feedback::TooSmall);
    assert_eq!(game.message_tone(), Tone::Error);
    assert_eq!(game.last_guess(), Some(29));
    assert_eq!(game.input(), "");
    assert!(game.wants_input_focus());

    submit(&mut game, "0");
    assert_eq!(game.feedback(), Feedback::TooSmall);
    assert_eq!(game.last_guess(), Some(0));
}

#[test]
fn high_guess_is_too_big() {
    let mut game = Game::with_secret(30);
    submit(&mut game, "31");
    assert_eq!(game.phase(), Phase::Playing);
    assert_eq!(game.feedback(), Feedback::TooBig);
    assert_eq!(game.message_tone(), Tone::Error);
    assert_eq!(game.last_guess(), Some(31));

    submit(&mut game, "4294967295");
    assert_eq!(game.feedback(), Feedback::TooBig);
    assert_eq!(game.last_guess(), Some(u32::MAX));
}

#[test]
fn invalid_inputs_are_rejected_and_cleared() {
    for text in ["", "   ", "abc", "-5", "4x", "+", "4294967296", "1 2", "3.0"] {
        let mut game = Game::with_secret(12);
        submit(&mut game, "5");
        submit(&mut game, text);
        assert_eq!(game.phase(), Phase::Playing, "input {:?}", text);
        assert_eq!(game.feedback(), Feedback::Invalid, "input {:?}", text);
        assert_eq!(game.message(), "Please enter a valid number!");
        assert_eq!(game.message_tone(), Tone::Error);
        assert_eq!(game.input(), "");
        assert_eq!(game.last_guess(), Some(5));
    }
}

#[test]
fn white_space_and_plus_sign_are_accepted() {
    let mut game = Game::with_secret(42);
    submit(&mut game, "  42\t");
    assert_eq!(game.phase(), Phase::Won);

    let mut game = Game::with_secret(42);
    submit(&mut game, "+042");
    assert_eq!(game.phase(), Phase::Won);
}

#[test]
fn read_guess_trims_and_parses() {
    assert_eq!(read_guess("17"), Some(17));
    assert_eq!(read_guess(" 17 "), Some(17));
    assert_eq!(read_guess("\u{3000}8\n"), Some(8));
    assert_eq!(read_guess("+9"), Some(9));
    assert_eq!(read_guess("4294967295"), Some(u32::MAX));
    assert_eq!(read_guess("4294967296"), None);
    assert_eq!(read_guess(""), None);
    assert_eq!(read_guess("seven"), None);
    assert_eq!(read_guess("-1"), None);
}

#[test]
fn won_session_ignores_further_guesses() {
    let mut game = Game::with_secret(5);
    submit(&mut game, "5");
    submit(&mut game, "3");
    assert_eq!(game.phase(), Phase::Won);
    assert_eq!(game.feedback(), Feedback::Win);
    assert_eq!(game.last_guess(), Some(5));
    assert_eq!(game.input(), "3");
}

#[test]
fn play_again_resets_the_session() {
    let mut game = Game::with_secret(5);
    submit(&mut game, "5");
    game.play_again();
    assert_eq!(game.phase(), Phase::Playing);
    assert_eq!(game.last_guess(), None);
    assert_eq!(game.feedback(), Feedback::Prompt);
    assert_eq!(game.message(), "Guess the number!");
    assert_eq!(game.message_tone(), Tone::Neutral);
    assert_eq!(game.input(), "");
    assert!((SECRET_MIN..=SECRET_MAX).contains(&game.secret_number()));
    assert!(game.wants_input_focus());
    assert!(!game.shows_win_controls());
}

#[test]
fn replay_with_uses_the_given_secret() {
    let mut game = Game::with_secret(5);
    submit(&mut game, "5");
    game.replay_with(77);
    assert_eq!(game.secret_number(), 77);
    assert_eq!(game.phase(), Phase::Playing);
    submit(&mut game, "77");
    assert_eq!(game.phase(), Phase::Won);
}

#[test]
fn replay_is_ignored_while_in_play() {
    let mut game = Game::with_secret(5);
    submit(&mut game, "4");
    game.replay_with(9);
    game.play_again();
    assert_eq!(game.secret_number(), 5);
    assert_eq!(game.last_guess(), Some(4));
    assert_eq!(game.feedback(), Feedback::TooSmall);
}

#[test]
fn new_sessions_draw_secrets_in_range() {
    for _ in 0..500 {
        let game = Game::new();
        assert!((1..=100).contains(&game.secret_number()));
        assert_eq!(game.phase(), Phase::Playing);
        assert_eq!(game.feedback(), Feedback::Prompt);
        let game = Game::default();
        assert!((1..=100).contains(&game.secret_number()));
        assert_eq!(game.last_guess(), None);
    }
}

#[test]
fn quit_closes_only_after_a_win() {
    let mut game = Game::with_secret(60);
    assert_eq!(game.quit_command(), None);
    submit(&mut game, "60");
    assert_eq!(game.quit_command(), Some(WindowCommand::Close));
}

#[test]
fn palette_values() {
    assert_eq!(Tone::Neutral.rgb(), Rgb { r: 127, g: 127, b: 127 });
    assert_eq!(Tone::Error.rgb(), Rgb { r: 255, g: 0, b: 0 });
    assert_eq!(Tone::Success.rgb(), Rgb { r: 0, g: 255, b: 0 });
    assert_eq!(Feedback::Prompt.tone(), Tone::Neutral);
    assert_eq!(Feedback::Invalid.tone(), Tone::Error);
    assert_eq!(Feedback::TooBig.text(), "Too big!");
}

#[test]
fn title_bar_double_click_toggles_maximized() {
    assert_eq!(title_bar_command(true, false, false), Some(WindowCommand::Maximized(true)));
    assert_eq!(title_bar_command(true, true, true), Some(WindowCommand::Maximized(false)));
}

#[test]
fn title_bar_press_drags() {
    assert_eq!(title_bar_command(false, true, false), Some(WindowCommand::StartDrag));
    assert_eq!(title_bar_command(false, true, true), Some(WindowCommand::StartDrag));
    assert_eq!(title_bar_command(false, false, true), None);
}

#[test]
fn frame_buttons_send_one_command_each() {
    let none = ButtonClicks { close: false, maximize: false, minimize: false };
    assert!(button_commands(none, false).is_empty());

    let close = ButtonClicks { close: true, ..none };
    assert_eq!(button_commands(close, false), vec![WindowCommand::Close]);

    let maximize = ButtonClicks { maximize: true, ..none };
    assert_eq!(button_commands(maximize, false), vec![WindowCommand::Maximized(true)]);
    assert_eq!(button_commands(maximize, true), vec![WindowCommand::Maximized(false)]);

    let minimize = ButtonClicks { minimize: true, ..none };
    assert_eq!(button_commands(minimize, true), vec![WindowCommand::Minimized(true)]);

    let all = ButtonClicks { close: true, maximize: true, minimize: true };
    assert_eq!(
        button_commands(all, false),
        vec![WindowCommand::Close, WindowCommand::Maximized(true), WindowCommand::Minimized(true)]
    );
}
