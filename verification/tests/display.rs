use music_player::display::{
    mode_label, now_playing_title, percent_label, progress_percent, progress_row, volume_percent,
};
use music_player::navigation::AppMode;
use music_player::playback::Progress;

#[test]
fn mode_labels() {
    assert_eq!(mode_label(AppMode::Normal), "NORMAL");
    assert_eq!(mode_label(AppMode::Search), "SEARCH");
    assert_eq!(mode_label(AppMode::Play), "PLAY");
    assert_eq!(mode_label(AppMode::Help), "HELP");
}

#[test]
fn the_search_box_pushes_the_progress_bar_down() {
    assert_eq!(progress_row(AppMode::Search), 3);
    assert_eq!(progress_row(AppMode::Normal), 2);
    assert_eq!(progress_row(AppMode::Play), 2);
    assert_eq!(progress_row(AppMode::Help), 2);
}

#[test]
fn progress_percent_rounds_down() {
    let of = |numerator: u64, denominator: u64| progress_percent(Progress { numerator, denominator });
    assert_eq!(of(0, 1), 0);
    assert_eq!(of(1, 3), 33);
    assert_eq!(of(2, 3), 66);
    assert_eq!(of(199, 200), 99);
    assert_eq!(of(200, 200), 100);
    assert_eq!(of(2_500_000_000, 10_000_000_000), 25);
    assert_eq!(of(u64::MAX - 1, u64::MAX), 99);
    assert_eq!(of(u64::MAX, u64::MAX), 100);
}

#[test]
fn progress_percent_of_a_malformed_fraction() {
    let of = |numerator: u64, denominator: u64| progress_percent(Progress { numerator, denominator });
    assert_eq!(of(0, 0), 0);
    assert_eq!(of(5, 0), 0);
    assert_eq!(of(7, 3), 100);
}

#[test]
fn volume_percent_rounds_to_nearest() {
    assert_eq!(volume_percent(0), 0);
    assert_eq!(volume_percent(4), 0);
    assert_eq!(volume_percent(5), 1);
    assert_eq!(volume_percent(50), 5);
    assert_eq!(volume_percent(944), 94);
    assert_eq!(volume_percent(945), 95);
    assert_eq!(volume_percent(950), 95);
    assert_eq!(volume_percent(999), 100);
    assert_eq!(volume_percent(1000), 100);
    assert_eq!(volume_percent(u32::MAX), 100);
}

#[test]
fn percent_label_appends_the_sign() {
    assert_eq!(percent_label(0), "0%");
    assert_eq!(percent_label(7), "7%");
    assert_eq!(percent_label(42), "42%");
    assert_eq!(percent_label(100), "100%");
}

#[test]
fn now_playing_title_names_the_track() {
    let name = "a.mp3".to_string();
    assert_eq!(now_playing_title(Some(&name), "00:05/03:00"), "Now Playing: a.mp3 - 00:05/03:00");
    assert_eq!(now_playing_title(None, "00:00/00:00"), "Now Playing: Unknown - 00:00/00:00");
}
