//! The few texts and numbers that the screen shows of the engine's state.

use crate::navigation::AppMode;
use crate::playback::Progress;
use crate::timecode::{append_decimal, decimal};
use crate::volume::VOLUME_MAX;
use vstd::prelude::*;
use vstd::string::*;

verus! {

/// The name of a mode as the top bar shows it.
pub open spec fn mode_label_text(mode: AppMode) -> Seq<char> {
    match mode {
        AppMode::Normal => "NORMAL"@,
        AppMode::Search => "SEARCH"@,
        AppMode::Play => "PLAY"@,
        AppMode::Help => "HELP"@,
    }
}

/// The row of the screen layout that holds the progress bar: the search box
/// pushes it down by one.
pub open spec fn progress_row_of(mode: AppMode) -> int {
    match mode {
        AppMode::Search => 3,
        _ => 2,
    }
}

/// A fraction in whole percent, rounded down and capped at 100. A fraction
/// without a denominator counts as zero.
pub open spec fn percent_of(numerator: int, denominator: int) -> int {
    if denominator <= 0 {
        0
    } else if numerator >= denominator {
        100
    } else {
        numerator * 100 / denominator
    }
}

/// A volume in whole percent of full scale, a half rounded up. A volume
/// above full scale counts as full scale.
pub open spec fn volume_percent_of(volume: int) -> int {
    if volume >= VOLUME_MAX {
        100
    } else {
        (volume * 100 + VOLUME_MAX / 2) / (VOLUME_MAX as int)
    }
}

/// The label of the progress bar: the percentage and a percent sign.
pub open spec fn percent_label_text(percent: nat) -> Seq<char> {
    decimal(percent).push('%')
}

/// The title over the progress bar of a playing track. A track without a
/// name is shown as unknown.
pub open spec fn now_playing_text(name: Option<Seq<char>>, time: Seq<char>) -> Seq<char> {
    "Now Playing: "@ + match name {
        Some(name) => name,
        None => "Unknown"@,
    } + " - "@ + time
}

/// Computes [`mode_label_text`].
pub fn mode_label(mode: AppMode) -> (label: &'static str)
    ensures
        label@ == mode_label_text(mode),
{
    match mode {
        AppMode::Normal => "NORMAL",
        AppMode::Search => "SEARCH",
        AppMode::Play => "PLAY",
        AppMode::Help => "HELP",
    }
}

/// Computes [`progress_row_of`].
pub fn progress_row(mode: AppMode) -> (row: usize)
    ensures
        row as int == progress_row_of(mode),
{
    match mode {
        AppMode::Search => 3,
        _ => 2,
    }
}

/// Computes [`percent_of`] for a progress.
pub fn progress_percent(progress: Progress) -> (percent: u16)
    ensures
        percent as int == percent_of(progress.numerator as int, progress.denominator as int),
        percent <= 100,
{
    if progress.denominator == 0 {
        0
    } else if progress.numerator >= progress.denominator {
        100
    } else {
        let scaled: u128 = progress.numerator as u128 * 100;
        let percent: u128 = scaled / (progress.denominator as u128);
        assert(percent < 100) by (nonlinear_arith)
            requires
                percent == scaled / (progress.denominator as u128),
                scaled == progress.numerator * 100,
                0 < progress.denominator,
                progress.numerator < progress.denominator,
        ;
        percent as u16
    }
}

/// Computes [`volume_percent_of`].
pub fn volume_percent(volume: u32) -> (percent: u32)
    ensures
        percent as int == volume_percent_of(volume as int),
        percent <= 100,
{
    if volume >= VOLUME_MAX {
        100
    } else {
        (volume * 100 + VOLUME_MAX / 2) / VOLUME_MAX
    }
}

/// Computes [`percent_label_text`].
pub fn percent_label(percent: u16) -> (label: String)
    ensures
        label@ == percent_label_text(percent as nat),
{
    let mut label: String = String::new();
    append_decimal(&mut label, percent as u64);
    label.append("%");
    proof {
        reveal_strlit("%");
    }
    label
}

/// Computes [`now_playing_text`].
pub fn now_playing_title(name: Option<&String>, time: &str) -> (title: String)
    ensures
        title@ == now_playing_text(
            match name {
                Some(name) => Some(name@),
                None => None,
            },
            time@,
        ),
{
    let mut title: String = String::from_str("Now Playing: ");
    match name {
        Some(name) => title.append(name.as_str()),
        None => title.append("Unknown"),
    }
    title.append(" - ");
    title.append(time);
    title
}

} // verus!
