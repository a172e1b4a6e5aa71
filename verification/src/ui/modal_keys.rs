//! What a key does while a modal window is open, and where the main window
//! stands after some of those windows close.

use vstd::prelude::*;
use crate::ui::browse::CurrentView;
use crate::ui::navigation::Key;

verus! {

/// The kinds of modal window, as far as their keys go.
#[derive(Debug, Clone, Copy, PartialEq, Eq, Structural)]
pub enum ModalKind {
    Settings,
    EditPath,
    Anilist,
    Process,
    /// The missing-tools notice and the alert box.
    Notice,
    /// The source installer, asking whether to install.
    InstallPrompt,
    /// The source installer, after a successful installation.
    InstallSucceeded,
    /// The source installer, after a failed one.
    InstallFailed,
    /// The source installer while it works.
    InstallRunning,
    SourceSelect,
    ConfirmRemove,
    ConfirmMarkRead,
    Help,
}

/// What the application is asked to do after a key in a modal window.
#[derive(Debug, Clone, Copy, PartialEq, Eq, Structural)]
pub enum ModalAction {
    Ignore,
    Quit,
    /// Close the window and go back to the main window.
    Close,
    SettingsPrev,
    SettingsNext,
    SettingsLeft,
    SettingsRight,
    SettingsSpace,
    SettingsEnter,
    /// Keep the edited settings and close the window.
    SettingsSave,
    PathAutocomplete,
    PathBackspace,
    PathChar(char),
    /// Keep the typed folder and go back to the settings.
    PathConfirm,
    /// Drop the typed folder and go back to the settings.
    PathCancel,
    AnilistBack,
    AnilistBackspace,
    AnilistChar(char),
    AnilistSubmit,
    /// Open the page where AniList clients are made.
    AnilistOpenBrowser,
    /// Keep the chosen format and close the window.
    ProcessClose,
    ProcessCycleFormat,
    ProcessToggleKcc,
    ProcessToggleFusion,
    ProcessBackspace,
    ProcessChar(char),
    ProcessStart,
    InstallRun,
    /// After a successful installation: on to the source choice.
    InstallContinue,
    /// Keep the checked sources and close the window.
    SourcesDone,
    SourcesToggle,
    SourcesToggleAll,
    SourcesUp,
    SourcesDown,
    Confirm,
    Cancel,
}

/// The key table of the modal windows.
pub open spec fn modal_step(kind: ModalKind, key: Key) -> ModalAction {
    match kind {
        ModalKind::Settings => match key {
            Key::Up | Key::Char('k') => ModalAction::SettingsPrev,
            Key::Down | Key::Char('j') => ModalAction::SettingsNext,
            Key::Left | Key::Char('h') => ModalAction::SettingsLeft,
            Key::Right | Key::Char('l') => ModalAction::SettingsRight,
            Key::Char(' ') => ModalAction::SettingsSpace,
            Key::Enter => ModalAction::SettingsEnter,
            Key::Esc | Key::Char('q') | Key::Char('Q') => ModalAction::SettingsSave,
            _ => ModalAction::Ignore,
        },
        ModalKind::EditPath => match key {
            Key::Tab => ModalAction::PathAutocomplete,
            Key::Backspace => ModalAction::PathBackspace,
            Key::Char(c) => ModalAction::PathChar(c),
            Key::Enter => ModalAction::PathConfirm,
            Key::Esc => ModalAction::PathCancel,
            _ => ModalAction::Ignore,
        },
        ModalKind::Anilist => match key {
            Key::Esc => ModalAction::AnilistBack,
            Key::Backspace => ModalAction::AnilistBackspace,
            Key::Char(c) => ModalAction::AnilistChar(c),
            Key::Enter => ModalAction::AnilistSubmit,
            Key::Tab => ModalAction::AnilistOpenBrowser,
            _ => ModalAction::Ignore,
        },
        ModalKind::Process => match key {
            Key::Esc => ModalAction::ProcessClose,
            Key::Char('o') => ModalAction::ProcessCycleFormat,
            Key::Char('c') => ModalAction::ProcessToggleKcc,
            Key::Char('f') => ModalAction::ProcessToggleFusion,
            Key::Backspace => ModalAction::ProcessBackspace,
            Key::Char(c) => ModalAction::ProcessChar(c),
            Key::Enter => ModalAction::ProcessStart,
            _ => ModalAction::Ignore,
        },
        ModalKind::Notice => match key {
            Key::Esc | Key::Enter => ModalAction::Close,
            _ => ModalAction::Ignore,
        },
        ModalKind::InstallPrompt => match key {
            Key::Enter => ModalAction::InstallRun,
            Key::Esc => ModalAction::Close,
            _ => ModalAction::Ignore,
        },
        ModalKind::InstallSucceeded => match key {
            Key::Enter => ModalAction::InstallContinue,
            Key::Esc => ModalAction::Close,
            _ => ModalAction::Ignore,
        },
        ModalKind::InstallFailed => match key {
            Key::Enter | Key::Esc => ModalAction::Close,
            _ => ModalAction::Ignore,
        },
        ModalKind::InstallRunning => ModalAction::Ignore,
        ModalKind::SourceSelect => match key {
            Key::Esc | Key::Enter => ModalAction::SourcesDone,
            Key::Char('q') | Key::Char('Q') => ModalAction::Quit,
            Key::Char(' ') => ModalAction::SourcesToggle,
            Key::Char('a') | Key::Char('A') => ModalAction::SourcesToggleAll,
            Key::Up | Key::Char('k') => ModalAction::SourcesUp,
            Key::Down | Key::Char('j') => ModalAction::SourcesDown,
            _ => ModalAction::Ignore,
        },
        ModalKind::ConfirmRemove | ModalKind::ConfirmMarkRead => match key {
            Key::Enter | Key::Char('y') | Key::Char('Y') | Key::Char('s') | Key::Char('S') => ModalAction::Confirm,
            Key::Esc | Key::Char('n') | Key::Char('N') => ModalAction::Cancel,
            _ => ModalAction::Ignore,
        },
        ModalKind::Help => match key {
            Key::Esc | Key::Enter | Key::Char('?') | Key::Char('q') | Key::Char('Q') => ModalAction::Close,
            _ => ModalAction::Ignore,
        },
    }
}

/// What a key does in a modal window of the given kind (after the keys
/// that work everywhere).
pub fn modal_key(kind: ModalKind, key: Key) -> (r: ModalAction)
    ensures
        r == modal_step(kind, key),
{
    match kind {
        ModalKind::Settings => match key {
            Key::Up | Key::Char('k') => ModalAction::SettingsPrev,
            Key::Down | Key::Char('j') => ModalAction::SettingsNext,
            Key::Left | Key::Char('h') => ModalAction::SettingsLeft,
            Key::Right | Key::Char('l') => ModalAction::SettingsRight,
            Key::Char(' ') => ModalAction::SettingsSpace,
            Key::Enter => ModalAction::SettingsEnter,
            Key::Esc | Key::Char('q') | Key::Char('Q') => ModalAction::SettingsSave,
            _ => ModalAction::Ignore,
        },
        ModalKind::EditPath => match key {
            Key::Tab => ModalAction::PathAutocomplete,
            Key::Backspace => ModalAction::PathBackspace,
            Key::Char(c) => ModalAction::PathChar(c),
            Key::Enter => ModalAction::PathConfirm,
            Key::Esc => ModalAction::PathCancel,
            _ => ModalAction::Ignore,
        },
        ModalKind::Anilist => match key {
            Key::Esc => ModalAction::AnilistBack,
            Key::Backspace => ModalAction::AnilistBackspace,
            Key::Char(c) => ModalAction::AnilistChar(c),
            Key::Enter => ModalAction::AnilistSubmit,
            Key::Tab => ModalAction::AnilistOpenBrowser,
            _ => ModalAction::Ignore,
        },
        ModalKind::Process => match key {
            Key::Esc => ModalAction::ProcessClose,
            Key::Char('o') => ModalAction::ProcessCycleFormat,
            Key::Char('c') => ModalAction::ProcessToggleKcc,
            Key::Char('f') => ModalAction::ProcessToggleFusion,
            Key::Backspace => ModalAction::ProcessBackspace,
            Key::Char(c) => ModalAction::ProcessChar(c),
            Key::Enter => ModalAction::ProcessStart,
            _ => ModalAction::Ignore,
        },
        ModalKind::Notice => match key {
            Key::Esc | Key::Enter => ModalAction::Close,
            _ => ModalAction::Ignore,
        },
        ModalKind::InstallPrompt => match key {
            Key::Enter => ModalAction::InstallRun,
            Key::Esc => ModalAction::Close,
            _ => ModalAction::Ignore,
        },
        ModalKind::InstallSucceeded => match key {
            Key::Enter => ModalAction::InstallContinue,
            Key::Esc => ModalAction::Close,
            _ => ModalAction::Ignore,
        },
        ModalKind::InstallFailed => match key {
            Key::Enter | Key::Esc => ModalAction::Close,
            _ => ModalAction::Ignore,
        },
        ModalKind::InstallRunning => ModalAction::Ignore,
        ModalKind::SourceSelect => match key {
            Key::Esc | Key::Enter => ModalAction::SourcesDone,
            Key::Char('q') | Key::Char('Q') => ModalAction::Quit,
            Key::Char(' ') => ModalAction::SourcesToggle,
            Key::Char('a') | Key::Char('A') => ModalAction::SourcesToggleAll,
            Key::Up | Key::Char('k') => ModalAction::SourcesUp,
            Key::Down | Key::Char('j') => ModalAction::SourcesDown,
            _ => ModalAction::Ignore,
        },
        ModalKind::ConfirmRemove | ModalKind::ConfirmMarkRead => match key {
            Key::Enter | Key::Char('y') | Key::Char('Y') | Key::Char('s') | Key::Char('S') => ModalAction::Confirm,
            Key::Esc | Key::Char('n') | Key::Char('N') => ModalAction::Cancel,
            _ => ModalAction::Ignore,
        },
        ModalKind::Help => match key {
            Key::Esc | Key::Enter | Key::Char('?') | Key::Char('q') | Key::Char('Q') => ModalAction::Close,
            _ => ModalAction::Ignore,
        },
    }
}

/// The view after the source choice closes: the favorites, the results
/// and the chapters stay; anything else gives way to the search box.
pub open spec fn view_after_sources_of(v: CurrentView) -> CurrentView {
    if v == CurrentView::Favorites || v == CurrentView::MangaResults || v == CurrentView::ChapterList {
        v
    } else {
        CurrentView::Search
    }
}

/// The view after the source choice closes.
pub fn view_after_sources(v: CurrentView) -> (r: CurrentView)
    ensures
        r == view_after_sources_of(v),
{
    if v == CurrentView::Favorites || v == CurrentView::MangaResults || v == CurrentView::ChapterList {
        v
    } else {
        CurrentView::Search
    }
}

/// The view and the favorite selected after a favorite was removed, with
/// `remaining` favorites left and `selected` the row selected before: with
/// none left nothing is selected and the favorites view gives way to the
/// search box; else the same row stays selected, or the last one.
pub fn after_favorite_removed(view: CurrentView, remaining: usize, selected: Option<usize>) -> (r: (
    CurrentView,
    Option<usize>,
))
    ensures
        remaining == 0 ==> r == ((if view == CurrentView::Favorites {
            CurrentView::Search
        } else {
            view
        }), None::<usize>),
        remaining > 0 ==> r.0 == view && r.1 == Some(
            (match selected {
                Some(i) => if i < remaining - 1 {
                    i
                } else {
                    (remaining - 1) as usize
                },
                None => 0,
            }),
        ),
{
    if remaining == 0 {
        let v = if view == CurrentView::Favorites {
            CurrentView::Search
        } else {
            view
        };
        (v, None)
    } else {
        let curr = match selected {
            Some(i) => i,
            None => 0,
        };
        let last = remaining - 1;
        (view, Some(if curr < last { curr } else { last }))
    }
}

} // verus!
