//! Where keys and pasted text go, and what they do there.
use vstd::prelude::*;
use crate::input_keys::{
    after_paste, holds, leaves_onboarding, mode_route, page_command, paste_route, pastes,
    scrolled_to, takes_text, InputView, KeyCode, KeyEvent, ModalAction, PageCommand, PasteRoute,
    Platform, ALT, CONTROL, SHIFT, SUPER,
};
use crate::session::Mode;

verus! {

// Pasting ----------------------------------------------------------------

/// A modifier is held where it is among those that are held, whichever others are.
pub proof fn modifiers_are_held_one_by_one(modifiers: u8, wanted: u8)
    ensures
        holds(modifiers | wanted, wanted),
        wanted != 0 ==> !holds(modifiers & !wanted, wanted),
        holds(CONTROL | SHIFT, CONTROL) && holds(CONTROL | ALT, CONTROL) && !holds(SHIFT, CONTROL)
            && !holds(ALT, CONTROL) && !holds(SUPER, CONTROL) && !holds(CONTROL, SUPER),
{
    assert((modifiers | wanted) & wanted == wanted) by (bit_vector);
    assert(wanted != 0 ==> (modifiers & !wanted) & wanted != wanted) by (bit_vector);
    assert((2u8 | 1u8) & 2u8 == 2u8 && (2u8 | 4u8) & 2u8 == 2u8 && 1u8 & 2u8 != 2u8 && 4u8 & 2u8
        != 2u8 && 8u8 & 2u8 != 2u8 && 2u8 & 8u8 != 8u8) by (bit_vector);
}

/// A key pastes where it is the letter, in either case, with Control, and on macOS also
/// with Command; no other key does, and the letter alone does not.
pub proof fn the_paste_key_pastes(key: KeyEvent, platform: Platform)
    ensures
        pastes(key, platform) ==> key.code == KeyCode::Char('v') || key.code == KeyCode::Char('V'),
        (key.code == KeyCode::Char('v') || key.code == KeyCode::Char('V')) && holds(
            key.modifiers,
            CONTROL,
        ) ==> pastes(key, platform),
        (key.code == KeyCode::Char('v') || key.code == KeyCode::Char('V')) && holds(
            key.modifiers,
            SUPER,
        ) && platform == Platform::MacOs ==> pastes(key, platform),
        pastes(key, platform) && !holds(key.modifiers, CONTROL) ==> platform == Platform::MacOs
            && holds(key.modifiers, SUPER),
        key.modifiers == 0 ==> !pastes(key, platform),
{
    assert(0u8 & 2u8 != 2u8 && 0u8 & 8u8 != 8u8) by (bit_vector);
}

/// Text is taken while something is named, and while a search has the focus in its own
/// dialog; at no other time.
pub proof fn text_is_taken_where_it_is_typed(input: InputView)
    ensures
        takes_text(input) == (input.mode == Mode::RenameWorkspace || input.mode == Mode::RenameTab
            || input.mode == Mode::RenamePane || input.mode == Mode::NewLinkedWorktree || (
        input.mode == Mode::OpenExistingWorktree && input.worktree_search is Some
            && (input.worktree_search->0).0) || (input.mode == Mode::Navigator
            && input.navigator_focused)),
{
}

/// Pasted text goes to the end of what is typed, or in its place where that was only
/// proposed. The name of a new worktree names its branch too. A search gets the text
/// at its end and keeps the focus. Nothing else changes.
pub proof fn pasted_text_is_typed(input: InputView, text: Seq<char>)
    requires
        takes_text(input),
    ensures
        ({
            let after = after_paste(input, text);
            let naming = input.mode == Mode::RenameWorkspace || input.mode == Mode::RenameTab
                || input.mode == Mode::RenamePane || input.mode == Mode::NewLinkedWorktree;
            &&& after.mode == input.mode
            &&& naming && input.name_input_replace_on_type ==> after.name_input == text
            &&& naming && !input.name_input_replace_on_type ==> after.name_input
                == input.name_input + text
            &&& naming ==> !after.name_input_replace_on_type
            &&& !naming ==> after.name_input == input.name_input
                && after.name_input_replace_on_type == input.name_input_replace_on_type
            &&& input.mode == Mode::NewLinkedWorktree && input.branch is Some ==> after.branch
                == Some(after.name_input)
            &&& input.mode != Mode::NewLinkedWorktree || input.branch is None ==> after.branch
                == input.branch
            &&& input.mode == Mode::OpenExistingWorktree ==> after.worktree_search == Some(
                (true, (input.worktree_search->0).1 + text),
            )
            &&& input.mode != Mode::OpenExistingWorktree ==> after.worktree_search
                == input.worktree_search
            &&& input.mode == Mode::Navigator ==> after.navigator_search == input.navigator_search
                + text
            &&& input.mode != Mode::Navigator ==> after.navigator_search == input.navigator_search
            &&& after.navigator_focused == input.navigator_focused
        }),
{
}

/// Pasting twice is pasting both texts at once.
pub proof fn pastes_add_up(input: InputView, first: Seq<char>, second: Seq<char>)
    ensures
        after_paste(after_paste(input, first), second) == after_paste(input, first + second),
{
    let both = after_paste(input, first + second);
    let twice = after_paste(after_paste(input, first), second);
    assert(input.name_input + first + second =~= input.name_input + (first + second));
    assert(input.navigator_search + first + second =~= input.navigator_search + (first + second));
    if let Some((_, search)) = input.worktree_search {
        assert(search + first + second =~= search + (first + second));
    }
    assert(twice =~= both);
}

/// A pasted text goes to a text input while one may be open; else over a shown glass to
/// its host; else, while a remote workspace is shown, nowhere; else to the shown local
/// workspace, where there is one.
pub proof fn pastes_go_where_keys_go(
    input: InputView,
    glass_active: bool,
    projection_active: bool,
    active: Option<usize>,
    text: String,
)
    ensures
        match paste_route(input, glass_active, projection_active, active, text) {
            PasteRoute::TextInput(taken) => input.mode != Mode::Terminal && taken == takes_text(
                input,
            ),
            PasteRoute::Glass(pasted) => input.mode == Mode::Terminal && glass_active && pasted
                == text,
            PasteRoute::Pane(w, pasted) => input.mode == Mode::Terminal && !glass_active
                && !projection_active && active == Some(w) && pasted == text,
            PasteRoute::Dropped => input.mode == Mode::Terminal && !glass_active && (
            projection_active || active is None),
        },
{
}

// Keys -------------------------------------------------------------------

/// Every mode has its own handler, but for the three that name something, which share
/// one. No key goes to the clipboard by its mode alone.
pub proof fn modes_have_their_own_handlers(a: Mode, b: Mode)
    ensures
        mode_route(a) == mode_route(b) ==> a == b || ((a == Mode::RenameWorkspace || a
            == Mode::RenameTab || a == Mode::RenamePane) && (b == Mode::RenameWorkspace || b
            == Mode::RenameTab || b == Mode::RenamePane)),
        !(mode_route(a) is PasteClipboard),
        (mode_route(a) is Terminal) == (a == Mode::Terminal),
        (mode_route(a) is Prefix) == (a == Mode::Prefix),
        (mode_route(a) is Navigate) == (a == Mode::Navigate),
        (mode_route(a) is Copy) == (a == Mode::Copy),
        (mode_route(a) is Onboarding) == (a == Mode::Onboarding),
        (mode_route(a) is ReleaseNotes) == (a == Mode::ReleaseNotes),
        (mode_route(a) is ProductAnnouncement) == (a == Mode::ProductAnnouncement),
        (mode_route(a) is Rename) == (a == Mode::RenameWorkspace || a == Mode::RenameTab || a
            == Mode::RenamePane),
        (mode_route(a) is WorktreeCreate) == (a == Mode::NewLinkedWorktree),
        (mode_route(a) is WorktreeOpen) == (a == Mode::OpenExistingWorktree),
        (mode_route(a) is WorktreeRemove) == (a == Mode::ConfirmRemoveWorktree),
        (mode_route(a) is Resize) == (a == Mode::Resize),
        (mode_route(a) is ConfirmClose) == (a == Mode::ConfirmClose),
        (mode_route(a) is ConfirmRemoteProjectedPaneClose) == (a
            == Mode::ConfirmRemoteProjectedPaneClose),
        (mode_route(a) is ConfirmRemoteProjectedTabClose) == (a
            == Mode::ConfirmRemoteProjectedTabClose),
        (mode_route(a) is ContextMenu) == (a == Mode::ContextMenu),
        (mode_route(a) is Settings) == (a == Mode::Settings),
        (mode_route(a) is GlobalMenu) == (a == Mode::GlobalMenu),
        (mode_route(a) is KeybindHelp) == (a == Mode::KeybindHelp),
        (mode_route(a) is Navigator) == (a == Mode::Navigator),
{
}

/// The welcome page is left to the right, by the arrow or its letter, and by whatever
/// key is bound to going on.
pub proof fn the_welcome_page_is_left_forwards(code: KeyCode, bound: Option<ModalAction>)
    ensures
        leaves_onboarding(KeyCode::Right, bound),
        leaves_onboarding(KeyCode::Char('l'), bound),
        leaves_onboarding(code, Some(ModalAction::Continue)),
        leaves_onboarding(code, bound) && code != KeyCode::Right && code != KeyCode::Char('l')
            ==> bound == Some(ModalAction::Continue),
{
}

/// A page scrolls by a line or by eight, down or up, with the arrows and their letters
/// and with the page keys; it jumps to its ends; and it is dismissed by whatever other
/// key is bound to closing.
pub proof fn pages_scroll_as_asked(bound: Option<ModalAction>)
    ensures
        page_command(KeyCode::Down, bound) == PageCommand::Scroll(1),
        page_command(KeyCode::Char('j'), bound) == PageCommand::Scroll(1),
        page_command(KeyCode::Up, bound) == PageCommand::Scroll((-1) as i16),
        page_command(KeyCode::Char('k'), bound) == PageCommand::Scroll((-1) as i16),
        page_command(KeyCode::PageDown, bound) == PageCommand::Scroll(8),
        page_command(KeyCode::PageUp, bound) == PageCommand::Scroll((-8) as i16),
        page_command(KeyCode::Home, bound) is Top,
        page_command(KeyCode::End, bound) is Bottom,
        (page_command(KeyCode::Esc, bound) is Dismiss) == (bound == Some(ModalAction::Close)),
        (page_command(KeyCode::Enter, bound) is Dismiss) == (bound == Some(ModalAction::Close)),
        bound != Some(ModalAction::Close) ==> page_command(KeyCode::Esc, bound) is Nothing,
{
}

/// A page moves by as many lines as it is scrolled, and stops at its ends; scrolling
/// back by as many leads back where it did not stop. Dismissing it moves nothing.
pub proof fn pages_move_by_what_they_are_scrolled(scroll: u16, max: u16, lines: i16)
    requires
        scroll <= max,
        lines > i16::MIN,
    ensures
        0 <= scroll + lines <= max ==> scrolled_to(scroll, max, PageCommand::Scroll(lines)) == scroll
            + lines,
        scroll + lines < 0 ==> scrolled_to(scroll, max, PageCommand::Scroll(lines)) == 0,
        scroll + lines > max ==> scrolled_to(scroll, max, PageCommand::Scroll(lines)) == max,
        0 <= scroll + lines <= max ==> scrolled_to(
            scrolled_to(scroll, max, PageCommand::Scroll(lines)) as u16,
            max,
            PageCommand::Scroll((-lines) as i16),
        ) == scroll,
        scrolled_to(scroll, max, PageCommand::Top) == 0,
        scrolled_to(scroll, max, PageCommand::Bottom) == max,
        scrolled_to(scroll, max, PageCommand::Dismiss) == scroll,
        scrolled_to(scroll, max, PageCommand::Nothing) == scroll,
{
}

} // verus!
