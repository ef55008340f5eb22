//! Where keys and pasted text go.
use vstd::prelude::*;
use vstd::string::*;
use crate::session::Mode;

verus! {

/// A held modifier key, as a bit of a set of them.
pub const SHIFT: u8 = 1;

pub const CONTROL: u8 = 2;

pub const ALT: u8 = 4;

pub const SUPER: u8 = 8;

/// A key.
#[derive(Debug, Clone, Copy, PartialEq, Eq, Structural)]
pub enum KeyCode {
    Char(char),
    F(u8),
    Up,
    Down,
    Left,
    Right,
    PageUp,
    PageDown,
    Home,
    End,
    Enter,
    Esc,
    Other,
}

/// A key with the modifiers that were held.
#[derive(Debug, Clone, Copy, PartialEq, Eq, Structural)]
pub struct KeyEvent {
    pub code: KeyCode,
    pub modifiers: u8,
}

impl KeyEvent {
    pub fn new(code: KeyCode, modifiers: u8) -> (key: Self)
        ensures
            key == (KeyEvent { code, modifiers }),
    {
        KeyEvent { code, modifiers }
    }
}

/// Whether all modifiers of `wanted` are among those held.
pub open spec fn holds(modifiers: u8, wanted: u8) -> bool {
    modifiers & wanted == wanted
}

/// What the keys of the machine are like.
#[derive(Debug, Clone, Copy, PartialEq, Eq, Structural)]
pub enum Platform {
    MacOs,
    Other,
}

/// Whether a key pastes into a text input: the letter with a primary modifier. macOS
/// has two of them.
pub open spec fn pastes(key: KeyEvent, platform: Platform) -> bool {
    &&& key.code == KeyCode::Char('v') || key.code == KeyCode::Char('V')
    &&& holds(key.modifiers, CONTROL) || platform == Platform::MacOs && holds(
        key.modifiers,
        SUPER,
    )
}

pub fn is_modal_paste_shortcut(key: &KeyEvent, platform: Platform) -> (pastes_text: bool)
    ensures
        pastes_text == pastes(*key, platform),
{
    let letter = match key.code {
        KeyCode::Char(c) => c == 'v' || c == 'V',
        _ => false,
    };
    let primary = key.modifiers & CONTROL == CONTROL || (platform == Platform::MacOs
        && key.modifiers & SUPER == SUPER);
    letter && primary
}

/// The dialog that makes a linked worktree.
#[derive(Debug, PartialEq, Eq)]
pub struct WorktreeCreateState {
    pub branch: String,
}

/// The dialog that opens a worktree.
#[derive(Debug, PartialEq, Eq)]
pub struct WorktreeOpenState {
    pub search_focused: bool,
    pub search: String,
}

/// The navigator.
#[derive(Debug, PartialEq, Eq)]
pub struct NavigatorState {
    pub search_focused: bool,
    pub search: String,
}

/// What typed and pasted text goes into.
#[derive(Debug, PartialEq, Eq)]
pub struct InputState {
    pub mode: Mode,
    pub name_input: String,
    /// The first text that is typed replaces what stands there.
    pub name_input_replace_on_type: bool,
    pub worktree_create: Option<WorktreeCreateState>,
    pub worktree_open: Option<WorktreeOpenState>,
    pub navigator: NavigatorState,
}

/// What an [`InputState`] holds.
#[verifier::ext_equal]
pub struct InputView {
    pub mode: Mode,
    pub name_input: Seq<char>,
    pub name_input_replace_on_type: bool,
    /// The branch of a new worktree.
    pub branch: Option<Seq<char>>,
    /// The search of the worktree dialog, and whether it has the focus.
    pub worktree_search: Option<(bool, Seq<char>)>,
    pub navigator_focused: bool,
    pub navigator_search: Seq<char>,
}

impl View for InputState {
    type V = InputView;

    open spec fn view(&self) -> InputView {
        InputView {
            mode: self.mode,
            name_input: self.name_input@,
            name_input_replace_on_type: self.name_input_replace_on_type,
            branch: match self.worktree_create {
                Some(create) => Some(create.branch@),
                None => None,
            },
            worktree_search: match self.worktree_open {
                Some(open) => Some((open.search_focused, open.search@)),
                None => None,
            },
            navigator_focused: self.navigator.search_focused,
            navigator_search: self.navigator.search@,
        }
    }
}

/// Whether pasted text has a text input to go into.
pub open spec fn takes_text(input: InputView) -> bool {
    match input.mode {
        Mode::RenameWorkspace => true,
        Mode::RenameTab => true,
        Mode::RenamePane => true,
        Mode::NewLinkedWorktree => true,
        Mode::OpenExistingWorktree => input.worktree_search matches Some((focused, _)) && focused,
        Mode::Navigator => input.navigator_focused,
        _ => false,
    }
}

pub fn modal_paste_target_active(state: &InputState) -> (active: bool)
    ensures
        active == takes_text(state@),
{
    match state.mode {
        Mode::RenameWorkspace => true,
        Mode::RenameTab => true,
        Mode::RenamePane => true,
        Mode::NewLinkedWorktree => true,
        Mode::OpenExistingWorktree => match &state.worktree_open {
            Some(open) => open.search_focused,
            None => false,
        },
        Mode::Navigator => state.navigator.search_focused,
        _ => false,
    }
}

/// A name once text was put in: the first text takes the place of what stands there.
pub open spec fn named(input: InputView, text: Seq<char>) -> InputView {
    InputView {
        name_input: if input.name_input_replace_on_type {
            text
        } else {
            input.name_input + text
        },
        name_input_replace_on_type: false,
        ..input
    }
}

/// The text inputs once text was pasted.
pub open spec fn after_paste(input: InputView, text: Seq<char>) -> InputView {
    if !takes_text(input) {
        input
    } else {
        match input.mode {
            Mode::NewLinkedWorktree => InputView {
                branch: match input.branch {
                    Some(_) => Some(named(input, text).name_input),
                    None => None,
                },
                ..named(input, text)
            },
            Mode::OpenExistingWorktree => InputView {
                worktree_search: match input.worktree_search {
                    Some((focused, search)) => Some((focused, search + text)),
                    None => None,
                },
                ..input
            },
            Mode::Navigator => InputView {
                navigator_search: input.navigator_search + text,
                ..input
            },
            _ => named(input, text),
        }
    }
}

/// Where pasted text goes.
#[derive(Debug, PartialEq, Eq)]
pub enum PasteRoute {
    /// Into the text input, where one takes it.
    TextInput(bool),
    /// To the remote host whose glass is shown.
    Glass(String),
    /// To the focused pane of this workspace.
    Pane(usize, String),
    Dropped,
}

/// Where pasted text goes. Over a shown remote workspace it goes nowhere.
pub open spec fn paste_route(
    input: InputView,
    glass_active: bool,
    projection_active: bool,
    active: Option<usize>,
    text: String,
) -> PasteRoute {
    if input.mode != Mode::Terminal {
        PasteRoute::TextInput(takes_text(input))
    } else if glass_active {
        PasteRoute::Glass(text)
    } else if projection_active {
        PasteRoute::Dropped
    } else {
        match active {
            Some(w) => PasteRoute::Pane(w, text),
            None => PasteRoute::Dropped,
        }
    }
}

/// Where a key goes.
#[derive(Debug, Clone, Copy, PartialEq, Eq, Structural)]
pub enum KeyRoute {
    /// The clipboard goes into the text input.
    PasteClipboard,
    Terminal,
    Prefix,
    Navigate,
    Copy,
    Onboarding,
    ReleaseNotes,
    ProductAnnouncement,
    Rename,
    WorktreeCreate,
    WorktreeOpen,
    WorktreeRemove,
    Resize,
    ConfirmClose,
    ConfirmRemoteProjectedPaneClose,
    ConfirmRemoteProjectedTabClose,
    ContextMenu,
    Settings,
    GlobalMenu,
    KeybindHelp,
    Navigator,
}

/// Where the keys of a mode go.
pub open spec fn mode_route(mode: Mode) -> KeyRoute {
    match mode {
        Mode::Terminal => KeyRoute::Terminal,
        Mode::Prefix => KeyRoute::Prefix,
        Mode::Navigate => KeyRoute::Navigate,
        Mode::Copy => KeyRoute::Copy,
        Mode::Onboarding => KeyRoute::Onboarding,
        Mode::ReleaseNotes => KeyRoute::ReleaseNotes,
        Mode::ProductAnnouncement => KeyRoute::ProductAnnouncement,
        Mode::RenameWorkspace => KeyRoute::Rename,
        Mode::RenameTab => KeyRoute::Rename,
        Mode::RenamePane => KeyRoute::Rename,
        Mode::NewLinkedWorktree => KeyRoute::WorktreeCreate,
        Mode::OpenExistingWorktree => KeyRoute::WorktreeOpen,
        Mode::ConfirmRemoveWorktree => KeyRoute::WorktreeRemove,
        Mode::Resize => KeyRoute::Resize,
        Mode::ConfirmClose => KeyRoute::ConfirmClose,
        Mode::ConfirmRemoteProjectedPaneClose => KeyRoute::ConfirmRemoteProjectedPaneClose,
        Mode::ConfirmRemoteProjectedTabClose => KeyRoute::ConfirmRemoteProjectedTabClose,
        Mode::ContextMenu => KeyRoute::ContextMenu,
        Mode::Settings => KeyRoute::Settings,
        Mode::GlobalMenu => KeyRoute::GlobalMenu,
        Mode::KeybindHelp => KeyRoute::KeybindHelp,
        Mode::Navigator => KeyRoute::Navigator,
    }
}

impl InputState {
    /// Nothing typed, in a terminal.
    pub fn new() -> (state: Self)
        ensures
            state@.mode == Mode::Terminal,
            state@.name_input.len() == 0,
            !state@.name_input_replace_on_type,
            state@.branch is None,
            state@.worktree_search is None,
            !state@.navigator_focused,
            state@.navigator_search.len() == 0,
    {
        InputState {
            mode: Mode::Terminal,
            name_input: String::new(),
            name_input_replace_on_type: false,
            worktree_create: None,
            worktree_open: None,
            navigator: NavigatorState { search_focused: false, search: String::new() },
        }
    }

    fn insert_name(&mut self, text: &str)
        ensures
            final(self)@ == named(old(self)@, text@),
    {
        if self.name_input_replace_on_type {
            self.name_input = text.to_owned();
        } else {
            self.name_input.append(text);
        }
        self.name_input_replace_on_type = false;
    }

    /// Puts pasted text into the text input that takes it. Says whether one did.
    pub fn paste_into_active_text_input(&mut self, text: &str) -> (pasted: bool)
        ensures
            pasted == takes_text(old(self)@),
            final(self)@ == after_paste(old(self)@, text@),
    {
        match self.mode {
            Mode::RenameWorkspace => {
                self.insert_name(text);
                true
            },
            Mode::RenameTab => {
                self.insert_name(text);
                true
            },
            Mode::RenamePane => {
                self.insert_name(text);
                true
            },
            Mode::NewLinkedWorktree => {
                self.insert_name(text);
                if self.worktree_create.is_some() {
                    self.worktree_create = Some(
                        WorktreeCreateState { branch: self.name_input.clone() },
                    );
                }
                true
            },
            Mode::OpenExistingWorktree => {
                let mut open = None;
                std::mem::swap(&mut self.worktree_open, &mut open);
                match open {
                    Some(mut open) => {
                        let focused = open.search_focused;
                        if focused {
                            open.search.append(text);
                        }
                        self.worktree_open = Some(open);
                        focused
                    },
                    None => false,
                }
            },
            Mode::Navigator => {
                if self.navigator.search_focused {
                    self.navigator.search.append(text);
                    true
                } else {
                    false
                }
            },
            _ => false,
        }
    }

    /// Takes pasted text, or says where it goes.
    pub fn handle_paste(
        &mut self,
        glass_active: bool,
        projection_active: bool,
        active: Option<usize>,
        text: String,
    ) -> (route: PasteRoute)
        ensures
            route == paste_route(old(self)@, glass_active, projection_active, active, text),
            final(self)@ == if old(self)@.mode != Mode::Terminal {
                after_paste(old(self)@, text@)
            } else {
                old(self)@
            },
    {
        if self.mode != Mode::Terminal {
            return PasteRoute::TextInput(self.paste_into_active_text_input(text.as_str()));
        }
        if glass_active {
            return PasteRoute::Glass(text);
        }
        if projection_active {
            return PasteRoute::Dropped;
        }
        match active {
            Some(w) => PasteRoute::Pane(w, text),
            None => PasteRoute::Dropped,
        }
    }

    /// Says where a key goes.
    pub fn key_route(&self, key: &KeyEvent, platform: Platform) -> (route: KeyRoute)
        ensures
            route == if takes_text(self@) && pastes(*key, platform) {
                KeyRoute::PasteClipboard
            } else {
                mode_route(self@.mode)
            },
    {
        if modal_paste_target_active(self) && is_modal_paste_shortcut(key, platform) {
            return KeyRoute::PasteClipboard;
        }
        match self.mode {
            Mode::Terminal => KeyRoute::Terminal,
            Mode::Prefix => KeyRoute::Prefix,
            Mode::Navigate => KeyRoute::Navigate,
            Mode::Copy => KeyRoute::Copy,
            Mode::Onboarding => KeyRoute::Onboarding,
            Mode::ReleaseNotes => KeyRoute::ReleaseNotes,
            Mode::ProductAnnouncement => KeyRoute::ProductAnnouncement,
            Mode::RenameWorkspace => KeyRoute::Rename,
            Mode::RenameTab => KeyRoute::Rename,
            Mode::RenamePane => KeyRoute::Rename,
            Mode::NewLinkedWorktree => KeyRoute::WorktreeCreate,
            Mode::OpenExistingWorktree => KeyRoute::WorktreeOpen,
            Mode::ConfirmRemoveWorktree => KeyRoute::WorktreeRemove,
            Mode::Resize => KeyRoute::Resize,
            Mode::ConfirmClose => KeyRoute::ConfirmClose,
            Mode::ConfirmRemoteProjectedPaneClose => KeyRoute::ConfirmRemoteProjectedPaneClose,
            Mode::ConfirmRemoteProjectedTabClose => KeyRoute::ConfirmRemoteProjectedTabClose,
            Mode::ContextMenu => KeyRoute::ContextMenu,
            Mode::Settings => KeyRoute::Settings,
            Mode::GlobalMenu => KeyRoute::GlobalMenu,
            Mode::KeybindHelp => KeyRoute::KeybindHelp,
            Mode::Navigator => KeyRoute::Navigator,
        }
    }
}

// Reading pages ----------------------------------------------------------

/// What the key bindings of a dialog make of a key.
#[derive(Debug, Clone, Copy, PartialEq, Eq, Structural)]
pub enum ModalAction {
    Continue,
    Close,
    Other,
}

/// Whether a key leads from the welcome page to the settings.
pub open spec fn leaves_onboarding(code: KeyCode, bound: Option<ModalAction>) -> bool {
    code == KeyCode::Right || code == KeyCode::Char('l') || bound == Some(ModalAction::Continue)
}

/// Handles a key of the welcome page: says whether the settings open. `bound` is what
/// the page's key bindings make of the key.
pub fn handle_onboarding_key(key: &KeyEvent, bound: Option<ModalAction>) -> (opens_settings: bool)
    ensures
        opens_settings == leaves_onboarding(key.code, bound),
{
    let shortcut = match key.code {
        KeyCode::Right => true,
        KeyCode::Char(c) => c == 'l',
        _ => false,
    };
    shortcut || match bound {
        Some(ModalAction::Continue) => true,
        _ => false,
    }
}

/// What a key does to a page of notes.
#[derive(Debug, Clone, Copy, PartialEq, Eq, Structural)]
pub enum PageCommand {
    Scroll(i16),
    Top,
    Bottom,
    Dismiss,
    Nothing,
}

/// What a key does to a page of notes.
pub open spec fn page_command(code: KeyCode, bound: Option<ModalAction>) -> PageCommand {
    match code {
        KeyCode::Up => PageCommand::Scroll((-1) as i16),
        KeyCode::Char('k') => PageCommand::Scroll((-1) as i16),
        KeyCode::Down => PageCommand::Scroll(1),
        KeyCode::Char('j') => PageCommand::Scroll(1),
        KeyCode::PageUp => PageCommand::Scroll((-8) as i16),
        KeyCode::PageDown => PageCommand::Scroll(8),
        KeyCode::Home => PageCommand::Top,
        KeyCode::End => PageCommand::Bottom,
        _ => if bound == Some(ModalAction::Close) {
            PageCommand::Dismiss
        } else {
            PageCommand::Nothing
        },
    }
}

/// Handles a key of the release notes. `bound` is what their key bindings make of it.
pub fn handle_release_notes_key(key: &KeyEvent, bound: Option<ModalAction>) -> (command: PageCommand)
    ensures
        command == page_command(key.code, bound),
{
    let close = match bound {
        Some(ModalAction::Close) => true,
        _ => false,
    };
    match key.code {
        KeyCode::Up => PageCommand::Scroll(-1),
        KeyCode::Char('k') => PageCommand::Scroll(-1),
        KeyCode::Down => PageCommand::Scroll(1),
        KeyCode::Char('j') => PageCommand::Scroll(1),
        KeyCode::PageUp => PageCommand::Scroll(-8),
        KeyCode::PageDown => PageCommand::Scroll(8),
        KeyCode::Home => PageCommand::Top,
        KeyCode::End => PageCommand::Bottom,
        _ => if close {
            PageCommand::Dismiss
        } else {
            PageCommand::Nothing
        },
    }
}

/// Handles a key of a product announcement, which reads like the release notes.
pub fn handle_product_announcement_key(key: &KeyEvent, bound: Option<ModalAction>) -> (command:
    PageCommand)
    ensures
        command == page_command(key.code, bound),
{
    handle_release_notes_key(key, bound)
}

/// How far a page is scrolled after a command: never before its start, never past
/// its end.
pub open spec fn scrolled_to(scroll: u16, max: u16, command: PageCommand) -> int {
    match command {
        PageCommand::Scroll(lines) => if scroll + lines < 0 {
            0
        } else if scroll + lines > max {
            max as int
        } else {
            scroll + lines
        },
        PageCommand::Top => 0,
        PageCommand::Bottom => max as int,
        _ => scroll as int,
    }
}

/// Scrolls a page.
pub fn scroll_page(scroll: u16, max: u16, command: PageCommand) -> (after: u16)
    ensures
        after == scrolled_to(scroll, max, command),
{
    match command {
        PageCommand::Scroll(lines) => {
            let to: i32 = scroll as i32 + lines as i32;
            if to < 0 {
                0
            } else if to > max as i32 {
                max
            } else {
                to as u16
            }
        },
        PageCommand::Top => 0,
        PageCommand::Bottom => max,
        _ => scroll,
    }
}

// Laws -------------------------------------------------------------------

/// While a remote workspace or a remote host is shown, nothing that is pasted
/// reaches a local pane.
pub proof fn pastes_stay_out_of_local_panes(
    input: InputView,
    glass_active: bool,
    projection_active: bool,
    active: Option<usize>,
    text: String,
)
    requires
        glass_active || projection_active,
    ensures
        !(paste_route(input, glass_active, projection_active, active, text) is Pane),
{
}

/// Text is pasted only where a text input takes it.
pub proof fn pastes_without_input_change_nothing(input: InputView, text: Seq<char>)
    requires
        !takes_text(input),
    ensures
        after_paste(input, text) == input,
{
}

/// The first text that is pasted over a proposed name replaces it.
pub proof fn proposed_names_are_replaced(input: InputView, text: Seq<char>)
    requires
        input.mode == Mode::RenameTab || input.mode == Mode::RenamePane || input.mode
            == Mode::RenameWorkspace,
        input.name_input_replace_on_type,
    ensures
        after_paste(input, text).name_input == text,
        !after_paste(input, text).name_input_replace_on_type,
{
}

/// A page that was within its bounds stays within them.
pub proof fn pages_stay_in_bounds(scroll: u16, max: u16, command: PageCommand)
    requires
        scroll <= max,
    ensures
        0 <= scrolled_to(scroll, max, command) <= max,
{
}

} // verus!
