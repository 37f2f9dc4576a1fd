//! The front end's menu: its places, the path shown above it and how it
//! moves between places on key presses.
use vstd::prelude::*;
use vstd::string::StrSliceExecFns;
use vstd::string::StringExecFns;
use crate::frontend::saves::{decimal, push_decimal, string_push};
use crate::frontend::config::{Configuration, Palette, WindowScale};

verus! {

pub enum MenuLocation {
    Main,
    Options,
    PalettePicker,
    ScalePicker,
    SpeedPicker,
    SaveSlotPicker,
    SaveSlotConfirm(u8),
    AskForRestart,
    FileExplorer { path: String, items: Vec<String> },
    ClosedImproperly,
}

impl MenuLocation {
    /// The title shown for the menu.
    pub open spec fn name_spec(&self) -> Seq<char> {
        match self {
            MenuLocation::Main => "Main menu"@,
            MenuLocation::Options => "Options"@,
            MenuLocation::PalettePicker => "Color palette"@,
            MenuLocation::ScalePicker => "Display scale"@,
            MenuLocation::SpeedPicker => "Speed"@,
            MenuLocation::SaveSlotPicker => "Save slot"@,
            MenuLocation::SaveSlotConfirm(_) => "Confirm restart"@,
            MenuLocation::AskForRestart => "Restart"@,
            MenuLocation::FileExplorer { .. } => "File explorer"@,
            MenuLocation::ClosedImproperly => "Warning"@,
        }
    }

    pub fn friendly_name(&self) -> (r: &'static str)
        ensures
            r@ == self.name_spec(),
    {
        match self {
            MenuLocation::Main => "Main menu",
            MenuLocation::Options => "Options",
            MenuLocation::PalettePicker => "Color palette",
            MenuLocation::ScalePicker => "Display scale",
            MenuLocation::SpeedPicker => "Speed",
            MenuLocation::SaveSlotPicker => "Save slot",
            MenuLocation::SaveSlotConfirm(_) => "Confirm restart",
            MenuLocation::AskForRestart => "Restart",
            MenuLocation::FileExplorer { .. } => "File explorer",
            MenuLocation::ClosedImproperly => "Warning",
        }
    }
}

/// Index of the first space in `s`; its length when it has none.
pub open spec fn first_space(s: Seq<char>) -> nat
    decreases s.len(),
{
    if s.len() == 0 || s[0] == ' ' {
        0
    } else {
        1 + first_space(s.drop_first())
    }
}

/// A name whose first two words (or, for one word, first two characters)
/// can be abbreviated: at least two characters, not starting with a space,
/// and a character other than a space after the first space.
pub open spec fn label_ok(name: Seq<char>) -> bool {
    let i = first_space(name) as int;
    &&& name.len() >= 2
    &&& name[0] != ' '
    &&& i < name.len() ==> i + 1 < name.len() && name[i + 1] != ' '
}

/// The two-character abbreviation of a menu name: the initials of its first
/// two words, or its first two characters when it is one word.
pub open spec fn short_label(name: Seq<char>) -> Seq<char> {
    let i = first_space(name) as int;
    if i < name.len() {
        seq![name[0], name[i + 1]]
    } else {
        name.take(2)
    }
}

/// The abbreviated names of `stack`, each followed by '>'.
pub open spec fn path_prefix(stack: Seq<MenuLocation>) -> Seq<char>
    decreases stack.len(),
{
    if stack.len() == 0 {
        Seq::empty()
    } else {
        path_prefix(stack.drop_last()) + short_label(stack.last().name_spec()) + seq!['>']
    }
}

/// The path shown above the menu: the places before the current one
/// abbreviated, then the current place's name.
pub open spec fn menu_path_spec(stack: Seq<MenuLocation>) -> Seq<char> {
    path_prefix(stack.drop_last()) + stack.last().name_spec()
}

proof fn lemma_first_space(s: Seq<char>, i: int)
    requires
        0 <= i <= s.len(),
        forall|j: int| 0 <= j < i ==> s[j] != ' ',
        i == s.len() || s[i] == ' ',
    ensures
        first_space(s) == i,
    decreases i,
{
    if i > 0 {
        lemma_first_space(s.drop_first(), i - 1);
    }
}

/// Every menu name can be abbreviated.
pub proof fn lemma_names_abbreviate(loc: MenuLocation)
    ensures
        label_ok(loc.name_spec()),
{
    reveal_with_fuel(first_space, 16);
    match loc {
        MenuLocation::Main => {
            reveal_strlit("Main menu");
        },
        MenuLocation::Options => {
            reveal_strlit("Options");
        },
        MenuLocation::PalettePicker => {
            reveal_strlit("Color palette");
        },
        MenuLocation::ScalePicker => {
            reveal_strlit("Display scale");
        },
        MenuLocation::SpeedPicker => {
            reveal_strlit("Speed");
        },
        MenuLocation::SaveSlotPicker => {
            reveal_strlit("Save slot");
        },
        MenuLocation::SaveSlotConfirm(_) => {
            reveal_strlit("Confirm restart");
        },
        MenuLocation::AskForRestart => {
            reveal_strlit("Restart");
        },
        MenuLocation::FileExplorer { .. } => {
            reveal_strlit("File explorer");
        },
        MenuLocation::ClosedImproperly => {
            reveal_strlit("Warning");
        },
    }
}

/// Appends the abbreviation of `name` to `path`.
fn push_short_label(path: &mut String, name: &str)
    requires
        label_ok(name@),
    ensures
        final(path)@ == old(path)@ + short_label(name@),
{
    let n = name.unicode_len();
    let mut i: usize = 0;
    while i < n && name.get_char(i) != ' '
        invariant
            i <= n,
            n == name@.len(),
            forall|j: int| 0 <= j < i ==> name@[j] != ' ',
        decreases n - i,
    {
        i += 1;
    }
    proof {
        lemma_first_space(name@, i as int);
    }
    let first = name.get_char(0);
    let second = if i < n {
        name.get_char(i + 1)
    } else {
        name.get_char(1)
    };
    let ghost before = path@;
    string_push(path, first);
    string_push(path, second);
    assert(short_label(name@) =~= seq![first, second]);
    assert(path@ =~= before + short_label(name@));
}

/// The path shown above the menu for a stack of places.
pub fn menu_path(stack: &Vec<MenuLocation>) -> (r: String)
    requires
        stack@.len() >= 1,
    ensures
        r@ == menu_path_spec(stack@),
{
    let mut path = String::new();
    let last = stack.len() - 1;
    let mut i: usize = 0;
    while i < last
        invariant
            i <= last,
            last == stack@.len() - 1,
            path@ == path_prefix(stack@.take(i as int)),
        decreases last - i,
    {
        let name = stack[i].friendly_name();
        proof {
            lemma_names_abbreviate(stack@[i as int]);
        }
        push_short_label(&mut path, name);
        string_push(&mut path, '>');
        assert(stack@.take(i + 1).drop_last() =~= stack@.take(i as int));
        i += 1;
    }
    assert(stack@.take(last as int) =~= stack@.drop_last());
    path.append(stack[last].friendly_name());
    path
}

/// A key press the menu reacts to.
#[derive(Clone, Copy, PartialEq, Eq, Structural)]
pub enum MenuKey {
    Escape,
    Down,
    Up,
    Return,
    Other,
}

/// The menu's navigation state; its opening animation is kept by the
/// caller, which reports whether it is still running.
pub struct Menu {
    pub active: bool,
    pub cursor: isize,
    pub menu_stack: Vec<MenuLocation>,
    pub scroll: i32,
    pub clicked: bool,
    pub has_game: bool,
    pub schedule_save: bool,
}

/// The abstract state of the menu.
pub struct MenuView {
    pub active: bool,
    pub cursor: int,
    pub stack: Seq<MenuLocation>,
    pub scroll: int,
    pub clicked: bool,
    pub has_game: bool,
    pub schedule_save: bool,
}

impl View for Menu {
    type V = MenuView;

    open spec fn view(&self) -> MenuView {
        MenuView {
            active: self.active,
            cursor: self.cursor as int,
            stack: self.menu_stack@,
            scroll: self.scroll as int,
            clicked: self.clicked,
            has_game: self.has_game,
            schedule_save: self.schedule_save,
        }
    }
}

impl MenuView {
    /// There is always a current place, and the main menu is at the bottom.
    pub open spec fn wf(self) -> bool {
        &&& self.stack.len() >= 1
        &&& self.stack[0] is Main
    }

    /// Shown while active or while the animation runs.
    pub open spec fn visible(self, animating: bool) -> bool {
        self.active || animating
    }

    /// Cursor, scroll and click reset before moving to another place.
    pub open spec fn prepared(self) -> MenuView {
        MenuView { clicked: false, cursor: 0, scroll: 0, ..self }
    }

    pub open spec fn goto(self, to: MenuLocation) -> MenuView {
        MenuView { stack: self.stack.push(to), ..self.prepared() }
    }

    pub open spec fn go_back(self) -> MenuView {
        MenuView { stack: self.stack.drop_last(), ..self.prepared() }
    }

    /// Opening or closing the menu: opening schedules a save, and opening a
    /// menu that is fully hidden starts again at the main menu.
    pub open spec fn activated(self, active: bool, animating: bool) -> MenuView {
        let saved = if self.active != active && active {
            MenuView { schedule_save: true, ..self }
        } else {
            self
        };
        let reset = if !self.visible(animating) && !self.active && active {
            MenuView { stack: seq![MenuLocation::Main], ..saved.prepared() }
        } else {
            saved
        };
        MenuView { active, ..reset }
    }

    /// What a key press does: Escape (not repeated) opens or closes the menu
    /// while a game is loaded, Down and Up move the cursor and Return (not
    /// repeated) clicks, all three only while the menu is active.
    pub open spec fn key_press(self, key: MenuKey, repeat: bool, animating: bool) -> MenuView {
        if key == MenuKey::Escape && !repeat && self.has_game {
            self.activated(!self.active, animating)
        } else if key == MenuKey::Down && self.active {
            MenuView { cursor: self.cursor + 1, ..self }
        } else if key == MenuKey::Up && self.active {
            MenuView { cursor: self.cursor - 1, ..self }
        } else if key == MenuKey::Return && !repeat && self.active {
            MenuView { clicked: true, ..self }
        } else {
            self
        }
    }

    /// The cursor wrapped to the `count` items shown: from before the first
    /// to the last and from past the last to the first.
    pub open spec fn cursor_limited(self, count: int) -> MenuView {
        if self.cursor < 0 {
            MenuView { cursor: count - 1, ..self }
        } else if self.cursor >= count {
            MenuView { cursor: 0, ..self }
        } else {
            self
        }
    }
}

/// What choosing a menu entry does.
#[derive(Clone, Copy, Debug)]
pub enum MenuAction {
    Back,
    Resume,
    Stop,
    Reset,
    ResumeLast,
    LoadRom,
    OpenOptions,
    OpenSpeed,
    OpenSaveSlot,
    OpenPalette,
    OpenScale,
    Exit,
    SetPalette(Palette),
    ToggleDpiScaling,
    ToggleDpiScalingFrac,
    SetScale(WindowScale),
    SetSpeed(u8),
    PickSaveSlot(u8),
    ConfirmSaveSlot(u8),
    RestartToApply,
    ExplorerHome,
    ExplorerParent,
    ExplorerOpen(usize),
    EmptyDirectory,
    Continue,
    /// One line of the notice after an unclean exit.
    Notice(u8),
}

/// The entries of the current place, top to bottom: "Back" first when
/// there is a place to go back to. `has_parent` tells whether the directory
/// shown has a parent, `small` whether the window is at its smallest scale.
pub open spec fn entries_spec(v: MenuView, config: Configuration, has_parent: bool, small: bool) -> Seq<MenuAction> {
    let back = if v.stack.len() > 1 {
        seq![MenuAction::Back]
    } else {
        Seq::empty()
    };
    back + match v.stack.last() {
        MenuLocation::Main => (if v.has_game {
            seq![MenuAction::Resume, MenuAction::Stop, MenuAction::Reset]
        } else if config.last_rom is Some {
            seq![MenuAction::ResumeLast]
        } else {
            Seq::empty()
        }) + seq![
            MenuAction::LoadRom,
            MenuAction::OpenOptions,
            MenuAction::OpenSpeed,
            MenuAction::OpenSaveSlot,
            MenuAction::Exit,
        ],
        MenuLocation::Options => seq![MenuAction::OpenPalette, MenuAction::OpenScale],
        MenuLocation::PalettePicker => seq![
            MenuAction::SetPalette(Palette::Grayscale),
            MenuAction::SetPalette(Palette::Green),
        ],
        MenuLocation::ScalePicker => seq![MenuAction::ToggleDpiScaling] + (if config.dpi_scaling {
            seq![MenuAction::ToggleDpiScalingFrac]
        } else {
            Seq::empty()
        }) + seq![
            MenuAction::SetScale(WindowScale::Scale(1)),
            MenuAction::SetScale(WindowScale::Scale(2)),
            MenuAction::SetScale(WindowScale::Scale(3)),
            MenuAction::SetScale(WindowScale::Scale(4)),
            MenuAction::SetScale(WindowScale::Scale(5)),
            MenuAction::SetScale(WindowScale::Maximized),
            MenuAction::SetScale(WindowScale::Fullscreen),
        ],
        MenuLocation::SpeedPicker => Seq::new(10, |i: int| MenuAction::SetSpeed((i + 1) as u8)),
        MenuLocation::SaveSlotPicker => Seq::new(5, |i: int| MenuAction::PickSaveSlot(i as u8)),
        MenuLocation::SaveSlotConfirm(slot) => seq![MenuAction::ConfirmSaveSlot(slot)],
        MenuLocation::AskForRestart => seq![MenuAction::RestartToApply],
        MenuLocation::FileExplorer { items, .. } => seq![MenuAction::ExplorerHome] + (if has_parent {
            seq![MenuAction::ExplorerParent]
        } else {
            Seq::empty()
        }) + (if items.len() > 0 {
            Seq::new(items.len() as nat, |i: int| MenuAction::ExplorerOpen(i as usize))
        } else {
            seq![MenuAction::EmptyDirectory]
        }),
        MenuLocation::ClosedImproperly => seq![MenuAction::Continue] + Seq::new(
            if small {
                4
            } else {
                2
            },
            |i: int| MenuAction::Notice(i as u8),
        ),
    }
}

/// Work a menu choice leaves to the caller.
#[derive(Debug)]
pub enum MenuEffect {
    /// Write the settings to disk.
    SaveConfig,
    /// Reset the emulator and show the idle picture.
    StopGame,
    /// Reset the emulator and load the ROM at this path.
    LoadFile(String),
    /// Reset the emulator, with no game.
    ResetGameboy,
    /// List this directory and show it with `file_explorer_goto`.
    ReadDir(String),
    /// List the home directory and show it with `file_explorer_goto`.
    ReadHomeDir,
    /// Resize the window for this scale.
    ApplyScale(WindowScale),
    /// Write the game's save data to this slot.
    SaveGame(u8),
    /// Quit.
    Exit,
    /// Open this path; report with `finish_open` whether it was a file.
    OpenPath(String),
}

/// Restarting the game: the last ROM is loaded again; without one the
/// emulator is reset and the game is gone.
pub open spec fn reboot_spec(v: MenuView, config: Configuration) -> (MenuView, Seq<MenuEffect>) {
    match config.last_rom {
        Some(path) => (v, seq![MenuEffect::LoadFile(path)]),
        None => (MenuView { has_game: false, ..v }, seq![MenuEffect::ResetGameboy]),
    }
}

/// The choices that can be made in a state: going back needs a place to go
/// back to, resuming the last ROM needs one, an entry of a directory must
/// exist, the parent directory must be known, and continuing after the
/// notice without a game goes back.
pub open spec fn click_allowed(v: MenuView, config: Configuration, action: MenuAction, parent: Option<String>) -> bool {
    match action {
        MenuAction::Back => v.stack.len() >= 2,
        MenuAction::ResumeLast => config.last_rom is Some,
        MenuAction::ExplorerParent => parent is Some,
        MenuAction::ExplorerOpen(i) => v.stack.last() matches MenuLocation::FileExplorer { items, .. } && i < items.len(),
        MenuAction::Continue => !v.has_game ==> v.stack.len() >= 2,
        _ => true,
    }
}

/// What choosing an entry does to the menu and the settings, and the work it
/// leaves to the caller, in order.
pub open spec fn click_spec(
    v: MenuView,
    config: Configuration,
    action: MenuAction,
    parent: Option<String>,
    animating: bool,
) -> (MenuView, Configuration, Seq<MenuEffect>) {
    match action {
        MenuAction::Back => (v.go_back(), config, Seq::empty()),
        MenuAction::Resume => (v.activated(false, animating), config, Seq::empty()),
        MenuAction::Stop => (
            MenuView { has_game: false, cursor: 0, ..v.activated(true, animating) },
            config,
            seq![MenuEffect::StopGame],
        ),
        MenuAction::Reset => {
            let (w, e) = reboot_spec(v, config);
            (w.activated(false, animating), config, e)
        },
        MenuAction::ResumeLast => (
            v.activated(false, animating),
            config,
            seq![MenuEffect::LoadFile(config.last_rom.unwrap())],
        ),
        MenuAction::LoadRom => (v, config, match config.last_path {
            Some(path) => seq![MenuEffect::ReadDir(path)],
            None => seq![MenuEffect::ReadHomeDir],
        }),
        MenuAction::OpenOptions => (v.goto(MenuLocation::Options), config, Seq::empty()),
        MenuAction::OpenSpeed => (v.goto(MenuLocation::SpeedPicker), config, Seq::empty()),
        MenuAction::OpenSaveSlot => (v.goto(MenuLocation::SaveSlotPicker), config, Seq::empty()),
        MenuAction::OpenPalette => (v.goto(MenuLocation::PalettePicker), config, Seq::empty()),
        MenuAction::OpenScale => (v.goto(MenuLocation::ScalePicker), config, Seq::empty()),
        MenuAction::Exit | MenuAction::RestartToApply => (v, config, seq![MenuEffect::Exit]),
        MenuAction::SetPalette(p) => (v, Configuration { palette: p, ..config }, seq![MenuEffect::SaveConfig]),
        MenuAction::ToggleDpiScaling => (
            v,
            Configuration { dpi_scaling: !config.dpi_scaling, ..config },
            seq![MenuEffect::SaveConfig],
        ),
        MenuAction::ToggleDpiScalingFrac => (
            v,
            Configuration { dpi_scaling_frac: !config.dpi_scaling_frac, ..config },
            seq![MenuEffect::SaveConfig],
        ),
        MenuAction::SetScale(scale) => (
            v,
            Configuration { scale, ..config },
            seq![MenuEffect::SaveConfig, MenuEffect::ApplyScale(scale)],
        ),
        MenuAction::SetSpeed(speed) => (
            v,
            Configuration { default_speed: speed, ..config },
            seq![MenuEffect::SaveConfig],
        ),
        MenuAction::PickSaveSlot(slot) => if slot == config.save_slot {
            (v, config, Seq::empty())
        } else if v.has_game {
            (MenuView { cursor: 1, ..v.goto(MenuLocation::SaveSlotConfirm(slot)) }, config, Seq::empty())
        } else {
            (v, Configuration { save_slot: slot, ..config }, seq![MenuEffect::SaveConfig])
        },
        MenuAction::ConfirmSaveSlot(slot) => {
            let config2 = Configuration { save_slot: slot, ..config };
            let (w, e) = reboot_spec(v, config2);
            (
                w.activated(false, animating),
                config2,
                seq![MenuEffect::SaveGame(config.save_slot), MenuEffect::SaveConfig] + e
                    + seq![MenuEffect::SaveGame(slot)],
            )
        },
        MenuAction::ExplorerHome => (
            v,
            Configuration { last_path: None, ..config },
            seq![MenuEffect::ReadHomeDir, MenuEffect::SaveConfig],
        ),
        MenuAction::ExplorerParent => (
            v,
            Configuration { last_path: parent, ..config },
            seq![MenuEffect::ReadDir(parent.unwrap()), MenuEffect::SaveConfig],
        ),
        MenuAction::ExplorerOpen(i) => (v, config, match v.stack.last() {
            MenuLocation::FileExplorer { items, .. } => seq![MenuEffect::OpenPath(items@[i as int])],
            _ => Seq::empty(),
        }),
        MenuAction::Continue => if v.has_game {
            (v.activated(false, animating), config, Seq::empty())
        } else {
            (v.go_back(), config, Seq::empty())
        },
        MenuAction::EmptyDirectory | MenuAction::Notice(_) => (v, config, Seq::empty()),
    }
}

/// A choice among several: "> " before the chosen one, two spaces before
/// the others.
pub open spec fn radio(selected: bool, text: Seq<char>) -> Seq<char> {
    seq![if selected { '>' } else { ' ' }, ' '] + text
}

/// A setting that is on or off: "[X] " or "[ ] " before its text.
pub open spec fn checkbox(checked: bool, text: Seq<char>) -> Seq<char> {
    seq!['[', if checked { 'X' } else { ' ' }, ']', ' '] + text
}

/// Which of the four palettes `p` is, its colors aside.
pub open spec fn palette_kind(p: Palette) -> int {
    match p {
        Palette::Grayscale => 0,
        Palette::GrayscaleDark => 1,
        Palette::Green => 2,
        Palette::Custom(_) => 3,
    }
}

/// The text of a window scale choice (empty for scales the menu does not offer).
pub open spec fn scale_text(scale: WindowScale) -> Seq<char> {
    match scale {
        WindowScale::Scale(1) => "1x"@,
        WindowScale::Scale(2) => "2x (recommended)"@,
        WindowScale::Scale(3) => "3x"@,
        WindowScale::Scale(4) => "4x"@,
        WindowScale::Scale(5) => "5x"@,
        WindowScale::Scale(_) => Seq::empty(),
        WindowScale::Maximized => "Maximized"@,
        WindowScale::Fullscreen => "Fullscreen"@,
    }
}

/// A line of the notice after an unclean exit, split in four lines when the
/// window is small and in two otherwise.
pub open spec fn notice_text(line: u8, small: bool) -> Seq<char> {
    if small {
        if line == 0 {
            "Yarge didn't"@
        } else if line == 1 {
            "close correcly"@
        } else if line == 2 {
            "Some data may"@
        } else if line == 3 {
            "be lost"@
        } else {
            Seq::empty()
        }
    } else {
        if line == 0 {
            "Yarge didn't close correcly"@
        } else if line == 1 {
            "Some data may be lost"@
        } else {
            Seq::empty()
        }
    }
}

/// The text of an entry. `name` is the file name shown for resuming the
/// last ROM and for a directory entry.
pub open spec fn label_spec(action: MenuAction, config: Configuration, small: bool, name: Seq<char>) -> Seq<char> {
    match action {
        MenuAction::Back => "Back"@,
        MenuAction::Resume => "Resume"@,
        MenuAction::Stop => "Stop"@,
        MenuAction::Reset => "Reset"@,
        MenuAction::ResumeLast => "Resume "@ + name,
        MenuAction::LoadRom => "Load ROM file..."@,
        MenuAction::OpenOptions => "Options..."@,
        MenuAction::OpenSpeed => "Speed..."@,
        MenuAction::OpenSaveSlot => "Save slot..."@,
        MenuAction::OpenPalette => "Color palette..."@,
        MenuAction::OpenScale => "Display scale..."@,
        MenuAction::Exit => "Exit"@,
        MenuAction::SetPalette(p) => radio(palette_kind(config.palette) == palette_kind(p), p.name_spec()),
        MenuAction::ToggleDpiScaling => checkbox(
            config.dpi_scaling,
            if small { "HiDPI Scaling"@ } else { "HiDPI Scaling (experimental)"@ },
        ),
        MenuAction::ToggleDpiScalingFrac => checkbox(
            config.dpi_scaling_frac,
            if small { "Allow fract."@ } else { "HiDPI Scaling: Allow fractional"@ },
        ),
        MenuAction::SetScale(scale) => radio(config.scale == scale, scale_text(scale)),
        MenuAction::SetSpeed(speed) => radio(config.default_speed == speed, decimal(speed) + seq!['x']),
        MenuAction::PickSaveSlot(slot) => radio(
            config.save_slot == slot,
            "Slot "@ + decimal(if slot < 255 { (slot + 1) as u8 } else { 0 }),
        ),
        MenuAction::ConfirmSaveSlot(_) => if small { "Restart"@ } else { "Restart the game now?"@ },
        MenuAction::RestartToApply => "Restart now to apply changes"@,
        MenuAction::ExplorerHome => "Home"@,
        MenuAction::ExplorerParent => ".."@,
        MenuAction::ExplorerOpen(_) => name,
        MenuAction::EmptyDirectory => "This directory is empty"@,
        MenuAction::Continue => "Continue"@,
        MenuAction::Notice(line) => notice_text(line, small),
    }
}

fn text(s: &str) -> (r: String)
    ensures
        r@ == s@,
{
    String::from_str(s)
}

fn radio_label(selected: bool, label: &str) -> (r: String)
    ensures
        r@ == radio(selected, label@),
{
    let mut r = String::new();
    string_push(&mut r, if selected { '>' } else { ' ' });
    string_push(&mut r, ' ');
    r.append(label);
    assert(r@ =~= radio(selected, label@));
    r
}

fn checkbox_label(checked: bool, label: &str) -> (r: String)
    ensures
        r@ == checkbox(checked, label@),
{
    let mut r = String::new();
    string_push(&mut r, '[');
    string_push(&mut r, if checked { 'X' } else { ' ' });
    string_push(&mut r, ']');
    string_push(&mut r, ' ');
    r.append(label);
    assert(r@ =~= checkbox(checked, label@));
    r
}

fn scale_label(scale: WindowScale) -> (r: &'static str)
    ensures
        r@ == scale_text(scale),
{
    match scale {
        WindowScale::Scale(1) => "1x",
        WindowScale::Scale(2) => "2x (recommended)",
        WindowScale::Scale(3) => "3x",
        WindowScale::Scale(4) => "4x",
        WindowScale::Scale(5) => "5x",
        WindowScale::Scale(_) => {
            let r = "";
            proof {
                reveal_strlit("");
            }
            r
        },
        WindowScale::Maximized => "Maximized",
        WindowScale::Fullscreen => "Fullscreen",
    }
}

fn notice_label(line: u8, small: bool) -> (r: &'static str)
    ensures
        r@ == notice_text(line, small),
{
    let empty = "";
    proof {
        reveal_strlit("");
    }
    if small {
        if line == 0 {
            "Yarge didn't"
        } else if line == 1 {
            "close correcly"
        } else if line == 2 {
            "Some data may"
        } else if line == 3 {
            "be lost"
        } else {
            empty
        }
    } else {
        if line == 0 {
            "Yarge didn't close correcly"
        } else if line == 1 {
            "Some data may be lost"
        } else {
            empty
        }
    }
}

/// The text of an entry; `name` is the file name for resuming the last ROM
/// and for a directory entry.
pub fn entry_label(action: MenuAction, config: &Configuration, small: bool, name: &str) -> (r: String)
    ensures
        r@ == label_spec(action, *config, small, name@),
{
    match action {
        MenuAction::Back => text("Back"),
        MenuAction::Resume => text("Resume"),
        MenuAction::Stop => text("Stop"),
        MenuAction::Reset => text("Reset"),
        MenuAction::ResumeLast => {
            let mut r = text("Resume ");
            r.append(name);
            r
        },
        MenuAction::LoadRom => text("Load ROM file..."),
        MenuAction::OpenOptions => text("Options..."),
        MenuAction::OpenSpeed => text("Speed..."),
        MenuAction::OpenSaveSlot => text("Save slot..."),
        MenuAction::OpenPalette => text("Color palette..."),
        MenuAction::OpenScale => text("Display scale..."),
        MenuAction::Exit => text("Exit"),
        MenuAction::SetPalette(p) => {
            let selected = match (config.palette, p) {
                (Palette::Grayscale, Palette::Grayscale) => true,
                (Palette::GrayscaleDark, Palette::GrayscaleDark) => true,
                (Palette::Green, Palette::Green) => true,
                (Palette::Custom(_), Palette::Custom(_)) => true,
                _ => false,
            };
            radio_label(selected, p.get_name())
        },
        MenuAction::ToggleDpiScaling => checkbox_label(
            config.dpi_scaling,
            if small { "HiDPI Scaling" } else { "HiDPI Scaling (experimental)" },
        ),
        MenuAction::ToggleDpiScalingFrac => checkbox_label(
            config.dpi_scaling_frac,
            if small { "Allow fract." } else { "HiDPI Scaling: Allow fractional" },
        ),
        MenuAction::SetScale(scale) => radio_label(config.scale == scale, scale_label(scale)),
        MenuAction::SetSpeed(speed) => {
            let mut t = String::new();
            push_decimal(&mut t, speed);
            string_push(&mut t, 'x');
            radio_label(config.default_speed == speed, t.as_str())
        },
        MenuAction::PickSaveSlot(slot) => {
            let mut t = text("Slot ");
            push_decimal(&mut t, if slot < 255 { slot + 1 } else { 0 });
            radio_label(config.save_slot == slot, t.as_str())
        },
        MenuAction::ConfirmSaveSlot(_) => if small {
            text("Restart")
        } else {
            text("Restart the game now?")
        },
        MenuAction::RestartToApply => text("Restart now to apply changes"),
        MenuAction::ExplorerHome => text("Home"),
        MenuAction::ExplorerParent => text(".."),
        MenuAction::ExplorerOpen(_) => text(name),
        MenuAction::EmptyDirectory => text("This directory is empty"),
        MenuAction::Continue => text("Continue"),
        MenuAction::Notice(line) => text(notice_label(line, small)),
    }
}

/// Every entry the menu shows can be chosen.
pub proof fn lemma_entries_allowed(
    v: MenuView,
    config: Configuration,
    parent: Option<String>,
    small: bool,
    i: int,
)
    requires
        v.wf(),
        0 <= i < entries_spec(v, config, parent is Some, small).len(),
    ensures
        click_allowed(v, config, entries_spec(v, config, parent is Some, small)[i], parent),
{
    let e = entries_spec(v, config, parent is Some, small);
    let back: Seq<MenuAction> = if v.stack.len() > 1 {
        seq![MenuAction::Back]
    } else {
        Seq::empty()
    };
    if v.stack.last() is ClosedImproperly {
        assert(v.stack.len() >= 2);
    }
    if i >= back.len() {
        match v.stack.last() {
            MenuLocation::FileExplorer { items, .. } => {
                let k = i - back.len() - 1 - (if parent is Some { 1int } else { 0 });
                if items.len() > 0 && k >= 0 {
                    assert(e[i] == MenuAction::ExplorerOpen(k as usize));
                }
            },
            MenuLocation::SpeedPicker => {
                assert(e[i] == MenuAction::SetSpeed((i - back.len() + 1) as u8));
            },
            MenuLocation::SaveSlotPicker => {
                assert(e[i] == MenuAction::PickSaveSlot((i - back.len()) as u8));
            },
            MenuLocation::ClosedImproperly => {
                if i > back.len() {
                    assert(e[i] == MenuAction::Notice((i - back.len() - 1) as u8));
                }
            },
            _ => {},
        }
    }
}

/// Moving to a place and back again returns to the same stack of places.
pub proof fn lemma_goto_then_back(v: MenuView, to: MenuLocation)
    requires
        v.wf(),
    ensures
        v.goto(to).go_back().stack == v.stack,
        v.goto(to).go_back().wf(),
{
    assert(v.goto(to).go_back().stack =~= v.stack);
}

/// Wrapping puts the cursor among `count` entries, wherever it was.
pub proof fn lemma_cursor_wraps(v: MenuView, count: int)
    requires
        count >= 1,
    ensures
        0 <= v.cursor_limited(count).cursor < count,
{
}

/// The height of one menu entry.
pub const MENU_ITEM_HEIGHT: i32 = 18;

/// How far the scroll moves for the cursor entry at `y`: down by how far it
/// starts below `bottom`, up by how far it starts above one entry height
/// below `top`.
pub open spec fn scroll_delta(y: int, top: int, bottom: int) -> int {
    let under = y - bottom;
    let over = y - top - MENU_ITEM_HEIGHT;
    (if under > 0 { under } else { 0 }) + (if over < 0 { over } else { 0 })
}

/// The arithmetic of scrolling stays within 32 bits.
pub open spec fn scroll_fits(scroll: int, y: int, top: int, bottom: int) -> bool {
    &&& i32::MIN <= y - bottom <= i32::MAX
    &&& i32::MIN <= y - top <= i32::MAX
    &&& i32::MIN <= y - top - MENU_ITEM_HEIGHT <= i32::MAX
    &&& i32::MIN <= scroll + (if y - bottom > 0 { y - bottom } else { 0 }) <= i32::MAX
    &&& i32::MIN <= scroll + scroll_delta(y, top, bottom) <= i32::MAX
}

/// The scroll after following the cursor entry at `cursor_y`, never below zero.
pub open spec fn scrolled(scroll: int, cursor_y: Option<i32>, top: int, bottom: int) -> int {
    let s = match cursor_y {
        Some(y) => scroll + scroll_delta(y as int, top, bottom),
        None => scroll,
    };
    if s < 0 {
        0
    } else {
        s
    }
}

impl Default for Menu {
    fn default() -> (r: Self)
        ensures
            r@ == (MenuView {
                active: false,
                cursor: 0,
                stack: seq![MenuLocation::Main],
                scroll: 0,
                clicked: false,
                has_game: false,
                schedule_save: false,
            }),
    {
        Menu::new()
    }
}

impl Menu {
    /// Scrolls the list so that the entry under the cursor, drawn at
    /// `cursor_y`, starts no lower than `bottom` and no higher than one entry
    /// height below `list_top`; the scroll never goes below zero. Without a
    /// cursor entry only the last rule applies.
    pub fn scroll_to_cursor(&mut self, cursor_y: Option<i32>, list_top: i32, bottom: i32)
        requires
            cursor_y matches Some(y) ==> scroll_fits(old(self).scroll as int, y as int, list_top as int, bottom as int),
        ensures
            final(self)@ == (MenuView {
                scroll: scrolled(old(self).scroll as int, cursor_y, list_top as int, bottom as int),
                ..old(self)@
            }),
    {
        if let Some(y) = cursor_y {
            let under = y - bottom;
            let over = y - list_top - MENU_ITEM_HEIGHT;
            let down = if under > 0 { under } else { 0 };
            let up = if over < 0 { over } else { 0 };
            self.scroll = self.scroll + down + up;
        }
        if self.scroll < 0 {
            self.scroll = 0;
        }
    }

    /// Ends a frame in which `count` entries were laid out: the list scrolls
    /// to the cursor entry (see `scroll_to_cursor`), the cursor wraps around
    /// the entries, and a click is consumed whether or not it chose one.
    pub fn end_frame(&mut self, count: isize, cursor_y: Option<i32>, list_top: i32, bottom: i32)
        requires
            count > isize::MIN,
            cursor_y matches Some(y) ==> scroll_fits(old(self).scroll as int, y as int, list_top as int, bottom as int),
        ensures
            final(self)@ == (MenuView {
                clicked: false,
                ..MenuView {
                    scroll: scrolled(old(self).scroll as int, cursor_y, list_top as int, bottom as int),
                    ..old(self)@
                }.cursor_limited(count as int)
            }),
            count >= 1 ==> 0 <= final(self).cursor < count,
            final(self).scroll >= 0,
            !final(self).clicked,
    {
        self.scroll_to_cursor(cursor_y, list_top, bottom);
        self.limit_cursor(count);
        self.clicked = false;
    }

    /// Notes whether a game is loaded: the cartridge's name is "N/A" when
    /// there is none.
    pub fn always_update(&mut self, mbc_name: &str)
        ensures
            final(self)@ == (MenuView { has_game: mbc_name@ != "N/A"@, ..old(self)@ }),
    {
        proof {
            reveal_strlit("N/A");
        }
        let none = mbc_name.unicode_len() == 3 && mbc_name.get_char(0) == 'N' && mbc_name.get_char(1)
            == '/' && mbc_name.get_char(2) == 'A';
        if !none {
            assert(mbc_name@ != "N/A"@) by {
                if mbc_name@ == "N/A"@ {
                    assert(mbc_name@[0] == 'N' && mbc_name@[1] == '/' && mbc_name@[2] == 'A');
                }
            }
        } else {
            assert(mbc_name@ =~= "N/A"@);
        }
        self.has_game = !none;
    }

    /// The entry chosen this frame, if any: the one under the cursor when
    /// Return was pressed.
    pub fn selected(&self, entries: &Vec<MenuAction>) -> (r: Option<MenuAction>)
        ensures
            r == (if self.clicked && 0 <= self.cursor < entries@.len() {
                Some(entries@[self.cursor as int])
            } else {
                None
            }),
    {
        if self.clicked && 0 <= self.cursor && (self.cursor as usize) < entries.len() {
            Some(entries[self.cursor as usize])
        } else {
            None
        }
    }

    /// Whether a save was scheduled when the menu opened; clears it.
    pub fn take_scheduled_save(&mut self) -> (r: bool)
        ensures
            r == old(self).schedule_save,
            final(self)@ == (MenuView { schedule_save: false, ..old(self)@ }),
    {
        let r = self.schedule_save;
        self.schedule_save = false;
        r
    }

    /// After an `OpenPath`: a file is loaded, the menu closes and the file
    /// becomes the last ROM; a directory is shown and becomes the last path.
    /// The settings are saved either way.
    pub fn finish_open(&mut self, path: String, is_file: bool, config: &mut Configuration, animating: bool) -> (effects: Vec<MenuEffect>)
        requires
            old(self)@.wf(),
        ensures
            final(self)@ == (if is_file {
                old(self)@.activated(false, animating)
            } else {
                old(self)@
            }),
            *final(config) == (if is_file {
                Configuration { last_rom: Some(path), ..*old(config) }
            } else {
                Configuration { last_path: Some(path), ..*old(config) }
            }),
            effects@ == (if is_file {
                seq![MenuEffect::LoadFile(path), MenuEffect::SaveConfig]
            } else {
                seq![MenuEffect::ReadDir(path), MenuEffect::SaveConfig]
            }),
            final(self)@.wf(),
    {
        let mut effects = Vec::new();
        if is_file {
            effects.push(MenuEffect::LoadFile(path.clone()));
            self.set_activated_state(false, animating);
            config.last_rom = Some(path);
        } else {
            effects.push(MenuEffect::ReadDir(path.clone()));
            config.last_path = Some(path);
        }
        effects.push(MenuEffect::SaveConfig);
        effects
    }

    fn reboot_game(&mut self, config: &Configuration, effects: &mut Vec<MenuEffect>)
        ensures
            (final(self)@, final(effects)@) == ({
                let (w, e) = reboot_spec(old(self)@, *config);
                (w, old(effects)@ + e)
            }),
    {
        match &config.last_rom {
            Some(path) => {
                effects.push(MenuEffect::LoadFile(path.clone()));
            },
            None => {
                effects.push(MenuEffect::ResetGameboy);
                self.has_game = false;
            },
        }
    }

    /// Carries out a chosen entry; returns the work left to the caller.
    pub fn click(
        &mut self,
        action: MenuAction,
        config: &mut Configuration,
        parent: Option<String>,
        animating: bool,
    ) -> (effects: Vec<MenuEffect>)
        requires
            old(self)@.wf(),
            click_allowed(old(self)@, *old(config), action, parent),
        ensures
            (final(self)@, *final(config), effects@) == click_spec(
                old(self)@,
                *old(config),
                action,
                parent,
                animating,
            ),
            final(self)@.wf(),
    {
        let mut effects: Vec<MenuEffect> = Vec::new();
        match action {
            MenuAction::Back => {
                self.menu_go_back();
            },
            MenuAction::Resume => {
                self.set_activated_state(false, animating);
            },
            MenuAction::Stop => {
                self.reset_game(animating);
                effects.push(MenuEffect::StopGame);
            },
            MenuAction::Reset => {
                self.reboot_game(config, &mut effects);
                self.set_activated_state(false, animating);
            },
            MenuAction::ResumeLast => {
                if let Some(path) = &config.last_rom {
                    effects.push(MenuEffect::LoadFile(path.clone()));
                }
                self.set_activated_state(false, animating);
            },
            MenuAction::LoadRom => {
                match &config.last_path {
                    Some(path) => effects.push(MenuEffect::ReadDir(path.clone())),
                    None => effects.push(MenuEffect::ReadHomeDir),
                }
            },
            MenuAction::OpenOptions => self.menu_goto(MenuLocation::Options),
            MenuAction::OpenSpeed => self.menu_goto(MenuLocation::SpeedPicker),
            MenuAction::OpenSaveSlot => self.menu_goto(MenuLocation::SaveSlotPicker),
            MenuAction::OpenPalette => self.menu_goto(MenuLocation::PalettePicker),
            MenuAction::OpenScale => self.menu_goto(MenuLocation::ScalePicker),
            MenuAction::Exit | MenuAction::RestartToApply => effects.push(MenuEffect::Exit),
            MenuAction::SetPalette(p) => {
                config.palette = p;
                effects.push(MenuEffect::SaveConfig);
            },
            MenuAction::ToggleDpiScaling => {
                config.dpi_scaling = !config.dpi_scaling;
                effects.push(MenuEffect::SaveConfig);
            },
            MenuAction::ToggleDpiScalingFrac => {
                config.dpi_scaling_frac = !config.dpi_scaling_frac;
                effects.push(MenuEffect::SaveConfig);
            },
            MenuAction::SetScale(scale) => {
                config.scale = scale;
                effects.push(MenuEffect::SaveConfig);
                effects.push(MenuEffect::ApplyScale(scale));
            },
            MenuAction::SetSpeed(speed) => {
                config.default_speed = speed;
                effects.push(MenuEffect::SaveConfig);
            },
            MenuAction::PickSaveSlot(slot) => {
                if slot != config.save_slot {
                    if self.has_game {
                        self.menu_goto(MenuLocation::SaveSlotConfirm(slot));
                        self.cursor = 1;
                    } else {
                        config.save_slot = slot;
                        effects.push(MenuEffect::SaveConfig);
                    }
                }
            },
            MenuAction::ConfirmSaveSlot(slot) => {
                effects.push(MenuEffect::SaveGame(config.save_slot));
                config.save_slot = slot;
                effects.push(MenuEffect::SaveConfig);
                self.reboot_game(config, &mut effects);
                effects.push(MenuEffect::SaveGame(slot));
                self.set_activated_state(false, animating);
            },
            MenuAction::ExplorerHome => {
                effects.push(MenuEffect::ReadHomeDir);
                config.last_path = None;
                effects.push(MenuEffect::SaveConfig);
            },
            MenuAction::ExplorerParent => {
                if let Some(p) = &parent {
                    effects.push(MenuEffect::ReadDir(p.clone()));
                }
                config.last_path = parent;
                effects.push(MenuEffect::SaveConfig);
            },
            MenuAction::ExplorerOpen(i) => {
                let last = self.menu_stack.len() - 1;
                if let MenuLocation::FileExplorer { items, .. } = &self.menu_stack[last] {
                    effects.push(MenuEffect::OpenPath(items[i].clone()));
                }
            },
            MenuAction::Continue => {
                if self.has_game {
                    self.set_activated_state(false, animating);
                } else {
                    self.menu_go_back();
                }
            },
            MenuAction::EmptyDirectory | MenuAction::Notice(_) => {},
        }
        assert(effects@ =~= click_spec(old(self)@, *old(config), action, parent, animating).2);
        effects
    }

    /// The entries the current place shows.
    pub fn entries(&self, config: &Configuration, has_parent: bool, small: bool) -> (r: Vec<MenuAction>)
        requires
            self@.wf(),
        ensures
            r@ == entries_spec(self@, *config, has_parent, small),
    {
        let mut r: Vec<MenuAction> = Vec::new();
        if self.menu_stack.len() > 1 {
            r.push(MenuAction::Back);
        }
        let ghost back = r@;
        let last = self.menu_stack.len() - 1;
        match &self.menu_stack[last] {
            MenuLocation::Main => {
                if self.has_game {
                    r.push(MenuAction::Resume);
                    r.push(MenuAction::Stop);
                    r.push(MenuAction::Reset);
                } else if config.last_rom.is_some() {
                    r.push(MenuAction::ResumeLast);
                }
                r.push(MenuAction::LoadRom);
                r.push(MenuAction::OpenOptions);
                r.push(MenuAction::OpenSpeed);
                r.push(MenuAction::OpenSaveSlot);
                r.push(MenuAction::Exit);
            },
            MenuLocation::Options => {
                r.push(MenuAction::OpenPalette);
                r.push(MenuAction::OpenScale);
            },
            MenuLocation::PalettePicker => {
                r.push(MenuAction::SetPalette(Palette::Grayscale));
                r.push(MenuAction::SetPalette(Palette::Green));
            },
            MenuLocation::ScalePicker => {
                r.push(MenuAction::ToggleDpiScaling);
                if config.dpi_scaling {
                    r.push(MenuAction::ToggleDpiScalingFrac);
                }
                r.push(MenuAction::SetScale(WindowScale::Scale(1)));
                r.push(MenuAction::SetScale(WindowScale::Scale(2)));
                r.push(MenuAction::SetScale(WindowScale::Scale(3)));
                r.push(MenuAction::SetScale(WindowScale::Scale(4)));
                r.push(MenuAction::SetScale(WindowScale::Scale(5)));
                r.push(MenuAction::SetScale(WindowScale::Maximized));
                r.push(MenuAction::SetScale(WindowScale::Fullscreen));
            },
            MenuLocation::SpeedPicker => {
                let mut i: u8 = 0;
                while i < 10
                    invariant
                        i <= 10,
                        r@ == back + Seq::new(i as nat, |j: int| MenuAction::SetSpeed((j + 1) as u8)),
                    decreases 10 - i,
                {
                    r.push(MenuAction::SetSpeed(i + 1));
                    i += 1;
                    assert(r@ =~= back + Seq::new(i as nat, |j: int| MenuAction::SetSpeed((j + 1) as u8)));
                }
            },
            MenuLocation::SaveSlotPicker => {
                let mut i: u8 = 0;
                while i < 5
                    invariant
                        i <= 5,
                        r@ == back + Seq::new(i as nat, |j: int| MenuAction::PickSaveSlot(j as u8)),
                    decreases 5 - i,
                {
                    r.push(MenuAction::PickSaveSlot(i));
                    i += 1;
                    assert(r@ =~= back + Seq::new(i as nat, |j: int| MenuAction::PickSaveSlot(j as u8)));
                }
            },
            MenuLocation::SaveSlotConfirm(slot) => {
                r.push(MenuAction::ConfirmSaveSlot(*slot));
            },
            MenuLocation::AskForRestart => {
                r.push(MenuAction::RestartToApply);
            },
            MenuLocation::FileExplorer { items, .. } => {
                r.push(MenuAction::ExplorerHome);
                if has_parent {
                    r.push(MenuAction::ExplorerParent);
                }
                let ghost head = r@;
                if items.len() > 0 {
                    let mut i: usize = 0;
                    while i < items.len()
                        invariant
                            i <= items.len(),
                            r@ == head + Seq::new(i as nat, |j: int| MenuAction::ExplorerOpen(j as usize)),
                        decreases items.len() - i,
                    {
                        r.push(MenuAction::ExplorerOpen(i));
                        i += 1;
                        assert(r@ =~= head + Seq::new(i as nat, |j: int| MenuAction::ExplorerOpen(j as usize)));
                    }
                } else {
                    r.push(MenuAction::EmptyDirectory);
                }
            },
            MenuLocation::ClosedImproperly => {
                r.push(MenuAction::Continue);
                r.push(MenuAction::Notice(0));
                r.push(MenuAction::Notice(1));
                if small {
                    r.push(MenuAction::Notice(2));
                    r.push(MenuAction::Notice(3));
                }
            },
        }
        assert(r@ =~= entries_spec(self@, *config, has_parent, small));
        r
    }

    /// Closed, at the main menu, with no game.
    pub fn new() -> (r: Self)
        ensures
            r@ == (MenuView {
                active: false,
                cursor: 0,
                stack: seq![MenuLocation::Main],
                scroll: 0,
                clicked: false,
                has_game: false,
                schedule_save: false,
            }),
    {
        let mut menu_stack = Vec::new();
        menu_stack.push(MenuLocation::Main);
        Menu {
            active: false,
            cursor: 0,
            menu_stack,
            scroll: 0,
            clicked: false,
            has_game: false,
            schedule_save: false,
        }
    }

    pub fn is_active(&self) -> (r: bool)
        ensures
            r == self.active,
    {
        self.active
    }

    /// Whether the menu is drawn, given whether its animation still runs.
    pub fn is_visible(&self, animating: bool) -> (r: bool)
        ensures
            r == self@.visible(animating),
    {
        self.active || animating
    }

    fn menu_prepare_for_navigation(&mut self)
        ensures
            final(self)@ == old(self)@.prepared(),
    {
        self.clicked = false;
        self.cursor = 0;
        self.scroll = 0;
    }

    /// Returns to the previous place.
    pub fn menu_go_back(&mut self)
        requires
            old(self)@.wf(),
            old(self)@.stack.len() >= 2,
        ensures
            final(self)@ == old(self)@.go_back(),
            final(self)@.wf(),
    {
        self.menu_prepare_for_navigation();
        self.menu_stack.pop();
    }

    /// Moves to a new place on top of the current one.
    pub fn menu_goto(&mut self, to: MenuLocation)
        requires
            old(self)@.wf(),
        ensures
            final(self)@ == old(self)@.goto(to),
            final(self)@.wf(),
    {
        self.menu_prepare_for_navigation();
        self.menu_stack.push(to);
    }

    /// Opens or closes the menu; `animating` tells whether its animation is
    /// still running.
    pub fn set_activated_state(&mut self, active: bool, animating: bool)
        requires
            old(self)@.wf(),
        ensures
            final(self)@ == old(self)@.activated(active, animating),
            final(self)@.wf(),
    {
        if self.active != active {
            self.on_activation_change(active);
        }
        if !self.is_visible(animating) && !self.active && active {
            self.menu_prepare_for_navigation();
            let mut stack = Vec::new();
            stack.push(MenuLocation::Main);
            self.menu_stack = stack;
            assert(self.menu_stack@ =~= seq![MenuLocation::Main]);
        }
        self.active = active;
    }

    fn on_activation_change(&mut self, state: bool)
        ensures
            final(self)@ == (if state {
                MenuView { schedule_save: true, ..old(self)@ }
            } else {
                old(self)@
            }),
    {
        if state {
            self.schedule_save = true;
        }
    }

    /// Opens the menu on the warning shown after an unclean exit, with the
    /// cursor on its second line.
    pub fn closed_improperly(&mut self, animating: bool)
        requires
            old(self)@.wf(),
        ensures
            final(self)@ == (MenuView {
                cursor: 1,
                ..old(self)@.activated(true, animating).goto(MenuLocation::ClosedImproperly)
            }),
            final(self)@.wf(),
    {
        self.set_activated_state(true, animating);
        self.menu_goto(MenuLocation::ClosedImproperly);
        self.cursor = 1;
    }

    /// Reacts to a key press.
    pub fn process_evt(&mut self, key: MenuKey, repeat: bool, animating: bool)
        requires
            old(self)@.wf(),
            isize::MIN < old(self).cursor < isize::MAX,
        ensures
            final(self)@ == old(self)@.key_press(key, repeat, animating),
            final(self)@.wf(),
    {
        if key == MenuKey::Escape && !repeat && self.has_game {
            let active = !self.is_active();
            self.set_activated_state(active, animating);
        } else if key == MenuKey::Down && self.active {
            self.cursor += 1;
        } else if key == MenuKey::Up && self.active {
            self.cursor -= 1;
        } else if key == MenuKey::Return && !repeat && self.active {
            self.clicked = true;
        }
    }

    /// Wraps the cursor around the `count` items the current place shows.
    pub fn limit_cursor(&mut self, count: isize)
        requires
            count > isize::MIN,
        ensures
            final(self)@ == old(self)@.cursor_limited(count as int),
    {
        if self.cursor < 0 {
            self.cursor = count - 1;
        } else if self.cursor >= count {
            self.cursor = 0;
        }
    }

    /// Leaves the game: opens the menu, and the game is gone with the cursor
    /// at the top.
    pub fn reset_game(&mut self, animating: bool)
        requires
            old(self)@.wf(),
        ensures
            final(self)@ == (MenuView {
                has_game: false,
                cursor: 0,
                ..old(self)@.activated(true, animating)
            }),
            final(self)@.wf(),
    {
        self.set_activated_state(true, animating);
        self.has_game = false;
        self.cursor = 0;
    }

    /// Shows a directory's entries, in place of the directory shown before
    /// if the current place is already a directory.
    pub fn file_explorer_goto(&mut self, path: String, items: Vec<String>)
        requires
            old(self)@.wf(),
        ensures
            final(self)@ == (if old(self)@.stack.last() is FileExplorer {
                old(self)@.go_back()
            } else {
                old(self)@
            }).goto(MenuLocation::FileExplorer { path, items }),
            final(self)@.wf(),
    {
        let last = self.menu_stack.len() - 1;
        if matches!(self.menu_stack[last], MenuLocation::FileExplorer { .. }) {
            self.menu_go_back();
        }
        self.menu_goto(MenuLocation::FileExplorer { path, items });
    }

    /// The path shown above the menu.
    pub fn path(&self) -> (r: String)
        requires
            self@.wf(),
        ensures
            r@ == menu_path_spec(self@.stack),
    {
        menu_path(&self.menu_stack)
    }
}

} // verus!
