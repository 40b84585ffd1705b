//! The tray: what sender and receiver show in the desktop's status area.
//!
//! A menu is described as a list of entries. The caller hands the entries to
//! the tray service and carries out the action of the entry that is picked.

use vstd::prelude::*;

verus! {

/// Which of the two programs a tray belongs to.
#[derive(Clone, Copy, Debug, PartialEq, Eq, Structural)]
pub enum Role {
    Sender,
    Receiver,
}

/// What picking a menu entry does.
#[derive(Clone, Copy, Debug, PartialEq, Eq, Structural)]
pub enum TrayAction {
    /// Nothing: the entry only shows something.
    Nothing,
    /// Start the program's service.
    Start,
    /// Stop the program's service.
    Stop,
    /// Write the settings out and open them in an editor.
    OpenConfig,
    /// Leave the tray.
    Quit,
}

/// One entry of the tray's menu.
#[derive(Debug)]
pub struct MenuEntry {
    pub label: String,
    pub enabled: bool,
    pub action: TrayAction,
}

/// A [`MenuEntry`] with its label as a sequence of characters.
pub struct MenuEntryModel {
    pub label: Seq<char>,
    pub enabled: bool,
    pub action: TrayAction,
}

impl View for MenuEntry {
    type V = MenuEntryModel;

    open spec fn view(&self) -> MenuEntryModel {
        MenuEntryModel { label: self.label@, enabled: self.enabled, action: self.action }
    }
}

impl DeepView for MenuEntry {
    type V = MenuEntryModel;

    open spec fn deep_view(&self) -> MenuEntryModel {
        self@
    }
}

/// A square picture for trays that find no icon by name.
#[derive(Debug)]
pub struct TrayIcon {
    pub width: i32,
    pub height: i32,
    /// Four bytes to the pixel: alpha, red, green, blue.
    pub data: Vec<u8>,
}

/// Pixels along each side of the icon.
pub const ICON_SIZE: i32 = 16;

/// The name under which a program's tray is known, which is also its title.
pub open spec fn tray_name(role: Role) -> Seq<char> {
    match role {
        Role::Sender => "vp-sndr"@,
        Role::Receiver => "vp-rcvr"@,
    }
}

/// The line that says whether the service is running.
pub open spec fn status_label(running: bool) -> Seq<char> {
    if running {
        "Service: running"@
    } else {
        "Service: stopped"@
    }
}

/// The label of the entry that starts or stops the service.
pub open spec fn switch_label(role: Role, running: bool) -> Seq<char> {
    match (role, running) {
        (Role::Sender, true) => "Stop Sender"@,
        (Role::Sender, false) => "Start Sender"@,
        (Role::Receiver, true) => "Stop Receiver"@,
        (Role::Receiver, false) => "Start Receiver"@,
    }
}

/// The menu: the state of the service, the entry that changes it, the
/// settings, and the way out.
pub open spec fn menu_of(role: Role, running: bool) -> Seq<MenuEntryModel> {
    seq![
        MenuEntryModel { label: status_label(running), enabled: false, action: TrayAction::Nothing },
        MenuEntryModel {
            label: switch_label(role, running),
            enabled: true,
            action: if running {
                TrayAction::Stop
            } else {
                TrayAction::Start
            },
        },
        MenuEntryModel { label: "Open Config"@, enabled: true, action: TrayAction::OpenConfig },
        MenuEntryModel { label: "Quit"@, enabled: true, action: TrayAction::Quit },
    ]
}

/// Byte `i` of an icon of one colour: opaque, and a warm red.
pub open spec fn icon_byte(i: int) -> u8 {
    if i % 4 == 0 {
        0xFF
    } else if i % 4 == 1 {
        0xE5
    } else if i % 4 == 2 {
        0x39
    } else {
        0x35
    }
}

/// The name of a program's tray.
pub fn tray_id(role: Role) -> (name: &'static str)
    ensures
        name@ == tray_name(role),
{
    match role {
        Role::Sender => "vp-sndr",
        Role::Receiver => "vp-rcvr",
    }
}

/// The name of the icon that both trays ask the desktop for.
pub fn icon_name() -> (name: &'static str)
    ensures
        name@ == "video-display"@,
{
    "video-display"
}

/// The menu of a program's tray, given whether its service is running.
pub fn menu_entries(role: Role, running: bool) -> (menu: Vec<MenuEntry>)
    ensures
        menu.deep_view() == menu_of(role, running),
{
    let status: &'static str = if running {
        "Service: running"
    } else {
        "Service: stopped"
    };
    let switch: &'static str = match role {
        Role::Sender => if running {
            "Stop Sender"
        } else {
            "Start Sender"
        },
        Role::Receiver => if running {
            "Stop Receiver"
        } else {
            "Start Receiver"
        },
    };
    let mut menu: Vec<MenuEntry> = Vec::new();
    menu.push(MenuEntry { label: status.to_owned(), enabled: false, action: TrayAction::Nothing });
    menu.push(
        MenuEntry {
            label: switch.to_owned(),
            enabled: true,
            action: if running {
                TrayAction::Stop
            } else {
                TrayAction::Start
            },
        },
    );
    menu.push(MenuEntry { label: "Open Config".to_owned(), enabled: true, action: TrayAction::OpenConfig });
    menu.push(MenuEntry { label: "Quit".to_owned(), enabled: true, action: TrayAction::Quit });
    assert(menu.deep_view() =~= menu_of(role, running));
    menu
}

/// The icon for trays that find none by name: a square of one colour.
pub fn icon_pixmap() -> (icon: TrayIcon)
    ensures
        icon.width == ICON_SIZE,
        icon.height == ICON_SIZE,
        icon.data@.len() == ICON_SIZE * ICON_SIZE * 4,
        forall|i: int| 0 <= i < icon.data@.len() ==> icon.data@[i] == icon_byte(i),
{
    let mut data: Vec<u8> = Vec::new();
    let mut pixel: usize = 0;
    while pixel < 256
        invariant
            pixel <= 256,
            data@.len() == pixel * 4,
            forall|i: int| 0 <= i < data@.len() ==> data@[i] == icon_byte(i),
        decreases 256 - pixel,
    {
        data.push(0xFF);
        data.push(0xE5);
        data.push(0x39);
        data.push(0x35);
        pixel += 1;
    }
    TrayIcon { width: ICON_SIZE, height: ICON_SIZE, data }
}

} // verus!
