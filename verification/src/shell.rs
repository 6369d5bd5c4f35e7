//! The desktop shell around the kernel: its tray menu, what its commands show,
//! and the update of the client itself.

use vstd::prelude::*;

use crate::manager::KernelStatus;
use crate::text;

verus! {

/// Shown while the registry is being asked on the user's behalf.
pub const CHECKING_KERNEL: &'static str = "正在检查内核更新…";

/// Shown when the client is up to date.
pub const CLIENT_UP_TO_DATE: &'static str = "已是最新版本";

/// What a command answers whose work goes on in the background.
pub const CHECKING: &'static str = "checking";

/// How long after start-up the background checks for updates begin.
pub const STARTUP_CHECK_DELAY_SECS: u64 = 10;

/// An entry of the tray menu.
#[derive(Clone, Copy, PartialEq, Eq, Debug)]
pub enum TrayEntry {
    Item { id: &'static str, label: &'static str },
    Separator,
    Check { id: &'static str, label: &'static str },
}

/// The tray menu, from top to bottom.
pub open spec fn tray_entries() -> Seq<TrayEntry> {
    seq![
        TrayEntry::Item { id: "show", label: "打开主界面" },
        TrayEntry::Separator,
        TrayEntry::Item { id: "check-client", label: "检查客户端更新" },
        TrayEntry::Item { id: "check-kernel", label: "检查内核更新" },
        TrayEntry::Item { id: "open-logs", label: "打开日志目录" },
        TrayEntry::Separator,
        TrayEntry::Check { id: "autostart", label: "开机自启" },
        TrayEntry::Item { id: "quit", label: "退出 DSH Client" },
    ]
}

/// The tray menu, from top to bottom.
pub fn tray_menu() -> (r: Vec<TrayEntry>)
    ensures
        r@ == tray_entries(),
{
    vec![
        TrayEntry::Item { id: "show", label: "打开主界面" },
        TrayEntry::Separator,
        TrayEntry::Item { id: "check-client", label: "检查客户端更新" },
        TrayEntry::Item { id: "check-kernel", label: "检查内核更新" },
        TrayEntry::Item { id: "open-logs", label: "打开日志目录" },
        TrayEntry::Separator,
        TrayEntry::Check { id: "autostart", label: "开机自启" },
        TrayEntry::Item { id: "quit", label: "退出 DSH Client" },
    ]
}

/// What choosing a menu entry leads to.
#[derive(Clone, Copy, PartialEq, Eq, Structural, Debug)]
pub enum MenuAction {
    /// Show the main window.
    ShowWindow,
    /// Look for an update of the client.
    CheckClient,
    /// Look for an update of the kernel, and announce [`CHECKING_KERNEL`].
    CheckKernel,
    /// Open the directory of the logs.
    OpenLogs,
    /// Turn the start at login on or off.
    ToggleAutostart,
    /// Stop the kernel and leave.
    Quit,
    /// Nothing: no entry has this id.
    Nothing,
}

/// What choosing the entry `id` leads to.
pub open spec fn menu_choice(id: Seq<char>) -> MenuAction {
    if id == "show"@ {
        MenuAction::ShowWindow
    } else if id == "check-client"@ {
        MenuAction::CheckClient
    } else if id == "check-kernel"@ {
        MenuAction::CheckKernel
    } else if id == "open-logs"@ {
        MenuAction::OpenLogs
    } else if id == "autostart"@ {
        MenuAction::ToggleAutostart
    } else if id == "quit"@ {
        MenuAction::Quit
    } else {
        MenuAction::Nothing
    }
}

/// What choosing the entry `id` leads to.
pub fn menu_action(id: &str) -> (r: MenuAction)
    ensures
        r == menu_choice(id@),
{
    if text::same_text(id, "show") {
        MenuAction::ShowWindow
    } else if text::same_text(id, "check-client") {
        MenuAction::CheckClient
    } else if text::same_text(id, "check-kernel") {
        MenuAction::CheckKernel
    } else if text::same_text(id, "open-logs") {
        MenuAction::OpenLogs
    } else if text::same_text(id, "autostart") {
        MenuAction::ToggleAutostart
    } else if text::same_text(id, "quit") {
        MenuAction::Quit
    } else {
        MenuAction::Nothing
    }
}

/// The id of an entry that can be chosen.
pub open spec fn entry_id(entry: TrayEntry) -> Option<Seq<char>> {
    match entry {
        TrayEntry::Item { id, .. } => Some(id@),
        TrayEntry::Check { id, .. } => Some(id@),
        TrayEntry::Separator => None,
    }
}

/// Every entry of the tray menu that can be chosen does something, and no two of
/// them do the same.
pub proof fn every_menu_entry_is_served(i: int, j: int)
    requires
        0 <= i < tray_entries().len(),
        0 <= j < tray_entries().len(),
        entry_id(tray_entries()[i]) is Some,
        entry_id(tray_entries()[j]) is Some,
    ensures
        menu_choice(entry_id(tray_entries()[i])->0) != MenuAction::Nothing,
        menu_choice(entry_id(tray_entries()[i])->0) == menu_choice(entry_id(tray_entries()[j])->0)
            ==> i == j,
{
    reveal_strlit("show");
    reveal_strlit("check-client");
    reveal_strlit("check-kernel");
    reveal_strlit("open-logs");
    reveal_strlit("autostart");
    reveal_strlit("quit");
    assert("check-client"@[6] != "check-kernel"@[6]);
    assert("show"@[0] != "quit"@[0]);
    assert("open-logs"@[0] != "autostart"@[0]);
    assert(menu_choice("show"@) == MenuAction::ShowWindow);
    assert(menu_choice("check-client"@) == MenuAction::CheckClient);
    assert(menu_choice("check-kernel"@) == MenuAction::CheckKernel);
    assert(menu_choice("open-logs"@) == MenuAction::OpenLogs);
    assert(menu_choice("autostart"@) == MenuAction::ToggleAutostart);
    assert(menu_choice("quit"@) == MenuAction::Quit);
}

/// The setting of the start at login that replaces the present one; nothing if
/// the present one cannot be told.
pub fn toggled_autostart(enabled: Option<bool>) -> (r: Option<bool>)
    ensures
        r == (match enabled {
            Some(on) => Some(!on),
            None => None::<bool>,
        }),
{
    match enabled {
        Some(on) => Some(!on),
        None => None,
    }
}

/// Whether the menu shows the start at login as turned on.
pub fn autostart_mark(enabled: Option<bool>) -> (r: bool)
    ensures
        r == (enabled == Some(true)),
{
    match enabled {
        Some(on) => on,
        None => false,
    }
}

/// The phase as a command answers it.
pub open spec fn shown_phase(phase: Seq<char>, development: bool) -> Seq<char> {
    if development && phase == "idle"@ {
        "dev"@
    } else {
        phase
    }
}

/// A release shows every phase as it is, and so does a development build, except
/// that an idle kernel is shown as "dev".
pub proof fn only_an_idle_development_build_shows_dev(phase: Seq<char>)
    ensures
        shown_phase(phase, false) == phase,
        phase != "idle"@ ==> shown_phase(phase, true) == phase,
        shown_phase("idle"@, true) == "dev"@,
{
}

/// The status as a command answers it: a development build, which does not start
/// a kernel of its own, shows "dev" in place of "idle".
pub fn shown_status(status: KernelStatus, development: bool) -> (r: KernelStatus)
    ensures
        r.phase@ == (if development && status.phase@ == "idle"@ {
            "dev"@
        } else {
            status.phase@
        }),
        r.phase@ == shown_phase(status.phase@, development),
        r.port == status.port,
        r.error == status.error,
        r.version == status.version,
        r.app_version == status.app_version,
{
    let mut shown = status;
    if development && text::same_text(shown.phase.as_str(), "idle") {
        shown.phase = "dev".to_string();
    }
    shown
}

#[derive(Clone, Copy, PartialEq, Eq, Structural, Debug)]
pub enum Platform {
    MacOs,
    Windows,
    Linux,
}

/// The program that opens a directory for the user.
pub fn directory_opener(platform: Platform) -> (r: &'static str)
    ensures
        r@ == (match platform {
            Platform::MacOs => "open"@,
            Platform::Windows => "explorer"@,
            Platform::Linux => "xdg-open"@,
        }),
{
    match platform {
        Platform::MacOs => "open",
        Platform::Windows => "explorer",
        Platform::Linux => "xdg-open",
    }
}

/// How far the update of the client has come.
#[derive(Clone, Copy, PartialEq, Eq, Structural, Debug)]
pub enum ClientStage {
    /// The updater is being set up.
    Opening,
    /// The updater is being asked.
    Checking,
    /// An update is being downloaded and installed.
    Installing,
    /// The update is installed; that is being announced.
    Announcing,
    Over,
}

/// What happened since the last action.
#[derive(PartialEq, Eq, Debug)]
pub enum ClientEvent<T> {
    Opened(Result<(), T>),
    /// The version of the update that exists, if there is one.
    Checked(Result<Option<T>, T>),
    Installed(Result<(), T>),
    /// The installed update was announced.
    Announced,
}

/// What is to be done next.
#[derive(PartialEq, Eq, Debug)]
pub enum ClientAction<T> {
    /// Ask the updater.
    Check,
    /// Announce `version`, then download and install it.
    Install { version: T },
    /// Announce [`CLIENT_UP_TO_DATE`]; the update is over.
    ReportUpToDate,
    /// Announce that the update is installed.
    ReportInstalled,
    /// Restart the client; the update is over.
    Restart,
    /// The update is over, and failed.
    Fail(T),
    /// Nothing: the event did not belong to the current stage.
    Ignore,
}

impl ClientEvent<String> {
    pub open spec fn view(self) -> ClientEvent<Seq<char>> {
        match self {
            ClientEvent::Opened(r) => ClientEvent::Opened(text::outcome_text(r)),
            ClientEvent::Checked(Ok(found)) => ClientEvent::Checked(Ok(text::optional_text(found))),
            ClientEvent::Checked(Err(message)) => ClientEvent::Checked(Err(message@)),
            ClientEvent::Installed(r) => ClientEvent::Installed(text::outcome_text(r)),
            ClientEvent::Announced => ClientEvent::Announced,
        }
    }
}

impl ClientAction<String> {
    pub open spec fn view(self) -> ClientAction<Seq<char>> {
        match self {
            ClientAction::Check => ClientAction::Check,
            ClientAction::Install { version } => ClientAction::Install { version: version@ },
            ClientAction::ReportUpToDate => ClientAction::ReportUpToDate,
            ClientAction::ReportInstalled => ClientAction::ReportInstalled,
            ClientAction::Restart => ClientAction::Restart,
            ClientAction::Fail(message) => ClientAction::Fail(message@),
            ClientAction::Ignore => ClientAction::Ignore,
        }
    }
}

/// One step of the update of the client.
pub open spec fn client_step(stage: ClientStage, event: ClientEvent<Seq<char>>) -> (
    ClientStage,
    ClientAction<Seq<char>>,
) {
    match (stage, event) {
        (ClientStage::Opening, ClientEvent::Opened(Ok(_))) => (
            ClientStage::Checking,
            ClientAction::Check,
        ),
        (ClientStage::Opening, ClientEvent::Opened(Err(message))) => (
            ClientStage::Over,
            ClientAction::Fail(message),
        ),
        (ClientStage::Checking, ClientEvent::Checked(Ok(Some(version)))) => (
            ClientStage::Installing,
            ClientAction::Install { version },
        ),
        (ClientStage::Checking, ClientEvent::Checked(Ok(None))) => (
            ClientStage::Over,
            ClientAction::ReportUpToDate,
        ),
        (ClientStage::Checking, ClientEvent::Checked(Err(message))) => (
            ClientStage::Over,
            ClientAction::Fail(message),
        ),
        (ClientStage::Installing, ClientEvent::Installed(Ok(_))) => (
            ClientStage::Announcing,
            ClientAction::ReportInstalled,
        ),
        (ClientStage::Announcing, ClientEvent::Announced) => (
            ClientStage::Over,
            ClientAction::Restart,
        ),
        (ClientStage::Installing, ClientEvent::Installed(Err(message))) => (
            ClientStage::Over,
            ClientAction::Fail(message),
        ),
        _ => (stage, ClientAction::Ignore),
    }
}

/// One update of the client. Its first step is to set up the updater.
pub struct ClientUpdate {
    stage: ClientStage,
}

impl View for ClientUpdate {
    type V = ClientStage;

    closed spec fn view(&self) -> ClientStage {
        self.stage
    }
}

impl ClientUpdate {
    pub fn new() -> (r: Self)
        ensures
            r@ == ClientStage::Opening,
    {
        ClientUpdate { stage: ClientStage::Opening }
    }

    /// Takes in what happened and says what to do next.
    pub fn advance(&mut self, event: ClientEvent<String>) -> (r: ClientAction<String>)
        ensures
            (final(self)@, r@) == client_step(old(self)@, event@),
    {
        match (self.stage, event) {
            (ClientStage::Opening, ClientEvent::Opened(Ok(_))) => {
                self.stage = ClientStage::Checking;
                ClientAction::Check
            },
            (ClientStage::Opening, ClientEvent::Opened(Err(message))) => {
                self.stage = ClientStage::Over;
                ClientAction::Fail(message)
            },
            (ClientStage::Checking, ClientEvent::Checked(Ok(Some(version)))) => {
                self.stage = ClientStage::Installing;
                ClientAction::Install { version }
            },
            (ClientStage::Checking, ClientEvent::Checked(Ok(None))) => {
                self.stage = ClientStage::Over;
                ClientAction::ReportUpToDate
            },
            (ClientStage::Checking, ClientEvent::Checked(Err(message))) => {
                self.stage = ClientStage::Over;
                ClientAction::Fail(message)
            },
            (ClientStage::Installing, ClientEvent::Installed(Ok(_))) => {
                self.stage = ClientStage::Announcing;
                ClientAction::ReportInstalled
            },
            (ClientStage::Announcing, ClientEvent::Announced) => {
                self.stage = ClientStage::Over;
                ClientAction::Restart
            },
            (ClientStage::Installing, ClientEvent::Installed(Err(message))) => {
                self.stage = ClientStage::Over;
                ClientAction::Fail(message)
            },
            _ => ClientAction::Ignore,
        }
    }
}

/// The client restarts after an update, and only then: the found version is
/// announced and installed, that is announced, and then the client restarts.
pub proof fn the_client_restarts_after_an_update(
    stage: ClientStage,
    event: ClientEvent<Seq<char>>,
    version: Seq<char>,
)
    ensures
        ({
            let (installing, install) = client_step(
                ClientStage::Checking,
                ClientEvent::Checked(Ok(Some(version))),
            );
            let (announcing, report) = client_step(installing, ClientEvent::Installed(Ok(())));
            let (over, restart) = client_step(announcing, ClientEvent::Announced);
            &&& install == (ClientAction::Install { version })
            &&& report is ReportInstalled
            &&& restart is Restart
            &&& over == ClientStage::Over
        }),
        client_step(stage, event).1 is Restart ==> stage == ClientStage::Announcing,
        client_step(stage, event).0 == ClientStage::Announcing && stage != ClientStage::Announcing
            ==> stage == ClientStage::Installing && (event matches ClientEvent::Installed(Ok(_))),
{
}

/// Each id of the menu leads to what its entry says, and any other text leads to
/// nothing.
pub proof fn an_id_leads_to_its_action(id: Seq<char>)
    ensures
        menu_choice(id) == MenuAction::ShowWindow <==> id == "show"@,
        menu_choice(id) == MenuAction::CheckClient <==> id == "check-client"@,
        menu_choice(id) == MenuAction::CheckKernel <==> id == "check-kernel"@,
        menu_choice(id) == MenuAction::OpenLogs <==> id == "open-logs"@,
        menu_choice(id) == MenuAction::ToggleAutostart <==> id == "autostart"@,
        menu_choice(id) == MenuAction::Quit <==> id == "quit"@,
{
    reveal_strlit("show");
    reveal_strlit("check-client");
    reveal_strlit("check-kernel");
    reveal_strlit("open-logs");
    reveal_strlit("autostart");
    reveal_strlit("quit");
    assert("check-client"@[6] != "check-kernel"@[6]);
    assert("show"@[0] != "quit"@[0]);
    assert("open-logs"@[0] != "autostart"@[0]);
}

/// An update of the client goes on as long as all goes well and there is one; a
/// failure ends it with its message at any point, and so does the news that there
/// is none. An event that does not belong to the current stage changes nothing.
pub proof fn an_update_of_the_client_goes_step_by_step(
    stage: ClientStage,
    event: ClientEvent<Seq<char>>,
    message: Seq<char>,
)
    ensures
        client_step(ClientStage::Opening, ClientEvent::Opened(Ok(()))) == (
            ClientStage::Checking,
            ClientAction::<Seq<char>>::Check,
        ),
        client_step(ClientStage::Opening, ClientEvent::Opened(Err(message))) == (
            ClientStage::Over,
            ClientAction::Fail(message),
        ),
        client_step(ClientStage::Checking, ClientEvent::Checked(Ok(None))) == (
            ClientStage::Over,
            ClientAction::<Seq<char>>::ReportUpToDate,
        ),
        client_step(ClientStage::Checking, ClientEvent::Checked(Err(message))) == (
            ClientStage::Over,
            ClientAction::Fail(message),
        ),
        client_step(ClientStage::Installing, ClientEvent::Installed(Err(message))) == (
            ClientStage::Over,
            ClientAction::Fail(message),
        ),
        !(stage == ClientStage::Opening && event is Opened) && !(stage == ClientStage::Checking
            && event is Checked) && !(stage == ClientStage::Installing && event is Installed) && !(stage
            == ClientStage::Announcing && event is Announced) ==> client_step(stage, event) == (
            stage,
            ClientAction::<Seq<char>>::Ignore,
        ),
{
}

/// The menu has six entries in three groups, and their labels say what they lead
/// to.
pub proof fn the_labels_say_what_happens()
    ensures
        tray_entries().len() == 8,
        tray_entries()[0] matches TrayEntry::Item { id, label } && menu_choice(id@)
            == MenuAction::ShowWindow && label@ == "打开主界面"@,
        tray_entries()[1] is Separator,
        tray_entries()[2] matches TrayEntry::Item { id, label } && menu_choice(id@)
            == MenuAction::CheckClient && label@ == "检查客户端更新"@,
        tray_entries()[3] matches TrayEntry::Item { id, label } && menu_choice(id@)
            == MenuAction::CheckKernel && label@ == "检查内核更新"@,
        tray_entries()[4] matches TrayEntry::Item { id, label } && menu_choice(id@)
            == MenuAction::OpenLogs && label@ == "打开日志目录"@,
        tray_entries()[5] is Separator,
        tray_entries()[6] matches TrayEntry::Check { id, label } && menu_choice(id@)
            == MenuAction::ToggleAutostart && label@ == "开机自启"@,
        tray_entries()[7] matches TrayEntry::Item { id, label } && menu_choice(id@)
            == MenuAction::Quit && label@ == "退出 DSH Client"@,
{
    an_id_leads_to_its_action("show"@);
    an_id_leads_to_its_action("check-client"@);
    an_id_leads_to_its_action("check-kernel"@);
    an_id_leads_to_its_action("open-logs"@);
    an_id_leads_to_its_action("autostart"@);
    an_id_leads_to_its_action("quit"@);
}

/// What the user reads while the client looks for updates, and when it begins to.
pub proof fn the_user_is_told_of_the_checks()
    ensures
        CHECKING_KERNEL@ == "正在检查内核更新…"@,
        CLIENT_UP_TO_DATE@ == "已是最新版本"@,
        CHECKING@ == "checking"@,
        STARTUP_CHECK_DELAY_SECS == 10,
{
}

} // verus!
