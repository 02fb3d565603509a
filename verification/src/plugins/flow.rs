//! The decisions of installing and updating a plugin, as state machines:
//! the program performs each action (a file check, a download, a registry
//! write) and hands the outcome back as the next event.

use vstd::prelude::*;
use crate::plugins::{InstalledPlugin, InstalledPluginView, PluginInfo, PluginInfoView};
use crate::plugins::install::{installed_from_info, is_up_to_date};
use crate::text::{trim_start_char, trim_start_matches_char};
use crate::style::Theme;

verus! {

/// Where an installation stands: which outcome it waits for.
pub enum InstallState {
    /// Whether the plugin's directory exists.
    CheckingDir,
    /// The plugin's latest release.
    FetchingRelease,
    /// Whether `cargo` is on the system.
    CheckingCargo,
    /// The binary being downloaded or compiled.
    PlacingBinary,
    /// Whether the directory holds a `plugin.toml`.
    CheckingManifest,
    /// The default `plugin.toml` being written.
    CreatingManifest,
    /// The `plugin.toml` being read.
    ReadingManifest,
    /// The registry record being written; the version and the command to
    /// suggest are kept for the closing messages.
    Recording { version: String, first_command: String },
    /// Nothing more to do.
    Finished,
}

/// The outcome of the last action.
pub enum InstallEvent {
    DirChecked { exists: bool },
    /// The tag of the latest release with a binary for this platform, none,
    /// or why the releases could not be read.
    ReleaseChecked(Result<Option<String>, String>),
    CargoChecked { available: bool },
    BinaryPlaced(Result<(), String>),
    ManifestChecked { exists: bool },
    ManifestCreated(Result<(), String>),
    /// The manifest read, and the current time as recorded in the registry.
    ManifestRead { manifest: Result<PluginInfo, String>, now: String },
    Recorded(Result<(), String>),
}

/// What to do next.
pub enum InstallAction {
    FetchRelease,
    CheckCargo,
    Download,
    Compile,
    CheckManifest,
    CreateManifest,
    ReadManifest,
    /// Record this plugin in the registry.
    Record(InstalledPlugin),
    /// Stop with this result.
    Finish(Result<(), String>),
}

/// One step: the new state, the messages to show (unless quiet), the action.
pub struct InstallStep {
    pub state: InstallState,
    pub notes: Vec<(String, Theme)>,
    pub action: InstallAction,
}

/// The messages' views.
pub open spec fn note_views(notes: Seq<(String, Theme)>) -> Seq<(Seq<char>, Theme)> {
    notes.map_values(|n: (String, Theme)| (n.0@, n.1))
}

/// Whether `event` answers the action that `state` waits on.
pub open spec fn install_expects(state: InstallState, event: InstallEvent) -> bool {
    match state {
        InstallState::CheckingDir => event is DirChecked,
        InstallState::FetchingRelease => event is ReleaseChecked,
        InstallState::CheckingCargo => event is CargoChecked,
        InstallState::PlacingBinary => event is BinaryPlaced,
        InstallState::CheckingManifest => event is ManifestChecked,
        InstallState::CreatingManifest => event is ManifestCreated,
        InstallState::ReadingManifest => event is ManifestRead,
        InstallState::Recording { .. } => event is Recorded,
        InstallState::Finished => false,
    }
}

/// The command suggested after installing: the manifest's first command, or
/// the plugin's name when it lists none.
pub open spec fn first_command_spec(info: PluginInfoView) -> Seq<char> {
    if info.commands.len() > 0 {
        info.commands[0].0
    } else {
        info.name
    }
}

/// The registry record of a plugin installed from `info` under `scope` at `now`.
pub open spec fn record_of(info: PluginInfoView, scope: Seq<char>, now: Seq<char>) -> InstalledPluginView {
    InstalledPluginView {
        name: info.name,
        scope: scope,
        version: info.version,
        installed: true,
        commands: info.commands.map_values(|c: (Seq<char>, Seq<char>)| c.0),
        last_checked: now,
    }
}

/// The step is `Finished`, shows `notes`, and stops with success.
pub open spec fn finishes_ok(res: InstallStep, notes: Seq<(Seq<char>, Theme)>) -> bool {
    &&& res.state is Finished
    &&& note_views(res.notes@) == notes
    &&& res.action matches InstallAction::Finish(Ok(_))
}

/// The step is `Finished`, shows nothing, and stops with the error `msg`.
pub open spec fn finishes_err(res: InstallStep, msg: Seq<char>) -> bool {
    &&& res.state is Finished
    &&& res.notes@.len() == 0
    &&& res.action matches InstallAction::Finish(Err(e)) && e@ == msg
}

/// The step moves to `state`, shows `notes`, and asks for `action`.
pub open spec fn moves_to(res: InstallStep, state: InstallState, notes: Seq<(Seq<char>, Theme)>, action: InstallAction) -> bool {
    &&& res.state == state
    &&& note_views(res.notes@) == notes
    &&& res.action == action
}

/// What one step of installing the plugin `reference` (of scope `scope`)
/// does on `event`:
/// - an existing directory means it is installed already (success);
///   otherwise it is announced and its release is looked for;
/// - a release is downloaded; without one, it is compiled when `cargo` is
///   there, and the installation fails otherwise;
/// - a missing manifest is written, then the manifest is read and the plugin
///   recorded; success is announced with the command to try;
/// - any failure stops the installation with its message.
pub open spec fn install_step_spec(state: InstallState, event: InstallEvent, reference: Seq<char>, scope: Seq<char>, res: InstallStep) -> bool {
    match event {
        InstallEvent::DirChecked { exists } => if exists {
            finishes_ok(res, seq![("Plugin "@ + reference + " is already installed"@, Theme::Success)])
        } else {
            moves_to(res, InstallState::FetchingRelease, seq![("Installing "@ + reference + "..."@, Theme::Header)], InstallAction::FetchRelease)
        },
        InstallEvent::ReleaseChecked(r) => match r {
            Err(e) => finishes_err(res, e@),
            Ok(Some(tag)) => moves_to(res, InstallState::PlacingBinary, seq![("Found release "@ + tag@, Theme::Muted)], InstallAction::Download),
            Ok(None) => moves_to(res, InstallState::CheckingCargo, seq![("No pre-compiled release found."@, Theme::Warn)], InstallAction::CheckCargo),
        },
        InstallEvent::CargoChecked { available } => if available {
            moves_to(res, InstallState::PlacingBinary, seq![("Compiling from source..."@, Theme::Muted)], InstallAction::Compile)
        } else {
            finishes_err(res, "No release available and cargo not found. Cannot install "@ + reference + "."@)
        },
        InstallEvent::BinaryPlaced(r) => match r {
            Err(e) => finishes_err(res, e@),
            Ok(_) => moves_to(res, InstallState::CheckingManifest, Seq::empty(), InstallAction::CheckManifest),
        },
        InstallEvent::ManifestChecked { exists } => if exists {
            moves_to(res, InstallState::ReadingManifest, Seq::empty(), InstallAction::ReadManifest)
        } else {
            moves_to(res, InstallState::CreatingManifest, Seq::empty(), InstallAction::CreateManifest)
        },
        InstallEvent::ManifestCreated(r) => match r {
            Err(e) => finishes_err(res, e@),
            Ok(_) => moves_to(res, InstallState::ReadingManifest, Seq::empty(), InstallAction::ReadManifest),
        },
        InstallEvent::ManifestRead { manifest, now } => match manifest {
            Err(e) => finishes_err(res, e@),
            Ok(info) => {
                &&& res.state matches InstallState::Recording { version, first_command }
                    && version@ == info@.version && first_command@ == first_command_spec(info@)
                &&& res.notes@.len() == 0
                &&& res.action matches InstallAction::Record(p) && p@ == record_of(info@, scope, now@)
            },
        },
        InstallEvent::Recorded(r) => match r {
            Err(e) => finishes_err(res, e@),
            Ok(_) => match state {
                InstallState::Recording { version, first_command } => finishes_ok(res, seq![
                    ("Successfully installed "@ + reference + " v"@ + version@, Theme::Success),
                    ("Run 'proto "@ + first_command@ + " --help' to get started"@, Theme::Muted),
                ]),
                _ => false,
            },
        },
    }
}

fn note(text: String, theme: Theme) -> (res: Vec<(String, Theme)>)
    ensures
        note_views(res@) == seq![(text@, theme)],
{
    let mut v: Vec<(String, Theme)> = Vec::new();
    v.push((text, theme));
    assert(note_views(v@) =~= seq![(text@, theme)]);
    v
}

fn no_notes() -> (res: Vec<(String, Theme)>)
    ensures
        res@.len() == 0,
        note_views(res@) == Seq::<(Seq<char>, Theme)>::empty(),
{
    let v: Vec<(String, Theme)> = Vec::new();
    assert(note_views(v@) =~= Seq::<(Seq<char>, Theme)>::empty());
    v
}

fn finish_err(e: String) -> (res: InstallStep)
    ensures
        finishes_err(res, e@),
{
    InstallStep { state: InstallState::Finished, notes: no_notes(), action: InstallAction::Finish(Err(e)) }
}

fn text3(a: &str, b: &str, c: &str) -> (res: String)
    ensures
        res@ == a@ + b@ + c@,
{
    let mut s = String::from_str(a);
    s.append(b);
    s.append(c);
    s
}

/// One step of installing the plugin `reference` of scope `scope`.
pub fn install_step(state: InstallState, event: InstallEvent, reference: &str, scope: &str) -> (res: InstallStep)
    requires
        install_expects(state, event),
    ensures
        install_step_spec(state, event, reference@, scope@, res),
{
    match event {
        InstallEvent::DirChecked { exists } => {
            if exists {
                let notes = note(text3("Plugin ", reference, " is already installed"), Theme::Success);
                InstallStep { state: InstallState::Finished, notes, action: InstallAction::Finish(Ok(())) }
            } else {
                let notes = note(text3("Installing ", reference, "..."), Theme::Header);
                InstallStep { state: InstallState::FetchingRelease, notes, action: InstallAction::FetchRelease }
            }
        },
        InstallEvent::ReleaseChecked(r) => match r {
            Err(e) => finish_err(e),
            Ok(Some(tag)) => {
                let notes = note(text3("Found release ", tag.as_str(), ""), Theme::Muted);
                proof {
                    reveal_strlit("");
                    assert(("Found release "@ + tag@ + ""@) =~= "Found release "@ + tag@);
                }
                InstallStep { state: InstallState::PlacingBinary, notes, action: InstallAction::Download }
            },
            Ok(None) => {
                let notes = note(String::from_str("No pre-compiled release found."), Theme::Warn);
                InstallStep { state: InstallState::CheckingCargo, notes, action: InstallAction::CheckCargo }
            },
        },
        InstallEvent::CargoChecked { available } => {
            if available {
                let notes = note(String::from_str("Compiling from source..."), Theme::Muted);
                InstallStep { state: InstallState::PlacingBinary, notes, action: InstallAction::Compile }
            } else {
                finish_err(text3("No release available and cargo not found. Cannot install ", reference, "."))
            }
        },
        InstallEvent::BinaryPlaced(r) => match r {
            Err(e) => finish_err(e),
            Ok(_) => InstallStep { state: InstallState::CheckingManifest, notes: no_notes(), action: InstallAction::CheckManifest },
        },
        InstallEvent::ManifestChecked { exists } => {
            if exists {
                InstallStep { state: InstallState::ReadingManifest, notes: no_notes(), action: InstallAction::ReadManifest }
            } else {
                InstallStep { state: InstallState::CreatingManifest, notes: no_notes(), action: InstallAction::CreateManifest }
            }
        },
        InstallEvent::ManifestCreated(r) => match r {
            Err(e) => finish_err(e),
            Ok(_) => InstallStep { state: InstallState::ReadingManifest, notes: no_notes(), action: InstallAction::ReadManifest },
        },
        InstallEvent::ManifestRead { manifest, now } => match manifest {
            Err(e) => finish_err(e),
            Ok(info) => {
                let first_command = if info.commands.len() > 0 {
                    info.commands[0].0.clone()
                } else {
                    info.name.clone()
                };
                let version = info.version.clone();
                let record = installed_from_info(&info, scope, now);
                assert(record@ == record_of(info@, scope@, now@));
                InstallStep {
                    state: InstallState::Recording { version, first_command },
                    notes: no_notes(),
                    action: InstallAction::Record(record),
                }
            },
        },
        InstallEvent::Recorded(r) => match r {
            Err(e) => finish_err(e),
            Ok(_) => match state {
                InstallState::Recording { version, first_command } => {
                    let mut done = text3("Successfully installed ", reference, " v");
                    done.append(version.as_str());
                    let hint = text3("Run 'proto ", first_command.as_str(), " --help' to get started");
                    let ghost dv = done@;
                    let ghost hv = hint@;
                    let mut notes: Vec<(String, Theme)> = Vec::new();
                    notes.push((done, Theme::Success));
                    notes.push((hint, Theme::Muted));
                    assert(note_views(notes@) =~= seq![(dv, Theme::Success), (hv, Theme::Muted)]);
                    InstallStep { state: InstallState::Finished, notes, action: InstallAction::Finish(Ok(())) }
                },
                _ => {
                    assert(false);
                    finish_err(String::new())
                },
            },
        },
    }
}

/// Where an update of one plugin stands: which outcome it waits for.
pub enum UpdateState {
    /// The plugin's registry record.
    LookingUp,
    /// The latest release; the installed version and scope are kept.
    FetchingRelease { version: String, scope: String },
    /// The old installation being removed.
    RemovingOld { scope: String },
    /// The new binary being downloaded.
    Downloading { scope: String },
    /// The new `plugin.toml` being read.
    ReadingManifest { scope: String },
    /// The registry record being written; the new version is kept.
    Recording { version: String },
    /// Nothing more to do.
    Finished,
}

/// The outcome of the last action of an update.
pub enum UpdateEvent {
    /// The plugin's registry record, if it has one.
    LookedUp(Option<InstalledPlugin>),
    /// The tag of the latest release with a binary for this platform, none,
    /// or why the releases could not be read.
    ReleaseChecked(Result<Option<String>, String>),
    /// The old installation removed, or why it could not be.
    OldRemoved(Result<(), String>),
    BinaryPlaced(Result<(), String>),
    /// The manifest read, and the current time as recorded in the registry.
    ManifestRead { manifest: Result<PluginInfo, String>, now: String },
    Recorded(Result<(), String>),
}

/// What to do next in an update.
pub enum UpdateAction {
    FetchRelease,
    /// Remove the installation of the plugin in this scope.
    RemoveOld { scope: String },
    Download,
    ReadManifest,
    /// Record this plugin in the registry.
    Record(InstalledPlugin),
    /// Stop with this result.
    Finish(Result<(), String>),
}

/// One step of an update: the new state, the messages to show, the action.
pub struct UpdateStep {
    pub state: UpdateState,
    pub notes: Vec<(String, Theme)>,
    pub action: UpdateAction,
}

/// Whether `event` answers the action that `state` waits on.
pub open spec fn update_expects(state: UpdateState, event: UpdateEvent) -> bool {
    match state {
        UpdateState::LookingUp => event is LookedUp,
        UpdateState::FetchingRelease { .. } => event is ReleaseChecked,
        UpdateState::RemovingOld { .. } => event is OldRemoved,
        UpdateState::Downloading { .. } => event is BinaryPlaced,
        UpdateState::ReadingManifest { .. } => event is ManifestRead,
        UpdateState::Recording { .. } => event is Recorded,
        UpdateState::Finished => false,
    }
}

/// The update step is `Finished`, shows `notes`, and stops with success.
pub open spec fn update_finishes_ok(res: UpdateStep, notes: Seq<(Seq<char>, Theme)>) -> bool {
    &&& res.state is Finished
    &&& note_views(res.notes@) == notes
    &&& res.action matches UpdateAction::Finish(Ok(_))
}

/// The update step is `Finished`, shows nothing, and stops with the error `msg`.
pub open spec fn update_finishes_err(res: UpdateStep, msg: Seq<char>) -> bool {
    &&& res.state is Finished
    &&& res.notes@.len() == 0
    &&& res.action matches UpdateAction::Finish(Err(e)) && e@ == msg
}

/// What one step of updating the plugin `name` does on `event`:
/// - a plugin without a registry record is not installed (error); otherwise
///   the check is announced and its latest release looked for;
/// - without a release nothing changes; a release whose tag, without leading
///   `v`s, is the installed version leaves it as it is; otherwise the update
///   is announced, the old installation removed, the new binary downloaded,
///   its manifest read and the plugin recorded in its old scope, and the new
///   version announced;
/// - any failure stops the update with its message.
pub open spec fn update_step_spec(state: UpdateState, event: UpdateEvent, name: Seq<char>, res: UpdateStep) -> bool {
    match event {
        UpdateEvent::LookedUp(found) => match found {
            None => update_finishes_err(res, "Plugin "@ + name + " is not installed"@),
            Some(p) => {
                &&& res.state matches UpdateState::FetchingRelease { version, scope }
                    && version@ == p@.version && scope@ == p@.scope
                &&& note_views(res.notes@) == seq![("Checking for updates to "@ + name + "..."@, Theme::Header)]
                &&& res.action is FetchRelease
            },
        },
        UpdateEvent::ReleaseChecked(r) => match r {
            Err(e) => update_finishes_err(res, e@),
            Ok(None) => update_finishes_ok(res, seq![("No release found for "@ + name, Theme::Warn)]),
            Ok(Some(tag)) => match state {
                UpdateState::FetchingRelease { version, scope } => if trim_start_char(tag@, 'v') == version@ {
                    update_finishes_ok(res, seq![(name + " is already up to date (v"@ + version@ + ")"@, Theme::Success)])
                } else {
                    &&& res.state matches UpdateState::RemovingOld { scope: s } && s@ == scope@
                    &&& note_views(res.notes@) == seq![(
                        "Updating "@ + name + " from v"@ + version@ + " to v"@ + trim_start_char(tag@, 'v'),
                        Theme::Muted,
                    )]
                    &&& res.action matches UpdateAction::RemoveOld { scope: s } && s@ == scope@
                },
                _ => false,
            },
        },
        UpdateEvent::OldRemoved(r) => match r {
            Err(e) => update_finishes_err(res, "Failed to remove old version: "@ + e@),
            Ok(_) => match state {
                UpdateState::RemovingOld { scope } => {
                    &&& res.state matches UpdateState::Downloading { scope: s } && s@ == scope@
                    &&& res.notes@.len() == 0
                    &&& res.action is Download
                },
                _ => false,
            },
        },
        UpdateEvent::BinaryPlaced(r) => match r {
            Err(e) => update_finishes_err(res, e@),
            Ok(_) => match state {
                UpdateState::Downloading { scope } => {
                    &&& res.state matches UpdateState::ReadingManifest { scope: s } && s@ == scope@
                    &&& res.notes@.len() == 0
                    &&& res.action is ReadManifest
                },
                _ => false,
            },
        },
        UpdateEvent::ManifestRead { manifest, now } => match manifest {
            Err(e) => update_finishes_err(res, e@),
            Ok(info) => match state {
                UpdateState::ReadingManifest { scope } => {
                    &&& res.state matches UpdateState::Recording { version } && version@ == info@.version
                    &&& res.notes@.len() == 0
                    &&& res.action matches UpdateAction::Record(p) && p@ == record_of(info@, scope@, now@)
                },
                _ => false,
            },
        },
        UpdateEvent::Recorded(r) => match r {
            Err(e) => update_finishes_err(res, e@),
            Ok(_) => match state {
                UpdateState::Recording { version } => update_finishes_ok(res, seq![("Updated "@ + name + " to v"@ + version@, Theme::Success)]),
                _ => false,
            },
        },
    }
}

fn update_finish_err(e: String) -> (res: UpdateStep)
    ensures
        update_finishes_err(res, e@),
{
    UpdateStep { state: UpdateState::Finished, notes: no_notes(), action: UpdateAction::Finish(Err(e)) }
}

fn update_finish_ok(msg: String, theme: Theme) -> (res: UpdateStep)
    ensures
        update_finishes_ok(res, seq![(msg@, theme)]),
{
    UpdateStep { state: UpdateState::Finished, notes: note(msg, theme), action: UpdateAction::Finish(Ok(())) }
}

/// One step of updating the plugin `name`.
pub fn update_step(state: UpdateState, event: UpdateEvent, name: &str) -> (res: UpdateStep)
    requires
        update_expects(state, event),
    ensures
        update_step_spec(state, event, name@, res),
{
    proof {
        reveal_strlit("");
    }
    match event {
        UpdateEvent::LookedUp(found) => match found {
            None => update_finish_err(text3("Plugin ", name, " is not installed")),
            Some(p) => {
                let notes = note(text3("Checking for updates to ", name, "..."), Theme::Header);
                UpdateStep {
                    state: UpdateState::FetchingRelease { version: p.version, scope: p.scope },
                    notes,
                    action: UpdateAction::FetchRelease,
                }
            },
        },
        UpdateEvent::ReleaseChecked(r) => match r {
            Err(e) => update_finish_err(e),
            Ok(None) => {
                let msg = text3("No release found for ", name, "");
                assert(msg@ =~= "No release found for "@ + name@);
                update_finish_ok(msg, Theme::Warn)
            },
            Ok(Some(tag)) => match state {
                UpdateState::FetchingRelease { version, scope } => {
                    if is_up_to_date(tag.as_str(), version.as_str()) {
                        let mut msg = text3(name, " is already up to date (v", version.as_str());
                        msg.append(")");
                        update_finish_ok(msg, Theme::Success)
                    } else {
                        let latest = trim_start_matches_char(tag.as_str(), 'v');
                        let mut msg = text3("Updating ", name, " from v");
                        msg.append(version.as_str());
                        msg.append(" to v");
                        msg.append(latest.as_str());
                        let notes = note(msg, Theme::Muted);
                        let s2 = scope.clone();
                        UpdateStep {
                            state: UpdateState::RemovingOld { scope },
                            notes,
                            action: UpdateAction::RemoveOld { scope: s2 },
                        }
                    }
                },
                _ => {
                    assert(false);
                    update_finish_err(String::new())
                },
            },
        },
        UpdateEvent::OldRemoved(r) => match r {
            Err(e) => update_finish_err(text3("Failed to remove old version: ", e.as_str(), "")),
            Ok(_) => match state {
                UpdateState::RemovingOld { scope } => UpdateStep {
                    state: UpdateState::Downloading { scope },
                    notes: no_notes(),
                    action: UpdateAction::Download,
                },
                _ => {
                    assert(false);
                    update_finish_err(String::new())
                },
            },
        },
        UpdateEvent::BinaryPlaced(r) => match r {
            Err(e) => update_finish_err(e),
            Ok(_) => match state {
                UpdateState::Downloading { scope } => UpdateStep {
                    state: UpdateState::ReadingManifest { scope },
                    notes: no_notes(),
                    action: UpdateAction::ReadManifest,
                },
                _ => {
                    assert(false);
                    update_finish_err(String::new())
                },
            },
        },
        UpdateEvent::ManifestRead { manifest, now } => match manifest {
            Err(e) => update_finish_err(e),
            Ok(info) => match state {
                UpdateState::ReadingManifest { scope } => {
                    let version = info.version.clone();
                    let record = installed_from_info(&info, scope.as_str(), now);
                    assert(record@ == record_of(info@, scope@, now@));
                    UpdateStep {
                        state: UpdateState::Recording { version },
                        notes: no_notes(),
                        action: UpdateAction::Record(record),
                    }
                },
                _ => {
                    assert(false);
                    update_finish_err(String::new())
                },
            },
        },
        UpdateEvent::Recorded(r) => match r {
            Err(e) => update_finish_err(e),
            Ok(_) => match state {
                UpdateState::Recording { version } => {
                    let msg = text3("Updated ", name, " to v");
                    let mut msg = msg;
                    msg.append(version.as_str());
                    update_finish_ok(msg, Theme::Success)
                },
                _ => {
                    assert(false);
                    update_finish_err(String::new())
                },
            },
        },
    }
}

} // verus!
