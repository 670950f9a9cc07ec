use vstd::prelude::*;

verus! {

/// A root of the registry that the engine watches keys under.
#[derive(Debug, Clone, Copy, PartialEq, Eq, Structural)]
pub enum Hive {
    LocalMachine,
    CurrentUser,
}

impl Hive {
    /// The name of the hive as it stands in a key path.
    pub open spec fn name(self) -> Seq<char> {
        match self {
            Hive::LocalMachine => "HKEY_LOCAL_MACHINE"@,
            Hive::CurrentUser => "HKEY_CURRENT_USER"@,
        }
    }

    /// The name of the hive as it stands in a key path.
    pub fn as_str(self) -> (s: &'static str)
        ensures
            s@ == self.name(),
    {
        match self {
            Hive::LocalMachine => "HKEY_LOCAL_MACHINE",
            Hive::CurrentUser => "HKEY_CURRENT_USER",
        }
    }
}

/// A key that the engine watches: the hive and the path of the key under it.
#[derive(Debug, Clone)]
pub struct WatchedLocation {
    pub hive: Hive,
    pub subkey: String,
}

/// The path under which a key is reported: the hive's name, a backslash and
/// the key's path under the hive.
pub open spec fn canonical(hive: Hive, subkey: Seq<char>) -> Seq<char> {
    hive.name() + seq!['\\'] + subkey
}

impl View for WatchedLocation {
    type V = (Hive, Seq<char>);

    open spec fn view(&self) -> (Hive, Seq<char>) {
        (self.hive, self.subkey@)
    }
}

impl WatchedLocation {
    /// The path under which the key is reported.
    pub fn canonical_path(&self) -> (path: String)
        ensures
            path@ == canonical(self.hive, self.subkey@),
            path@.len() > 0,
    {
        canonical_path(self.hive, self.subkey.as_str())
    }
}

/// The path under which a key is reported. It is never empty.
pub fn canonical_path(hive: Hive, subkey: &str) -> (path: String)
    ensures
        path@ == canonical(hive, subkey@),
        path@.len() > 0,
{
    let mut path = String::from_str(hive.as_str());
    path.push('\\');
    path.append(subkey);
    path
}

/// The list of locations that a table of hives and key paths stands for.
pub open spec fn locations_view(list: Seq<WatchedLocation>) -> Seq<(Hive, Seq<char>)> {
    list.map_values(|l: WatchedLocation| l@)
}

/// The keys from which programs are started at boot or login.
pub open spec fn autorun_table() -> Seq<(Hive, Seq<char>)> {
    seq![
        (Hive::LocalMachine, "SOFTWARE\\Microsoft\\Windows\\CurrentVersion\\Run"@),
        (Hive::LocalMachine, "SOFTWARE\\Microsoft\\Windows\\CurrentVersion\\RunOnce"@),
        (Hive::CurrentUser, "Software\\Microsoft\\Windows\\CurrentVersion\\Run"@),
        (Hive::CurrentUser, "Software\\Microsoft\\Windows\\CurrentVersion\\RunOnce"@),
        (Hive::LocalMachine, "SOFTWARE\\Microsoft\\Windows\\CurrentVersion\\RunServices"@),
        (Hive::LocalMachine, "SOFTWARE\\Microsoft\\Windows\\CurrentVersion\\RunServicesOnce"@),
        (Hive::LocalMachine, "SOFTWARE\\Microsoft\\Windows NT\\CurrentVersion\\Winlogon\\Userinit"@),
        (Hive::LocalMachine, "SOFTWARE\\Microsoft\\Windows NT\\CurrentVersion\\Winlogon\\Shell"@),
        (
            Hive::LocalMachine,
            "SOFTWARE\\Microsoft\\Windows NT\\CurrentVersion\\Windows\\AppInit_DLLs"@,
        ),
    ]
}

/// The keys that hold policies, services and hooks into program start.
pub open spec fn sensitive_table() -> Seq<(Hive, Seq<char>)> {
    seq![
        (Hive::LocalMachine, "SOFTWARE\\Microsoft\\Windows\\CurrentVersion\\Policies"@),
        (Hive::LocalMachine, "SOFTWARE\\Policies\\Microsoft\\Windows\\System"@),
        (Hive::LocalMachine, "SYSTEM\\CurrentControlSet\\Services"@),
        (
            Hive::LocalMachine,
            "SOFTWARE\\Microsoft\\Windows\\CurrentVersion\\Explorer\\ShellExecuteHooks"@,
        ),
        (
            Hive::LocalMachine,
            "SOFTWARE\\Microsoft\\Windows NT\\CurrentVersion\\Image File Execution Options"@,
        ),
        (Hive::LocalMachine, "SOFTWARE\\Microsoft\\Windows NT\\CurrentVersion\\SilentProcessExit"@),
    ]
}

/// One row of a table.
fn location(hive: Hive, subkey: &str) -> (l: WatchedLocation)
    ensures
        l@ == (hive, subkey@),
{
    WatchedLocation { hive, subkey: String::from_str(subkey) }
}

/// The keys from which programs are started at boot or login: the ones that
/// the pull path polls and the push path watches.
pub fn autorun_locations() -> (list: Vec<WatchedLocation>)
    ensures
        locations_view(list@) == autorun_table(),
{
    let mut list: Vec<WatchedLocation> = Vec::new();
    list.push(location(Hive::LocalMachine, "SOFTWARE\\Microsoft\\Windows\\CurrentVersion\\Run"));
    list.push(
        location(Hive::LocalMachine, "SOFTWARE\\Microsoft\\Windows\\CurrentVersion\\RunOnce"),
    );
    list.push(location(Hive::CurrentUser, "Software\\Microsoft\\Windows\\CurrentVersion\\Run"));
    list.push(location(Hive::CurrentUser, "Software\\Microsoft\\Windows\\CurrentVersion\\RunOnce"));
    list.push(
        location(Hive::LocalMachine, "SOFTWARE\\Microsoft\\Windows\\CurrentVersion\\RunServices"),
    );
    list.push(
        location(
            Hive::LocalMachine,
            "SOFTWARE\\Microsoft\\Windows\\CurrentVersion\\RunServicesOnce",
        ),
    );
    list.push(
        location(
            Hive::LocalMachine,
            "SOFTWARE\\Microsoft\\Windows NT\\CurrentVersion\\Winlogon\\Userinit",
        ),
    );
    list.push(
        location(
            Hive::LocalMachine,
            "SOFTWARE\\Microsoft\\Windows NT\\CurrentVersion\\Winlogon\\Shell",
        ),
    );
    list.push(
        location(
            Hive::LocalMachine,
            "SOFTWARE\\Microsoft\\Windows NT\\CurrentVersion\\Windows\\AppInit_DLLs",
        ),
    );
    list
}

/// The keys that hold policies, services and hooks into program start: the
/// push path watches them too.
pub fn sensitive_keys() -> (list: Vec<WatchedLocation>)
    ensures
        locations_view(list@) == sensitive_table(),
{
    let mut list: Vec<WatchedLocation> = Vec::new();
    list.push(
        location(Hive::LocalMachine, "SOFTWARE\\Microsoft\\Windows\\CurrentVersion\\Policies"),
    );
    list.push(location(Hive::LocalMachine, "SOFTWARE\\Policies\\Microsoft\\Windows\\System"));
    list.push(location(Hive::LocalMachine, "SYSTEM\\CurrentControlSet\\Services"));
    list.push(
        location(
            Hive::LocalMachine,
            "SOFTWARE\\Microsoft\\Windows\\CurrentVersion\\Explorer\\ShellExecuteHooks",
        ),
    );
    list.push(
        location(
            Hive::LocalMachine,
            "SOFTWARE\\Microsoft\\Windows NT\\CurrentVersion\\Image File Execution Options",
        ),
    );
    list.push(
        location(
            Hive::LocalMachine,
            "SOFTWARE\\Microsoft\\Windows NT\\CurrentVersion\\SilentProcessExit",
        ),
    );
    list
}

/// Every key that the push path watches: the autorun locations, then the
/// sensitive keys.
pub fn watched_locations() -> (list: Vec<WatchedLocation>)
    ensures
        locations_view(list@) == autorun_table() + sensitive_table(),
{
    let mut list = autorun_locations();
    let mut rest = sensitive_keys();
    list.append(&mut rest);
    list
}

} // verus!
