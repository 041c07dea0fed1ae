//! Where this agent keeps its files, and where the target application keeps
//! its store.
use vstd::prelude::*;

verus! {

/// The platform the agent runs on, as far as paths and processes differ.
#[derive(PartialEq, Eq, Structural, Clone, Copy, Debug)]
pub enum TargetOs {
    Windows,
    MacOs,
    Linux,
    Other,
}

/// `name` under the directory `base`.
pub open spec fn joined(base: Seq<char>, name: Seq<char>) -> Seq<char> {
    if base.len() == 0 {
        name
    } else if base.last() == '/' || base.last() == '\\' {
        base + name
    } else {
        base + seq!['/'] + name
    }
}

/// `name` under the directory `base`.
pub fn join_path(base: &str, name: &str) -> (r: String)
    ensures
        r@ == joined(base@, name@),
{
    let n = base.unicode_len();
    let mut r = String::from_str(base);
    if n > 0 {
        let last = base.get_char(n - 1);
        if last != '/' && last != '\\' {
            r.append("/");
            proof {
                reveal_strlit("/");
            }
        }
    }
    r.append(name);
    r
}

pub fn get_log_directory(config_dir: &str) -> (r: String)
    ensures
        r@ == joined(config_dir@, "logs"@),
{
    join_path(config_dir, "logs")
}

pub fn get_accounts_directory(config_dir: &str) -> (r: String)
    ensures
        r@ == joined(config_dir@, "antigravity-accounts"@),
{
    join_path(config_dir, "antigravity-accounts")
}

pub fn get_app_settings_file(config_dir: &str) -> (r: String)
    ensures
        r@ == joined(config_dir@, "app_settings.json"@),
{
    join_path(config_dir, "app_settings.json")
}

pub fn get_window_state_file(config_dir: &str) -> (r: String)
    ensures
        r@ == joined(config_dir@, "window_state.json"@),
{
    join_path(config_dir, "window_state.json")
}

pub fn get_antigravity_path_file(config_dir: &str) -> (r: String)
    ensures
        r@ == joined(config_dir@, "antigravity_path.json"@),
{
    join_path(config_dir, "antigravity_path.json")
}

/// The agent's configuration directory, which holds its files.
pub struct ConfigManager {
    config_dir: String,
}

impl ConfigManager {
    pub closed spec fn dir_spec(&self) -> Seq<char> {
        self.config_dir@
    }

    pub fn new(config_dir: String) -> (r: Result<ConfigManager, String>)
        ensures
            r is Ok && r->Ok_0.dir_spec() == config_dir@,
    {
        Ok(ConfigManager { config_dir })
    }

    pub fn window_state_file(&self) -> (r: String)
        ensures
            r@ == joined(self.dir_spec(), "window_state.json"@),
    {
        get_window_state_file(self.config_dir.as_str())
    }
}

/// Relies on dirs::config_dir: the user's configuration directory where the
/// platform has one. It depends on the environment: nothing is stated of it.
#[verifier::external_body]
fn user_config_dir() -> (r: Option<String>) {
    dirs::config_dir().map(|p| p.to_string_lossy().into_owned())
}

/// Relies on dirs::data_dir: the user's data directory where the platform has
/// one. It depends on the environment: nothing is stated of it.
#[verifier::external_body]
fn user_data_dir() -> (r: Option<String>) {
    dirs::data_dir().map(|p| p.to_string_lossy().into_owned())
}

/// Where below a user directory the target application keeps its store.
pub open spec fn store_subdir() -> Seq<char> {
    "Antigravity/User/globalStorage"@
}

/// The directory that holds the target application's store: under the user's
/// configuration directory on Windows, and on Linux where there is one (else
/// under the data directory); under the data directory elsewhere.
pub open spec fn data_dir_spec(os: TargetOs, config: Option<Seq<char>>, data: Option<Seq<char>>) -> Option<
    Seq<char>,
> {
    let base = match os {
        TargetOs::Windows => config,
        TargetOs::Linux => if config.is_some() {
            config
        } else {
            data
        },
        _ => data,
    };
    match base {
        Some(b) => Some(joined(b, store_subdir())),
        None => None,
    }
}

pub open spec fn opt_view(o: Option<String>) -> Option<Seq<char>> {
    match o {
        Some(s) => Some(s@),
        None => None,
    }
}

/// The directory of the target application's store, from the user's
/// configuration and data directories.
pub fn antigravity_data_dir_from(os: TargetOs, config: Option<String>, data: Option<String>) -> (r:
    Option<String>)
    ensures
        opt_view(r) == data_dir_spec(os, opt_view(config), opt_view(data)),
{
    let base = match os {
        TargetOs::Windows => config,
        TargetOs::Linux => if config.is_some() {
            config
        } else {
            data
        },
        _ => data,
    };
    match base {
        Some(b) => Some(join_path(b.as_str(), "Antigravity/User/globalStorage")),
        None => None,
    }
}

/// The directory of the target application's store on this machine.
pub fn get_antigravity_data_dir(os: TargetOs) -> (r: Option<String>)
    ensures
        exists|c: Option<Seq<char>>, d: Option<Seq<char>>| opt_view(r) == data_dir_spec(os, c, d),
{
    let config = user_config_dir();
    let data = user_data_dir();
    let ghost c = opt_view(config);
    let ghost d = opt_view(data);
    let r = antigravity_data_dir_from(os, config, data);
    assert(opt_view(r) == data_dir_spec(os, c, d));
    r
}

/// The store file of the target application on this machine.
pub fn get_antigravity_db_path(os: TargetOs) -> (r: Option<String>)
    ensures
        exists|c: Option<Seq<char>>, d: Option<Seq<char>>|
            match #[trigger] data_dir_spec(os, c, d) {
                Some(dir) => opt_view(r) == Some(joined(dir, "state.vscdb"@)),
                None => r.is_none(),
            },
{
    let dir = get_antigravity_data_dir(os);
    match dir {
        Some(d) => Some(join_path(d.as_str(), "state.vscdb")),
        None => None,
    }
}

/// The user directories that the places of the executable are found under.
pub struct UserDirs {
    /// The local application data directory (Windows).
    pub local_data: Option<String>,
    pub home: Option<String>,
    /// The program files directories (Windows).
    pub program_files: Option<String>,
    pub program_files_x86: Option<String>,
}

pub open spec fn paths_view(v: Seq<String>) -> Seq<Seq<char>> {
    v.map_values(|s: String| s@)
}

/// `name` under `base`, where there is a `base`.
pub open spec fn under(base: Option<Seq<char>>, name: Seq<char>) -> Seq<Seq<char>> {
    match base {
        Some(b) => seq![joined(b, name)],
        None => Seq::empty(),
    }
}

/// The places where the target application's executable may be, in the order
/// they are tried.
pub open spec fn executable_paths_spec(
    os: TargetOs,
    local: Option<Seq<char>>,
    home: Option<Seq<char>>,
    pf: Option<Seq<char>>,
    pf86: Option<Seq<char>>,
) -> Seq<Seq<char>> {
    match os {
        TargetOs::Windows => under(local, "Programs/Antigravity/Antigravity.exe"@) + under(
            home,
            "AppData/Local/Programs/Antigravity/Antigravity.exe"@,
        ) + under(home, "AppData/Roaming/Local/Programs/Antigravity/Antigravity.exe"@) + under(
            pf,
            "Antigravity/Antigravity.exe"@,
        ) + under(pf86, "Antigravity/Antigravity.exe"@),
        TargetOs::MacOs => under(Some("/Applications"@), "Antigravity.app"@) + under(
            Some("/Applications"@),
            "Antigravity-electron.app"@,
        ) + under(Some("/Applications"@), "Antigravity-alpha.app"@) + under(
            Some("/Applications"@),
            "Antigravity-beta.app"@,
        ) + under(home, "Applications/Antigravity.app"@) + under(
            home,
            "Applications/Antigravity-electron.app"@,
        ) + under(home, "Applications/Antigravity-alpha.app"@) + under(
            home,
            "Applications/Antigravity-beta.app"@,
        ),
        TargetOs::Linux => seq![
            "/usr/bin/antigravity"@,
            "/usr/local/bin/antigravity"@,
            "/usr/share/antigravity/antigravity"@,
        ] + under(home, ".local/bin/antigravity"@) + under(home, "bin/antigravity"@) + seq![
            "/snap/bin/antigravity"@,
        ] + under(home, "Applications/Antigravity.AppImage"@) + seq![
            "/var/lib/flatpak/exports/bin/antigravity"@,
        ] + under(home, ".local/share/flatpak/exports/bin/antigravity"@),
        TargetOs::Other => Seq::empty(),
    }
}

fn push_under(out: &mut Vec<String>, base: &Option<String>, name: &str)
    ensures
        paths_view(final(out)@) == paths_view(old(out)@) + under(opt_view(*base), name@),
{
    let ghost before = paths_view(out@);
    match base {
        Some(b) => {
            out.push(join_path(b.as_str(), name));
        },
        None => {},
    }
    assert(paths_view(out@) =~= before + under(opt_view(*base), name@));
}

fn push_text(out: &mut Vec<String>, t: &str)
    ensures
        paths_view(final(out)@) == paths_view(old(out)@) + seq![t@],
{
    let ghost before = paths_view(out@);
    out.push(String::from_str(t));
    assert(paths_view(out@) =~= before + seq![t@]);
}

/// The places where the target application's executable may be on `os`.
pub fn antigravity_executable_paths(os: TargetOs, dirs: &UserDirs) -> (r: Vec<String>)
    ensures
        paths_view(r@) == executable_paths_spec(
            os,
            opt_view(dirs.local_data),
            opt_view(dirs.home),
            opt_view(dirs.program_files),
            opt_view(dirs.program_files_x86),
        ),
{
    let mut out: Vec<String> = Vec::new();
    let ghost empty = paths_view(out@);
    assert(empty =~= Seq::<Seq<char>>::empty());
    match os {
        TargetOs::Windows => {
            push_under(&mut out, &dirs.local_data, "Programs/Antigravity/Antigravity.exe");
            push_under(&mut out, &dirs.home, "AppData/Local/Programs/Antigravity/Antigravity.exe");
            push_under(
                &mut out,
                &dirs.home,
                "AppData/Roaming/Local/Programs/Antigravity/Antigravity.exe",
            );
            push_under(&mut out, &dirs.program_files, "Antigravity/Antigravity.exe");
            push_under(&mut out, &dirs.program_files_x86, "Antigravity/Antigravity.exe");
        },
        TargetOs::MacOs => {
            let apps = Some(String::from_str("/Applications"));
            push_under(&mut out, &apps, "Antigravity.app");
            push_under(&mut out, &apps, "Antigravity-electron.app");
            push_under(&mut out, &apps, "Antigravity-alpha.app");
            push_under(&mut out, &apps, "Antigravity-beta.app");
            push_under(&mut out, &dirs.home, "Applications/Antigravity.app");
            push_under(&mut out, &dirs.home, "Applications/Antigravity-electron.app");
            push_under(&mut out, &dirs.home, "Applications/Antigravity-alpha.app");
            push_under(&mut out, &dirs.home, "Applications/Antigravity-beta.app");
        },
        TargetOs::Linux => {
            push_text(&mut out, "/usr/bin/antigravity");
            push_text(&mut out, "/usr/local/bin/antigravity");
            push_text(&mut out, "/usr/share/antigravity/antigravity");
            push_under(&mut out, &dirs.home, ".local/bin/antigravity");
            push_under(&mut out, &dirs.home, "bin/antigravity");
            push_text(&mut out, "/snap/bin/antigravity");
            push_under(&mut out, &dirs.home, "Applications/Antigravity.AppImage");
            push_text(&mut out, "/var/lib/flatpak/exports/bin/antigravity");
            push_under(&mut out, &dirs.home, ".local/share/flatpak/exports/bin/antigravity");
        },
        TargetOs::Other => {},
    }
    assert(paths_view(out@) =~= executable_paths_spec(
        os,
        opt_view(dirs.local_data),
        opt_view(dirs.home),
        opt_view(dirs.program_files),
        opt_view(dirs.program_files_x86),
    ));
    out
}

} // verus!
