use vstd::prelude::*;
use vstd::string::StringExecFns;

verus! {

/// Where the application keeps its data: whether it runs in portable
/// mode, the data directory that follows from that, and the directory the
/// executable sits in. Computed once at startup from what the caller
/// observed on disk.
#[derive(Debug)]
pub struct PortableState {
    pub portable: bool,
    pub data_dir: String,
    pub exe_dir: String,
}

impl PortableState {
    /// Resolve the portable state from what the caller observed: the
    /// executable's directory (when the platform reports one; otherwise
    /// the current directory stands in), whether the portable marker file
    /// sits beside the executable, and the platform's default data
    /// directory. With the marker present the data lives in a `data`
    /// directory beside the executable; without it, in the default one.
    pub fn init(exe_dir: Option<String>, marker_present: bool, default_data_dir: String) -> (s:
        Self)
        ensures
            s.portable == marker_present,
            exe_dir matches Some(d) ==> s.exe_dir@ == d@,
            exe_dir is None ==> s.exe_dir@ == "."@,
            marker_present ==> s.data_dir@ == s.exe_dir@ + "/data"@,
            !marker_present ==> s.data_dir@ == default_data_dir@,
    {
        let exe = match exe_dir {
            Some(d) => d,
            None => ".".to_owned(),
        };
        let data = if marker_present {
            let mut d = exe.clone();
            d.append("/data");
            d
        } else {
            default_data_dir
        };
        PortableState { portable: marker_present, data_dir: data, exe_dir: exe }
    }

    /// Whether the application runs in portable mode.
    pub fn is_portable(&self) -> (r: bool)
        ensures
            r == self.portable,
    {
        self.portable
    }

    /// The data directory: `data` beside the executable in portable mode,
    /// the platform default otherwise.
    pub fn get_data_dir(&self) -> (r: String)
        ensures
            r@ == self.data_dir@,
    {
        self.data_dir.clone()
    }

    /// The directory the executable sits in.
    pub fn get_exe_dir(&self) -> (r: String)
        ensures
            r@ == self.exe_dir@,
    {
        self.exe_dir.clone()
    }

    /// The application's own data directory, under the data directory.
    pub fn get_app_data_dir(&self) -> (r: String)
        ensures
            r@ == self.data_dir@ + "/.kiro-account-manager"@,
    {
        let mut d = self.data_dir.clone();
        d.append("/.kiro-account-manager");
        d
    }
}

/// A summary of the portable state for the user interface.
#[derive(Debug, Clone)]
pub struct PortableInfo {
    pub is_portable: bool,
    pub data_dir: String,
    pub exe_dir: String,
}

/// The portable-state summary the user interface is shown.
pub fn get_portable_info(state: &PortableState) -> (r: PortableInfo)
    ensures
        r.is_portable == state.portable,
        r.data_dir@ == state.data_dir@,
        r.exe_dir@ == state.exe_dir@,
{
    PortableInfo {
        is_portable: state.is_portable(),
        data_dir: state.get_data_dir(),
        exe_dir: state.get_exe_dir(),
    }
}

/// The default data directory, chosen from the platform's answer and the
/// two fallback environment values, in that order of preference. Nothing
/// when all three are absent.
pub fn choose_data_dir(
    platform: Option<String>,
    userprofile: Option<String>,
    home: Option<String>,
) -> (r: Option<String>)
    ensures
        platform is Some ==> r == platform,
        platform is None && userprofile is Some ==> r == userprofile,
        platform is None && userprofile is None ==> r == home,
{
    match platform {
        Some(d) => Some(d),
        None => match userprofile {
            Some(d) => Some(d),
            None => home,
        },
    }
}

/// Relies on dirs::data_dir: the platform's data directory for the
/// current user, if the operating system reports one. Depends on the
/// environment, so nothing is claimed of the value.
#[verifier::external_body]
fn platform_data_dir() -> (r: Option<String>) {
    dirs::data_dir().map(|p| p.to_string_lossy().to_string())
}

/// The default data directory in normal (non-portable) mode: what the
/// platform reports, else the given profile directory, else the given
/// home directory. Some answer is owed whenever a fallback is given.
pub fn default_data_dir(userprofile: Option<String>, home: Option<String>) -> (r: Option<String>)
    ensures
        (userprofile is Some || home is Some) ==> r is Some,
{
    let platform = platform_data_dir();
    choose_data_dir(platform, userprofile, home)
}

/// What a probe of the portable data directory found.
#[derive(Debug, Clone, Copy, PartialEq, Eq, Structural)]
pub enum DirProbe {
    /// The directory does not exist.
    Missing,
    /// The directory exists and holds nothing.
    Empty,
    /// The directory exists and holds at least one entry.
    NonEmpty,
    /// The directory exists but could not be read.
    Unreadable,
}

/// What a first portable start should do about importing the normal
/// mode's configuration.
#[derive(Debug, Clone, Copy, PartialEq, Eq, Structural)]
pub enum ImportPlan {
    /// Not in portable mode: nothing to import.
    NotPortable,
    /// The portable data directory already has content: keep it.
    AlreadyPopulated,
    /// The portable data directory could not be read: fail rather than
    /// import over unknown content.
    ReadFailure,
    /// Normal mode has no data directory: nothing to import.
    NoSource,
    /// Create the portable data directory and copy the configuration
    /// files over from normal mode.
    CopyFiles,
}

/// Decide what a first portable start does about importing configuration
/// from normal mode, given what the caller observed on disk.
pub fn plan_import(portable: bool, portable_dir: DirProbe, normal_dir_exists: bool) -> (r:
    ImportPlan)
    ensures
        !portable ==> r is NotPortable,
        portable && portable_dir is NonEmpty ==> r is AlreadyPopulated,
        portable && portable_dir is Unreadable ==> r is ReadFailure,
        portable && (portable_dir is Missing || portable_dir is Empty) && !normal_dir_exists
            ==> r is NoSource,
        portable && (portable_dir is Missing || portable_dir is Empty) && normal_dir_exists
            ==> r is CopyFiles,
{
    if !portable {
        ImportPlan::NotPortable
    } else {
        match portable_dir {
            DirProbe::NonEmpty => ImportPlan::AlreadyPopulated,
            DirProbe::Unreadable => ImportPlan::ReadFailure,
            DirProbe::Missing | DirProbe::Empty => {
                if normal_dir_exists {
                    ImportPlan::CopyFiles
                } else {
                    ImportPlan::NoSource
                }
            },
        }
    }
}

/// The configuration files a portable import copies over, in copy order.
pub fn import_file_names() -> (r: Vec<String>)
    ensures
        r@.len() == 2,
        r@[0]@ == "accounts.json"@,
        r@[1]@ == "app-settings.json"@,
{
    let mut names: Vec<String> = Vec::new();
    names.push("accounts.json".to_owned());
    names.push("app-settings.json".to_owned());
    names
}

} // verus!
