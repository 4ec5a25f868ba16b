//! Virtual mount session: where a container's root is mounted, which of the
//! two providers serves it, and what the session owns once it stands.
//! Running the provider programs, and the settling delay after the helper
//! started, are the host program's part.

use vstd::prelude::*;
use crate::launcher::search_path;
use crate::strings_view;

verus! {

/// Milliseconds the host waits after starting the helper, while the
/// provider materializes the volume.
pub const SETTLE_MILLIS: u64 = 500;

/// The two mount providers, in order of preference.
#[derive(Clone, Copy, Debug, PartialEq, Eq)]
pub enum MountProvider {
    /// Foreground helper process; the session owns it and ends it.
    WinFsp,
    /// One-shot mount command; the volume goes away with the host process.
    Dokany,
}

/// A provider program to run, with its arguments.
#[derive(Clone, Debug)]
pub struct MountCommand {
    pub provider: MountProvider,
    pub program: String,
    pub args: Vec<String>,
}

/// Where to mount, and the command to run for it, if any provider is there.
#[derive(Clone, Debug)]
pub struct MountRequest {
    pub mount_point: String,
    pub command: Option<MountCommand>,
}

/// A mounted (or, without provider, unmounted) container root.
#[derive(Clone, Debug)]
pub struct MountSession {
    pub mount_point: String,
    pub provider: Option<MountProvider>,
}

/// Why a mount attempt failed.
#[derive(Clone, Copy, Debug, PartialEq, Eq)]
pub enum MountError {
    /// The helper of the preferred provider could not be started.
    HelperSpawn,
    /// The mount command of the second provider could not be run.
    CommandSpawn,
}

/// A command as (provider, program, arguments).
pub type CommandView = (MountProvider, Seq<char>, Seq<Seq<char>>);

pub open spec fn command_view(c: Option<MountCommand>) -> Option<CommandView> {
    match c {
        Some(c) => Some((c.provider, c.program@, strings_view(c.args@))),
        None => None,
    }
}

/// The mount point for a preferred drive letter, or the fixed device path.
pub open spec fn mount_point_for(preferred: Option<char>) -> Seq<char> {
    match preferred {
        Some(letter) => seq![letter, ':'],
        None => "\\\\?\\GLOBALROOT\\device\\ContainerFS"@,
    }
}

pub open spec fn winfsp_args(mount_point: Seq<char>, root: Seq<char>) -> Seq<Seq<char>> {
    seq!["--foreground"@, "--FileSystemName"@, "ContainerFS"@, "--MountPoint"@, mount_point, root]
}

pub open spec fn dokany_args(root: Seq<char>, mount_point: Seq<char>) -> Seq<Seq<char>> {
    seq!["/m"@, "/r"@, root, "/l"@, mount_point]
}

/// The command for mounting `root` at `mount_point` given where each
/// provider's program was found: the helper first, the one-shot command
/// second, none when neither is there.
pub open spec fn command_for(
    root: Seq<char>,
    mount_point: Seq<char>,
    winfsp: Option<Seq<char>>,
    dokany: Option<Seq<char>>,
) -> Option<CommandView> {
    match winfsp {
        Some(w) => Some((MountProvider::WinFsp, w, winfsp_args(mount_point, root))),
        None => match dokany {
            Some(d) => Some((MountProvider::Dokany, d, dokany_args(root, mount_point))),
            None => None,
        },
    }
}

/// The session, as (mount point, provider), once `provider`'s command was
/// run and `started` says whether it could be; without provider, a session
/// with no volume.
pub open spec fn session_for(
    mount_point: Seq<char>,
    provider: Option<MountProvider>,
    started: bool,
) -> Result<(Seq<char>, Option<MountProvider>), MountError> {
    match provider {
        None => Ok((mount_point, None)),
        Some(p) => if started {
            Ok((mount_point, Some(p)))
        } else if p == MountProvider::WinFsp {
            Err(MountError::HelperSpawn)
        } else {
            Err(MountError::CommandSpawn)
        },
    }
}

/// Relies on `char::to_string`: the text made of that one character.
#[verifier::external_body]
fn char_text(c: char) -> (r: String)
    ensures
        r@ == seq![c],
{
    c.to_string()
}

/// The mount point: `X:` for a preferred drive letter `X`, else the fixed
/// device path of the container filesystem.
pub fn determine_mount_point(preferred: Option<char>) -> (r: Result<String, MountError>)
    ensures
        r matches Ok(p) && p@ == mount_point_for(preferred),
{
    match preferred {
        Some(letter) => {
            let mut s = char_text(letter);
            proof {
                reveal_strlit(":");
            }
            s.append(":");
            assert(s@ =~= seq![letter, ':']);
            Ok(s)
        },
        None => Ok(String::from_str("\\\\?\\GLOBALROOT\\device\\ContainerFS")),
    }
}

fn text(s: &str) -> (r: String)
    ensures
        r@ == s@,
{
    String::from_str(s)
}

/// Where a provider program is: the path named by its override variable
/// when that is set, else what the search path yields for `binary`.
pub fn locate_provider(env_override: Option<String>, binary: &str) -> (r: Option<String>)
    ensures
        env_override is Some ==> r == env_override,
{
    match env_override {
        Some(p) => Some(p),
        None => search_path(binary),
    }
}

/// The preferred provider's helper, given its override variable.
pub fn find_winfsp(env_override: Option<String>) -> (r: Option<String>)
    ensures
        env_override is Some ==> r == env_override,
{
    locate_provider(env_override, "winfsp-launcher.exe")
}

/// The second provider's mount command, given its override variable.
pub fn find_dokany(env_override: Option<String>) -> (r: Option<String>)
    ensures
        env_override is Some ==> r == env_override,
{
    locate_provider(env_override, "dokanctl.exe")
}

/// The command that mounts `root` at `mount_point`, as [`command_for`]
/// says, given where each provider's program was found.
pub fn mount_command(root: &str, mount_point: &str, winfsp: Option<String>, dokany: Option<String>) -> (r: Option<MountCommand>)
    ensures
        command_view(r) == command_for(root@, mount_point@, opt_text(winfsp), opt_text(dokany)),
{
    match winfsp {
        Some(w) => {
            let mut args: Vec<String> = Vec::new();
            args.push(text("--foreground"));
            args.push(text("--FileSystemName"));
            args.push(text("ContainerFS"));
            args.push(text("--MountPoint"));
            args.push(text(mount_point));
            args.push(text(root));
            assert(strings_view(args@) =~= winfsp_args(mount_point@, root@));
            Some(MountCommand { provider: MountProvider::WinFsp, program: w, args })
        },
        None => match dokany {
            Some(d) => {
                let mut args: Vec<String> = Vec::new();
                args.push(text("/m"));
                args.push(text("/r"));
                args.push(text(root));
                args.push(text("/l"));
                args.push(text(mount_point));
                assert(strings_view(args@) =~= dokany_args(root@, mount_point@));
                Some(MountCommand { provider: MountProvider::Dokany, program: d, args })
            },
            None => None,
        },
    }
}

pub open spec fn opt_text(o: Option<String>) -> Option<Seq<char>> {
    match o {
        Some(s) => Some(s@),
        None => None,
    }
}

impl MountSession {
    /// First step of mounting `root`: the mount point for `preferred` and
    /// the command of the first provider that was found.
    pub fn plan(root: &str, preferred: Option<char>, winfsp: Option<String>, dokany: Option<String>) -> (r: MountRequest)
        ensures
            r.mount_point@ == mount_point_for(preferred),
            command_view(r.command) == command_for(
                root@,
                mount_point_for(preferred),
                opt_text(winfsp),
                opt_text(dokany),
            ),
    {
        let mount_point = match determine_mount_point(preferred) {
            Ok(p) => p,
            Err(_) => String::new(),
        };
        let command = mount_command(root, mount_point.as_str(), winfsp, dokany);
        MountRequest { mount_point, command }
    }

    /// Second step: the session once the request's command, if any, was
    /// run, `started` telling whether it could be started.
    pub fn establish(request: MountRequest, started: bool) -> (r: Result<MountSession, MountError>)
        ensures
            session_view(r) == session_for(
                request.mount_point@,
                match request.command {
                    Some(c) => Some(c.provider),
                    None => None,
                },
                started,
            ),
    {
        match request.command {
            None => Ok(MountSession { mount_point: request.mount_point, provider: None }),
            Some(c) => {
                if started {
                    Ok(MountSession { mount_point: request.mount_point, provider: Some(c.provider) })
                } else {
                    match c.provider {
                        MountProvider::WinFsp => Err(MountError::HelperSpawn),
                        MountProvider::Dokany => Err(MountError::CommandSpawn),
                    }
                }
            },
        }
    }

    /// Whether ending the session must end a helper process it started.
    pub fn owns_helper(&self) -> (r: bool)
        ensures
            r == (self.provider == Some(MountProvider::WinFsp)),
    {
        match self.provider {
            Some(MountProvider::WinFsp) => true,
            _ => false,
        }
    }
}

pub open spec fn session_view(r: Result<MountSession, MountError>) -> Result<
    (Seq<char>, Option<MountProvider>),
    MountError,
> {
    match r {
        Ok(s) => Ok((s.mount_point@, s.provider)),
        Err(e) => Err(e),
    }
}

/// With neither provider found, mounting needs no command and yields a
/// session without a volume, never an error.
pub proof fn lemma_mount_without_providers(root: Seq<char>, preferred: Option<char>, started: bool)
    ensures
        command_for(root, mount_point_for(preferred), None, None) is None,
        session_for(mount_point_for(preferred), None, started) == Ok::<
            (Seq<char>, Option<MountProvider>),
            MountError,
        >((mount_point_for(preferred), None)),
{
}

} // verus!
