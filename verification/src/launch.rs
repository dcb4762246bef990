//! Building the browser's invocation and recording what the spawn returned.

use vstd::prelude::*;
use vstd::string::*;
use crate::command::{texts_of, CommandLine, CommandLineView, ProcessHandle};
use crate::error::{SupervisorError, SupervisorErrorView};
use crate::registry::ChromeState;
use crate::termination::{kill_command, kill_command_view};
use crate::text::{decimal, push_decimal};

verus! {

/// The port on which the launched browser accepts remote debugging.
pub const REMOTE_DEBUGGING_PORT: u32 = 9222;

/// Whether a launch is followed by a forced termination.
pub const KILL_CHROME_AFTER_LAUNCH: bool = false;

/// How long a forced termination waits after the launch, in seconds.
pub const KILL_DELAY_SECS: u64 = 10;

/// The page that the browser opens first.
pub open spec fn starting_url_text() -> Seq<char> {
    "https://www.userandagents.com"@
}

/// The flag that selects the profile directory.
pub open spec fn user_data_dir_flag(data_dir: Seq<char>) -> Seq<char> {
    "--user-data-dir="@ + data_dir
}

/// The flag that opens the remote debugging port.
pub open spec fn remote_debugging_flag() -> Seq<char> {
    "--remote-debugging-port="@ + decimal(REMOTE_DEBUGGING_PORT as nat)
}

/// The flag that enables the isolated web app features.
pub open spec fn enable_features_flag() -> Seq<char> {
    "--enable-features=IsolatedWebApps,IsolatedWebAppDevMode,ControlledFrame,AutomaticFullscreenContentSetting,WebAppBorderless"@
}

/// The flag that installs the isolated web app from the local dev server.
pub open spec fn install_source_flag() -> Seq<char> {
    "--install-isolated-web-app-from-url=http://localhost:5193"@
}

/// The flags of a tracked launch, in order: the profile directory first, then
/// the fixed set.
pub open spec fn chrome_flag_texts(data_dir: Seq<char>) -> Seq<Seq<char>> {
    seq![
        user_data_dir_flag(data_dir),
        "--no-first-run"@,
        "--no-default-browser-check"@,
        remote_debugging_flag(),
        enable_features_flag(),
        install_source_flag(),
    ]
}

/// The flags of an untracked launch: the fixed set without profile directory
/// and debugging port.
pub open spec fn async_flag_texts() -> Seq<Seq<char>> {
    seq![
        "--no-first-run"@,
        "--no-default-browser-check"@,
        enable_features_flag(),
        install_source_flag(),
    ]
}

/// The flags of a tracked launch for the profile directory `data_dir`.
pub fn chrome_flags(data_dir: &str) -> (flags: Vec<String>)
    ensures
        texts_of(flags@) == chrome_flag_texts(data_dir@),
{
    let mut profile = String::from_str("--user-data-dir=");
    profile.append(data_dir);
    let mut debugging = String::from_str("--remote-debugging-port=");
    push_decimal(&mut debugging, REMOTE_DEBUGGING_PORT);
    let mut flags: Vec<String> = Vec::new();
    flags.push(profile);
    flags.push(String::from_str("--no-first-run"));
    flags.push(String::from_str("--no-default-browser-check"));
    flags.push(debugging);
    flags.push(
        String::from_str(
            "--enable-features=IsolatedWebApps,IsolatedWebAppDevMode,ControlledFrame,AutomaticFullscreenContentSetting,WebAppBorderless",
        ),
    );
    flags.push(String::from_str("--install-isolated-web-app-from-url=http://localhost:5193"));
    assert(texts_of(flags@) =~= chrome_flag_texts(data_dir@));
    flags
}

/// What the launcher is asked to do for a tracked launch.
#[derive(Debug, Clone, PartialEq, Eq)]
pub struct LaunchOptions {
    /// The page to open first.
    pub starting_url: String,
    /// Whether the launcher leaves out its own default flags.
    pub ignore_default_flags: bool,
    /// The flags to pass.
    pub chrome_flags: Vec<String>,
}

/// The options of a tracked launch: the fixed starting page, no launcher
/// defaults, and the flags for the state's profile directory.
pub fn launch_options(state: &ChromeState) -> (options: LaunchOptions)
    ensures
        options.starting_url@ == starting_url_text(),
        options.ignore_default_flags,
        texts_of(options.chrome_flags@) == chrome_flag_texts(state.profile_dir()),
{
    LaunchOptions {
        starting_url: String::from_str("https://www.userandagents.com"),
        ignore_default_flags: true,
        chrome_flags: chrome_flags(state.profile_dir_text()),
    }
}

/// The command line of an untracked launch. Whatever it starts is never
/// recorded in the registry.
pub fn async_launch_command() -> (command: CommandLine)
    ensures
        command@ == (CommandLineView {
            program: "google-chrome"@,
            args: async_flag_texts(),
            current_dir: None,
        }),
{
    let mut args: Vec<String> = Vec::new();
    args.push(String::from_str("--no-first-run"));
    args.push(String::from_str("--no-default-browser-check"));
    args.push(
        String::from_str(
            "--enable-features=IsolatedWebApps,IsolatedWebAppDevMode,ControlledFrame,AutomaticFullscreenContentSetting,WebAppBorderless",
        ),
    );
    args.push(String::from_str("--install-isolated-web-app-from-url=http://localhost:5193"));
    assert(texts_of(args@) =~= async_flag_texts());
    CommandLine { program: String::from_str("google-chrome"), args, current_dir: None }
}

/// The command line that starts the installed isolated web app: its loader,
/// with the debugging port and the feature set in one argument.
pub fn iwa_launch_command() -> (command: CommandLine)
    ensures
        command@ == (CommandLineView {
            program: "/Users/luke/Applications/Chrome Apps.localized/U&A IWA Test.app/Contents/MacOS/app_mode_loader"@,
            args: seq![
                "--remote-debugging-port=9222 --enable-features=IsolatedWebApps,IsolatedWebAppDevMode,ControlledFrame,AutomaticFullscreenContentSetting,WebAppBorderless"@,
            ],
            current_dir: None,
        }),
{
    let mut args: Vec<String> = Vec::new();
    args.push(
        String::from_str(
            "--remote-debugging-port=9222 --enable-features=IsolatedWebApps,IsolatedWebAppDevMode,ControlledFrame,AutomaticFullscreenContentSetting,WebAppBorderless",
        ),
    );
    assert(texts_of(args@) =~= seq![
        "--remote-debugging-port=9222 --enable-features=IsolatedWebApps,IsolatedWebAppDevMode,ControlledFrame,AutomaticFullscreenContentSetting,WebAppBorderless"@,
    ]);
    CommandLine {
        program: String::from_str(
            "/Users/luke/Applications/Chrome Apps.localized/U&A IWA Test.app/Contents/MacOS/app_mode_loader",
        ),
        args,
        current_dir: None,
    }
}

/// What follows a successful tracked launch.
#[derive(Debug, Clone, PartialEq, Eq)]
pub enum PostLaunch {
    /// The process is left running, known only through the registry.
    Leave,
    /// After `delay_secs` seconds the caller runs `command`, which terminates
    /// the process just launched.
    KillAfter { delay_secs: u64, command: CommandLine },
}

/// A `PostLaunch` with its command line as character sequences.
pub enum PostLaunchView {
    Leave,
    KillAfter { delay_secs: u64, command: CommandLineView },
}

impl View for PostLaunch {
    type V = PostLaunchView;

    open spec fn view(&self) -> PostLaunchView {
        match self {
            PostLaunch::Leave => PostLaunchView::Leave,
            PostLaunch::KillAfter { delay_secs, command } => PostLaunchView::KillAfter {
                delay_secs: *delay_secs,
                command: command@,
            },
        }
    }
}

/// What follows a launch that produced `pid`, under the given policy.
pub open spec fn post_launch(pid: u32, kill_after_launch: bool) -> PostLaunchView {
    if kill_after_launch {
        PostLaunchView::KillAfter { delay_secs: KILL_DELAY_SECS, command: kill_command_view(pid) }
    } else {
        PostLaunchView::Leave
    }
}

/// Records what the spawn returned.
///
/// The process id of a handle is stored in the registry, replacing any id
/// held before, and the policy decides what follows. A failure leaves the
/// registry as it was and is reported as a spawn failure with the launcher's
/// words.
pub fn record_launch(
    state: &mut ChromeState,
    spawned: Result<ProcessHandle, String>,
    kill_after_launch: bool,
) -> (res: Result<PostLaunch, SupervisorError>)
    ensures
        final(state).profile_dir() == old(state).profile_dir(),
        match spawned {
            Ok(handle) => {
                &&& *final(state) == old(state).after_set(handle.pid)
                &&& final(state).current_pid() == Some(handle.pid)
                &&& res is Ok
                &&& res->Ok_0@ == post_launch(handle.pid, kill_after_launch)
            },
            Err(detail) => {
                &&& *final(state) == *old(state)
                &&& res is Err
                &&& res->Err_0@ == SupervisorErrorView::SpawnFailure(detail@)
            },
        },
{
    match spawned {
        Ok(handle) => {
            state.set(handle.pid);
            if kill_after_launch {
                Ok(
                    PostLaunch::KillAfter {
                        delay_secs: KILL_DELAY_SECS,
                        command: kill_command(handle.pid),
                    },
                )
            } else {
                Ok(PostLaunch::Leave)
            }
        },
        Err(detail) => Err(SupervisorError::SpawnFailure(detail)),
    }
}

/// The command line of a tracked launch holds the flag that names the
/// profile directory, whatever the directory is.
pub proof fn lemma_flags_hold_profile_dir(data_dir: Seq<char>)
    ensures
        chrome_flag_texts(data_dir).contains("--user-data-dir="@ + data_dir),
        chrome_flag_texts(data_dir).len() == 6,
{
    assert(chrome_flag_texts(data_dir)[0] == "--user-data-dir="@ + data_dir);
}

/// After a successful launch, reading the registry gives the process id that
/// the spawn produced, whatever was held before.
pub proof fn lemma_launch_then_read(before: ChromeState, pid: u32)
    ensures
        before.after_set(pid).current_pid() == Some(pid),
{
    crate::registry::lemma_read_sees_last_write(before, pid);
}

} // verus!
