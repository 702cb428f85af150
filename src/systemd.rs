use vstd::prelude::*;
use crate::app_error::AppError;
use crate::text::{trim_text, trimmed};

verus! {

broadcast use vstd::std_specs::vec::group_vec_axioms;

/// Name of the program, and of its service.
pub const APP_NAME: &'static str = "leafcast";

/// What the command line asks for.
#[derive(Debug, Clone, Copy, PartialEq, Eq, Structural, PartialOrd, Ord)]
pub enum CliArg {
    On,
    Off,
    Install,
    Uninstall,
    Help,
}

pub open spec fn cli_arg_of(t: Seq<char>) -> Option<CliArg> {
    if t == "-i"@ {
        Some(CliArg::Install)
    } else if t == "-u"@ {
        Some(CliArg::Uninstall)
    } else if t == "--on"@ {
        Some(CliArg::On)
    } else if t == "--off"@ {
        Some(CliArg::Off)
    } else if t == "-h"@ {
        Some(CliArg::Help)
    } else {
        None
    }
}

/// The flag that an already trimmed first argument names.
pub fn cli_arg_from_trimmed(t: &str) -> (r: Option<CliArg>)
    ensures
        r == cli_arg_of(t@),
{
    let t = t.to_owned();
    if t == String::from_str("-i") {
        Some(CliArg::Install)
    } else if t == String::from_str("-u") {
        Some(CliArg::Uninstall)
    } else if t == String::from_str("--on") {
        Some(CliArg::On)
    } else if t == String::from_str("--off") {
        Some(CliArg::Off)
    } else if t == String::from_str("-h") {
        Some(CliArg::Help)
    } else {
        None
    }
}

/// The flag named by the first command-line argument (empty when there is
/// none), surrounding whitespace ignored.
pub fn parse_arg(first: &str) -> (r: Option<CliArg>)
    ensures
        r == cli_arg_of(trimmed(first@)),
{
    let t = trim_text(first);
    cli_arg_from_trimmed(t.as_str())
}

pub open spec fn service_name() -> Seq<char> {
    APP_NAME@ + ".service"@
}

pub open spec fn dot_service() -> Seq<char> {
    "/etc/systemd/system/"@ + service_name()
}

/// Name of the service unit.
pub fn get_service_name() -> (r: String)
    ensures
        r@ == service_name(),
{
    let mut s = String::from_str(APP_NAME);
    s.append(".service");
    s
}

/// Path of the service unit file.
pub fn get_dot_service() -> (r: String)
    ensures
        r@ == dot_service(),
{
    let mut s = String::from_str("/etc/systemd/system/");
    let name = get_service_name();
    s.append(name.as_str());
    s
}

/// Text of the unit file that runs the program from `current_dir` as `user_name`.
pub open spec fn unit_text(user_name: Seq<char>, current_dir: Seq<char>) -> Seq<char> {
    "[Unit]\n    Description="@ + APP_NAME@
        + "\n    After=network-online.target\n    Wants=network-online.target\n    StartLimitIntervalSec=0\n    \n    [Service]\n    Environment=\"XDG_RUNTIME_DIR=/run/user/1000\"\n    Environment=\"WAYLAND_DISPLAY=wayland-1\"\n    ExecStart="@
        + current_dir + "/"@ + APP_NAME@ + "\n    WorkingDirectory="@ + current_dir
        + "\n    SyslogIdentifier="@ + APP_NAME@ + "\n    User="@ + user_name + "\n    Group="@
        + user_name
        + "\n    Restart=always\n    RestartSec=5\n\n    [Install]\n    WantedBy=multi-user.target\n"@
}

/// The unit file for `user_name`, run from `current_dir`.
pub fn create_service_file(user_name: &str, current_dir: &str) -> (r: String)
    ensures
        r@ == unit_text(user_name@, current_dir@),
{
    let mut s = String::from_str("[Unit]\n    Description=");
    s.append(APP_NAME);
    s.append(
        "\n    After=network-online.target\n    Wants=network-online.target\n    StartLimitIntervalSec=0\n    \n    [Service]\n    Environment=\"XDG_RUNTIME_DIR=/run/user/1000\"\n    Environment=\"WAYLAND_DISPLAY=wayland-1\"\n    ExecStart=",
    );
    s.append(current_dir);
    s.append("/");
    s.append(APP_NAME);
    s.append("\n    WorkingDirectory=");
    s.append(current_dir);
    s.append("\n    SyslogIdentifier=");
    s.append(APP_NAME);
    s.append("\n    User=");
    s.append(user_name);
    s.append("\n    Group=");
    s.append(user_name);
    s.append("\n    Restart=always\n    RestartSec=5\n\n    [Install]\n    WantedBy=multi-user.target\n");
    s
}

/// The user who invoked sudo, from `SUDO_USER`: none when it is unset,
/// empty or `root`.
pub fn get_user_name(sudo_user: Option<String>) -> (r: Option<String>)
    ensures
        match sudo_user {
            Some(u) => if u@ == "root"@ || u@.len() == 0 {
                r is None
            } else {
                r matches Some(v) && v@ == u@
            },
            None => r is None,
        },
{
    match sudo_user {
        Some(u) => {
            if u == String::from_str("root") || u.as_str().is_empty() {
                None
            } else {
                Some(u)
            }
        },
        None => None,
    }
}

/// Relies on `sudo::check`: whether the process runs as root (real and
/// effective user id 0).
#[verifier::external_body]
fn running_as_root() -> (r: bool) {
    match sudo::check() {
        sudo::RunningAs::Root => true,
        _ => false,
    }
}

pub open spec fn is_not_root_error(e: AppError) -> bool {
    e matches AppError::Internal(t) && t@ == "not running as sudo"@
}

/// Success when running as root, else the error saying so.
pub fn sudo_result(is_root: bool) -> (r: Result<(), AppError>)
    ensures
        is_root <==> r is Ok,
        r matches Err(e) ==> is_not_root_error(e),
{
    if is_root {
        Ok(())
    } else {
        Err(AppError::Internal(String::from_str("not running as sudo")))
    }
}

/// Whether the process runs as root.
pub fn check_sudo() -> (r: Result<(), AppError>)
    ensures
        r matches Err(e) ==> is_not_root_error(e),
{
    sudo_result(running_as_root())
}

/// One step of installing or removing the service.
#[derive(Debug)]
pub enum SystemdStep {
    /// `systemctl stop <service>`
    Stop(String),
    /// `systemctl disable <service>`
    Disable(String),
    /// Delete the unit file at this path.
    RemoveUnit(String),
    /// `systemctl daemon-reload`
    DaemonReload,
    /// Write the unit file: path and text.
    WriteUnit(String, String),
    /// `systemctl enable <service>`
    Enable(String),
    /// `systemctl start <service>`
    Start(String),
    /// No usable user to run the service as: nothing is installed.
    InvalidUser,
}

pub enum StepView {
    Stop(Seq<char>),
    Disable(Seq<char>),
    RemoveUnit(Seq<char>),
    DaemonReload,
    WriteUnit(Seq<char>, Seq<char>),
    Enable(Seq<char>),
    Start(Seq<char>),
    InvalidUser,
}

impl SystemdStep {
    pub open spec fn view(&self) -> StepView {
        match self {
            SystemdStep::Stop(s) => StepView::Stop(s@),
            SystemdStep::Disable(s) => StepView::Disable(s@),
            SystemdStep::RemoveUnit(s) => StepView::RemoveUnit(s@),
            SystemdStep::DaemonReload => StepView::DaemonReload,
            SystemdStep::WriteUnit(p, t) => StepView::WriteUnit(p@, t@),
            SystemdStep::Enable(s) => StepView::Enable(s@),
            SystemdStep::Start(s) => StepView::Start(s@),
            SystemdStep::InvalidUser => StepView::InvalidUser,
        }
    }
}

pub open spec fn user_view(u: Option<String>) -> Option<Seq<char>> {
    match u {
        Some(v) => Some(v@),
        None => None,
    }
}

pub open spec fn steps_view(s: Seq<SystemdStep>) -> Seq<StepView> {
    Seq::new(s.len(), |i: int| s[i].view())
}

/// Removing the service: stop, disable, delete the unit file and reload,
/// when the unit file exists; nothing otherwise.
pub open spec fn uninstall_plan(unit_exists: bool) -> Seq<StepView> {
    if unit_exists {
        seq![
            StepView::Stop(service_name()),
            StepView::Disable(service_name()),
            StepView::RemoveUnit(dot_service()),
            StepView::DaemonReload,
        ]
    } else {
        Seq::empty()
    }
}

/// Installing the service for the user behind sudo: write the unit file,
/// reload, enable and start.
pub open spec fn install_plan(user_name: Option<Seq<char>>, current_dir: Seq<char>) -> Seq<
    StepView,
> {
    match user_name {
        Some(u) => seq![
            StepView::WriteUnit(dot_service(), unit_text(u, current_dir)),
            StepView::DaemonReload,
            StepView::Enable(service_name()),
            StepView::Start(service_name()),
        ],
        None => seq![StepView::InvalidUser],
    }
}

/// Steps for a command-line flag: installing first removes any earlier
/// install; other flags need no step.
pub open spec fn systemd_plan(
    arg: CliArg,
    unit_exists: bool,
    user_name: Option<Seq<char>>,
    current_dir: Seq<char>,
) -> Seq<StepView> {
    match arg {
        CliArg::Install => uninstall_plan(unit_exists) + install_plan(user_name, current_dir),
        CliArg::Uninstall => uninstall_plan(unit_exists),
        _ => Seq::empty(),
    }
}

fn push_uninstall(steps: &mut Vec<SystemdStep>, unit_exists: bool)
    ensures
        steps_view(final(steps)@) == steps_view(old(steps)@) + uninstall_plan(unit_exists),
{
    let ghost before = steps_view(steps@);
    if unit_exists {
        steps.push(SystemdStep::Stop(get_service_name()));
        steps.push(SystemdStep::Disable(get_service_name()));
        steps.push(SystemdStep::RemoveUnit(get_dot_service()));
        steps.push(SystemdStep::DaemonReload);
    }
    assert(steps_view(steps@) =~= before + uninstall_plan(unit_exists));
}

fn push_install(steps: &mut Vec<SystemdStep>, user_name: Option<String>, current_dir: &str)
    ensures
        steps_view(final(steps)@) == steps_view(old(steps)@) + install_plan(
            user_view(user_name),
            current_dir@,
        ),
{
    let ghost before = steps_view(steps@);
    let ghost user = user_view(user_name);
    match user_name {
        Some(u) => {
            steps.push(SystemdStep::WriteUnit(get_dot_service(), create_service_file(u.as_str(), current_dir)));
            steps.push(SystemdStep::DaemonReload);
            steps.push(SystemdStep::Enable(get_service_name()));
            steps.push(SystemdStep::Start(get_service_name()));
        },
        None => {
            steps.push(SystemdStep::InvalidUser);
        },
    }
    assert(steps_view(steps@) =~= before + install_plan(user, current_dir@));
}

/// The steps that a flag asks for, given whether the unit file exists, the
/// user behind sudo and the working directory.
pub fn systemd_steps(
    arg: CliArg,
    unit_exists: bool,
    user_name: Option<String>,
    current_dir: &str,
) -> (r: Vec<SystemdStep>)
    ensures
        steps_view(r@) == systemd_plan(
            arg,
            unit_exists,
            user_view(user_name),
            current_dir@,
        ),
{
    let mut steps: Vec<SystemdStep> = Vec::new();
    assert(steps_view(steps@) =~= Seq::<StepView>::empty());
    match arg {
        CliArg::Install => {
            push_uninstall(&mut steps, unit_exists);
            push_install(&mut steps, user_name, current_dir);
        },
        CliArg::Uninstall => {
            push_uninstall(&mut steps, unit_exists);
        },
        _ => {},
    }
    steps
}

/// Install or remove the service: fails unless running as root, else
/// returns the steps to run.
pub fn configure_systemd(
    arg: CliArg,
    unit_exists: bool,
    user_name: Option<String>,
    current_dir: &str,
) -> (r: Result<Vec<SystemdStep>, AppError>)
    ensures
        match r {
            Ok(steps) => steps_view(steps@) == systemd_plan(
                arg,
                unit_exists,
                user_view(user_name),
                current_dir@,
            ),
            Err(e) => is_not_root_error(e),
        },
{
    check_sudo()?;
    Ok(systemd_steps(arg, unit_exists, user_name, current_dir))
}

} // verus!
