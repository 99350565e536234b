//! The package tools of a Linux host: which of them to ask for the installed
//! programs, and how.

use crate::finding::opt_text;
use crate::text::{chars_of, replace_all, replaced, string_of, text_eq};
use vstd::prelude::*;
use vstd::string::StringExecFns;

verus! {

/// What a host tells of its operating system.
#[derive(Clone, Debug, PartialEq, Eq)]
pub struct OSInfo {
    pub os_name: String,
    pub version: String,
    /// The build, on hosts that tell one.
    pub build_number: Option<String>,
    pub hostname: String,
    pub arch: String,
}

/// What a host tells of its operating system, as plain values.
pub struct OSInfoView {
    pub os_name: Seq<char>,
    pub version: Seq<char>,
    pub build_number: Option<Seq<char>>,
    pub hostname: Seq<char>,
    pub arch: Seq<char>,
}

impl View for OSInfo {
    type V = OSInfoView;

    open spec fn view(&self) -> OSInfoView {
        OSInfoView {
            os_name: self.os_name@,
            version: self.version@,
            build_number: opt_text(self.build_number),
            hostname: self.hostname@,
            arch: self.arch@,
        }
    }
}

/// The kernel version that `uname -r` printed: its output without line feeds.
pub open spec fn kernel_version_of(printed: Seq<char>) -> Seq<char> {
    replaced(printed, "\n"@, Seq::empty())
}

/// The lines that tell of the operating system, with the name shown as given: name,
/// build where there is one, version, host name and architecture.
pub open spec fn os_report(info: OSInfoView, shown_name: Seq<char>) -> Seq<char> {
    "OS: "@ + shown_name + match info.build_number {
        Some(build) => "\nBuild: "@ + build,
        None => Seq::empty(),
    } + "\nVersion: "@ + info.version + "\nHostname: "@ + info.hostname + "\nArchitecture: "@
        + info.arch
}

/// Whether the version that the host reported tells nothing, so that the kernel has
/// to be asked.
pub fn version_is_unknown(reported: &str) -> (b: bool)
    ensures
        b == (reported@ == "Unknown"@),
{
    text_eq(&chars_of(reported), &chars_of("Unknown"))
}

/// The kernel version that `uname -r` printed.
pub fn kernel_version(printed: &str) -> (v: String)
    ensures
        v@ == kernel_version_of(printed@),
{
    let none: Vec<char> = Vec::new();
    proof {
        assert(none@ =~= Seq::<char>::empty());
    }
    string_of(&replace_all(&chars_of(printed), &chars_of("\n"), &none))
}

/// The lines that tell of the operating system; `shown_name` is its name as the
/// console is to show it.
pub fn print_os_info(info: &OSInfo, shown_name: &str) -> (text: String)
    ensures
        text@ == os_report(info@, shown_name@),
{
    let mut text = String::from_str("OS: ");
    text.append(shown_name);
    match &info.build_number {
        Some(build) => {
            let ghost before = text@;
            text.append("\nBuild: ");
            text.append(build.as_str());
            proof {
                assert(text@ =~= before + ("\nBuild: "@ + build@));
            }
        },
        None => {
            proof {
                assert(text@ + Seq::<char>::empty() =~= text@);
            }
        },
    }
    text.append("\nVersion: ");
    text.append(info.version.as_str());
    text.append("\nHostname: ");
    text.append(info.hostname.as_str());
    text.append("\nArchitecture: ");
    text.append(info.arch.as_str());
    text
}

/// A tool that lists installed packages.
#[derive(Clone, Copy, Debug, PartialEq, Eq, Structural)]
pub enum Tool {
    Dpkg,
    Rpm,
    Pacman,
    Snap,
    Flatpak,
}

impl Tool {
    /// The path whose presence tells that the tool is installed.
    pub open spec fn spec_path(self) -> Seq<char> {
        match self {
            Tool::Dpkg => "/usr/bin/dpkg"@,
            Tool::Rpm => "/usr/bin/rpm"@,
            Tool::Pacman => "/usr/bin/pacman"@,
            Tool::Snap => "/usr/bin/snap"@,
            Tool::Flatpak => "/usr/bin/flatpak"@,
        }
    }

    /// The program to run for the tool's listing.
    pub open spec fn spec_program(self) -> Seq<char> {
        match self {
            Tool::Dpkg => "dpkg-query"@,
            Tool::Rpm => "rpm"@,
            Tool::Pacman => "pacman"@,
            Tool::Snap => "snap"@,
            Tool::Flatpak => "flatpak"@,
        }
    }

    /// The arguments that make the tool print the listing that this library reads.
    pub open spec fn spec_arguments(self) -> Seq<Seq<char>> {
        match self {
            Tool::Dpkg => seq!["-W"@, "-f=${Package}\t${Version}\t${Maintainer}\n"@],
            Tool::Rpm => seq![
                "-qa"@,
                "--queryformat"@,
                "%{NAME}\t%{VERSION}-%{RELEASE}\t%{VENDOR}\n"@,
            ],
            Tool::Pacman => seq!["-Q"@],
            Tool::Snap => seq!["list"@],
            Tool::Flatpak => seq!["list"@, "--app"@, "--columns=name,version,origin"@],
        }
    }

    /// The program to run for the tool's listing.
    pub fn program(&self) -> (p: &'static str)
        ensures
            p@ == self.spec_program(),
    {
        match self {
            Tool::Dpkg => "dpkg-query",
            Tool::Rpm => "rpm",
            Tool::Pacman => "pacman",
            Tool::Snap => "snap",
            Tool::Flatpak => "flatpak",
        }
    }

    /// The arguments that make the tool print the listing that this library reads.
    pub fn arguments(&self) -> (args: Vec<&'static str>)
        ensures
            args@.len() == self.spec_arguments().len(),
            forall|i: int|
                0 <= i < args@.len() ==> (#[trigger] args@[i])@ == self.spec_arguments()[i],
    {
        match self {
            Tool::Dpkg => vec!["-W", "-f=${Package}\t${Version}\t${Maintainer}\n"],
            Tool::Rpm => vec![
                "-qa",
                "--queryformat",
                "%{NAME}\t%{VERSION}-%{RELEASE}\t%{VENDOR}\n",
            ],
            Tool::Pacman => vec!["-Q"],
            Tool::Snap => vec!["list"],
            Tool::Flatpak => vec!["list", "--app", "--columns=name,version,origin"],
        }
    }

    /// The path whose presence tells that the tool is installed.
    pub fn path(&self) -> (p: &'static str)
        ensures
            p@ == self.spec_path(),
    {
        match self {
            Tool::Dpkg => "/usr/bin/dpkg",
            Tool::Rpm => "/usr/bin/rpm",
            Tool::Pacman => "/usr/bin/pacman",
            Tool::Snap => "/usr/bin/snap",
            Tool::Flatpak => "/usr/bin/flatpak",
        }
    }
}

/// Which package tools were found on the host.
#[derive(Clone, Copy, Debug, PartialEq, Eq, Structural)]
pub struct HostTools {
    pub dpkg: bool,
    pub rpm: bool,
    pub pacman: bool,
    pub snap: bool,
    pub flatpak: bool,
}

/// The tool of the distribution's own package manager: dpkg before rpm before pacman,
/// whichever is found first.
pub open spec fn native_tool(tools: HostTools) -> Option<Tool> {
    if tools.dpkg {
        Some(Tool::Dpkg)
    } else if tools.rpm {
        Some(Tool::Rpm)
    } else if tools.pacman {
        Some(Tool::Pacman)
    } else {
        None
    }
}

/// The tools to ask on a host, in order: the native one, then snap, then flatpak,
/// each only where it was found.
pub open spec fn tools_to_ask(tools: HostTools) -> Seq<Tool> {
    let native = match native_tool(tools) {
        Some(t) => seq![t],
        None => Seq::empty(),
    };
    let snap = if tools.snap {
        seq![Tool::Snap]
    } else {
        Seq::empty()
    };
    let flatpak = if tools.flatpak {
        seq![Tool::Flatpak]
    } else {
        Seq::empty()
    };
    native + snap + flatpak
}

/// Whether the host keeps its packages with dpkg.
pub fn is_debian_based(tools: &HostTools) -> (b: bool)
    ensures
        b == tools.dpkg,
{
    tools.dpkg
}

/// Whether the host keeps its packages with rpm.
pub fn is_redhat_based(tools: &HostTools) -> (b: bool)
    ensures
        b == tools.rpm,
{
    tools.rpm
}

/// Whether the host keeps its packages with pacman.
pub fn is_arch_based(tools: &HostTools) -> (b: bool)
    ensures
        b == tools.pacman,
{
    tools.pacman
}

/// The tool of the distribution's own package manager, if one was found.
pub fn native_manager(tools: &HostTools) -> (t: Option<Tool>)
    ensures
        t == native_tool(*tools),
{
    if is_debian_based(tools) {
        Some(Tool::Dpkg)
    } else if is_redhat_based(tools) {
        Some(Tool::Rpm)
    } else if is_arch_based(tools) {
        Some(Tool::Pacman)
    } else {
        None
    }
}

/// Whether a tool that cannot be run ends the listing: only the native one has to
/// answer; snap and flatpak are skipped where they fail.
pub fn must_answer(tools: &HostTools, tool: Tool) -> (b: bool)
    ensures
        b == (native_tool(*tools) == Some(tool)),
{
    match native_manager(tools) {
        Some(native) => native == tool,
        None => false,
    }
}

/// The tools to ask for the installed programs, in order.
pub fn managers_to_ask(tools: &HostTools) -> (v: Vec<Tool>)
    ensures
        v@ == tools_to_ask(*tools),
{
    let mut v: Vec<Tool> = Vec::new();
    match native_manager(tools) {
        Some(t) => {
            v.push(t);
        },
        None => {},
    }
    if tools.snap {
        v.push(Tool::Snap);
    }
    if tools.flatpak {
        v.push(Tool::Flatpak);
    }
    proof {
        assert(v@ =~= tools_to_ask(*tools));
    }
    v
}

} // verus!
