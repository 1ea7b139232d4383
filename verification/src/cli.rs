//! The command line, once it has been parsed.

use vstd::prelude::*;

use crate::manifest::Channel;
use crate::update::version::{channel_of, channel_of_version};

verus! {

/// The form of what is written to standard output.
#[derive(Clone, Copy, Debug, PartialEq, Eq, Structural)]
pub enum OutputFormat {
    /// One JSON value on each line.
    Json,
    /// Lines for people.
    Plain,
}

/// A channel, as the command line names it.
#[derive(Clone, Copy, Debug, PartialEq, Eq, Structural)]
pub enum ChannelArg {
    Stable,
    Snapshot,
    Experimental,
}

impl ChannelArg {
    /// The channel that the argument names.
    pub open spec fn channel(self) -> Channel {
        match self {
            ChannelArg::Stable => Channel::Stable,
            ChannelArg::Snapshot => Channel::Snapshot,
            ChannelArg::Experimental => Channel::Experimental,
        }
    }
}

impl From<ChannelArg> for Channel {
    fn from(value: ChannelArg) -> (r: Channel) {
        match value {
            ChannelArg::Stable => Channel::Stable,
            ChannelArg::Snapshot => Channel::Snapshot,
            ChannelArg::Experimental => Channel::Experimental,
        }
    }
}

impl vstd::std_specs::convert::FromSpecImpl<ChannelArg> for Channel {
    open spec fn obeys_from_spec() -> bool {
        true
    }

    open spec fn from_spec(value: ChannelArg) -> Channel {
        value.channel()
    }
}

/// The arguments of `update`.
#[derive(Debug)]
pub struct UpdateArgs {
    /// The channel to install from; the installed one unless given.
    pub channel: Option<ChannelArg>,
    /// Permit a release older than the installed one.
    pub allow_downgrade: bool,
    /// Do not ask whether the VPN is connected.
    pub force: bool,
    /// The daemon's socket.
    pub socket_path: String,
}

/// The arguments of `check-update`.
#[derive(Debug)]
pub struct CheckArgs {
    /// The channel to check; the installed one unless given.
    pub channel: Option<ChannelArg>,
    /// Do not ask whether the VPN is connected.
    pub force: bool,
    /// The daemon's socket.
    pub socket_path: String,
}

/// What the updater is asked to do.
#[derive(Debug)]
pub enum Command {
    /// Download and install an update, and report on it meanwhile.
    Update(UpdateArgs),
    /// Tell whether there is an update.
    CheckUpdate(CheckArgs),
    /// Tell the versions of the updater and of the installed client.
    Version,
}

/// The parsed command line.
#[derive(Debug)]
pub struct Cli {
    pub output: Option<OutputFormat>,
    pub command: Command,
}

impl Cli {
    /// The form of the output: what was asked for, or else JSON for `update`,
    /// whose output programs read, and plain lines for the others.
    pub open spec fn format_of(self) -> OutputFormat {
        match self.output {
            Some(format) => format,
            None => if self.command is Update {
                OutputFormat::Json
            } else {
                OutputFormat::Plain
            },
        }
    }

    /// The form of the output.
    pub fn format(&self) -> (r: OutputFormat)
        ensures
            r == self.format_of(),
    {
        match self.output {
            Some(format) => format,
            None => match self.command {
                Command::Update(_) => OutputFormat::Json,
                _ => OutputFormat::Plain,
            },
        }
    }
}

/// The channel that is meant: the one asked for, or else that of the installed
/// version, so that an installation stays on its channel.
pub open spec fn meant_channel(asked: Option<ChannelArg>, installed: Seq<char>) -> Channel {
    match asked {
        Some(arg) => arg.channel(),
        None => channel_of(installed),
    }
}

/// The channel that is meant when `asked` was asked for and version
/// `installed` is installed.
pub fn resolve_channel(asked: Option<ChannelArg>, installed: &str) -> (r: Channel)
    ensures
        r == meant_channel(asked, installed@),
{
    match asked {
        Some(arg) => Channel::from(arg),
        None => channel_of_version(installed),
    }
}

/// A channel that is asked for is the one that is meant, whatever is installed:
/// the one that the argument names.
pub proof fn law_asked_channel_is_meant(arg: ChannelArg, installed: Seq<char>)
    ensures
        arg is Stable ==> meant_channel(Some(arg), installed) == Channel::Stable,
        arg is Snapshot ==> meant_channel(Some(arg), installed) == Channel::Snapshot,
        arg is Experimental ==> meant_channel(Some(arg), installed) == Channel::Experimental,
{
}

/// Where no channel is asked for an installation stays on its channel; and
/// which channel is meant depends on what is installed only there.
pub proof fn law_installation_stays_on_its_channel(
    asked: Option<ChannelArg>,
    installed: Seq<char>,
    other: Seq<char>,
)
    ensures
        meant_channel(None, installed) == channel_of(installed),
        meant_channel(asked, installed) != meant_channel(asked, other) ==> asked is None
            && channel_of(installed) != channel_of(other),
{
}

/// A form of output that is asked for is used; otherwise only `update` gives
/// JSON.
pub proof fn law_asked_form_is_used(cli: Cli, format: OutputFormat)
    ensures
        cli.output == Some(format) ==> cli.format_of() == format,
        cli.output is None ==> (cli.format_of() == OutputFormat::Json <==> cli.command is Update),
        cli.output is None ==> (cli.format_of() == OutputFormat::Plain <==> !(cli.command
            is Update)),
{
}

} // verus!
