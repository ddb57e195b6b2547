//! What the command line and the settings say about starting up.

use vstd::prelude::*;

verus! {

/// `std::path::PathBuf`: a path in the file system, carried along unread.
#[verifier::external_type_specification]
#[verifier::external_body]
pub struct ExPathBuf(std::path::PathBuf);

/// The port of the Web UI where the command line names none.
pub const DEFAULT_PORT: u16 = 3000;

/// What the command line says.
#[derive(Debug)]
pub struct Cli {
    /// The configuration file to read in place of the usual one.
    pub config: Option<std::path::PathBuf>,
    /// The port of the Web UI.
    pub port: u16,
    /// Do not open the Web UI in the default browser.
    pub no_open: bool,
}

impl Default for Cli {
    /// What an empty command line says.
    fn default() -> (cli: Cli)
        ensures
            cli.config is None,
            cli.port == DEFAULT_PORT,
            !cli.no_open,
    {
        Cli { config: None, port: DEFAULT_PORT, no_open: false }
    }
}

/// Which parts of the program the settings switch on.
#[derive(Clone, Copy, Debug, PartialEq, Eq, Structural)]
pub struct Switches {
    pub bot: bool,
    pub autoplay: bool,
    pub proxy: bool,
}

/// What is started.
#[derive(Clone, Copy, Debug, PartialEq, Eq)]
pub struct LaunchPlan {
    pub start_bot: bool,
    pub start_autoplay: bool,
    pub start_capture: bool,
    /// The four numbers of the address to listen on.
    pub host: (u8, u8, u8, u8),
    pub port: u16,
    pub open_browser: bool,
}

/// What is started, for a command line and the settings. The Web UI listens on
/// the loopback address only.
pub fn launch_plan(cli: &Cli, switches: Switches) -> (plan: LaunchPlan)
    ensures
        plan == (LaunchPlan {
            start_bot: switches.bot,
            start_autoplay: switches.autoplay,
            start_capture: switches.proxy,
            host: (127, 0, 0, 1),
            port: cli.port,
            open_browser: !cli.no_open,
        }),
        plan == launched(cli.port, cli.no_open, switches),
{
    LaunchPlan {
        start_bot: switches.bot,
        start_autoplay: switches.autoplay,
        start_capture: switches.proxy,
        host: (127, 0, 0, 1),
        port: cli.port,
        open_browser: !cli.no_open,
    }
}

/// Where the files of the Web UI are.
#[derive(Clone, Copy, Debug, PartialEq, Eq, Structural)]
pub enum FrontendPlace {
    /// Beside the program.
    Adjacent,
    /// Where the sources were built.
    Built,
}

/// Where the files of the Web UI are: beside the program if its entry page is
/// there, which is not known if the program's own place is not. Nothing if the
/// entry page is in neither place.
pub fn frontend_place(adjacent: Option<bool>, built: bool) -> (place: Option<FrontendPlace>)
    ensures
        place == place_of_frontend(adjacent, built),
        place == if adjacent == Some(true) {
            Some(FrontendPlace::Adjacent)
        } else if built {
            Some(FrontendPlace::Built)
        } else {
            None
        },
{
    match adjacent {
        Some(true) => Some(FrontendPlace::Adjacent),
        _ => if built {
            Some(FrontendPlace::Built)
        } else {
            None
        },
    }
}

/// What is started, for a port, the browser switch and the settings.
pub open spec fn launched(port: u16, no_open: bool, switches: Switches) -> LaunchPlan {
    LaunchPlan {
        start_bot: switches.bot,
        start_autoplay: switches.autoplay,
        start_capture: switches.proxy,
        host: (127, 0, 0, 1),
        port,
        open_browser: !no_open,
    }
}

/// Each switch starts its own part and no other, whatever else is asked for. The
/// Web UI listens on the loopback address and the port that was named, and is
/// opened unless that was ruled out.
pub proof fn each_switch_starts_its_part(port: u16, no_open: bool, switches: Switches)
    ensures
        launched(port, no_open, switches).start_bot <==> switches.bot,
        launched(port, no_open, switches).start_autoplay <==> switches.autoplay,
        launched(port, no_open, switches).start_capture <==> switches.proxy,
        launched(port, no_open, switches).host == (127u8, 0u8, 0u8, 1u8),
        launched(port, no_open, switches).port == port,
        launched(port, no_open, switches).open_browser <==> !no_open,
{
}

/// Where the files of the Web UI are.
pub open spec fn place_of_frontend(adjacent: Option<bool>, built: bool) -> Option<FrontendPlace> {
    if adjacent == Some(true) {
        Some(FrontendPlace::Adjacent)
    } else if built {
        Some(FrontendPlace::Built)
    } else {
        None
    }
}

/// The files beside the program are used exactly if their entry page is there; the
/// built ones exactly if it is there and not beside the program.
pub proof fn the_nearer_frontend_is_used(adjacent: Option<bool>, built: bool)
    ensures
        place_of_frontend(adjacent, built) == Some(FrontendPlace::Adjacent) <==> (adjacent is Some
            && adjacent->0),
        place_of_frontend(adjacent, built) == Some(FrontendPlace::Built) <==> built && (
        adjacent is None || !adjacent->0),
        place_of_frontend(adjacent, built) is None <==> !built && (adjacent is None
            || !adjacent->0),
{
}

} // verus!
