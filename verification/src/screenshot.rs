//! Screenshot and clipboard tool selection: which external tools to run
//! for the detected display server, the output path for a capture, and
//! the explicit failure on a display server that neither tool chain
//! supports.

use vstd::prelude::*;

use crate::command::ToolCommand;
use crate::display::DisplayServer;

verus! {

/// The failure reported when an operation is not implemented for the
/// detected display server.
#[derive(Clone, Copy, PartialEq, Eq, Structural, Debug)]
pub struct UnsupportedDisplay;

/// How a capture proceeds: on Wayland a region is selected first and then
/// grabbed; on X11 a single interactive tool does both.
#[derive(Clone, Copy, PartialEq, Eq, Structural, Debug)]
pub enum CapturePlan {
    WaylandRegion,
    X11Interactive,
}

/// Decides how to capture on the given display server. Succeeds exactly
/// on Wayland and X11; everything else is an explicit unsupported
/// failure, and no capture is attempted there.
pub fn capture_plan(ds: DisplayServer) -> (r: Result<CapturePlan, UnsupportedDisplay>)
    ensures
        r is Ok <==> ds != DisplayServer::Other,
        ds == DisplayServer::Wayland ==> r == Ok::<CapturePlan, UnsupportedDisplay>(
            CapturePlan::WaylandRegion,
        ),
        ds == DisplayServer::X11 ==> r == Ok::<CapturePlan, UnsupportedDisplay>(
            CapturePlan::X11Interactive,
        ),
{
    match ds {
        DisplayServer::Wayland => Ok(CapturePlan::WaylandRegion),
        DisplayServer::X11 => Ok(CapturePlan::X11Interactive),
        DisplayServer::Other => Err(UnsupportedDisplay),
    }
}

/// The region-selection tool run first on Wayland.
pub fn region_select_command() -> (c: ToolCommand)
    ensures
        c.program@ == "slurp"@,
        c.args@.len() == 0,
{
    ToolCommand { program: String::from_str("slurp"), args: Vec::new() }
}

/// The Wayland grab: the screenshot tool applied to the selected region
/// and the output path.
pub fn wayland_capture_command(geometry: &str, output: &str) -> (c: ToolCommand)
    ensures
        c.program@ == "grim"@,
        c.args@.len() == 3,
        c.args@[0]@ == "-g"@,
        c.args@[1]@ == geometry@,
        c.args@[2]@ == output@,
{
    let mut args: Vec<String> = Vec::new();
    args.push(String::from_str("-g"));
    args.push(String::from_str(geometry));
    args.push(String::from_str(output));
    ToolCommand { program: String::from_str("grim"), args }
}

/// The X11 capture: one interactive-selection screenshot tool writing the
/// output path directly.
pub fn x11_capture_command(output: &str) -> (c: ToolCommand)
    ensures
        c.program@ == "maim"@,
        c.args@.len() == 2,
        c.args@[0]@ == "--select"@,
        c.args@[1]@ == output@,
{
    let mut args: Vec<String> = Vec::new();
    args.push(String::from_str("--select"));
    args.push(String::from_str(output));
    ToolCommand { program: String::from_str("maim"), args }
}

/// The tool that copies a captured image file to the clipboard, fed the
/// file on its standard input. Succeeds exactly on Wayland and X11.
pub fn clipboard_copy_command(ds: DisplayServer) -> (r: Result<ToolCommand, UnsupportedDisplay>)
    ensures
        r is Ok <==> ds != DisplayServer::Other,
        ds == DisplayServer::Wayland ==> (r matches Ok(c) && c.program@ == "wl-copy"@
            && c.args@.len() == 2 && c.args@[0]@ == "-t"@ && c.args@[1]@ == "image/png"@),
        ds == DisplayServer::X11 ==> (r matches Ok(c) && c.program@ == "xclip"@ && c.args@.len()
            == 4 && c.args@[0]@ == "--selection"@ && c.args@[1]@ == "clipboard"@ && c.args@[2]@
            == "-t"@ && c.args@[3]@ == "image/png"@),
{
    match ds {
        DisplayServer::Wayland => {
            let mut args: Vec<String> = Vec::new();
            args.push(String::from_str("-t"));
            args.push(String::from_str("image/png"));
            Ok(ToolCommand { program: String::from_str("wl-copy"), args })
        },
        DisplayServer::X11 => {
            let mut args: Vec<String> = Vec::new();
            args.push(String::from_str("--selection"));
            args.push(String::from_str("clipboard"));
            args.push(String::from_str("-t"));
            args.push(String::from_str("image/png"));
            Ok(ToolCommand { program: String::from_str("xclip"), args })
        },
        DisplayServer::Other => Err(UnsupportedDisplay),
    }
}

/// The tool whose standard output is the clipboard text. Succeeds exactly
/// on Wayland and X11.
pub fn clipboard_read_command(ds: DisplayServer) -> (r: Result<ToolCommand, UnsupportedDisplay>)
    ensures
        r is Ok <==> ds != DisplayServer::Other,
        ds == DisplayServer::Wayland ==> (r matches Ok(c) && c.program@ == "wl-paste"@
            && c.args@.len() == 0),
        ds == DisplayServer::X11 ==> (r matches Ok(c) && c.program@ == "xclip"@ && c.args@.len()
            == 1 && c.args@[0]@ == "-o"@),
{
    match ds {
        DisplayServer::Wayland => {
            Ok(ToolCommand { program: String::from_str("wl-paste"), args: Vec::new() })
        },
        DisplayServer::X11 => {
            let mut args: Vec<String> = Vec::new();
            args.push(String::from_str("-o"));
            Ok(ToolCommand { program: String::from_str("xclip"), args })
        },
        DisplayServer::Other => Err(UnsupportedDisplay),
    }
}

/// The tool that takes clipboard text on its standard input. Succeeds
/// exactly on Wayland and X11.
pub fn clipboard_write_command(ds: DisplayServer) -> (r: Result<ToolCommand, UnsupportedDisplay>)
    ensures
        r is Ok <==> ds != DisplayServer::Other,
        ds == DisplayServer::Wayland ==> (r matches Ok(c) && c.program@ == "wl-copy"@
            && c.args@.len() == 0),
        ds == DisplayServer::X11 ==> (r matches Ok(c) && c.program@ == "xclip"@ && c.args@.len()
            == 0),
{
    match ds {
        DisplayServer::Wayland => {
            Ok(ToolCommand { program: String::from_str("wl-copy"), args: Vec::new() })
        },
        DisplayServer::X11 => {
            Ok(ToolCommand { program: String::from_str("xclip"), args: Vec::new() })
        },
        DisplayServer::Other => Err(UnsupportedDisplay),
    }
}

/// The directory that synthesized screenshot files go into.
pub fn screenshots_dir() -> (r: String)
    ensures
        r@ == "/tmp/screenshots"@,
{
    String::from_str("/tmp/screenshots")
}

/// The synthesized output path for a capture taken at the given
/// timestamp.
pub open spec fn spec_default_screenshot_path(ts: Seq<char>) -> Seq<char> {
    "/tmp/screenshots/"@ + ts + ".png"@
}

/// Relies on chrono's `Local::now` and `DateTime::format`: renders the
/// current local time as "year-month-day_hour-minute-second". The result
/// depends on the clock, so only what holds of every rendering is stated:
/// the string is never empty and never holds a slash, being digits,
/// dashes and an underscore, with at most a sign before a year outside
/// 0-9999.
#[verifier::external_body]
fn local_timestamp() -> (r: String)
    ensures
        r@.len() > 0,
        forall|i: int| 0 <= i < r@.len() ==> r@[i] != '/',
{
    chrono::Local::now().format("%Y-%m-%d_%H-%M-%S").to_string()
}

/// The output path of a capture: the caller's path when one was given,
/// and otherwise a synthesized file named after the current local time
/// under the screenshots directory. The synthesized name is a nonempty,
/// slash-free timestamp, so the file always lands directly in that
/// directory.
pub fn screenshot_output_path(output: Option<String>) -> (r: String)
    ensures
        output matches Some(p) ==> r == p,
        output is None ==> exists|ts: Seq<char>|
            r@ == spec_default_screenshot_path(ts) && ts.len() > 0 && (forall|i: int|
                0 <= i < ts.len() ==> ts[i] != '/'),
{
    match output {
        Some(p) => p,
        None => {
            let ts = local_timestamp();
            let r = String::from_str("/tmp/screenshots/").concat(ts.as_str()).concat(".png");
            proof {
                assert(r@ == spec_default_screenshot_path(ts@));
            }
            r
        },
    }
}

} // verus!
