use slipbox::cli::choose_editor;
use slipbox::cli::debug_message;
use slipbox::cli::test_message;
use slipbox::command::editor_command;
use slipbox::command::picker_command;
use slipbox::display::DisplayServer;
use slipbox::screenshot::CapturePlan;
use slipbox::screenshot::UnsupportedDisplay;
use slipbox::screenshot::capture_plan;
use slipbox::screenshot::clipboard_copy_command;
use slipbox::screenshot::clipboard_read_command;
use slipbox::screenshot::clipboard_write_command;
use slipbox::screenshot::region_select_command;
use slipbox::screenshot::screenshot_output_path;
use slipbox::screenshot::screenshots_dir;
use slipbox::screenshot::wayland_capture_command;
use slipbox::screenshot::x11_capture_command;

#[test]
fn capture_is_refused_on_an_unsupported_display_server() {
    assert_eq!(capture_plan(DisplayServer::Other), Err(UnsupportedDisplay));
    assert_eq!(
        clipboard_copy_command(DisplayServer::Other).map(|c| c.program),
        Err(UnsupportedDisplay)
    );
    assert_eq!(
        clipboard_read_command(DisplayServer::Other).map(|c| c.program),
        Err(UnsupportedDisplay)
    );
    assert_eq!(
        clipboard_write_command(DisplayServer::Other).map(|c| c.program),
        Err(UnsupportedDisplay)
    );
}

#[test]
fn capture_plans_per_display_server() {
    assert_eq!(capture_plan(DisplayServer::Wayland), Ok(CapturePlan::WaylandRegion));
    assert_eq!(capture_plan(DisplayServer::X11), Ok(CapturePlan::X11Interactive));
}

#[test]
fn wayland_capture_tool_chain() {
    let region = region_select_command();
    assert_eq!(region.program, "slurp");
    assert!(region.args.is_empty());

    let grab = wayland_capture_command("10,20 300x200", "/tmp/shot.png");
    assert_eq!(grab.program, "grim");
    assert_eq!(grab.args, vec!["-g", "10,20 300x200", "/tmp/shot.png"]);

    let copy = clipboard_copy_command(DisplayServer::Wayland).unwrap();
    assert_eq!(copy.program, "wl-copy");
    assert_eq!(copy.args, vec!["-t", "image/png"]);
}

#[test]
fn x11_capture_tool_chain() {
    let grab = x11_capture_command("/tmp/shot.png");
    assert_eq!(grab.program, "maim");
    assert_eq!(grab.args, vec!["--select", "/tmp/shot.png"]);

    let copy = clipboard_copy_command(DisplayServer::X11).unwrap();
    assert_eq!(copy.program, "xclip");
    assert_eq!(copy.args, vec!["--selection", "clipboard", "-t", "image/png"]);
}

#[test]
fn clipboard_text_tools_per_display_server() {
    let read = clipboard_read_command(DisplayServer::Wayland).unwrap();
    assert_eq!(read.program, "wl-paste");
    assert!(read.args.is_empty());

    let read = clipboard_read_command(DisplayServer::X11).unwrap();
    assert_eq!(read.program, "xclip");
    assert_eq!(read.args, vec!["-o"]);

    let write = clipboard_write_command(DisplayServer::Wayland).unwrap();
    assert_eq!(write.program, "wl-copy");
    assert!(write.args.is_empty());

    let write = clipboard_write_command(DisplayServer::X11).unwrap();
    assert_eq!(write.program, "xclip");
    assert!(write.args.is_empty());
}

#[test]
fn explicit_output_path_is_kept() {
    assert_eq!(screenshot_output_path(Some(String::from("/tmp/mine.png"))), "/tmp/mine.png");
}

#[test]
fn synthesized_output_path_lands_in_the_screenshots_directory() {
    assert_eq!(screenshots_dir(), "/tmp/screenshots");
    let p = screenshot_output_path(None);
    assert!(p.starts_with("/tmp/screenshots/"));
    assert!(p.ends_with(".png"));
    let timestamp = &p["/tmp/screenshots/".len()..p.len() - ".png".len()];
    assert!(!timestamp.is_empty());
    assert!(!timestamp.contains('/'));
}

#[test]
fn picker_uses_the_fuzzy_finder_with_a_preview() {
    let c = picker_command("/home/u/Notes/slipbox");
    assert_eq!(c.program, "fzf");
    assert_eq!(
        c.args,
        vec!["--preview", "bat /home/u/Notes/slipbox/{} --color=always --style=snip"]
    );
}

#[test]
fn editor_gets_the_selected_note() {
    let c = editor_command("nvim", "/home/u/Notes/slipbox/a.md");
    assert_eq!(c.program, "nvim");
    assert_eq!(c.args, vec!["/home/u/Notes/slipbox/a.md"]);
}

#[test]
fn editor_flag_wins_over_environment_and_fallback() {
    assert_eq!(
        choose_editor(Some(String::from("hx")), Some(String::from("vi"))),
        "hx"
    );
    assert_eq!(choose_editor(None, Some(String::from("vi"))), "vi");
    assert_eq!(choose_editor(None, None), "nvim");
}

#[test]
fn debug_messages_are_tiered() {
    assert_eq!(debug_message(0), "Debug mode is off");
    assert_eq!(debug_message(1), "Debug mode is kind of on");
    assert_eq!(debug_message(2), "Debug mode is on");
    assert_eq!(debug_message(3), "Don't be crazy");
    assert_eq!(debug_message(255), "Don't be crazy");
}

#[test]
fn test_command_messages() {
    assert_eq!(test_message(true), "Printing testing lists...");
    assert_eq!(test_message(false), "Not printing testing lists...");
}
