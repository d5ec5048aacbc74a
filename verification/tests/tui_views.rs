use agent_of_empires::session::{Instance, SandboxInfo, Status, WorktreeInfo};
use agent_of_empires::tui::deletion_poller::{
    DeletionPoller, DeletionRequest, DeletionResult, WorkerStep,
};
use agent_of_empires::tui::help::{
    content_line_count, shortcuts, HelpOverlay, BORDER_HEIGHT, BORDER_WIDTH, DIALOG_HEIGHT,
    DIALOG_WIDTH, KEY_COLUMN_WIDTH,
};
use agent_of_empires::tui::line::{under_border, Area, Line, Role};
use agent_of_empires::tui::preview::{
    compute_scroll, format_scroll_indicator, parse_output_text, shorten_path, Canonical, Content,
    HomeDir, Preview,
};

/// What this machine knows of the home directory for `path`.
fn probe(path: &str) -> Option<HomeDir> {
    let home = dirs::home_dir()?;
    let canonical = match (std::path::PathBuf::from(path).canonicalize(), home.canonicalize()) {
        (Ok(p), Ok(h)) => Some(Canonical {
            path: p.to_string_lossy().into_owned(),
            home: h.to_str().map(|t| t.to_string()),
        }),
        _ => None,
    };
    Some(HomeDir { text: home.to_str().map(|t| t.to_string()), canonical })
}

fn shorten(path: &str) -> String {
    shorten_path(path, probe(path).as_ref())
}

#[test]
fn test_shorten_path_with_home() {
    if let Some(home) = dirs::home_dir() {
        if let Some(home_str) = home.to_str() {
            let path = format!("{}/projects/myapp", home_str);
            let shortened = shorten(&path);
            assert_eq!(shortened, "~/projects/myapp");
        }
    }
}

#[test]
fn test_shorten_path_without_home_prefix() {
    let path = "/tmp/some/path";
    let shortened = shorten(path);
    assert_eq!(shortened, "/tmp/some/path");
}

#[test]
fn test_shorten_path_exact_home() {
    if let Some(home) = dirs::home_dir() {
        if let Some(home_str) = home.to_str() {
            let shortened = shorten(home_str);
            assert_eq!(shortened, "~");
        }
    }
}

#[test]
fn test_shorten_path_relative() {
    let path = "relative/path";
    let shortened = shorten(path);
    assert_eq!(shortened, "relative/path");
}

#[test]
fn test_shorten_path_empty() {
    let path = "";
    let shortened = shorten(path);
    assert_eq!(shortened, "");
}

#[test]
fn test_shorten_path_similar_prefix_not_home() {
    if let Some(home) = dirs::home_dir() {
        if let Some(home_str) = home.to_str() {
            let path = format!("{}extra/not/home", home_str);
            let shortened = shorten(&path);
            assert_eq!(shortened, format!("~extra/not/home"));
        }
    }
}

#[test]
fn test_shorten_path_preserves_trailing_slash() {
    if let Some(home) = dirs::home_dir() {
        if let Some(home_str) = home.to_str() {
            let path = format!("{}/projects/", home_str);
            let shortened = shorten(&path);
            assert_eq!(shortened, "~/projects/");
        }
    }
}

fn home(text: Option<&str>, canonical: Option<(&str, Option<&str>)>) -> HomeDir {
    HomeDir {
        text: text.map(|t| t.to_string()),
        canonical: canonical.map(|(p, h)| Canonical {
            path: p.to_string(),
            home: h.map(|t| t.to_string()),
        }),
    }
}

#[test]
fn real_places_go_before_names() {
    let linked = home(Some("/home/me"), Some(("/disk/me/work", Some("/disk/me"))));
    assert_eq!(shorten_path("/home/me/link", Some(&linked)), "~/work");
    let elsewhere = home(Some("/home/me"), Some(("/srv/work", Some("/disk/me"))));
    assert_eq!(shorten_path("/home/me/link", Some(&elsewhere)), "/srv/work");
    let odd = home(Some("/home/me"), Some(("/srv/work", None)));
    assert_eq!(shorten_path("/home/me/link", Some(&odd)), "/srv/work");
    let no_text = home(None, None);
    assert_eq!(shorten_path("/home/me/x", Some(&no_text)), "/home/me/x");
    assert_eq!(shorten_path("/home/me/x", None), "/home/me/x");
}

#[test]
fn compute_scroll_live_follow_when_content_fits() {
    assert_eq!(compute_scroll(5, 10, 0), 0);
    assert_eq!(compute_scroll(5, 10, 20), 0);
}

#[test]
fn compute_scroll_sticks_to_bottom_with_zero_offset() {
    assert_eq!(compute_scroll(100, 20, 0), 80);
}

#[test]
fn compute_scroll_walks_back_by_offset() {
    assert_eq!(compute_scroll(100, 20, 15), 65);
}

#[test]
fn compute_scroll_saturates_at_top() {
    assert_eq!(compute_scroll(100, 20, 500), 0);
}

#[test]
fn compute_scroll_follows_a_long_capture_as_far_as_rows_count() {
    assert_eq!(compute_scroll(65_555, 20, 0), 65_535);
    assert_eq!(compute_scroll(65_556, 20, 0), 65_535);
    assert_eq!(compute_scroll(1_000_000, 20, 0), 65_535);
    assert_eq!(compute_scroll(1_000_000, 20, 5), 65_530);
    assert_eq!(
        format_scroll_indicator(1_000_000, 20, 5),
        Some(" [5/65535] ".to_string())
    );
}

#[test]
fn scroll_indicator_hidden_when_live() {
    assert_eq!(format_scroll_indicator(100, 20, 0), None);
}

#[test]
fn scroll_indicator_hidden_when_content_fits() {
    assert_eq!(format_scroll_indicator(10, 20, 5), None);
}

#[test]
fn scroll_indicator_reports_position_and_max() {
    assert_eq!(format_scroll_indicator(100, 20, 15), Some(" [15/80] ".to_string()));
}

#[test]
fn scroll_indicator_clamps_to_max() {
    assert_eq!(format_scroll_indicator(100, 20, 500), Some(" [80/80] ".to_string()));
}

#[test]
fn output_is_read_with_its_colors() {
    let lines = parse_output_text("\u{1b}[31mred\u{1b}[0m plain\n\u{1b}[1;38;2;1;2;3mx");
    assert_eq!(lines.len(), 2);
    assert_eq!(lines[0].spans.len(), 2);
    assert_eq!(lines[0].spans[0].text, "red");
    assert_eq!(lines[0].spans[0].fg, Some("Red".to_string()));
    assert_eq!(lines[0].spans[1].text, " plain");
    assert_eq!(lines[0].spans[1].fg, Some("Reset".to_string()));
    assert_eq!(lines[1].spans[0].text, "x");
    assert_eq!(lines[1].spans[0].fg, Some("#010203".to_string()));
    assert_eq!(lines[1].spans[0].add_modifier & 1, 1);
}

#[test]
fn output_lines_end_at_newlines() {
    for (text, n) in [("a", 1), ("a\n", 1), ("a\nb", 2), ("a\n\n", 2), ("\n", 1), ("\n\nx", 3)] {
        assert_eq!(parse_output_text(text).len(), n, "{text:?}");
    }
    assert_eq!(parse_output_text("").len(), 1);
}

fn session() -> Instance {
    let mut s = Instance::new("id".to_string(), "Title".to_string(), "/p".to_string());
    s.tool = "aider".to_string();
    s
}

fn boxed() -> Instance {
    let mut s = session();
    s.sandbox_info = Some(SandboxInfo {
        enabled: true,
        container_name: "box".to_string(),
        custom_instruction: None,
    });
    s
}

fn area(x: u16, y: u16, width: u16, height: u16) -> Area {
    Area { x, y, width, height }
}

fn text(line: &Line) -> String {
    line.spans.iter().map(|s| s.text.as_str()).collect()
}

#[test]
fn areas_are_cut_with_the_output_first() {
    for height in 0..40u16 {
        for y in [0u16, 3, 200] {
            for (instance, wanted) in [(session(), 3u16), (boxed(), 4)] {
                let whole = area(2, y, 30, height);
                let plan =
                    Preview::render_terminal_preview(whole, &instance, false, "", 0, None, false);
                let info = plan.info.unwrap().area;
                let out = plan.frame.unwrap().area;
                let top = wanted.min(height.saturating_sub(1));
                assert_eq!(info, area(2, y, 30, top), "height {height}");
                assert_eq!(out, area(2, y + top, 30, height - top), "height {height}");
            }
        }
    }
}

#[test]
fn areas_beyond_the_last_row_are_fitted() {
    let whole = area(65_530, 65_525, 30, 40);
    let plan = Preview::render_terminal_preview(whole, &session(), false, "", 0, None, false);
    assert_eq!(plan.info.unwrap().area, area(65_530, 65_525, 5, 3));
    assert_eq!(plan.frame.unwrap().area, area(65_530, 65_528, 5, 7));
}

#[test]
fn borders_take_one_row() {
    assert_eq!(under_border(area(1, 2, 3, 4)), area(1, 3, 3, 3));
    assert_eq!(under_border(area(1, 2, 3, 0)), area(1, 2, 3, 0));
    assert_eq!(under_border(area(0, 65_535, 3, 1)), area(0, 65_535, 3, 0));
}

#[test]
fn a_terminal_preview_shows_info_and_output() {
    let h = home(Some("/home/me"), None);
    let mut instance = boxed();
    instance.project_path = "/home/me/p".to_string();
    let output = "l1\nl2\nl3\nl4\nl5\nl6\nl7\nl8\n";
    let plan = Preview::render_terminal_preview(
        area(0, 0, 40, 10),
        &instance,
        true,
        output,
        1,
        Some(&h),
        false,
    );
    let info = plan.info.unwrap();
    assert_eq!(
        info.lines.iter().map(text).collect::<Vec<_>>(),
        ["Title:   Title", "Path:    ~/p", "Status:  Running", "Sandbox: box"]
    );
    assert!(info.lines[0].spans[1].style.bold);
    assert_eq!(info.lines[2].spans[1].style.role, Role::TerminalActive);
    let frame = plan.frame.unwrap();
    assert_eq!(frame.title, " Terminal Output ");
    // Six rows are left, one of them for the border: eight lines, five shown.
    assert_eq!(frame.indicator, Some(" [1/3] ".to_string()));
    assert_eq!(plan.inner, area(0, 5, 40, 5));
    match plan.content {
        Content::Output(lines, first) => {
            assert_eq!(lines.len(), 8);
            assert_eq!(first, 2);
        }
        _ => panic!("output"),
    }
}

#[test]
fn terminal_hints() {
    let hint = |running: bool| {
        let plan =
            Preview::render_terminal_preview(area(0, 0, 9, 9), &session(), running, "", 0, None, true);
        assert!(plan.info.is_none() && plan.frame.is_none());
        assert_eq!(plan.inner, area(0, 0, 9, 9));
        match plan.content {
            Content::Hint(text) => text,
            _ => panic!("hint"),
        }
    };
    assert_eq!(hint(false), "Press Enter to start terminal");
    assert_eq!(hint(true), "No output available");
}

#[test]
fn session_info_lists_what_is_known() {
    let mut instance = boxed();
    instance.source_profile = "work".to_string();
    instance.status = Status::Waiting;
    instance.worktree_info = Some(WorktreeInfo {
        branch: "feature".to_string(),
        main_repo_path: "/home/me/main".to_string(),
        base_branch: Some("develop".to_string()),
    });
    let h = home(Some("/home/me"), None);
    let plan = Preview::render_with_cache(
        area(0, 0, 40, 30),
        &instance,
        "out",
        0,
        None,
        Some(&h),
        false,
    );
    let info = plan.info.unwrap();
    assert_eq!(
        info.lines.iter().map(text).collect::<Vec<_>>(),
        [
            "Profile: work  Tool: aider",
            "Path:    /p",
            "Status:  Waiting",
            "Sandbox: box",
            "",
            "─ Worktree ─",
            "Branch:  feature",
            "Main:    ~/main",
            "Base:    develop"
        ]
    );
    assert_eq!(info.area.height, 9);
    assert_eq!(plan.frame.unwrap().title, " Output ");
    instance.worktree_info.as_mut().unwrap().base_branch = None;
    instance.sandbox_info = None;
    instance.source_profile = String::new();
    let lines = Preview::render_info(&instance, None, None);
    assert_eq!(text(&lines[0]), "Tool: aider");
    assert_eq!(lines.len(), 7);
}

#[test]
fn status_colors() {
    for (status, role) in [
        (Status::Running, Role::Running),
        (Status::Waiting, Role::Waiting),
        (Status::Idle, Role::Idle),
        (Status::Unknown, Role::Waiting),
        (Status::Stopped, Role::Dimmed),
        (Status::Hibernated, Role::Dimmed),
        (Status::Error, Role::Error),
        (Status::Starting, Role::Dimmed),
        (Status::Deleting, Role::Waiting),
        (Status::Creating, Role::Accent),
    ] {
        let mut instance = session();
        instance.status = status;
        let lines = Preview::render_info(&instance, None, None);
        assert_eq!(lines[2].spans[1].style.role, role);
        assert_eq!(lines[2].spans[1].text, format!("{:?}", status));
    }
}

#[test]
fn errors_go_before_output() {
    let mut instance = session();
    instance.last_error = Some("bad\nworse\n".to_string());
    let (frame, inner, content) =
        Preview::render_output_cached(area(0, 0, 9, 9), &instance, "out", 3, true);
    assert!(frame.is_none());
    assert_eq!(inner, area(0, 0, 9, 9));
    match content {
        Content::Failure(lines) => {
            assert_eq!(
                lines.iter().map(text).collect::<Vec<_>>(),
                ["Error:", "", "bad", "worse", ""]
            );
            assert!(lines[0].spans[0].style.bold);
            assert_eq!(lines[2].spans[0].style.role, Role::Error);
        }
        _ => panic!("error"),
    }
    let (_, _, content) = Preview::render_output_cached(area(0, 0, 9, 9), &session(), "", 0, true);
    assert!(matches!(content, Content::Hint(_)));
}

#[test]
fn help_contains_resize_shortcut() {
    for strict in [false, true] {
        let all = shortcuts(strict);
        let views_section = all.iter().find(|(name, _)| *name == "Views");
        assert!(views_section.is_some(), "Views section should exist");
        let (_, keys) = views_section.unwrap();
        assert!(
            keys.iter().any(|(k, _)| *k == "H/L"),
            "Views section should contain H/L resize shortcut"
        );
    }
}

#[test]
fn help_lists_command_palette() {
    // Asserts both keymaps surface the Ctrl+K command palette entry in
    // their "Other" section so users can discover the palette from `?`.
    for strict in [false, true] {
        let all = shortcuts(strict);
        let other = all
            .iter()
            .find(|(name, _)| *name == "Other")
            .expect("Other section should exist");
        let (_, keys) = other;
        assert!(
            keys.iter()
                .any(|(k, desc)| *k == "Ctrl+K" && desc.contains("Command palette")),
            "Other section should contain Ctrl+K Command palette (strict={strict})"
        );
    }
}

#[test]
fn help_content_fits_in_dialog() {
    let available_height = (DIALOG_HEIGHT - BORDER_HEIGHT) as usize;
    let available_width = (DIALOG_WIDTH - BORDER_WIDTH) as usize;
    for strict in [false, true] {
        let content_lines = content_line_count(strict);
        assert!(
            content_lines <= available_height,
            "Help content ({content_lines} lines, strict={strict}) exceeds dialog inner height ({available_height} lines)"
        );
        for (section, keys) in shortcuts(strict) {
            assert!(
                section.len() <= available_width,
                "Section header '{section}' exceeds dialog width ({available_width} chars)"
            );
            for (key, desc) in keys {
                let line_width = KEY_COLUMN_WIDTH + desc.len();
                assert!(
                    line_width <= available_width,
                    "Shortcut '{key}' description '{desc}' exceeds dialog width ({line_width} > {available_width})"
                );
            }
        }
    }
}

#[test]
fn help_is_laid_out() {
    let plan = HelpOverlay::render(area(0, 0, 100, 60), "Newest", false, true, "1.2.3");
    assert_eq!(plan.area, area(25, 7, 50, 45));
    assert_eq!(plan.title, " Keyboard Shortcuts ");
    assert_eq!(plan.version, " Agent of Empires v1.2.3 ");
    assert_eq!(plan.lines.len(), content_line_count(false));
    let lines: Vec<String> = plan.lines.iter().map(text).collect();
    assert_eq!(lines[0], "Navigation");
    assert_eq!(lines[1], "  j/↓        Move down");
    assert_eq!(lines[8], "");
    assert_eq!(lines[9], "Actions");
    assert_eq!(lines[28], "             (current sort: Newest [locked])");
    assert_eq!(lines[42], "  q          Quit");
    let strict = HelpOverlay::render(area(0, 0, 20, 10), "Oldest", true, false, "1");
    assert_eq!(strict.area, area(0, 0, 20, 10));
    assert_eq!(strict.lines.len(), 42);
    let lines: Vec<String> = strict.lines.iter().map(text).collect();
    assert_eq!(lines[9], "Actions (strict mode)");
    assert_eq!(lines[28], "             (current sort: Oldest)");
    assert_eq!(lines[41], "  Q          Quit");
}

fn request(id: &str) -> DeletionRequest {
    DeletionRequest {
        session_id: id.to_string(),
        instance: Instance::new(
            id.to_string(),
            "Test Session".to_string(),
            "/tmp/test-project".to_string(),
        ),
        delete_worktree: false,
        delete_branch: false,
        delete_sandbox: false,
        force_delete: false,
        detach_hooks: true,
    }
}

fn work(poller: &mut DeletionPoller) -> bool {
    match poller.next_request() {
        WorkerStep::Perform(request) => poller.deletion_loop(DeletionResult {
            session_id: request.session_id,
            success: true,
            error: None,
        }),
        WorkerStep::Wait => true,
        WorkerStep::Stop => false,
    }
}

#[test]
fn test_deletion_poller_channel_communication() {
    let mut poller = DeletionPoller::new();
    let session_id = "Test Session".to_string();
    poller.request_deletion(request(&session_id));

    let mut result = None;
    for _ in 0..50 {
        result = poller.try_recv_result();
        if result.is_some() {
            break;
        }
        work(&mut poller);
    }
    assert!(result.is_some(), "Timed out waiting for deletion result");

    let result = result.unwrap();
    assert_eq!(result.session_id, session_id);
    assert!(result.success);
}

#[test]
fn test_deletion_poller_try_recv_returns_none_when_empty() {
    let mut poller = DeletionPoller::new();
    assert!(poller.try_recv_result().is_none());
}

#[test]
fn deletions_are_served_in_order() {
    let mut poller = DeletionPoller::default();
    for id in ["a", "b", "c"] {
        poller.request_deletion(request(id));
    }
    for _ in 0..4 {
        assert!(work(&mut poller));
    }
    for id in ["a", "b", "c"] {
        assert_eq!(poller.try_recv_result().unwrap().session_id, id);
    }
    assert!(poller.try_recv_result().is_none());
}

#[test]
fn the_worker_stops_once_nobody_listens() {
    let mut poller = DeletionPoller::new();
    poller.request_deletion(request("a"));
    poller.close();
    assert!(!work(&mut poller));
    assert!(poller.try_recv_result().is_none());
    assert!(!work(&mut poller));
}
