//! The preview of a session: what is known of it, and its last output.
use ansi_to_tui::IntoText;
use vstd::prelude::*;

use crate::session::{Instance, Status};
use crate::text::{
    decimal, join, push_decimal, split, split_at_char, string_text, strip_prefix, texts,
    without_prefix,
};
use crate::tui::line::{
    add_line, below_first_row, bold, bold_span, colored, lesser, line_views, rows_of, span, split_rows,
    under_border, Area, Line, Role, SpanView,
};

verus! {

/// How many lines of `line_count` lie above the last `visible_height`, as far as
/// rows can be counted.
pub open spec fn hidden_lines(line_count: nat, visible_height: nat) -> nat {
    if line_count <= visible_height {
        0
    } else {
        lesser(line_count - visible_height, u16::MAX as int) as nat
    }
}

/// How many lines the output is scrolled back, of those that can be.
pub open spec fn scrolled_back(hidden: nat, user_offset: nat) -> nat {
    if user_offset <= hidden {
        user_offset
    } else {
        hidden
    }
}

fn depth(line_count: usize, visible_height: usize) -> (res: u16)
    requires
        line_count > visible_height,
    ensures
        res == hidden_lines(line_count as nat, visible_height as nat),
{
    let hidden: usize = line_count - visible_height;
    if hidden < u16::MAX as usize {
        hidden as u16
    } else {
        u16::MAX
    }
}

/// The first line to show: the last lines are shown, unless the user has
/// scrolled back.
pub fn compute_scroll(line_count: usize, visible_height: usize, user_offset: u16) -> (res: u16)
    ensures
        res == hidden_lines(line_count as nat, visible_height as nat) - scrolled_back(
            hidden_lines(line_count as nat, visible_height as nat),
            user_offset as nat,
        ),
        is_first_line(
            res as int,
            line_count as int,
            visible_height + 1,
            user_offset as int,
        ),
{
    if line_count <= visible_height {
        return 0;
    }
    let bottom = depth(line_count, visible_height);
    bottom.saturating_sub(user_offset)
}

/// What tells how far the output is scrolled back: nothing while the last lines
/// are shown, or all of them.
pub open spec fn scroll_indicator(line_count: nat, visible_height: nat, user_offset: nat) -> Option<
    Seq<char>,
> {
    if user_offset == 0 || line_count <= visible_height {
        None
    } else {
        let hidden = hidden_lines(line_count, visible_height);
        Some(" ["@ + decimal(scrolled_back(hidden, user_offset)) + "/"@ + decimal(hidden) + "] "@)
    }
}

/// Tells how far the output is scrolled back.
pub fn format_scroll_indicator(line_count: usize, visible_height: usize, user_offset: u16) -> (res:
    Option<String>)
    ensures
        string_text(res) == scroll_indicator(
            line_count as nat,
            visible_height as nat,
            user_offset as nat,
        ),
{
    if user_offset == 0 || line_count <= visible_height {
        return None;
    }
    let max_offset = depth(line_count, visible_height);
    let clamped = if user_offset <= max_offset {
        user_offset
    } else {
        max_offset
    };
    let mut text = " [".to_owned();
    push_decimal(&mut text, clamped as u64);
    text.append("/");
    push_decimal(&mut text, max_offset as u64);
    text.append("] ");
    Some(text)
}

/// While the user has not scrolled back, the last line shown is the last line
/// there is, or as near to it as rows can be counted; scrolled back far enough,
/// the first line shown is the first.
pub proof fn law_scroll_ends(line_count: nat, visible_height: nat, user_offset: nat)
    ensures
        user_offset == 0 && line_count >= visible_height ==> hidden_lines(
            line_count,
            visible_height,
        ) - scrolled_back(hidden_lines(line_count, visible_height), user_offset) == lesser(
            line_count - visible_height,
            u16::MAX as int,
        ),
        user_offset >= hidden_lines(line_count, visible_height) ==> hidden_lines(
            line_count,
            visible_height,
        ) - scrolled_back(hidden_lines(line_count, visible_height), user_offset) == 0,
{
}

/// Scrolling back one line more shows one line more of what is above, until the
/// first is reached.
pub proof fn law_scroll_steps(line_count: nat, visible_height: nat, user_offset: nat)
    ensures
        user_offset < hidden_lines(line_count, visible_height) ==> scrolled_back(
            hidden_lines(line_count, visible_height),
            user_offset + 1,
        ) == scrolled_back(hidden_lines(line_count, visible_height), user_offset) + 1,
        user_offset >= hidden_lines(line_count, visible_height) ==> scrolled_back(
            hidden_lines(line_count, visible_height),
            user_offset + 1,
        ) == scrolled_back(hidden_lines(line_count, visible_height), user_offset),
{
}

/// A path and the home directory as the file system knows them.
pub struct Canonical {
    pub path: String,
    /// The home directory, if it is text.
    pub home: Option<String>,
}

/// What is known of the home directory when a path is shortened.
pub struct HomeDir {
    /// Where it is said to be, if that is text.
    pub text: Option<String>,
    /// Where it and the path really are, if both exist.
    pub canonical: Option<Canonical>,
}

/// A path with the home directory at its front replaced by `~`.
pub open spec fn abbreviated(path: Seq<char>, home: Option<Seq<char>>) -> Option<Seq<char>> {
    match home {
        Some(home) => match without_prefix(path, home) {
            Some(rest) => Some("~"@ + rest),
            None => None,
        },
        None => None,
    }
}

/// A path as it is shown: where it really is, if that is known, and with `~` for
/// the home directory.
pub open spec fn shortened(path: Seq<char>, home: Option<HomeDir>) -> Seq<char> {
    match home {
        Some(home) => {
            let (place, base) = match home.canonical {
                Some(canonical) => (canonical.path@, string_text(canonical.home)),
                None => (path, string_text(home.text)),
            };
            match abbreviated(place, base) {
                Some(short) => short,
                None => place,
            }
        },
        None => path,
    }
}

fn abbreviate(path: &str, home: &Option<String>) -> (res: Option<String>)
    ensures
        string_text(res) == abbreviated(path@, string_text(*home)),
{
    match home {
        Some(home) => match strip_prefix(path, home.as_str()) {
            Some(rest) => Some(join("~", rest)),
            None => None,
        },
        None => None,
    }
}

/// The value of an optional reference.
pub open spec fn value_of(home: Option<&HomeDir>) -> Option<HomeDir> {
    match home {
        Some(home) => Some(*home),
        None => None,
    }
}

/// A path as it is shown.
pub fn shorten_path(path: &str, home: Option<&HomeDir>) -> (res: String)
    ensures
        res@ == shortened(path@, value_of(home)),
{
    match home {
        Some(home) => match &home.canonical {
            Some(canonical) => match abbreviate(canonical.path.as_str(), &canonical.home) {
                Some(short) => short,
                None => canonical.path.clone(),
            },
            None => match abbreviate(path, &home.text) {
                Some(short) => short,
                None => path.to_owned(),
            },
        },
        None => path.to_owned(),
    }
}

/// What stands after `~` in an abbreviated path, put behind the home directory,
/// is the path again.
pub proof fn law_abbreviation_can_be_undone(path: Seq<char>, home: Seq<char>)
    ensures
        match abbreviated(path, Some(home)) {
            Some(short) => short.take(1) == "~"@ && home + short.skip(1) == path,
            None => !home.is_prefix_of(path),
        },
{
    reveal_strlit("~");
    if home.is_prefix_of(path) {
        let short = "~"@ + path.skip(home.len() as int);
        assert(short.take(1) =~= "~"@);
        assert(home + short.skip(1) =~= path);
    }
}

/// A piece of output.
pub struct AnsiSpan {
    pub text: String,
    /// The colours by their names, if they are set.
    pub fg: Option<String>,
    pub bg: Option<String>,
    /// The modifiers that are switched on and off, one bit each.
    pub add_modifier: u16,
    pub sub_modifier: u16,
}

/// A piece of output by its texts.
pub struct AnsiSpanView {
    pub text: Seq<char>,
    pub fg: Option<Seq<char>>,
    pub bg: Option<Seq<char>>,
    pub add_modifier: u16,
    pub sub_modifier: u16,
}

impl View for AnsiSpan {
    type V = AnsiSpanView;

    open spec fn view(&self) -> AnsiSpanView {
        AnsiSpanView {
            text: self.text@,
            fg: string_text(self.fg),
            bg: string_text(self.bg),
            add_modifier: self.add_modifier,
            sub_modifier: self.sub_modifier,
        }
    }
}

/// A line of output.
pub struct AnsiLine {
    pub spans: Vec<AnsiSpan>,
}

impl View for AnsiLine {
    type V = Seq<AnsiSpanView>;

    open spec fn view(&self) -> Seq<AnsiSpanView> {
        self.spans@.map_values(|s: AnsiSpan| s@)
    }
}

/// The views of a number of lines of output.
pub open spec fn ansi_views(lines: Seq<AnsiLine>) -> Seq<Seq<AnsiSpanView>> {
    lines.map_values(|l: AnsiLine| l@)
}

/// The styled lines that `ansi_to_tui` reads from a terminal's output.
pub uninterp spec fn ansi_lines(content: Seq<char>) -> Seq<Seq<AnsiSpanView>>;

/// How many newlines there are in `s`.
pub open spec fn newlines(s: Seq<char>) -> nat
    decreases s.len(),
{
    if s.len() == 0 {
        0
    } else if s.last() == '\n' {
        newlines(s.drop_last()) + 1
    } else {
        newlines(s.drop_last())
    }
}

/// How many lines there are in a terminal's output: a newline at its end starts
/// no further line.
pub open spec fn output_lines(content: Seq<char>) -> nat {
    if content.len() > 0 && content.last() == '\n' {
        newlines(content)
    } else {
        newlines(content) + 1
    }
}

/// Reads styled lines from a terminal's output.
///
/// Calls `ansi_to_tui::IntoText::into_text`, and names the colours by what
/// `ratatui::style::Color` displays. Should it fail, the text is taken as it is;
/// it does not. Taken on trust: the lines depend on the text alone, and they end
/// where its newlines are.
#[verifier::external_body]
fn read_ansi(content: &str) -> (res: Vec<AnsiLine>)
    ensures
        ansi_views(res@) == ansi_lines(content@),
        res@.len() == output_lines(content@),
{
    let span = |s: ratatui::text::Span<'static>| AnsiSpan {
        text: s.content.into_owned(),
        fg: s.style.fg.map(|c| c.to_string()),
        bg: s.style.bg.map(|c| c.to_string()),
        add_modifier: s.style.add_modifier.bits(),
        sub_modifier: s.style.sub_modifier.bits(),
    };
    let line = |l: ratatui::text::Line<'static>| AnsiLine {
        spans: l.spans.into_iter().map(span).collect(),
    };
    let text = content.into_text().unwrap_or_else(|_| content.to_owned().into());
    text.lines.into_iter().map(line).collect()
}

/// The lines of a terminal's output, with their colours.
pub fn parse_output_text(content: &str) -> (res: Vec<AnsiLine>)
    ensures
        ansi_views(res@) == ansi_lines(content@),
        res@.len() == output_lines(content@),
{
    read_ansi(content)
}

/// The frame around a session's output.
pub struct OutputFrame {
    pub area: Area,
    pub title: String,
    /// Tells how far the output is scrolled back.
    pub indicator: Option<String>,
}

/// What is shown of a session's output.
pub enum Content {
    /// A hint, dimmed, in the middle.
    Hint(String),
    /// An error, wrapped.
    Failure(Vec<Line>),
    /// The output, from this line on.
    Output(Vec<AnsiLine>, u16),
}

/// What is known of a session, and where that is shown.
pub struct InfoBlock {
    pub area: Area,
    pub lines: Vec<Line>,
}

/// The preview of a session.
pub struct PreviewPlan {
    pub info: Option<InfoBlock>,
    pub frame: Option<OutputFrame>,
    /// Where the content is shown.
    pub inner: Area,
    pub content: Content,
}

/// How many lines of output fit into an area under a border.
pub open spec fn visible_rows(area: Area) -> nat {
    if area.height > 0 {
        (area.height - 1) as nat
    } else {
        0
    }
}

/// How many lines of output there are to show.
pub open spec fn shown_lines(shows: bool, cached_output: Seq<char>) -> nat {
    if shows && cached_output.len() > 0 {
        output_lines(cached_output)
    } else {
        0
    }
}

/// `frame` and `inner` are laid out in `area`: under a border with the title and
/// the indicator, or, where space is short, without one.
pub open spec fn framed(
    frame: Option<OutputFrame>,
    inner: Area,
    area: Area,
    title: Seq<char>,
    line_count: nat,
    scroll_offset: u16,
    compact: bool,
) -> bool {
    if compact {
        frame is None && inner == area
    } else {
        &&& frame is Some
        &&& frame->0.area == area
        &&& frame->0.title@ == title
        &&& string_text(frame->0.indicator) == scroll_indicator(
            line_count,
            visible_rows(area),
            scroll_offset as nat,
        )
        &&& inner == below_first_row(area)
    }
}

/// `content` is the output, scrolled as the user wants, or the hint that there is
/// none.
pub open spec fn output_or_hint(
    content: Content,
    cached_output: Seq<char>,
    area: Area,
    scroll_offset: u16,
) -> bool {
    if cached_output.len() == 0 {
        content matches Content::Hint(hint) && hint@ == "No output available"@
    } else {
        let hidden = hidden_lines(output_lines(cached_output), visible_rows(area));
        &&& content matches Content::Output(lines, first)
        &&& ansi_views(lines@) == ansi_lines(cached_output)
        &&& first == hidden - scrolled_back(hidden, scroll_offset as nat)
    }
}

/// The line that names a session's container, if it has one.
pub open spec fn sandbox_line(instance: Instance) -> Seq<Seq<SpanView>> {
    if instance.sandboxed() {
        seq![
            seq![
                colored("Sandbox: "@, Role::Dimmed),
                colored(instance.sandbox_info->0.container_name@, Role::Sandbox),
            ],
        ]
    } else {
        Seq::empty()
    }
}

/// What is known of a session, above the output of its terminal.
pub open spec fn terminal_info(instance: Instance, path: Seq<char>, running: bool) -> Seq<
    Seq<SpanView>,
> {
    let status = if running {
        colored("Running"@, Role::TerminalActive)
    } else {
        colored("Not started"@, Role::Dimmed)
    };
    seq![
        seq![colored("Title:   "@, Role::Dimmed), bold(instance.title@, Role::Text)],
        seq![colored("Path:    "@, Role::Dimmed), colored(path, Role::Text)],
        seq![colored("Status:  "@, Role::Dimmed), status],
    ] + sandbox_line(instance)
}

/// The colour of a session's status.
pub open spec fn status_role(status: Status) -> Role {
    match status {
        Status::Running => Role::Running,
        Status::Waiting => Role::Waiting,
        Status::Idle => Role::Idle,
        Status::Unknown => Role::Waiting,
        Status::Stopped => Role::Dimmed,
        Status::Hibernated => Role::Dimmed,
        Status::Error => Role::Error,
        Status::Starting => Role::Dimmed,
        Status::Deleting => Role::Waiting,
        Status::Creating => Role::Accent,
    }
}

/// The line that names a session's tool, and its profile if it has one.
pub open spec fn tool_line(instance: Instance) -> Seq<SpanView> {
    let tool = seq![colored("Tool: "@, Role::Dimmed), colored(instance.tool@, Role::Accent)];
    if instance.source_profile@.len() > 0 {
        seq![
            colored("Profile: "@, Role::Dimmed),
            colored(instance.source_profile@, Role::Accent),
            colored("  "@, Role::Plain),
        ] + tool
    } else {
        tool
    }
}

/// The lines about a session's worktree, if it has one.
pub open spec fn worktree_lines(instance: Instance, main_path: Seq<char>) -> Seq<Seq<SpanView>> {
    match instance.worktree_info {
        Some(tree) => {
            let block = seq![
                Seq::<SpanView>::empty(),
                seq![
                    colored("─"@, Role::Border),
                    colored(" Worktree "@, Role::Dimmed),
                    colored("─"@, Role::Border),
                ],
                seq![colored("Branch:  "@, Role::Dimmed), colored(tree.branch@, Role::Branch)],
                seq![colored("Main:    "@, Role::Dimmed), colored(main_path, Role::Text)],
            ];
            match tree.base_branch {
                Some(base) => block.push(
                    seq![colored("Base:    "@, Role::Dimmed), colored(base@, Role::Branch)],
                ),
                None => block,
            }
        },
        None => Seq::empty(),
    }
}

/// What is known of a session, above its output.
pub open spec fn session_info(instance: Instance, path: Seq<char>, main_path: Seq<char>) -> Seq<
    Seq<SpanView>,
> {
    seq![
        tool_line(instance),
        seq![colored("Path:    "@, Role::Dimmed), colored(path, Role::Text)],
        seq![
            colored("Status:  "@, Role::Dimmed),
            colored(instance.status.name(), status_role(instance.status)),
        ],
    ] + sandbox_line(instance) + worktree_lines(instance, main_path)
}

/// How many lines are known of a session above the output of its terminal.
pub open spec fn terminal_info_height(instance: Instance) -> u16 {
    if instance.sandboxed() {
        4
    } else {
        3
    }
}

/// How many lines are known of a session above its output.
pub open spec fn session_info_height(instance: Instance) -> u16 {
    let base = if instance.sandboxed() {
        4int
    } else {
        3int
    };
    match instance.worktree_info {
        Some(tree) => if tree.base_branch is Some {
            (base + 5) as u16
        } else {
            (base + 4) as u16
        },
        None => base as u16,
    }
}

/// As much room is made for what is known of a session as it has lines.
pub proof fn law_info_fits(
    instance: Instance,
    path: Seq<char>,
    main_path: Seq<char>,
    running: bool,
)
    ensures
        terminal_info(instance, path, running).len() == terminal_info_height(instance),
        session_info(instance, path, main_path).len() == session_info_height(instance),
{
}

/// The lines that show a session's error: one for each of its own.
pub open spec fn error_lines(error: Seq<char>) -> Seq<Seq<SpanView>> {
    seq![seq![bold("Error:"@, Role::Error)], Seq::<SpanView>::empty()] + split_at_char(
        error,
        '\n',
    ).map_values(|line: Seq<char>| seq![colored(line, Role::Error)])
}

/// The preview of a session.
pub struct Preview;

fn add_sandbox_line(lines: &mut Vec<Line>, instance: &Instance)
    ensures
        line_views(final(lines)@) == line_views(old(lines)@) + sandbox_line(*instance),
{
    if let Some(sandbox) = &instance.sandbox_info {
        if sandbox.enabled {
            let ghost before = line_views(lines@);
            let line = Line::of_two(
                span("Sandbox: ", Role::Dimmed),
                span(sandbox.container_name.as_str(), Role::Sandbox),
            );
            add_line(lines, line);
            assert(line_views(lines@) =~= before + sandbox_line(*instance));
            return;
        }
    }
    assert(line_views(lines@) =~= line_views(lines@) + sandbox_line(*instance));
}

/// Lays the frame out, and says where the content goes.
fn make_frame(
    area: Area,
    title: &str,
    line_count: usize,
    visible_height: usize,
    scroll_offset: u16,
    compact: bool,
) -> (res: (Option<OutputFrame>, Area))
    requires
        visible_height == visible_rows(area),
    ensures
        framed(res.0, res.1, area, title@, line_count as nat, scroll_offset, compact),
{
    if compact {
        (None, area)
    } else {
        let frame = OutputFrame {
            area,
            title: title.to_owned(),
            indicator: format_scroll_indicator(line_count, visible_height, scroll_offset),
        };
        (Some(frame), under_border(area))
    }
}

impl Preview {
    /// The preview of a session's terminal. `home` is what is known of the home
    /// directory for the session's path.
    pub fn render_terminal_preview(
        area: Area,
        instance: &Instance,
        terminal_running: bool,
        cached_output: &str,
        scroll_offset: u16,
        home: Option<&HomeDir>,
        compact: bool,
    ) -> (plan: PreviewPlan)
        ensures
            compact ==> plan.info is None,
            !compact ==> {
                &&& plan.info is Some
                &&& plan.info->0.area == rows_of(area, terminal_info_height(*instance), 1).0
                &&& line_views(plan.info->0.lines@) == terminal_info(
                    *instance,
                    shortened(instance.project_path@, value_of(home)),
                    terminal_running,
                )
            },
            ({
                let output_area = if compact {
                    area
                } else {
                    rows_of(area, terminal_info_height(*instance), 1).1
                };
                &&& framed(
                    plan.frame,
                    plan.inner,
                    output_area,
                    " Terminal Output "@,
                    shown_lines(terminal_running, cached_output@),
                    scroll_offset,
                    compact,
                )
                &&& if terminal_running {
                    output_or_hint(plan.content, cached_output@, output_area, scroll_offset)
                } else {
                    plan.content matches Content::Hint(hint) && hint@
                        == "Press Enter to start terminal"@
                }
                &&& terminal_running && cached_output@.len() > 0 ==> {
                    &&& plan.content matches Content::Output(lines, first)
                    &&& ansi_views(lines@) == ansi_lines(cached_output@)
                    &&& is_first_line(
                        first as int,
                        output_lines(cached_output@) as int,
                        output_area.height as int,
                        scroll_offset as int,
                    )
                }
            }),
            plan.content is Hint <==> !terminal_running || cached_output@.len() == 0,
    {
        let mut info: Option<InfoBlock> = None;
        let mut output_area = area;
        if !compact {
            let info_height: u16 = if instance.is_sandboxed() {
                4
            } else {
                3
            };
            let (top, rest) = split_rows(area, info_height, 1);
            let path = shorten_path(instance.project_path.as_str(), home);
            let mut lines: Vec<Line> = Vec::new();
            let title = Line::of_two(
                span("Title:   ", Role::Dimmed),
                bold_span(instance.title.as_str(), Role::Text),
            );
            add_line(&mut lines, title);
            let path_line = Line::of_two(
                span("Path:    ", Role::Dimmed),
                span(path.as_str(), Role::Text),
            );
            add_line(&mut lines, path_line);
            let status = if terminal_running {
                span("Running", Role::TerminalActive)
            } else {
                span("Not started", Role::Dimmed)
            };
            let status_line = Line::of_two(span("Status:  ", Role::Dimmed), status);
            add_line(&mut lines, status_line);
            add_sandbox_line(&mut lines, instance);
            assert(line_views(lines@) =~= terminal_info(*instance, path@, terminal_running));
            info = Some(InfoBlock { area: top, lines });
            output_area = rest;
        }
        let visible_height = output_area.height.saturating_sub(1) as usize;
        let nonempty = cached_output.unicode_len() > 0;
        let parsed = if terminal_running && nonempty {
            Some(parse_output_text(cached_output))
        } else {
            None
        };
        let line_count = match &parsed {
            Some(lines) => lines.len(),
            None => 0,
        };
        let (frame, inner) = make_frame(
            output_area,
            " Terminal Output ",
            line_count,
            visible_height,
            scroll_offset,
            compact,
        );
        let content = if !terminal_running {
            Content::Hint("Press Enter to start terminal".to_owned())
        } else {
            match parsed {
                Some(lines) => {
                    let first = compute_scroll(line_count, visible_height, scroll_offset);
                    Content::Output(lines, first)
                },
                None => Content::Hint("No output available".to_owned()),
            }
        };
        PreviewPlan { info, frame, inner, content }
    }

    /// The preview of a session. `home` and `main_home` are what is known of the
    /// home directory for the session's path and for that of its main
    /// repository.
    pub fn render_with_cache(
        area: Area,
        instance: &Instance,
        cached_output: &str,
        scroll_offset: u16,
        home: Option<&HomeDir>,
        main_home: Option<&HomeDir>,
        compact: bool,
    ) -> (plan: PreviewPlan)
        ensures
            compact ==> plan.info is None,
            !compact ==> {
                &&& plan.info is Some
                &&& plan.info->0.area == rows_of(area, session_info_height(*instance), 1).0
                &&& line_views(plan.info->0.lines@) == session_info(
                    *instance,
                    shortened(instance.project_path@, value_of(home)),
                    main_path(*instance, value_of(main_home)),
                )
            },
            ({
                let output_area = if compact {
                    area
                } else {
                    rows_of(area, session_info_height(*instance), 1).1
                };
                &&& framed(
                    plan.frame,
                    plan.inner,
                    output_area,
                    " Output "@,
                    shown_lines(instance.last_error is None, cached_output@),
                    scroll_offset,
                    compact,
                )
                &&& session_content(
                    plan.content,
                    *instance,
                    cached_output@,
                    output_area,
                    scroll_offset,
                )
                &&& instance.last_error is None && cached_output@.len() > 0 ==> {
                    &&& plan.content matches Content::Output(lines, first)
                    &&& ansi_views(lines@) == ansi_lines(cached_output@)
                    &&& is_first_line(
                        first as int,
                        output_lines(cached_output@) as int,
                        output_area.height as int,
                        scroll_offset as int,
                    )
                }
            }),
            plan.content is Hint <==> instance.last_error is None && cached_output@.len() == 0,
            plan.content is Failure <==> instance.last_error is Some,
    {
        let mut info: Option<InfoBlock> = None;
        let mut output_area = area;
        if !compact {
            let base: u16 = if instance.is_sandboxed() {
                4
            } else {
                3
            };
            let info_height: u16 = match &instance.worktree_info {
                Some(tree) => if tree.base_branch.is_some() {
                    base + 5
                } else {
                    base + 4
                },
                None => base,
            };
            let (top, rest) = split_rows(area, info_height, 1);
            let lines = Self::render_info(instance, home, main_home);
            info = Some(InfoBlock { area: top, lines });
            output_area = rest;
        }
        let (frame, inner, content) = Self::render_output_cached(
            output_area,
            instance,
            cached_output,
            scroll_offset,
            compact,
        );
        PreviewPlan { info, frame, inner, content }
    }

    /// What is known of a session.
    pub fn render_info(
        instance: &Instance,
        home: Option<&HomeDir>,
        main_home: Option<&HomeDir>,
    ) -> (lines: Vec<Line>)
        ensures
            line_views(lines@) == session_info(
                *instance,
                shortened(instance.project_path@, value_of(home)),
                main_path(*instance, value_of(main_home)),
            ),
    {
        let mut lines: Vec<Line> = Vec::new();
        let mut first = Line::empty();
        if instance.source_profile.as_str().unicode_len() > 0 {
            first.add(span("Profile: ", Role::Dimmed));
            first.add(span(instance.source_profile.as_str(), Role::Accent));
            first.add(span("  ", Role::Plain));
        }
        first.add(span("Tool: ", Role::Dimmed));
        first.add(span(instance.tool.as_str(), Role::Accent));
        assert(first@ =~= tool_line(*instance));
        add_line(&mut lines, first);
        let path = shorten_path(instance.project_path.as_str(), home);
        let path_line = Line::of_two(
            span("Path:    ", Role::Dimmed),
            span(path.as_str(), Role::Text),
        );
        add_line(&mut lines, path_line);
        let role = match instance.status {
            Status::Running => Role::Running,
            Status::Waiting => Role::Waiting,
            Status::Idle => Role::Idle,
            Status::Unknown => Role::Waiting,
            Status::Stopped => Role::Dimmed,
            Status::Hibernated => Role::Dimmed,
            Status::Error => Role::Error,
            Status::Starting => Role::Dimmed,
            Status::Deleting => Role::Waiting,
            Status::Creating => Role::Accent,
        };
        let status_line = Line::of_two(
            span("Status:  ", Role::Dimmed),
            span(instance.status.label(), role),
        );
        add_line(&mut lines, status_line);
        add_sandbox_line(&mut lines, instance);
        let ghost before = line_views(lines@);
        if let Some(tree) = &instance.worktree_info {
            add_line(&mut lines, Line::empty());
            let header = Line::of_three(
                span("─", Role::Border),
                span(" Worktree ", Role::Dimmed),
                span("─", Role::Border),
            );
            add_line(&mut lines, header);
            let branch = Line::of_two(
                span("Branch:  ", Role::Dimmed),
                span(tree.branch.as_str(), Role::Branch),
            );
            add_line(&mut lines, branch);
            let main = shorten_path(tree.main_repo_path.as_str(), main_home);
            let main_line = Line::of_two(
                span("Main:    ", Role::Dimmed),
                span(main.as_str(), Role::Text),
            );
            add_line(&mut lines, main_line);
            if let Some(base) = &tree.base_branch {
                let base_line = Line::of_two(
                    span("Base:    ", Role::Dimmed),
                    span(base.as_str(), Role::Branch),
                );
                add_line(&mut lines, base_line);
            }
        }
        proof {
            let tree = worktree_lines(*instance, main_path(*instance, value_of(main_home)));
            assert(line_views(lines@) =~= before + tree);
            assert(before + tree =~= session_info(
                *instance,
                path@,
                main_path(*instance, value_of(main_home)),
            ));
        }
        lines
    }

    /// A session's output: the frame around it, where it goes, and what is shown.
    pub fn render_output_cached(
        area: Area,
        instance: &Instance,
        cached_output: &str,
        scroll_offset: u16,
        compact: bool,
    ) -> (res: (Option<OutputFrame>, Area, Content))
        ensures
            framed(
                res.0,
                res.1,
                area,
                " Output "@,
                shown_lines(instance.last_error is None, cached_output@),
                scroll_offset,
                compact,
            ),
            session_content(res.2, *instance, cached_output@, area, scroll_offset),
            instance.last_error is None && cached_output@.len() > 0 ==> {
                &&& res.2 matches Content::Output(lines, first)
                &&& ansi_views(lines@) == ansi_lines(cached_output@)
                &&& is_first_line(
                    first as int,
                    output_lines(cached_output@) as int,
                    area.height as int,
                    scroll_offset as int,
                )
            },
            res.2 is Hint <==> instance.last_error is None && cached_output@.len() == 0,
            res.2 is Failure <==> instance.last_error is Some,
    {
        let visible_height = area.height.saturating_sub(1) as usize;
        let nonempty = cached_output.unicode_len() > 0;
        let parsed = if instance.last_error.is_none() && nonempty {
            Some(parse_output_text(cached_output))
        } else {
            None
        };
        let line_count = match &parsed {
            Some(lines) => lines.len(),
            None => 0,
        };
        let (frame, inner) = make_frame(
            area,
            " Output ",
            line_count,
            visible_height,
            scroll_offset,
            compact,
        );
        let content = match &instance.last_error {
            Some(error) => Content::Failure(show_error(error.as_str())),
            None => match parsed {
                Some(lines) => {
                    let first = compute_scroll(line_count, visible_height, scroll_offset);
                    Content::Output(lines, first)
                },
                None => Content::Hint("No output available".to_owned()),
            },
        };
        (frame, inner, content)
    }
}

/// The path of a session's main repository as it is shown.
pub open spec fn main_path(instance: Instance, home: Option<HomeDir>) -> Seq<char> {
    match instance.worktree_info {
        Some(tree) => shortened(tree.main_repo_path@, home),
        None => Seq::empty(),
    }
}

/// `content` is what is shown of a session: its error if it has one, else its
/// output.
pub open spec fn session_content(
    content: Content,
    instance: Instance,
    cached_output: Seq<char>,
    area: Area,
    scroll_offset: u16,
) -> bool {
    match instance.last_error {
        Some(error) => content matches Content::Failure(lines) && line_views(lines@)
            == error_lines(error@),
        None => output_or_hint(content, cached_output, area, scroll_offset),
    }
}

fn show_error(error: &str) -> (lines: Vec<Line>)
    ensures
        line_views(lines@) == error_lines(error@),
{
    let pieces = split(error, '\n');
    let ghost own = texts(pieces@).map_values(|line: Seq<char>| seq![colored(line, Role::Error)]);
    let mut lines: Vec<Line> = Vec::new();
    add_line(&mut lines, Line::of_one(bold_span("Error:", Role::Error)));
    add_line(&mut lines, Line::empty());
    let ghost head = line_views(lines@);
    let mut i: usize = 0;
    assert(head =~= head + own.take(0));
    while i < pieces.len()
        invariant
            i <= pieces@.len(),
            own == texts(pieces@).map_values(
                |line: Seq<char>| seq![colored(line, Role::Error)],
            ),
            line_views(lines@) == head + own.take(i as int),
        decreases pieces@.len() - i,
    {
        let ghost before = line_views(lines@);
        add_line(&mut lines, Line::of_one(span(pieces[i].as_str(), Role::Error)));
        proof {
            assert(own[i as int] == seq![colored(pieces@[i as int]@, Role::Error)]);
            assert(head + own.take(i + 1) =~= before.push(own[i as int]));
        }
        i = i + 1;
    }
    proof {
        assert(own.take(pieces@.len() as int) =~= own);
        assert(head =~= seq![seq![bold("Error:"@, Role::Error)], Seq::<SpanView>::empty()]);
    }
    lines
}

/// `first` is the line that an output of `count` lines is shown from, in an area
/// of `height` rows of which the border takes one: the last lines fill it, and
/// scrolling back shows as many lines more of what is above, as far as there are
/// any and rows can be counted.
pub open spec fn is_first_line(first: int, count: int, height: int, scrolled: int) -> bool {
    let rows = if height > 1 {
        height - 1
    } else {
        0
    };
    &&& count <= rows ==> first == 0
    &&& rows < count && count - rows <= 65_535 && scrolled <= count - rows ==> first + scrolled
        + rows == count
    &&& rows < count && count - rows <= 65_535 && scrolled > count - rows ==> first == 0
    &&& rows < count && count - rows > 65_535 ==> first + scrolled == 65_535
}

/// A session without an error shows its output, from the line that the user has
/// scrolled to, whenever there is any; the hint comes only where there is none,
/// and an error only where the session has one.
pub proof fn law_output_is_shown(
    content: Content,
    instance: Instance,
    cached_output: Seq<char>,
    area: Area,
    scroll_offset: u16,
)
    requires
        session_content(content, instance, cached_output, area, scroll_offset),
    ensures
        instance.last_error is None && cached_output.len() > 0 ==> {
            &&& content matches Content::Output(lines, first)
            &&& ansi_views(lines@) == ansi_lines(cached_output)
            &&& is_first_line(
                first as int,
                output_lines(cached_output) as int,
                area.height as int,
                scroll_offset as int,
            )
        },
        content is Hint <==> instance.last_error is None && cached_output.len() == 0,
        content matches Content::Hint(hint) ==> hint@ == "No output available"@,
        content is Failure <==> instance.last_error is Some,
        content matches Content::Failure(lines) ==> {
            let pieces = split_at_char(instance.last_error->0@, '\n');
            &&& lines@.len() == pieces.len() + 2
            &&& lines@[0]@ == seq![bold("Error:"@, Role::Error)]
            &&& lines@[1]@.len() == 0
            &&& forall|i: int|
                0 <= i < pieces.len() ==> (#[trigger] lines@[i + 2])@ == seq![
                    colored(pieces[i], Role::Error),
                ]
        },
{
    if let Content::Failure(lines) = content {
        let pieces = split_at_char(instance.last_error->0@, '\n');
        let views = line_views(lines@);
        assert(views.len() == lines@.len());
        assert(views[0] == lines@[0]@);
        assert(views[1] == lines@[1]@);
        assert forall|i: int| 0 <= i < pieces.len() implies (#[trigger] lines@[i + 2])@ == seq![
            colored(pieces[i], Role::Error),
        ] by {
            assert(views[i + 2] == lines@[i + 2]@);
        }
    }
}

/// Output that is there is never kept back: what is shown of it is all its lines,
/// from the line that the user has scrolled to.
pub proof fn law_output_or_hint(
    content: Content,
    cached_output: Seq<char>,
    area: Area,
    scroll_offset: u16,
)
    requires
        output_or_hint(content, cached_output, area, scroll_offset),
    ensures
        cached_output.len() > 0 ==> {
            &&& content matches Content::Output(lines, first)
            &&& ansi_views(lines@) == ansi_lines(cached_output)
            &&& is_first_line(
                first as int,
                output_lines(cached_output) as int,
                area.height as int,
                scroll_offset as int,
            )
        },
        cached_output.len() == 0 ==> {
            &&& content matches Content::Hint(hint)
            &&& hint@ == "No output available"@
        },
{
}

/// The indicator is shown exactly while the user has scrolled back and there is
/// something to scroll to; it says how far of how many lines, and never more
/// than there are.
pub proof fn law_indicator_tells_how_far(line_count: nat, visible_height: nat, user_offset: nat)
    ensures
        scroll_indicator(line_count, visible_height, user_offset) is Some <==> user_offset > 0
            && line_count > visible_height,
        user_offset > 0 && line_count > visible_height && line_count - visible_height <= 65_535
            && user_offset <= line_count - visible_height ==> scroll_indicator(
            line_count,
            visible_height,
            user_offset,
        ) == Some(
            " ["@ + decimal(user_offset) + "/"@ + decimal((line_count - visible_height) as nat)
                + "] "@,
        ),
        user_offset > 0 && line_count > visible_height && line_count - visible_height <= 65_535
            && user_offset > line_count - visible_height ==> scroll_indicator(
            line_count,
            visible_height,
            user_offset,
        ) == Some(
            " ["@ + decimal((line_count - visible_height) as nat) + "/"@ + decimal(
                (line_count - visible_height) as nat,
            ) + "] "@,
        ),
        0 < user_offset <= 65_535 && line_count - visible_height > 65_535 ==> scroll_indicator(
            line_count,
            visible_height,
            user_offset,
        ) == Some(" ["@ + decimal(user_offset) + "/"@ + decimal(65_535) + "] "@),
{
}

/// Without a border the whole area is the content's; with one, the first row is
/// the border's, and tells the title and how far the output is scrolled back.
pub proof fn law_border_takes_the_first_row(
    frame: Option<OutputFrame>,
    inner: Area,
    area: Area,
    title: Seq<char>,
    line_count: nat,
    scroll_offset: u16,
    compact: bool,
)
    requires
        framed(frame, inner, area, title, line_count, scroll_offset, compact),
        area.y + area.height <= u16::MAX,
    ensures
        frame is Some <==> !compact,
        compact ==> inner == area,
        frame matches Some(frame) ==> {
            &&& frame.area == area
            &&& frame.title@ == title
            &&& inner.x == area.x && inner.width == area.width
            &&& inner.y + inner.height == area.y + area.height
            &&& area.height > 0 ==> inner.height + 1 == area.height
            &&& frame.indicator is Some <==> scroll_offset > 0 && line_count + 1 > area.height
                && line_count > 0
            &&& string_text(frame.indicator) == scroll_indicator(
                line_count,
                if area.height > 0 {
                    (area.height - 1) as nat
                } else {
                    0
                },
                scroll_offset as nat,
            )
        },
{
}

/// Lines of output are counted exactly while the output is shown.
pub proof fn law_only_shown_output_is_counted(cached_output: Seq<char>)
    ensures
        shown_lines(false, cached_output) == 0,
        cached_output.len() == 0 ==> shown_lines(true, cached_output) == 0,
        cached_output.len() > 0 ==> shown_lines(true, cached_output) == output_lines(cached_output),
{
}

/// A path is shown where it really is, if that is known; a home directory at its
/// front makes way for `~`, and any other path is shown whole.
pub proof fn law_path_is_shortened_at_home(path: Seq<char>, home: Option<HomeDir>)
    ensures
        home is None ==> shortened(path, home) == path,
        home matches Some(dir) ==> {
            &&& dir.canonical matches Some(real_place) ==> {
                &&& real_place.home is None ==> shortened(path, home) == real_place.path@
                &&& real_place.home matches Some(base) ==> !base@.is_prefix_of(real_place.path@)
                    ==> shortened(path, home) == real_place.path@
                &&& real_place.home matches Some(base) ==> base@.is_prefix_of(real_place.path@)
                    ==> shortened(path, home) == "~"@ + real_place.path@.skip(base@.len() as int)
            }
            &&& dir.canonical is None && dir.text is None ==> shortened(path, home) == path
            &&& dir.canonical is None ==> (dir.text matches Some(base) ==> {
                &&& !base@.is_prefix_of(path) ==> shortened(path, home) == path
                &&& base@.is_prefix_of(path) ==> shortened(path, home) == "~"@ + path.skip(
                    base@.len() as int,
                )
            })
        },
{
}

/// A line of a dimmed label and a value.
pub open spec fn labelled(line: Seq<SpanView>, label: Seq<char>, value: SpanView) -> bool {
    line.len() == 2 && line[0] == colored(label, Role::Dimmed) && line[1] == value
}

/// What is known of a session names its tool, its path and its status, and its
/// profile, container and worktree exactly where it has them.
pub proof fn law_info_names_what_there_is(
    instance: Instance,
    path: Seq<char>,
    main_path: Seq<char>,
)
    ensures
        ({
            let info = session_info(instance, path, main_path);
            let boxed = instance.sandbox_info is Some && instance.sandbox_info->0.enabled;
            let next = if boxed {
                4int
            } else {
                3int
            };
            &&& info[0].last() == colored(instance.tool@, Role::Accent)
            &&& info[0][info[0].len() - 2] == colored("Tool: "@, Role::Dimmed)
            &&& instance.source_profile@.len() > 0 ==> info[0].len() == 5 && info[0][0] == colored(
                "Profile: "@,
                Role::Dimmed,
            ) && info[0][1] == colored(instance.source_profile@, Role::Accent) && info[0][2]
                == colored("  "@, Role::Plain)
            &&& instance.source_profile@.len() == 0 ==> info[0].len() == 2
            &&& labelled(info[1], "Path:    "@, colored(path, Role::Text))
            &&& labelled(
                info[2],
                "Status:  "@,
                colored(instance.status.name(), status_role(instance.status)),
            )
            &&& boxed ==> labelled(
                info[3],
                "Sandbox: "@,
                colored(instance.sandbox_info->0.container_name@, Role::Sandbox),
            )
            &&& instance.worktree_info is None ==> info.len() == next
            &&& instance.worktree_info matches Some(tree) ==> {
                &&& info.len() == next + if tree.base_branch is Some {
                    5int
                } else {
                    4int
                }
                &&& info[next].len() == 0
                &&& info[next + 1].len() == 3
                &&& info[next + 1][0] == colored("─"@, Role::Border)
                &&& info[next + 1][1] == colored(" Worktree "@, Role::Dimmed)
                &&& info[next + 1][2] == colored("─"@, Role::Border)
                &&& labelled(info[next + 2], "Branch:  "@, colored(tree.branch@, Role::Branch))
                &&& labelled(info[next + 3], "Main:    "@, colored(main_path, Role::Text))
                &&& tree.base_branch matches Some(base) ==> labelled(
                    info[next + 4],
                    "Base:    "@,
                    colored(base@, Role::Branch),
                )
            }
        }),
{
}

/// What is known of a session above its terminal names its title, its path, and
/// whether the terminal runs, and its container exactly where it has one.
pub proof fn law_terminal_info_names_what_there_is(
    instance: Instance,
    path: Seq<char>,
    running: bool,
)
    ensures
        ({
            let info = terminal_info(instance, path, running);
            let boxed = instance.sandbox_info is Some && instance.sandbox_info->0.enabled;
            &&& info.len() == if boxed {
                4int
            } else {
                3int
            }
            &&& labelled(info[0], "Title:   "@, bold(instance.title@, Role::Text))
            &&& labelled(info[1], "Path:    "@, colored(path, Role::Text))
            &&& running ==> labelled(
                info[2],
                "Status:  "@,
                colored("Running"@, Role::TerminalActive),
            )
            &&& !running ==> labelled(
                info[2],
                "Status:  "@,
                colored("Not started"@, Role::Dimmed),
            )
            &&& boxed ==> labelled(
                info[3],
                "Sandbox: "@,
                colored(instance.sandbox_info->0.container_name@, Role::Sandbox),
            )
        }),
{
}

/// A status that calls for attention has a colour of its own, the statuses of
/// sessions at rest or on their way up are dimmed, and what is unsure looks like
/// waiting.
pub proof fn law_status_has_its_colour(status: Status)
    ensures
        status_role(status) == Role::Running <==> status == Status::Running,
        status_role(status) == Role::Idle <==> status == Status::Idle,
        status_role(status) == Role::Error <==> status == Status::Error,
        status_role(status) == Role::Accent <==> status == Status::Creating,
        status_role(status) == Role::Waiting <==> status == Status::Waiting || status
            == Status::Unknown || status == Status::Deleting,
        status_role(status) == Role::Dimmed <==> status == Status::Stopped || status
            == Status::Hibernated || status == Status::Starting,
{
}

/// The main repository is that of the session's worktree, shortened like any
/// other path.
pub proof fn law_main_repository_is_the_worktrees(instance: Instance, home: Option<HomeDir>)
    ensures
        instance.worktree_info matches Some(tree) ==> main_path(instance, home) == shortened(
            tree.main_repo_path@,
            home,
        ),
{
}

/// A line of output is known by its pieces, each by its text, its colours and
/// its modifiers.
pub proof fn law_output_is_known_by_its_pieces(lines: Seq<AnsiLine>, piece: AnsiSpan)
    ensures
        piece@.text == piece.text@,
        piece@.fg == string_text(piece.fg),
        piece@.bg == string_text(piece.bg),
        piece@.add_modifier == piece.add_modifier,
        piece@.sub_modifier == piece.sub_modifier,
        ansi_views(lines).len() == lines.len(),
        forall|i: int|
            #![trigger ansi_views(lines)[i]]
            0 <= i < lines.len() ==> ansi_views(lines)[i].len() == lines[i].spans@.len()
                && forall|j: int|
                0 <= j < lines[i].spans@.len() ==> #[trigger] ansi_views(lines)[i][j]
                    == lines[i].spans@[j]@,
{
}

} // verus!
