//! The help overlay: the keyboard shortcuts.
use vstd::prelude::*;

use crate::text::{join3, pad_right, padded, same_text};
use crate::tui::line::{
    add_line, bold, bold_span, colored, lesser, line_views, span, Area, Line, Role, SpanView,
    Style,
};

verus! {

/// How wide and high the overlay is, where there is room.
pub const DIALOG_WIDTH: u16 = 50;

pub const DIALOG_HEIGHT: u16 = 45;

/// How many columns and rows of it the border takes.
pub const BORDER_WIDTH: u16 = 2;

pub const BORDER_HEIGHT: u16 = 2;

/// How many columns the keys take: an indent of two, and eleven for the key.
pub const KEY_COLUMN_WIDTH: usize = 13;

/// A key and what it does.
pub type Shortcut = (&'static str, &'static str);

/// A heading and the shortcuts under it.
pub type Section = (&'static str, Vec<Shortcut>);

/// A section by its texts.
pub type SectionView = (Seq<char>, Seq<(Seq<char>, Seq<char>)>);

/// The texts of a number of shortcuts.
pub open spec fn shortcut_views(list: Seq<Shortcut>) -> Seq<(Seq<char>, Seq<char>)> {
    list.map_values(|s: Shortcut| (s.0@, s.1@))
}

/// The texts of a section.
pub open spec fn section_view(section: Section) -> SectionView {
    (section.0@, shortcut_views(section.1@))
}

/// The texts of a number of sections.
pub open spec fn section_views(list: Seq<Section>) -> Seq<SectionView> {
    list.map_values(|s: Section| section_view(s))
}

/// Moving about.
pub open spec fn navigation_keys() -> Seq<(Seq<char>, Seq<char>)> {
    seq![
        ("j/↓"@, "Move down"@),
        ("k/↑"@, "Move up"@),
        ("h/←"@, "Collapse group"@),
        ("l/→"@, "Expand group"@),
        ("Home/End/G"@, "Go to top / bottom"@),
        ("PgUp/Dn"@, "Move 10 (also Shift+↑/↓, { })"@),
        ("w"@, "Next waiting/idle session"@),
    ]
}

/// Acting on a session.
pub open spec fn actions_keys() -> Seq<(Seq<char>, Seq<char>)> {
    seq![
        ("Enter"@, "Attach to session"@),
        ("T"@, "Attach to terminal"@),
        ("n"@, "New session"@),
        ("N"@, "New from selection"@),
        ("x"@, "Stop session"@),
        ("z"@, "Hibernate session"@),
        ("d"@, "Delete session/group"@),
        ("r"@, "Rename session/group"@),
        ("m"@, "Send message to agent"@),
    ]
}

/// Acting on a session. With strict hotkeys, nothing happens by a slip.
pub open spec fn strict_actions_keys() -> Seq<(Seq<char>, Seq<char>)> {
    seq![
        ("Enter"@, "Attach to session"@),
        ("Ctrl+T"@, "Attach to terminal"@),
        ("N"@, "New session"@),
        ("Ctrl+N"@, "New from selection"@),
        ("X"@, "Stop session"@),
        ("z"@, "Hibernate session"@),
        ("D"@, "Delete session/group"@),
        ("R"@, "Rename session/group"@),
        ("M"@, "Send message to agent"@),
    ]
}

/// What is shown.
pub open spec fn views_keys() -> Seq<(Seq<char>, Seq<char>)> {
    seq![
        ("t"@, "Toggle Agent/Terminal view"@),
        ("c"@, "Toggle container/host (sandbox)"@),
        ("D"@, "Diff view (git changes)"@),
        ("H/L"@, "Resize list panel"@),
        ("o"@, "Cycle sort forward"@),
        ("Ctrl+o"@, "Cycle sort backward"@),
        ("g"@, "Toggle group by project"@),
    ]
}

/// What is shown. With strict hotkeys, nothing happens by a slip.
pub open spec fn strict_views_keys() -> Seq<(Seq<char>, Seq<char>)> {
    seq![
        ("T"@, "Toggle Agent/Terminal view"@),
        ("C"@, "Toggle container/host (sandbox)"@),
        ("Ctrl+D"@, "Diff view (git changes)"@),
        ("H/L"@, "Resize list panel"@),
        ("O"@, "Cycle sort forward"@),
        ("Ctrl+O"@, "Cycle sort backward"@),
        ("Ctrl+G"@, "Toggle group by project"@),
    ]
}

/// The rest.
pub open spec fn other_keys() -> Seq<(Seq<char>, Seq<char>)> {
    seq![
        ("/"@, "Search"@),
        ("n/N"@, "Next/prev match"@),
        ("s"@, "Settings"@),
        ("P"@, "Profiles"@),
        ("p"@, "Projects"@),
        ("R"@, "Serve (LAN / Tunnel)"@),
        ("u"@, "Update aoe (when available)"@),
        ("Ctrl+x"@, "Dismiss update bar (this session)"@),
        ("Shift+drag"@, "Select text in preview"@),
        ("Ctrl+K"@, "Command palette"@),
        ("?"@, "Toggle help"@),
        ("q"@, "Quit"@),
    ]
}

/// The rest. With strict hotkeys, nothing happens by a slip.
pub open spec fn strict_other_keys() -> Seq<(Seq<char>, Seq<char>)> {
    seq![
        ("/"@, "Search"@),
        ("n/N"@, "Next/prev match"@),
        ("S"@, "Settings"@),
        ("P"@, "Profiles"@),
        ("Ctrl+R"@, "Serve (LAN / Tunnel)"@),
        ("u"@, "Update aoe (when available)"@),
        ("Ctrl+x"@, "Dismiss update bar (this session)"@),
        ("Shift+drag"@, "Select text in preview"@),
        ("Ctrl+K"@, "Command palette"@),
        ("?"@, "Toggle help"@),
        ("Q"@, "Quit"@),
    ]
}

/// The sections of the help overlay.
pub open spec fn help_sections(strict: bool) -> Seq<SectionView> {
    if strict {
        seq![
            ("Navigation"@, navigation_keys()),
            ("Actions (strict mode)"@, strict_actions_keys()),
            ("Views"@, strict_views_keys()),
            ("Other"@, strict_other_keys()),
        ]
    } else {
        seq![
            ("Navigation"@, navigation_keys()),
            ("Actions"@, actions_keys()),
            ("Views"@, views_keys()),
            ("Other"@, other_keys()),
        ]
    }
}

fn navigation_list() -> (res: Vec<Shortcut>)
    ensures
        shortcut_views(res@) == navigation_keys(),
{
    let res: Vec<Shortcut> = vec![
        ("j/↓", "Move down"),
        ("k/↑", "Move up"),
        ("h/←", "Collapse group"),
        ("l/→", "Expand group"),
        ("Home/End/G", "Go to top / bottom"),
        ("PgUp/Dn", "Move 10 (also Shift+↑/↓, { })"),
        ("w", "Next waiting/idle session"),
    ];
    assert(shortcut_views(res@) =~= navigation_keys());
    res
}

fn actions_list() -> (res: Vec<Shortcut>)
    ensures
        shortcut_views(res@) == actions_keys(),
{
    let res: Vec<Shortcut> = vec![
        ("Enter", "Attach to session"),
        ("T", "Attach to terminal"),
        ("n", "New session"),
        ("N", "New from selection"),
        ("x", "Stop session"),
        ("z", "Hibernate session"),
        ("d", "Delete session/group"),
        ("r", "Rename session/group"),
        ("m", "Send message to agent"),
    ];
    assert(shortcut_views(res@) =~= actions_keys());
    res
}

fn strict_actions_list() -> (res: Vec<Shortcut>)
    ensures
        shortcut_views(res@) == strict_actions_keys(),
{
    let res: Vec<Shortcut> = vec![
        ("Enter", "Attach to session"),
        ("Ctrl+T", "Attach to terminal"),
        ("N", "New session"),
        ("Ctrl+N", "New from selection"),
        ("X", "Stop session"),
        ("z", "Hibernate session"),
        ("D", "Delete session/group"),
        ("R", "Rename session/group"),
        ("M", "Send message to agent"),
    ];
    assert(shortcut_views(res@) =~= strict_actions_keys());
    res
}

fn views_list() -> (res: Vec<Shortcut>)
    ensures
        shortcut_views(res@) == views_keys(),
{
    let res: Vec<Shortcut> = vec![
        ("t", "Toggle Agent/Terminal view"),
        ("c", "Toggle container/host (sandbox)"),
        ("D", "Diff view (git changes)"),
        ("H/L", "Resize list panel"),
        ("o", "Cycle sort forward"),
        ("Ctrl+o", "Cycle sort backward"),
        ("g", "Toggle group by project"),
    ];
    assert(shortcut_views(res@) =~= views_keys());
    res
}

fn strict_views_list() -> (res: Vec<Shortcut>)
    ensures
        shortcut_views(res@) == strict_views_keys(),
{
    let res: Vec<Shortcut> = vec![
        ("T", "Toggle Agent/Terminal view"),
        ("C", "Toggle container/host (sandbox)"),
        ("Ctrl+D", "Diff view (git changes)"),
        ("H/L", "Resize list panel"),
        ("O", "Cycle sort forward"),
        ("Ctrl+O", "Cycle sort backward"),
        ("Ctrl+G", "Toggle group by project"),
    ];
    assert(shortcut_views(res@) =~= strict_views_keys());
    res
}

fn other_list() -> (res: Vec<Shortcut>)
    ensures
        shortcut_views(res@) == other_keys(),
{
    let res: Vec<Shortcut> = vec![
        ("/", "Search"),
        ("n/N", "Next/prev match"),
        ("s", "Settings"),
        ("P", "Profiles"),
        ("p", "Projects"),
        ("R", "Serve (LAN / Tunnel)"),
        ("u", "Update aoe (when available)"),
        ("Ctrl+x", "Dismiss update bar (this session)"),
        ("Shift+drag", "Select text in preview"),
        ("Ctrl+K", "Command palette"),
        ("?", "Toggle help"),
        ("q", "Quit"),
    ];
    assert(shortcut_views(res@) =~= other_keys());
    res
}

fn strict_other_list() -> (res: Vec<Shortcut>)
    ensures
        shortcut_views(res@) == strict_other_keys(),
{
    let res: Vec<Shortcut> = vec![
        ("/", "Search"),
        ("n/N", "Next/prev match"),
        ("S", "Settings"),
        ("P", "Profiles"),
        ("Ctrl+R", "Serve (LAN / Tunnel)"),
        ("u", "Update aoe (when available)"),
        ("Ctrl+x", "Dismiss update bar (this session)"),
        ("Shift+drag", "Select text in preview"),
        ("Ctrl+K", "Command palette"),
        ("?", "Toggle help"),
        ("Q", "Quit"),
    ];
    assert(shortcut_views(res@) =~= strict_other_keys());
    res
}

/// The shortcuts, by section.
pub fn shortcuts(strict: bool) -> (res: Vec<Section>)
    ensures
        section_views(res@) == help_sections(strict),
{
    let res: Vec<Section> = if strict {
        vec![
            ("Navigation", navigation_list()),
            ("Actions (strict mode)", strict_actions_list()),
            ("Views", strict_views_list()),
            ("Other", strict_other_list()),
        ]
    } else {
        vec![
            ("Navigation", navigation_list()),
            ("Actions", actions_list()),
            ("Views", views_list()),
            ("Other", other_list()),
        ]
    };
    assert(section_views(res@) =~= help_sections(strict));
    res
}

/// A line that says what a key does.
pub open spec fn shortcut_line(key: Seq<char>, description: Seq<char>) -> Seq<SpanView> {
    seq![colored("  "@ + padded(key, 11), Role::Waiting), colored(description, Role::Text)]
}

/// The lines of a section: its heading, its shortcuts and, under "Views", how
/// the sessions are sorted.
pub open spec fn section_lines(section: SectionView, sort_label: Seq<char>) -> Seq<Seq<SpanView>> {
    let lines = seq![seq![bold(section.0, Role::Accent)]] + section.1.map_values(
        |s: (Seq<char>, Seq<char>)| shortcut_line(s.0, s.1),
    );
    if section.0 == "Views"@ {
        lines.push(shortcut_line(Seq::empty(), sort_label))
    } else {
        lines
    }
}

/// The lines of a number of sections, with an empty line after each but the
/// last of all.
pub open spec fn lines_of_sections(
    sections: Seq<SectionView>,
    total: nat,
    sort_label: Seq<char>,
) -> Seq<Seq<SpanView>>
    decreases sections.len(),
{
    if sections.len() == 0 {
        Seq::empty()
    } else {
        let lines = lines_of_sections(sections.drop_last(), total, sort_label) + section_lines(
            sections.last(),
            sort_label,
        );
        if sections.len() < total {
            lines.push(Seq::<SpanView>::empty())
        } else {
            lines
        }
    }
}

/// The lines of the help overlay.
pub open spec fn help_lines(strict: bool, sort_label: Seq<char>) -> Seq<Seq<SpanView>> {
    lines_of_sections(help_sections(strict), help_sections(strict).len(), sort_label)
}

/// How the sessions are sorted, in words.
pub open spec fn sort_words(order: Seq<char>, locked: bool) -> Seq<char> {
    if locked {
        "(current sort: "@ + order + " [locked])"@
    } else {
        "(current sort: "@ + order + ")"@
    }
}

/// How many lines a section takes.
pub open spec fn section_height(section: SectionView) -> nat {
    if section.0 == "Views"@ {
        section.1.len() + 2
    } else {
        section.1.len() + 1
    }
}

/// How many lines a number of sections take, of `total`.
pub open spec fn height_of_sections(sections: Seq<SectionView>, total: nat) -> nat
    decreases sections.len(),
{
    if sections.len() == 0 {
        0
    } else {
        let height = height_of_sections(sections.drop_last(), total) + section_height(
            sections.last(),
        );
        if sections.len() < total {
            height + 1
        } else {
            height
        }
    }
}

proof fn lemma_height(sections: Seq<SectionView>, total: nat, sort_label: Seq<char>)
    ensures
        lines_of_sections(sections, total, sort_label).len() == height_of_sections(sections, total),
    decreases sections.len(),
{
    if sections.len() > 0 {
        lemma_height(sections.drop_last(), total, sort_label);
    }
}

/// The headings but "Views" have other texts than it.
proof fn lemma_headings()
    ensures
        "Navigation"@ != "Views"@,
        "Actions (strict mode)"@ != "Views"@,
        "Actions"@ != "Views"@,
        "Other"@ != "Views"@,
{
    reveal_strlit("Navigation");
    reveal_strlit("Actions (strict mode)");
    reveal_strlit("Actions");
    reveal_strlit("Other");
    reveal_strlit("Views");
    assert("Other"@[0] != "Views"@[0]);
}

proof fn lemma_help_height(strict: bool)
    ensures
        height_of_sections(help_sections(strict), 4) == if strict {
            42nat
        } else {
            43nat
        },
{
    lemma_headings();
    let all = help_sections(strict);
    let three = all.drop_last();
    let two = three.drop_last();
    let one = two.drop_last();
    assert(one.drop_last() =~= Seq::<SectionView>::empty());
    reveal_with_fuel(height_of_sections, 6);
    assert(height_of_sections(one.drop_last(), 4) == 0);
    assert(height_of_sections(one, 4) == 9);
    assert(height_of_sections(two, 4) == 20);
    assert(height_of_sections(three, 4) == 30);
}

/// How many lines the overlay has.
pub fn content_line_count(strict: bool) -> (count: usize)
    ensures
        count == height_of_sections(help_sections(strict), help_sections(strict).len()),
        count == if strict {
            42int
        } else {
            43int
        },
{
    let sections = shortcuts(strict);
    let ghost all = help_sections(strict);
    let n = sections.len();
    proof {
        lemma_help_height(strict);
        lemma_headings();
        assert(section_views(sections@).len() == n);
        assert(n == 4);
        assert(all.take(0) =~= Seq::<SectionView>::empty());
    }
    let mut count: usize = 0;
    let mut i: usize = 0;
    while i < n
        invariant
            i <= n,
            n == 4,
            sections@.len() == n,
            all == section_views(sections@),
            all == help_sections(strict),
            count == height_of_sections(all.take(i as int), 4),
            count <= 20 * i,
        decreases n - i,
    {
        proof {
            assert(all.take(i + 1).drop_last() =~= all.take(i as int));
            assert(all.take(i + 1).last() == section_view(sections@[i as int]));
            assert(shortcut_views(sections@[i as int].1@).len() == sections@[i as int].1@.len());
            assert(all[i as int].1.len() <= 12);
        }
        count = count + 1 + sections[i].1.len();
        if same_text(sections[i].0, "Views") {
            count = count + 1;
        }
        if i + 1 < n {
            count = count + 1;
        }
        i = i + 1;
    }
    assert(all.take(4) =~= all);
    count
}

/// The overlay has as many lines as `content_line_count` says, and they fit
/// between its borders.
pub proof fn law_help_fits_in_height(strict: bool, sort_label: Seq<char>)
    ensures
        help_lines(strict, sort_label).len() == height_of_sections(
            help_sections(strict),
            help_sections(strict).len(),
        ),
        help_lines(strict, sort_label).len() <= DIALOG_HEIGHT - BORDER_HEIGHT,
{
    lemma_height(help_sections(strict), help_sections(strict).len(), sort_label);
    lemma_help_height(strict);
}

/// The shortcuts fit between the borders of the overlay: a key into its column,
/// and what it does beside it.
pub open spec fn fits_in_width(keys: Seq<(Seq<char>, Seq<char>)>) -> bool {
    forall|i: int|
        #![trigger keys[i]]
        0 <= i < keys.len() ==> 2 + keys[i].0.len() <= KEY_COLUMN_WIDTH && KEY_COLUMN_WIDTH
            + keys[i].1.len() <= DIALOG_WIDTH - BORDER_WIDTH
}

proof fn lemma_navigation_fit()
    ensures
        fits_in_width(navigation_keys()),
{
    reveal_strlit("j/↓");
    reveal_strlit("Move down");
    reveal_strlit("k/↑");
    reveal_strlit("Move up");
    reveal_strlit("h/←");
    reveal_strlit("Collapse group");
    reveal_strlit("l/→");
    reveal_strlit("Expand group");
    reveal_strlit("Home/End/G");
    reveal_strlit("Go to top / bottom");
    reveal_strlit("PgUp/Dn");
    reveal_strlit("Move 10 (also Shift+↑/↓, { })");
    reveal_strlit("w");
    reveal_strlit("Next waiting/idle session");
}

proof fn lemma_actions_fit()
    ensures
        fits_in_width(actions_keys()),
{
    reveal_strlit("Enter");
    reveal_strlit("Attach to session");
    reveal_strlit("T");
    reveal_strlit("Attach to terminal");
    reveal_strlit("n");
    reveal_strlit("New session");
    reveal_strlit("N");
    reveal_strlit("New from selection");
    reveal_strlit("x");
    reveal_strlit("Stop session");
    reveal_strlit("z");
    reveal_strlit("Hibernate session");
    reveal_strlit("d");
    reveal_strlit("Delete session/group");
    reveal_strlit("r");
    reveal_strlit("Rename session/group");
    reveal_strlit("m");
    reveal_strlit("Send message to agent");
}

proof fn lemma_strict_actions_fit()
    ensures
        fits_in_width(strict_actions_keys()),
{
    reveal_strlit("Enter");
    reveal_strlit("Attach to session");
    reveal_strlit("Ctrl+T");
    reveal_strlit("Attach to terminal");
    reveal_strlit("N");
    reveal_strlit("New session");
    reveal_strlit("Ctrl+N");
    reveal_strlit("New from selection");
    reveal_strlit("X");
    reveal_strlit("Stop session");
    reveal_strlit("z");
    reveal_strlit("Hibernate session");
    reveal_strlit("D");
    reveal_strlit("Delete session/group");
    reveal_strlit("R");
    reveal_strlit("Rename session/group");
    reveal_strlit("M");
    reveal_strlit("Send message to agent");
}

proof fn lemma_views_fit()
    ensures
        fits_in_width(views_keys()),
{
    reveal_strlit("t");
    reveal_strlit("Toggle Agent/Terminal view");
    reveal_strlit("c");
    reveal_strlit("Toggle container/host (sandbox)");
    reveal_strlit("D");
    reveal_strlit("Diff view (git changes)");
    reveal_strlit("H/L");
    reveal_strlit("Resize list panel");
    reveal_strlit("o");
    reveal_strlit("Cycle sort forward");
    reveal_strlit("Ctrl+o");
    reveal_strlit("Cycle sort backward");
    reveal_strlit("g");
    reveal_strlit("Toggle group by project");
}

proof fn lemma_strict_views_fit()
    ensures
        fits_in_width(strict_views_keys()),
{
    reveal_strlit("T");
    reveal_strlit("Toggle Agent/Terminal view");
    reveal_strlit("C");
    reveal_strlit("Toggle container/host (sandbox)");
    reveal_strlit("Ctrl+D");
    reveal_strlit("Diff view (git changes)");
    reveal_strlit("H/L");
    reveal_strlit("Resize list panel");
    reveal_strlit("O");
    reveal_strlit("Cycle sort forward");
    reveal_strlit("Ctrl+O");
    reveal_strlit("Cycle sort backward");
    reveal_strlit("Ctrl+G");
    reveal_strlit("Toggle group by project");
}

proof fn lemma_other_fit()
    ensures
        fits_in_width(other_keys()),
{
    reveal_strlit("/");
    reveal_strlit("Search");
    reveal_strlit("n/N");
    reveal_strlit("Next/prev match");
    reveal_strlit("s");
    reveal_strlit("Settings");
    reveal_strlit("P");
    reveal_strlit("Profiles");
    reveal_strlit("p");
    reveal_strlit("Projects");
    reveal_strlit("R");
    reveal_strlit("Serve (LAN / Tunnel)");
    reveal_strlit("u");
    reveal_strlit("Update aoe (when available)");
    reveal_strlit("Ctrl+x");
    reveal_strlit("Dismiss update bar (this session)");
    reveal_strlit("Shift+drag");
    reveal_strlit("Select text in preview");
    reveal_strlit("Ctrl+K");
    reveal_strlit("Command palette");
    reveal_strlit("?");
    reveal_strlit("Toggle help");
    reveal_strlit("q");
    reveal_strlit("Quit");
}

proof fn lemma_strict_other_fit()
    ensures
        fits_in_width(strict_other_keys()),
{
    reveal_strlit("/");
    reveal_strlit("Search");
    reveal_strlit("n/N");
    reveal_strlit("Next/prev match");
    reveal_strlit("S");
    reveal_strlit("Settings");
    reveal_strlit("P");
    reveal_strlit("Profiles");
    reveal_strlit("Ctrl+R");
    reveal_strlit("Serve (LAN / Tunnel)");
    reveal_strlit("u");
    reveal_strlit("Update aoe (when available)");
    reveal_strlit("Ctrl+x");
    reveal_strlit("Dismiss update bar (this session)");
    reveal_strlit("Shift+drag");
    reveal_strlit("Select text in preview");
    reveal_strlit("Ctrl+K");
    reveal_strlit("Command palette");
    reveal_strlit("?");
    reveal_strlit("Toggle help");
    reveal_strlit("Q");
    reveal_strlit("Quit");
}

/// In columns, every heading and every shortcut fits between the borders of the
/// overlay.
pub proof fn law_help_fits_in_width(strict: bool, i: int)
    requires
        0 <= i < help_sections(strict).len(),
    ensures
        help_sections(strict)[i].0.len() <= DIALOG_WIDTH - BORDER_WIDTH,
        fits_in_width(help_sections(strict)[i].1),
{
    reveal_strlit("Navigation");
    reveal_strlit("Actions (strict mode)");
    reveal_strlit("Actions");
    reveal_strlit("Other");
    reveal_strlit("Views");
    lemma_navigation_fit();
    lemma_actions_fit();
    lemma_strict_actions_fit();
    lemma_views_fit();
    lemma_strict_views_fit();
    lemma_other_fit();
    lemma_strict_other_fit();
}

/// Where the overlay goes: in the middle, and no larger than the area.
pub open spec fn dialog_area(area: Area) -> Area {
    Area {
        x: (area.x + margin(area.width, DIALOG_WIDTH)) as u16,
        y: (area.y + margin(area.height, DIALOG_HEIGHT)) as u16,
        width: lesser(DIALOG_WIDTH as int, area.width as int) as u16,
        height: lesser(DIALOG_HEIGHT as int, area.height as int) as u16,
    }
}

/// Half of what is left over of `whole` beside `part`.
pub open spec fn margin(whole: u16, part: u16) -> int {
    if whole > part {
        (whole - part) / 2
    } else {
        0
    }
}

/// The overlay lies within its area, in the middle up to one cell.
pub proof fn law_dialog_is_centered(area: Area)
    requires
        area.x + area.width <= u16::MAX,
        area.y + area.height <= u16::MAX,
    ensures
        area.x <= dialog_area(area).x,
        dialog_area(area).x + dialog_area(area).width <= area.x + area.width,
        area.y <= dialog_area(area).y,
        dialog_area(area).y + dialog_area(area).height <= area.y + area.height,
        ({
            let left = dialog_area(area).x - area.x;
            let right = area.x + area.width - dialog_area(area).x - dialog_area(area).width;
            left == right || left + 1 == right
        }),
{
}

/// The help overlay, laid out.
pub struct HelpPlan {
    pub area: Area,
    pub title: String,
    /// The version, shown in the lower border.
    pub version: String,
    pub lines: Vec<Line>,
}

/// The help overlay.
pub struct HelpOverlay;

fn make_shortcut_line(key: &str, description: &str) -> (res: Line)
    ensures
        res@ == shortcut_line(key@, description@),
{
    let column = crate::text::join("  ", pad_right(key, 11).as_str());
    Line::of_two(span(column.as_str(), Role::Waiting), span(description, Role::Text))
}

fn add_section(lines: &mut Vec<Line>, section: &Section, sort_label: &str)
    ensures
        line_views(final(lines)@) == line_views(old(lines)@) + section_lines(
            section_view(*section),
            sort_label@,
        ),
{
    let ghost start = line_views(lines@);
    let ghost keys = shortcut_views(section.1@).map_values(
        |s: (Seq<char>, Seq<char>)| shortcut_line(s.0, s.1),
    );
    let ghost head = seq![seq![bold(section.0@, Role::Accent)]];
    add_line(lines, Line::of_one(bold_span(section.0, Role::Accent)));
    let mut i: usize = 0;
    assert(line_views(lines@) =~= start + (head + keys.take(0)));
    while i < section.1.len()
        invariant
            i <= section.1@.len(),
            keys == shortcut_views(section.1@).map_values(
                |s: (Seq<char>, Seq<char>)| shortcut_line(s.0, s.1),
            ),
            line_views(lines@) == start + (head + keys.take(i as int)),
        decreases section.1@.len() - i,
    {
        let ghost before = line_views(lines@);
        let line = make_shortcut_line(section.1[i].0, section.1[i].1);
        add_line(lines, line);
        proof {
            assert(line@ == keys[i as int]);
            assert(start + (head + keys.take(i + 1)) =~= before.push(keys[i as int]));
        }
        i = i + 1;
    }
    assert(keys.take(section.1@.len() as int) =~= keys);
    if same_text(section.0, "Views") {
        let ghost before = line_views(lines@);
        let line = make_shortcut_line("", sort_label);
        proof {
            reveal_strlit("");
            assert(""@ =~= Seq::<char>::empty());
        }
        add_line(lines, line);
        assert(start + (head + keys).push(line@) =~= before.push(line@));
    }
}

/// Whether the middle of an area can be counted, as it can on every screen.
pub fn margin_fits(area: Area) -> (res: bool)
    ensures
        res == (area.x + margin(area.width, DIALOG_WIDTH) <= u16::MAX && area.y + margin(
            area.height,
            DIALOG_HEIGHT,
        ) <= u16::MAX),
{
    let x = area.x as u32 + (area.width.saturating_sub(DIALOG_WIDTH) / 2) as u32;
    let y = area.y as u32 + (area.height.saturating_sub(DIALOG_HEIGHT) / 2) as u32;
    x <= u16::MAX as u32 && y <= u16::MAX as u32
}

impl HelpOverlay {
    /// The help overlay over `area`. `sort_order` is the name of the order in
    /// which the sessions are sorted.
    pub fn render(
        area: Area,
        sort_order: &str,
        strict_hotkeys: bool,
        lock_sort_order: bool,
        version: &str,
    ) -> (plan: HelpPlan)
        requires
            area.x + margin(area.width, DIALOG_WIDTH) <= u16::MAX,
            area.y + margin(area.height, DIALOG_HEIGHT) <= u16::MAX,
        ensures
            plan.area == dialog_area(area),
            plan.title@ == " Keyboard Shortcuts "@,
            plan.version@ == " Agent of Empires v"@ + version@ + " "@,
            line_views(plan.lines@) == help_lines(
                strict_hotkeys,
                sort_words(sort_order@, lock_sort_order),
            ),
    {
        let dialog = Area {
            x: area.x + area.width.saturating_sub(DIALOG_WIDTH) / 2,
            y: area.y + area.height.saturating_sub(DIALOG_HEIGHT) / 2,
            width: if DIALOG_WIDTH <= area.width {
                DIALOG_WIDTH
            } else {
                area.width
            },
            height: if DIALOG_HEIGHT <= area.height {
                DIALOG_HEIGHT
            } else {
                area.height
            },
        };
        let sort_label = if lock_sort_order {
            join3("(current sort: ", sort_order, " [locked])")
        } else {
            join3("(current sort: ", sort_order, ")")
        };
        let sections = shortcuts(strict_hotkeys);
        let ghost all = help_sections(strict_hotkeys);
        let n = sections.len();
        let mut lines: Vec<Line> = Vec::new();
        let mut i: usize = 0;
        proof {
            assert(section_views(sections@).len() == n);
            assert(all.take(0) =~= Seq::<SectionView>::empty());
            assert(line_views(lines@) =~= lines_of_sections(all.take(0), n as nat, sort_label@));
        }
        while i < n
            invariant
                i <= n,
                n == sections@.len(),
                all == section_views(sections@),
                line_views(lines@) == lines_of_sections(
                    all.take(i as int),
                    n as nat,
                    sort_label@,
                ),
            decreases n - i,
        {
            proof {
                assert(all.take(i + 1).drop_last() =~= all.take(i as int));
                assert(all.take(i + 1).last() == section_view(sections@[i as int]));
            }
            add_section(&mut lines, &sections[i], sort_label.as_str());
            if i + 1 < n {
                add_line(&mut lines, Line::empty());
            }
            i = i + 1;
        }
        assert(all.take(n as int) =~= all);
        HelpPlan {
            area: dialog,
            title: " Keyboard Shortcuts ".to_owned(),
            version: join3(" Agent of Empires v", version, " "),
            lines,
        }
    }
}

/// The overlay says, in section `i`, that `key` does `what`.
pub open spec fn says(strict: bool, i: int, key: Seq<char>, what: Seq<char>) -> bool {
    help_sections(strict)[i].1.contains((key, what))
}

/// The key of a command that has another one in strict mode.
pub open spec fn key_in(strict: bool, usual: Seq<char>, raised: Seq<char>) -> Seq<char> {
    if strict {
        raised
    } else {
        usual
    }
}

/// Every command is told of with the key that it has. In strict mode the keys that
/// change something are raised: a small letter becomes a capital, and a capital
/// takes control; moving about keeps its keys, and the projects have none.
pub proof fn law_every_command_has_its_key(strict: bool)
    ensures
        help_sections(strict).len() == 4,
        help_sections(strict)[0].0 == "Navigation"@,
        help_sections(strict)[1].0 == if strict {
            "Actions (strict mode)"@
        } else {
            "Actions"@
        },
        help_sections(strict)[2].0 == "Views"@,
        help_sections(strict)[3].0 == "Other"@,
        help_sections(strict)[0].1.len() == 7,
        help_sections(strict)[1].1.len() == 9,
        help_sections(strict)[2].1.len() == 7,
        help_sections(strict)[3].1.len() == if strict {
            11int
        } else {
            12int
        },
        !strict ==> says(strict, 3, "p"@, "Projects"@),
        says(strict, 0, "j/↓"@, "Move down"@),
        says(strict, 0, "k/↑"@, "Move up"@),
        says(strict, 0, "h/←"@, "Collapse group"@),
        says(strict, 0, "l/→"@, "Expand group"@),
        says(strict, 0, "Home/End/G"@, "Go to top / bottom"@),
        says(strict, 0, "PgUp/Dn"@, "Move 10 (also Shift+↑/↓, { })"@),
        says(strict, 0, "w"@, "Next waiting/idle session"@),
        says(strict, 1, "Enter"@, "Attach to session"@),
        says(strict, 1, key_in(strict, "T"@, "Ctrl+T"@), "Attach to terminal"@),
        says(strict, 1, key_in(strict, "n"@, "N"@), "New session"@),
        says(strict, 1, key_in(strict, "N"@, "Ctrl+N"@), "New from selection"@),
        says(strict, 1, key_in(strict, "x"@, "X"@), "Stop session"@),
        says(strict, 1, "z"@, "Hibernate session"@),
        says(strict, 1, key_in(strict, "d"@, "D"@), "Delete session/group"@),
        says(strict, 1, key_in(strict, "r"@, "R"@), "Rename session/group"@),
        says(strict, 1, key_in(strict, "m"@, "M"@), "Send message to agent"@),
        says(strict, 2, key_in(strict, "t"@, "T"@), "Toggle Agent/Terminal view"@),
        says(strict, 2, key_in(strict, "c"@, "C"@), "Toggle container/host (sandbox)"@),
        says(strict, 2, key_in(strict, "D"@, "Ctrl+D"@), "Diff view (git changes)"@),
        says(strict, 2, "H/L"@, "Resize list panel"@),
        says(strict, 2, key_in(strict, "o"@, "O"@), "Cycle sort forward"@),
        says(strict, 2, key_in(strict, "Ctrl+o"@, "Ctrl+O"@), "Cycle sort backward"@),
        says(strict, 2, key_in(strict, "g"@, "Ctrl+G"@), "Toggle group by project"@),
        says(strict, 3, "/"@, "Search"@),
        says(strict, 3, "n/N"@, "Next/prev match"@),
        says(strict, 3, key_in(strict, "s"@, "S"@), "Settings"@),
        says(strict, 3, "P"@, "Profiles"@),
        says(strict, 3, key_in(strict, "R"@, "Ctrl+R"@), "Serve (LAN / Tunnel)"@),
        says(strict, 3, "u"@, "Update aoe (when available)"@),
        says(strict, 3, "Ctrl+x"@, "Dismiss update bar (this session)"@),
        says(strict, 3, "Shift+drag"@, "Select text in preview"@),
        says(strict, 3, "Ctrl+K"@, "Command palette"@),
        says(strict, 3, "?"@, "Toggle help"@),
        says(strict, 3, key_in(strict, "q"@, "Q"@), "Quit"@),
{
    let s0 = help_sections(strict)[0].1;
    assert(s0.contains(s0[0]));
    assert(s0.contains(s0[1]));
    assert(s0.contains(s0[2]));
    assert(s0.contains(s0[3]));
    assert(s0.contains(s0[4]));
    assert(s0.contains(s0[5]));
    assert(s0.contains(s0[6]));
    let s1 = help_sections(strict)[1].1;
    assert(s1.contains(s1[0]));
    assert(s1.contains(s1[1]));
    assert(s1.contains(s1[2]));
    assert(s1.contains(s1[3]));
    assert(s1.contains(s1[4]));
    assert(s1.contains(s1[5]));
    assert(s1.contains(s1[6]));
    assert(s1.contains(s1[7]));
    assert(s1.contains(s1[8]));
    let s2 = help_sections(strict)[2].1;
    assert(s2.contains(s2[0]));
    assert(s2.contains(s2[1]));
    assert(s2.contains(s2[2]));
    assert(s2.contains(s2[3]));
    assert(s2.contains(s2[4]));
    assert(s2.contains(s2[5]));
    assert(s2.contains(s2[6]));
    let s3 = help_sections(strict)[3].1;
    assert(s3.contains(s3[0]));
    assert(s3.contains(s3[1]));
    assert(s3.contains(s3[2]));
    assert(s3.contains(s3[3]));
    assert(s3.contains(s3[4]));
    assert(s3.contains(s3[5]));
    assert(s3.contains(s3[6]));
    assert(s3.contains(s3[7]));
    assert(s3.contains(s3[8]));
    assert(s3.contains(s3[9]));
    assert(s3.contains(s3[10]));
    assert(!strict ==> s3.contains(s3[11]));
}

/// Both modes tell of the same commands in the same order, but for the projects,
/// which strict mode leaves out.
pub proof fn law_modes_tell_of_the_same_commands(i: int, j: int)
    requires
        0 <= i < 4,
        0 <= j < help_sections(true)[i].1.len(),
    ensures
        i < 3 ==> help_sections(true)[i].1.len() == help_sections(false)[i].1.len(),
        help_sections(true)[i].1[j].1 == help_sections(false)[i].1[if i == 3 && j >= 4 {
            j + 1
        } else {
            j
        }].1,
{
}

/// A shortcut's line has the key after an indent of two, in a column of eleven,
/// and what it does beside it.
pub proof fn law_shortcut_line_shows_key_and_use(key: Seq<char>, description: Seq<char>)
    requires
        key.len() <= 11,
    ensures
        ({
            let line = shortcut_line(key, description);
            &&& line.len() == 2
            &&& line[0].text.len() == 13
            &&& line[0].text.subrange(2, 2 + key.len() as int) == key
            &&& forall|c: int|
                0 <= c < 2 || 2 + key.len() <= c < 13 ==> #[trigger] line[0].text[c] == ' '
            &&& line[1].text == description
            &&& line[0].style == (Style { role: Role::Waiting, bold: false })
            &&& line[1].style == (Style { role: Role::Text, bold: false })
        }),
{
    reveal_strlit("  ");
    crate::text::law_padding_fills_with_spaces(key, 11);
    let text = shortcut_line(key, description)[0].text;
    assert(text == "  "@ + padded(key, 11));
    assert(text.subrange(2, 2 + key.len() as int) =~= key) by {
        assert forall|c: int| 0 <= c < key.len() implies text[c + 2] == key[c] by {
            assert(padded(key, 11).take(key.len() as int)[c] == key[c]);
        }
    }
    assert forall|c: int| 2 + key.len() <= c < 13 implies #[trigger] text[c] == ' ' by {
        assert(text[c] == padded(key, 11)[c - 2]);
    }
}

/// Every section is shown whole, wherever it stands: its heading, a line for each
/// of its shortcuts, and, under "Views", how the sessions are sorted.
pub proof fn law_every_section_is_shown(
    sections: Seq<SectionView>,
    total: nat,
    sort_label: Seq<char>,
    i: int,
    j: int,
)
    requires
        0 <= i < sections.len(),
    ensures
        ({
            let lines = lines_of_sections(sections, total, sort_label);
            &&& lines.contains(seq![bold(sections[i].0, Role::Accent)])
            &&& 0 <= j < sections[i].1.len() ==> lines.contains(
                shortcut_line(sections[i].1[j].0, sections[i].1[j].1),
            )
            &&& sections[i].0 == "Views"@ ==> lines.contains(
                shortcut_line(Seq::empty(), sort_label),
            )
        }),
    decreases sections.len(),
{
    let head = sections.drop_last();
    let before = lines_of_sections(head, total, sort_label);
    let lines = lines_of_sections(sections, total, sort_label);
    let n = before.len();
    assert forall|k: int| 0 <= k < n implies #[trigger] lines[k] == before[k] by {}
    if i < head.len() {
        law_every_section_is_shown(head, total, sort_label, i, j);
        let heading = seq![bold(sections[i].0, Role::Accent)];
        let k = before.index_of(heading);
        assert(lines[k] == heading);
        if 0 <= j < sections[i].1.len() {
            let line = shortcut_line(sections[i].1[j].0, sections[i].1[j].1);
            let k = before.index_of(line);
            assert(lines[k] == line);
        }
        if sections[i].0 == "Views"@ {
            let line = shortcut_line(Seq::empty(), sort_label);
            let k = before.index_of(line);
            assert(lines[k] == line);
        }
    } else {
        let own = section_lines(sections[i], sort_label);
        assert forall|k: int| 0 <= k < own.len() implies #[trigger] lines[n + k] == own[k] by {}
        assert(own[0] == seq![bold(sections[i].0, Role::Accent)]);
        assert(lines[n + 0int] == own[0]);
        if 0 <= j < sections[i].1.len() {
            assert(own[j + 1] == shortcut_line(sections[i].1[j].0, sections[i].1[j].1));
            assert(lines[n + (j + 1)] == own[j + 1]);
        }
        if sections[i].0 == "Views"@ {
            let k = own.len() - 1;
            assert(own[k] == shortcut_line(Seq::empty(), sort_label));
            assert(lines[n + k] == own[k]);
        }
    }
}

/// How the sessions are sorted is told with the order's name, and with a mark
/// where the order is locked.
pub proof fn law_sort_label_names_the_order(order: Seq<char>)
    ensures
        sort_words(order, false) == "(current sort: "@ + order + ")"@,
        sort_words(order, true) == "(current sort: "@ + order + " [locked])"@,
{
}

/// The overlay is fifty columns wide and forty-five rows high, or as large as the
/// area where that has less.
pub proof fn law_dialog_is_as_large_as_fits(area: Area)
    ensures
        area.width >= 50 ==> dialog_area(area).width == 50,
        area.width < 50 ==> dialog_area(area).width == area.width,
        area.height >= 45 ==> dialog_area(area).height == 45,
        area.height < 45 ==> dialog_area(area).height == area.height,
{
}

/// Above and below the overlay there is the same space, up to one row.
pub proof fn law_dialog_is_centered_in_height(area: Area)
    requires
        area.y + area.height <= u16::MAX,
    ensures
        ({
            let above = dialog_area(area).y - area.y;
            let below = area.y + area.height - dialog_area(area).y - dialog_area(area).height;
            above == below || above + 1 == below
        }),
{
}

/// A section is its heading, then one line for each shortcut in order, and under
/// "Views" one more, which tells how the sessions are sorted.
pub proof fn law_section_is_heading_then_shortcuts(section: SectionView, sort_label: Seq<char>)
    ensures
        ({
            let lines = section_lines(section, sort_label);
            let n = section.1.len();
            &&& lines.len() == if section.0 == "Views"@ {
                n + 2
            } else {
                n + 1
            }
            &&& lines[0] == seq![bold(section.0, Role::Accent)]
            &&& forall|j: int|
                0 <= j < n ==> #[trigger] lines[j + 1] == shortcut_line(
                    section.1[j].0,
                    section.1[j].1,
                )
            &&& section.0 == "Views"@ ==> lines.last() == shortcut_line(
                Seq::empty(),
                sort_label,
            )
        }),
{
    let lines = section_lines(section, sort_label);
    let keys = section.1.map_values(|s: (Seq<char>, Seq<char>)| shortcut_line(s.0, s.1));
    assert forall|j: int| 0 <= j < section.1.len() implies #[trigger] lines[j + 1]
        == shortcut_line(section.1[j].0, section.1[j].1) by {
        assert(lines[j + 1] == keys[j]);
    }
}

/// The sections follow each other in order, with one empty line between two of
/// them and none at the end.
pub proof fn law_sections_follow_each_other(strict: bool, sort_label: Seq<char>)
    ensures
        ({
            let all = help_sections(strict);
            let gap = seq![Seq::<SpanView>::empty()];
            help_lines(strict, sort_label) == section_lines(all[0], sort_label) + gap
                + section_lines(all[1], sort_label) + gap + section_lines(all[2], sort_label) + gap
                + section_lines(all[3], sort_label)
        }),
{
    let all = help_sections(strict);
    let gap = seq![Seq::<SpanView>::empty()];
    reveal_with_fuel(lines_of_sections, 5);
    let three = all.drop_last();
    let two = three.drop_last();
    let one = two.drop_last();
    assert(one.drop_last() =~= Seq::<SectionView>::empty());
    assert(lines_of_sections(one, 4, sort_label) =~= section_lines(all[0], sort_label) + gap);
    assert(lines_of_sections(two, 4, sort_label) =~= lines_of_sections(one, 4, sort_label)
        + section_lines(all[1], sort_label) + gap);
    assert(lines_of_sections(three, 4, sort_label) =~= lines_of_sections(two, 4, sort_label)
        + section_lines(all[2], sort_label) + gap);
}

} // verus!
