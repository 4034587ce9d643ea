//! The report-layout engine: from a pre-aggregated audit summary to one
//! fixed-size page of positioned text blocks.
//!
//! Coordinates and font sizes are integers in tenths of a unit (tenths of a
//! millimetre on the page, tenths of a point for sizes), so the whole layout
//! is exact arithmetic; the document sink converts to its own scale when it
//! draws. The page is laid out top to bottom with a falling cursor: a title,
//! a generation stamp, a one-line numeric summary, three ranked sections of
//! at most `MAX_ENTRIES` entries each, and at most `MAX_ROWS` event rows,
//! which stop early at the bottom margin. `page_blocks` is the exact
//! specification of the emitted page.

use crate::text::{spec_digits, u32_string};
use vstd::prelude::*;
use vstd::string::*;

verus! {

/// One audit event, all fields opaque display strings.
pub struct ReportRow {
    pub timestamp: String,
    pub action: String,
    pub category: String,
    pub user: String,
    pub status: String,
}

/// The mathematical value of a `ReportRow`.
#[verifier::ext_equal]
pub ghost struct RowView {
    pub timestamp: Seq<char>,
    pub action: Seq<char>,
    pub category: Seq<char>,
    pub user: Seq<char>,
    pub status: Seq<char>,
}

impl View for ReportRow {
    type V = RowView;

    open spec fn view(&self) -> RowView {
        RowView {
            timestamp: self.timestamp@,
            action: self.action@,
            category: self.category@,
            user: self.user@,
            status: self.status@,
        }
    }
}

/// The pre-aggregated summary handed in by the collection pipeline. The
/// ranked sequences are assumed already rank-sorted; the counts carry no
/// invariant tying them together. The renderer validates none of this.
pub struct ReportPayload {
    pub total: u32,
    pub success: u32,
    pub failure: u32,
    pub top_categories: Vec<(String, u32)>,
    pub top_users: Vec<(String, u32)>,
    pub top_actions: Vec<(String, u32)>,
    pub rows: Vec<ReportRow>,
}

/// The mathematical value of a `ReportPayload`.
#[verifier::ext_equal]
pub ghost struct PayloadView {
    pub total: u32,
    pub success: u32,
    pub failure: u32,
    pub top_categories: Seq<(Seq<char>, u32)>,
    pub top_users: Seq<(Seq<char>, u32)>,
    pub top_actions: Seq<(Seq<char>, u32)>,
    pub rows: Seq<RowView>,
}

/// The mathematical value of a ranked (label, count) list.
pub open spec fn pairs_view(s: Seq<(String, u32)>) -> Seq<(Seq<char>, u32)> {
    s.map_values(|p: (String, u32)| (p.0@, p.1))
}

impl View for ReportPayload {
    type V = PayloadView;

    open spec fn view(&self) -> PayloadView {
        PayloadView {
            total: self.total,
            success: self.success,
            failure: self.failure,
            top_categories: pairs_view(self.top_categories@),
            top_users: pairs_view(self.top_users@),
            top_actions: pairs_view(self.top_actions@),
            rows: self.rows@.map_values(|r: ReportRow| r@),
        }
    }
}

/// One positioned piece of text on the page: what to draw, at which size,
/// and where. Sizes are tenths of a point; coordinates tenths of a
/// millimetre from the page's lower-left corner.
pub struct TextBlock {
    pub text: String,
    pub size: u32,
    pub x: u32,
    pub y: u32,
}

/// The mathematical value of a `TextBlock`.
#[verifier::ext_equal]
pub ghost struct BlockView {
    pub text: Seq<char>,
    pub size: int,
    pub x: int,
    pub y: int,
}

impl View for TextBlock {
    type V = BlockView;

    open spec fn view(&self) -> BlockView {
        BlockView { text: self.text@, size: self.size as int, x: self.x as int, y: self.y as int }
    }
}

/// The mathematical value of an emitted block list.
pub open spec fn blocks_view(s: Seq<TextBlock>) -> Seq<BlockView> {
    s.map_values(|b: TextBlock| b@)
}

/// Page width, tenths of a millimetre (A4).
pub const PAGE_WIDTH: u32 = 2100;

/// Page height, tenths of a millimetre (A4).
pub const PAGE_HEIGHT: u32 = 2970;

/// Left margin of ordinary lines.
pub const LEFT_X: u32 = 200;

/// Left margin of ranked-section entries, slightly indented.
pub const INDENT_X: u32 = 240;

/// Cursor position of the title line, near the top of the page.
pub const TOP_Y: u32 = 2850;

/// Event rows stop once the cursor would fall below this line.
pub const BOTTOM_MARGIN: u32 = 200;

/// Font size of the title line, tenths of a point.
pub const TITLE_SIZE: u32 = 180;

/// Font size of the generation stamp.
pub const STAMP_SIZE: u32 = 100;

/// Font size of the one-line numeric summary.
pub const SUMMARY_SIZE: u32 = 110;

/// Font size of a section title.
pub const SECTION_SIZE: u32 = 120;

/// Font size of a ranked-section entry.
pub const ENTRY_SIZE: u32 = 100;

/// Font size of an event row.
pub const ROW_SIZE: u32 = 80;

/// Cursor drop after the title line.
pub const AFTER_TITLE: u32 = 100;

/// Cursor drop after the generation stamp.
pub const AFTER_STAMP: u32 = 120;

/// Cursor drop after the numeric summary.
pub const AFTER_SUMMARY: u32 = 100;

/// Cursor drop after a section title.
pub const AFTER_SECTION_TITLE: u32 = 80;

/// Cursor drop after each ranked-section entry.
pub const ENTRY_STEP: u32 = 60;

/// Extra gap after the first two ranked sections.
pub const SECTION_GAP: u32 = 40;

/// Extra gap after the last ranked section, before the events section.
pub const EVENTS_GAP: u32 = 60;

/// Cursor drop after each event row, denser than summary lines.
pub const ROW_STEP: u32 = 45;

/// Hard cap on entries shown per ranked section.
pub const MAX_ENTRIES: usize = 5;

/// Hard cap on event rows shown.
pub const MAX_ROWS: usize = 100;

/// A ranked entry as printed: `label: count`.
pub open spec fn entry_text(label: Seq<char>, count: u32) -> Seq<char> {
    label + ": "@ + spec_digits(count as int)
}

/// An event row as printed: the five fields, pipe-delimited.
pub open spec fn row_text(r: RowView) -> Seq<char> {
    r.timestamp + " | "@ + r.action + " | "@ + r.category + " | "@ + r.user + " | "@ + r.status
}

/// The numeric summary line as printed.
pub open spec fn summary_text(total: u32, success: u32, failure: u32) -> Seq<char> {
    "Total: "@ + spec_digits(total as int) + "  Success: "@ + spec_digits(success as int)
        + "  Failure: "@ + spec_digits(failure as int)
}

/// The generation-stamp line as printed.
pub open spec fn stamp_text(generated_at: Seq<char>) -> Seq<char> {
    "Generated "@ + generated_at
}

/// How many entries of a ranked list are shown: all of them, capped at
/// `MAX_ENTRIES`.
pub open spec fn shown_entries(entries: Seq<(Seq<char>, u32)>) -> int {
    if entries.len() < MAX_ENTRIES {
        entries.len() as int
    } else {
        MAX_ENTRIES as int
    }
}

/// The entry lines of one ranked section, first entry at cursor `y`.
pub open spec fn entry_blocks(entries: Seq<(Seq<char>, u32)>, y: int) -> Seq<BlockView> {
    Seq::new(
        shown_entries(entries) as nat,
        |i: int|
            BlockView {
                text: entry_text(entries[i].0, entries[i].1),
                size: ENTRY_SIZE as int,
                x: INDENT_X as int,
                y: y - ENTRY_STEP * i,
            },
    )
}

/// One ranked section: its title at cursor `y`, then its shown entries.
pub open spec fn section_blocks(
    title: Seq<char>,
    entries: Seq<(Seq<char>, u32)>,
    y: int,
) -> Seq<BlockView> {
    seq![
        BlockView { text: title, size: SECTION_SIZE as int, x: LEFT_X as int, y: y },
    ] + entry_blocks(entries, y - AFTER_SECTION_TITLE)
}

/// How far the cursor falls over one ranked section, trailing gap included.
pub open spec fn section_height(entries: Seq<(Seq<char>, u32)>, gap: int) -> int {
    AFTER_SECTION_TITLE + ENTRY_STEP * shown_entries(entries) + gap
}

/// The event rows from index `i` on, next row at cursor `y`: a row is
/// emitted, then the cursor falls by `ROW_STEP`, and emission stops after
/// `MAX_ROWS` rows, at the end of the list, or as soon as the cursor would
/// cross the bottom margin — whichever comes first.
pub open spec fn row_blocks(rows: Seq<RowView>, i: int, y: int) -> Seq<BlockView>
    decreases MAX_ROWS - i,
{
    if i < 0 || i >= MAX_ROWS || i >= rows.len() {
        Seq::empty()
    } else {
        let b = BlockView {
            text: row_text(rows[i]),
            size: ROW_SIZE as int,
            x: LEFT_X as int,
            y: y,
        };
        if y - ROW_STEP < BOTTOM_MARGIN {
            seq![b]
        } else {
            seq![b] + row_blocks(rows, i + 1, y - ROW_STEP)
        }
    }
}

/// The three fixed header lines: title, generation stamp, numeric summary.
pub open spec fn header_blocks(p: PayloadView, generated_at: Seq<char>) -> Seq<BlockView> {
    seq![
        BlockView {
            text: "Audit Report"@,
            size: TITLE_SIZE as int,
            x: LEFT_X as int,
            y: TOP_Y as int,
        },
        BlockView {
            text: stamp_text(generated_at),
            size: STAMP_SIZE as int,
            x: LEFT_X as int,
            y: TOP_Y - AFTER_TITLE,
        },
        BlockView {
            text: summary_text(p.total, p.success, p.failure),
            size: SUMMARY_SIZE as int,
            x: LEFT_X as int,
            y: TOP_Y - AFTER_TITLE - AFTER_STAMP,
        },
    ]
}

/// Cursor position of the first ranked section's title.
pub open spec fn sections_top() -> int {
    TOP_Y - AFTER_TITLE - AFTER_STAMP - AFTER_SUMMARY
}

/// The whole page: header, the three ranked sections in their fixed order,
/// the events section title, then the event rows.
pub open spec fn page_blocks(p: PayloadView, generated_at: Seq<char>) -> Seq<BlockView> {
    let y_categories = sections_top();
    let y_users = y_categories - section_height(p.top_categories, SECTION_GAP as int);
    let y_actions = y_users - section_height(p.top_users, SECTION_GAP as int);
    let y_events = y_actions - section_height(p.top_actions, EVENTS_GAP as int);
    let y_rows = y_events - AFTER_SECTION_TITLE;
    header_blocks(p, generated_at) + section_blocks("Top Categories"@, p.top_categories, y_categories)
        + section_blocks("Top Users"@, p.top_users, y_users)
        + section_blocks("Top Actions"@, p.top_actions, y_actions)
        + seq![
        BlockView {
            text: "Events (first 100)"@,
            size: SECTION_SIZE as int,
            x: LEFT_X as int,
            y: y_events,
        },
    ] + row_blocks(p.rows, 0, y_rows)
}

fn entry_line(label: &String, count: u32) -> (s: String)
    ensures
        s@ == entry_text(label@, count),
{
    let mut s = label.clone();
    s.append(": ");
    let digits = u32_string(count);
    s.append(digits.as_str());
    s
}

fn row_line(row: &ReportRow) -> (s: String)
    ensures
        s@ == row_text(row@),
{
    let mut s = row.timestamp.clone();
    s.append(" | ");
    s.append(row.action.as_str());
    s.append(" | ");
    s.append(row.category.as_str());
    s.append(" | ");
    s.append(row.user.as_str());
    s.append(" | ");
    s.append(row.status.as_str());
    s
}

fn summary_line(total: u32, success: u32, failure: u32) -> (s: String)
    ensures
        s@ == summary_text(total, success, failure),
{
    let mut s = String::from_str("Total: ");
    let t = u32_string(total);
    s.append(t.as_str());
    s.append("  Success: ");
    let ok = u32_string(success);
    s.append(ok.as_str());
    s.append("  Failure: ");
    let bad = u32_string(failure);
    s.append(bad.as_str());
    s
}

fn stamp_line(generated_at: &String) -> (s: String)
    ensures
        s@ == stamp_text(generated_at@),
{
    let mut s = String::from_str("Generated ");
    s.append(generated_at.as_str());
    s
}

/// Emits one ranked section and returns the cursor for what follows it.
#[verifier::loop_isolation(false)]
fn emit_section(
    blocks: &mut Vec<TextBlock>,
    title: &str,
    entries: &Vec<(String, u32)>,
    y: u32,
    gap: u32,
) -> (y_next: u32)
    requires
        y >= AFTER_SECTION_TITLE + ENTRY_STEP * (MAX_ENTRIES as u32) + gap,
    ensures
        blocks_view(final(blocks)@) == blocks_view(old(blocks)@) + section_blocks(
            title@,
            pairs_view(entries@),
            y as int,
        ),
        y_next == y - section_height(pairs_view(entries@), gap as int),
{
    let ghost orig = blocks@;
    let ghost entries_v = pairs_view(entries@);
    let title_string = String::from_str(title);
    blocks.push(TextBlock { text: title_string, size: SECTION_SIZE, x: LEFT_X, y });
    let y_entries = y - AFTER_SECTION_TITLE;
    let n = if entries.len() < MAX_ENTRIES {
        entries.len()
    } else {
        MAX_ENTRIES
    };
    let mut i: usize = 0;
    while i < n
        invariant
            i <= n,
            n == shown_entries(entries_v),
            blocks_view(blocks@) =~= blocks_view(orig) + section_blocks(
                title@,
                entries_v,
                y as int,
            ).take(1 + i),
        decreases n - i,
    {
        let line = entry_line(&entries[i].0, entries[i].1);
        let dy = y_entries - ENTRY_STEP * (i as u32);
        let ghost pre = blocks@;
        blocks.push(TextBlock { text: line, size: ENTRY_SIZE, x: INDENT_X, y: dy });
        proof {
            let ghost section = section_blocks(title@, entries_v, y as int);
            assert(entries_v[i as int] == (entries@[i as int].0@, entries@[i as int].1));
            assert(dy as int == y - AFTER_SECTION_TITLE - ENTRY_STEP * (i as int));
            assert(blocks@.last()@ == section[1 + i]);
            assert(blocks_view(blocks@) =~= blocks_view(pre).push(blocks@.last()@));
            assert(blocks_view(blocks@) =~= blocks_view(orig) + section.take(1 + i + 1));
        }
        i = i + 1;
    }
    proof {
        assert(section_blocks(title@, entries_v, y as int).take(1 + n as int) =~= section_blocks(
            title@,
            entries_v,
            y as int,
        ));
        assert(blocks_view(blocks@) =~= blocks_view(orig) + section_blocks(
            title@,
            entries_v,
            y as int,
        ));
    }
    y - (AFTER_SECTION_TITLE + ENTRY_STEP * (n as u32) + gap)
}

/// Lays out the whole page for a summary and a generation stamp: the exact
/// block sequence is `page_blocks` of the two. Layout is total — oversized
/// input is capped and clipped, never an error.
pub fn layout_page(payload: &ReportPayload, generated_at: &String) -> (blocks: Vec<TextBlock>)
    ensures
        blocks_view(blocks@) == page_blocks(payload@, generated_at@),
{
    let ghost p = payload@;
    let ghost target = page_blocks(p, generated_at@);
    let mut blocks: Vec<TextBlock> = Vec::new();
    blocks.push(
        TextBlock { text: String::from_str("Audit Report"), size: TITLE_SIZE, x: LEFT_X, y: TOP_Y },
    );
    let stamp = stamp_line(generated_at);
    blocks.push(TextBlock { text: stamp, size: STAMP_SIZE, x: LEFT_X, y: TOP_Y - AFTER_TITLE });
    let summary = summary_line(payload.total, payload.success, payload.failure);
    blocks.push(
        TextBlock {
            text: summary,
            size: SUMMARY_SIZE,
            x: LEFT_X,
            y: TOP_Y - AFTER_TITLE - AFTER_STAMP,
        },
    );
    proof {
        assert(blocks_view(blocks@) =~= header_blocks(p, generated_at@));
    }
    let y_categories = TOP_Y - AFTER_TITLE - AFTER_STAMP - AFTER_SUMMARY;
    let y_users = emit_section(
        &mut blocks,
        "Top Categories",
        &payload.top_categories,
        y_categories,
        SECTION_GAP,
    );
    let y_actions = emit_section(&mut blocks, "Top Users", &payload.top_users, y_users, SECTION_GAP);
    let y_events = emit_section(
        &mut blocks,
        "Top Actions",
        &payload.top_actions,
        y_actions,
        EVENTS_GAP,
    );
    let events_title = String::from_str("Events (first 100)");
    blocks.push(TextBlock { text: events_title, size: SECTION_SIZE, x: LEFT_X, y: y_events });
    let y_rows = y_events - AFTER_SECTION_TITLE;
    proof {
        assert(blocks_view(blocks@) + row_blocks(p.rows, 0, y_rows as int) =~= target);
    }
    let mut y: u32 = y_rows;
    let mut i: usize = 0;
    loop
        invariant_except_break
            i <= MAX_ROWS,
            y >= BOTTOM_MARGIN,
            p == payload@,
            blocks_view(blocks@) + row_blocks(p.rows, i as int, y as int) =~= target,
        ensures
            blocks_view(blocks@) =~= target,
        decreases MAX_ROWS - i,
    {
        if i >= MAX_ROWS || i >= payload.rows.len() {
            break ;
        }
        let line = row_line(&payload.rows[i]);
        blocks.push(TextBlock { text: line, size: ROW_SIZE, x: LEFT_X, y });
        proof {
            assert(blocks_view(blocks@) =~= blocks_view(blocks@.drop_last()) + seq![
                blocks@.last()@,
            ]);
        }
        if y - ROW_STEP < BOTTOM_MARGIN {
            break ;
        }
        y = y - ROW_STEP;
        i = i + 1;
        proof {
            assert(blocks_view(blocks@) + row_blocks(p.rows, i as int, y as int) =~= target);
        }
    }
    blocks
}

/// Every block of a sequence sits at or above cursor line `m`.
pub open spec fn all_at_or_above(s: Seq<BlockView>, m: int) -> bool {
    forall|j: int| 0 <= j < s.len() ==> (#[trigger] s[j]).y >= m
}

proof fn lemma_concat_at_or_above(a: Seq<BlockView>, b: Seq<BlockView>, m: int)
    requires
        all_at_or_above(a, m),
        all_at_or_above(b, m),
    ensures
        all_at_or_above(a + b, m),
{
    assert forall|j: int| 0 <= j < (a + b).len() implies (#[trigger] (a + b)[j]).y >= m by {
        if j < a.len() {
            assert((a + b)[j] == a[j]);
        } else {
            assert((a + b)[j] == b[j - a.len()]);
        }
    }
}

/// A ranked section shows at most `MAX_ENTRIES` entry lines: its blocks are
/// one title line plus one line per shown entry, however long the input
/// ranking is.
pub proof fn lemma_section_entry_cap(title: Seq<char>, entries: Seq<(Seq<char>, u32)>, y: int)
    ensures
        section_blocks(title, entries, y).len() == 1 + shown_entries(entries),
        shown_entries(entries) <= MAX_ENTRIES,
{
}

proof fn lemma_rows_cap_rec(rows: Seq<RowView>, i: int, y: int)
    requires
        0 <= i <= MAX_ROWS,
    ensures
        row_blocks(rows, i, y).len() <= MAX_ROWS - i,
    decreases MAX_ROWS - i,
{
    if i < MAX_ROWS && i < rows.len() && !(y - ROW_STEP < BOTTOM_MARGIN) {
        lemma_rows_cap_rec(rows, i + 1, y - ROW_STEP);
    }
}

/// At most `MAX_ROWS` event rows are emitted, however many rows the summary
/// carries.
pub proof fn lemma_row_cap(rows: Seq<RowView>, y: int)
    ensures
        row_blocks(rows, 0, y).len() <= MAX_ROWS,
{
    lemma_rows_cap_rec(rows, 0, y);
}

/// The page is bounded whatever the input: three header lines, three ranked
/// sections of a title plus at most `MAX_ENTRIES` entries, one events title,
/// and at most `MAX_ROWS` event rows.
pub proof fn lemma_page_cap(p: PayloadView, generated_at: Seq<char>)
    ensures
        page_blocks(p, generated_at).len() <= 3 + 3 * (1 + MAX_ENTRIES) + 1 + MAX_ROWS,
{
    lemma_row_cap(p.rows, sections_top() - section_height(p.top_categories, SECTION_GAP as int)
        - section_height(p.top_users, SECTION_GAP as int) - section_height(
        p.top_actions,
        EVENTS_GAP as int,
    ) - AFTER_SECTION_TITLE);
}

proof fn lemma_rows_at_or_above_margin(rows: Seq<RowView>, i: int, y: int)
    requires
        y >= BOTTOM_MARGIN,
    ensures
        all_at_or_above(row_blocks(rows, i, y), BOTTOM_MARGIN as int),
    decreases MAX_ROWS - i,
{
    if 0 <= i && i < MAX_ROWS && i < rows.len() && !(y - ROW_STEP < BOTTOM_MARGIN) {
        lemma_rows_at_or_above_margin(rows, i + 1, y - ROW_STEP);
        let b = BlockView {
            text: row_text(rows[i]),
            size: ROW_SIZE as int,
            x: LEFT_X as int,
            y: y,
        };
        lemma_concat_at_or_above(seq![b], row_blocks(rows, i + 1, y - ROW_STEP), BOTTOM_MARGIN as int);
    }
}

proof fn lemma_section_at_or_above(title: Seq<char>, entries: Seq<(Seq<char>, u32)>, y: int)
    requires
        y - AFTER_SECTION_TITLE - ENTRY_STEP * (MAX_ENTRIES - 1) >= BOTTOM_MARGIN,
    ensures
        all_at_or_above(section_blocks(title, entries, y), BOTTOM_MARGIN as int),
{
}

/// Event rows stop at the bottom-margin boundary, and nothing else on the
/// page comes near it: every emitted block, for every summary, sits at or
/// above the bottom margin. A summary whose rows would overrun the page is
/// simply cut short there — layout is total and raises no failure.
pub proof fn lemma_page_at_or_above_margin(p: PayloadView, generated_at: Seq<char>)
    ensures
        all_at_or_above(page_blocks(p, generated_at), BOTTOM_MARGIN as int),
{
    let m = BOTTOM_MARGIN as int;
    let y_categories = sections_top();
    let y_users = y_categories - section_height(p.top_categories, SECTION_GAP as int);
    let y_actions = y_users - section_height(p.top_users, SECTION_GAP as int);
    let y_events = y_actions - section_height(p.top_actions, EVENTS_GAP as int);
    let y_rows = y_events - AFTER_SECTION_TITLE;
    let header = header_blocks(p, generated_at);
    let s_categories = section_blocks("Top Categories"@, p.top_categories, y_categories);
    let s_users = section_blocks("Top Users"@, p.top_users, y_users);
    let s_actions = section_blocks("Top Actions"@, p.top_actions, y_actions);
    let events_title = seq![
        BlockView {
            text: "Events (first 100)"@,
            size: SECTION_SIZE as int,
            x: LEFT_X as int,
            y: y_events,
        },
    ];
    let rows = row_blocks(p.rows, 0, y_rows);
    lemma_section_at_or_above("Top Categories"@, p.top_categories, y_categories);
    lemma_section_at_or_above("Top Users"@, p.top_users, y_users);
    lemma_section_at_or_above("Top Actions"@, p.top_actions, y_actions);
    lemma_rows_at_or_above_margin(p.rows, 0, y_rows);
    lemma_concat_at_or_above(header, s_categories, m);
    lemma_concat_at_or_above(header + s_categories, s_users, m);
    lemma_concat_at_or_above(header + s_categories + s_users, s_actions, m);
    lemma_concat_at_or_above(header + s_categories + s_users + s_actions, events_title, m);
    lemma_concat_at_or_above(
        header + s_categories + s_users + s_actions + events_title,
        rows,
        m,
    );
}

/// Relies on chrono's `Utc::now` and `DateTime::to_rfc3339` for the
/// generation stamp: the current moment, in RFC 3339 form.
#[verifier::external_body]
fn now_rfc3339() -> (s: String) {
    chrono::Utc::now().to_rfc3339()
}

/// Lays out the page stamped with the current time, returning the blocks
/// together with the stamp that was used: the blocks are exactly
/// `page_blocks` of the summary and that stamp.
pub fn render_page(payload: &ReportPayload) -> (r: (Vec<TextBlock>, String))
    ensures
        blocks_view(r.0@) == page_blocks(payload@, r.1@),
{
    let generated_at = now_rfc3339();
    let blocks = layout_page(payload, &generated_at);
    (blocks, generated_at)
}

} // verus!
