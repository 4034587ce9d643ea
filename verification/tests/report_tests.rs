use audit_report::report::{layout_page, render_page, ReportPayload, ReportRow, TextBlock};
use audit_report::text::u32_string;

fn event(ts: &str, action: &str, category: &str, user: &str, status: &str) -> ReportRow {
    ReportRow {
        timestamp: ts.to_string(),
        action: action.to_string(),
        category: category.to_string(),
        user: user.to_string(),
        status: status.to_string(),
    }
}

fn payload(
    total: u32,
    success: u32,
    failure: u32,
    categories: Vec<(String, u32)>,
    users: Vec<(String, u32)>,
    actions: Vec<(String, u32)>,
    rows: Vec<ReportRow>,
) -> ReportPayload {
    ReportPayload {
        total,
        success,
        failure,
        top_categories: categories,
        top_users: users,
        top_actions: actions,
        rows,
    }
}

fn stamp() -> String {
    "2024-01-01T00:00:00+00:00".to_string()
}

#[test]
fn decimal_rendering_is_exact() {
    assert_eq!(u32_string(0), "0");
    assert_eq!(u32_string(7), "7");
    assert_eq!(u32_string(10), "10");
    assert_eq!(u32_string(12345), "12345");
    assert_eq!(u32_string(4294967295), "4294967295");
}

#[test]
fn header_lines_are_first_and_fixed() {
    let p = payload(10, 7, 3, vec![], vec![], vec![], vec![]);
    let blocks = layout_page(&p, &stamp());
    assert_eq!(blocks[0].text, "Audit Report");
    assert_eq!(blocks[0].size, 180);
    assert_eq!(blocks[0].x, 200);
    assert_eq!(blocks[0].y, 2850);
    assert_eq!(blocks[1].text, "Generated 2024-01-01T00:00:00+00:00");
    assert_eq!(blocks[1].size, 100);
    assert_eq!(blocks[1].y, 2750);
    assert_eq!(blocks[2].text, "Total: 10  Success: 7  Failure: 3");
    assert_eq!(blocks[2].size, 110);
    assert_eq!(blocks[2].y, 2630);
}

#[test]
fn sections_in_fixed_order_with_entries() {
    let p = payload(
        10,
        7,
        3,
        vec![("login".to_string(), 5), ("logout".to_string(), 3)],
        vec![],
        vec![],
        vec![
            event("2024-01-01T00:00:01Z", "login", "auth", "alice", "ok"),
            event("2024-01-01T00:00:02Z", "logout", "auth", "bob", "ok"),
        ],
    );
    let blocks = layout_page(&p, &stamp());
    let texts: Vec<&str> = blocks.iter().map(|b| b.text.as_str()).collect();
    assert_eq!(
        texts,
        vec![
            "Audit Report",
            "Generated 2024-01-01T00:00:00+00:00",
            "Total: 10  Success: 7  Failure: 3",
            "Top Categories",
            "login: 5",
            "logout: 3",
            "Top Users",
            "Top Actions",
            "Events (first 100)",
            "2024-01-01T00:00:01Z | login | auth | alice | ok",
            "2024-01-01T00:00:02Z | logout | auth | bob | ok",
        ]
    );
    assert_eq!(blocks[3].y, 2530);
    assert_eq!(blocks[4].y, 2450);
    assert_eq!(blocks[4].x, 240);
    assert_eq!(blocks[5].y, 2390);
    assert_eq!(blocks[6].y, 2530 - 240);
    assert_eq!(blocks[7].y, 2290 - 120);
    assert_eq!(blocks[8].y, 2170 - 140);
    assert_eq!(blocks[9].y, 2030 - 80);
    assert_eq!(blocks[10].y, 1950 - 45);
}

#[test]
fn ranked_sections_show_at_most_five_entries() {
    let mut categories: Vec<(String, u32)> = Vec::new();
    for i in 0..1000u32 {
        categories.push((format!("cat{}", i), i));
    }
    let p = payload(0, 0, 0, categories, vec![], vec![], vec![]);
    let blocks = layout_page(&p, &stamp());
    let entry_count = blocks.iter().filter(|b| b.x == 240).count();
    assert_eq!(entry_count, 5);
    assert_eq!(blocks.len(), 3 + 6 + 1 + 1 + 1);
    assert_eq!(blocks[4].text, "cat0: 0");
    assert_eq!(blocks[8].text, "cat4: 4");
    assert_eq!(blocks[9].text, "Top Users");
}

#[test]
fn event_rows_stop_at_bottom_margin() {
    let mut rows: Vec<ReportRow> = Vec::new();
    for i in 0..1000u32 {
        rows.push(event(&format!("t{}", i), "a", "c", "u", "s"));
    }
    let p = payload(0, 0, 0, vec![], vec![], vec![], rows);
    let blocks = layout_page(&p, &stamp());
    let row_count = blocks.iter().filter(|b| b.size == 80).count();
    assert_eq!(row_count, 42);
    assert!(row_count < 100);
    assert!(blocks.iter().all(|b| b.y >= 200));
    let last = blocks.last().unwrap();
    assert_eq!(last.y, 225);
    assert_eq!(last.text, "t41 | a | c | u | s");
}

#[test]
fn one_hundred_rows_at_most() {
    let mut rows: Vec<ReportRow> = Vec::new();
    for i in 0..150u32 {
        rows.push(event(&format!("t{}", i), "a", "c", "u", "s"));
    }
    let p = payload(0, 0, 0, vec![], vec![], vec![], rows);
    let blocks = layout_page(&p, &stamp());
    let row_count = blocks.iter().filter(|b| b.size == 80).count();
    assert!(row_count <= 100);
}

#[test]
fn render_page_stamps_and_lays_out() {
    let p = payload(
        10,
        7,
        3,
        vec![("login".to_string(), 5), ("logout".to_string(), 3)],
        vec![],
        vec![],
        vec![
            event("2024-01-01T00:00:01Z", "login", "auth", "alice", "ok"),
            event("2024-01-01T00:00:02Z", "logout", "auth", "bob", "ok"),
        ],
    );
    let (blocks, generated_at) = render_page(&p);
    assert!(!blocks.is_empty());
    assert_eq!(blocks[1].text, format!("Generated {}", generated_at));
    assert!(generated_at.contains('T'));
    let again = layout_page(&p, &generated_at);
    assert_eq!(blocks.len(), again.len());
}

#[test]
fn summary_renders_to_a_document() {
    let p = payload(
        10,
        7,
        3,
        vec![("login".to_string(), 5), ("logout".to_string(), 3)],
        vec![],
        vec![],
        vec![
            event("2024-01-01T00:00:01Z", "login", "auth", "alice", "ok"),
            event("2024-01-01T00:00:02Z", "logout", "auth", "bob", "ok"),
        ],
    );
    let (blocks, _) = render_page(&p);
    let (doc, page, layer) = printpdf::PdfDocument::new(
        "Audit Report",
        printpdf::Mm(210.0),
        printpdf::Mm(297.0),
        "Layer 1",
    );
    let current_layer = doc.get_page(page).get_layer(layer);
    let font = doc
        .add_builtin_font(printpdf::BuiltinFont::Helvetica)
        .expect("builtin font");
    for b in &blocks {
        current_layer.use_text(
            b.text.clone(),
            b.size as f32 / 10.0,
            printpdf::Mm(b.x as f32 / 10.0),
            printpdf::Mm(b.y as f32 / 10.0),
            &font,
        );
    }
    let bytes = doc.save_to_bytes().expect("document assembly");
    assert!(!bytes.is_empty());
}

#[test]
fn block_fields_round_trip() {
    let b = TextBlock { text: "x".to_string(), size: 100, x: 200, y: 300 };
    assert_eq!(b.text, "x");
    assert_eq!(b.size, 100);
    assert_eq!(b.x, 200);
    assert_eq!(b.y, 300);
}
