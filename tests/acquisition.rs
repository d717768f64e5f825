use geekbench_dist::cpu::{not_found, Cpu, Exist};
use geekbench_dist::key::{create_statement, insert_statement, prepare_table_name, select_statement, EXISTS_QUERY};
use geekbench_dist::scrape::{extract_scores, pair_scores, probe_from_links, probe_page, PageError, Probe, ScorePair};
use geekbench_dist::text::parse_u32;
use geekbench_dist::url::to_url;

fn pagination(last: u32) -> String {
    let mut items = String::new();
    items.push_str("<li class=\"page-item\"><a class=\"page-link\">Previous</a></li>");
    for p in 1..=last {
        items.push_str(&format!("<li class=\"page-item\"><a class=\"page-link\">{}</a></li>", p));
    }
    items.push_str("<li class=\"page-item\"><a class=\"page-link\">Next</a></li>");
    format!("<ul class=\"pagination\">{}</ul>", items)
}

fn row(single: &str, multi: &str) -> String {
    format!(
        "<div class=\"list-col\"><div class=\"list-col-inner\"><div class=\"row\">\
         <div class=\"col-12\">System</div><div class=\"col-6\">Uploaded</div><div class=\"col-6\">Platform</div>\
         <div class=\"col-6\"><span class=\"list-col-text\">Single</span><span class=\"list-col-text-score\">{}</span></div>\
         <div class=\"col-6\"><span class=\"list-col-text\">Multi</span><span class=\"list-col-text-score\">{}</span></div>\
         </div></div></div>",
        single, multi
    )
}

fn page(pages: Option<u32>, rows: &[(u32, u32)]) -> String {
    let mut body = String::new();
    for (s, m) in rows {
        body.push_str(&row(&s.to_string(), &m.to_string()));
    }
    if let Some(n) = pages {
        body.push_str(&pagination(n));
    }
    format!("<html><head><title>Search</title></head><body>{}</body></html>", body)
}

fn store(conn: &rusqlite::Connection, name: &str, pairs: &[ScorePair]) {
    conn.execute(&create_statement(name), []).unwrap();
    for p in pairs {
        conn.execute(&insert_statement(name), (p.single_core, p.multi_core)).unwrap();
    }
}

fn read(conn: &rusqlite::Connection, name: &str) -> Vec<ScorePair> {
    let mut stmt = conn.prepare(&select_statement(name)).unwrap();
    let rows = stmt
        .query_map([], |r| Ok(ScorePair { single_core: r.get(0)?, multi_core: r.get(1)? }))
        .unwrap();
    rows.map(|r| r.unwrap()).collect()
}

fn is_cached(conn: &rusqlite::Connection, name: &str) -> bool {
    let n: i64 = conn
        .query_row(EXISTS_QUERY, [prepare_table_name(name)], |r| r.get(0))
        .unwrap();
    n > 0
}

#[test]
fn normalization_merges_spellings() {
    assert_eq!(prepare_table_name("Intel i7-3770"), prepare_table_name("intel i7 3770"));
    assert_eq!(prepare_table_name("Intel i7-3770"), "intel_i7_3770");
    assert_eq!(prepare_table_name("AMD Ryzen 7+X"), "amd_ryzen_7_x");
    assert_eq!(prepare_table_name(""), "");
}

#[test]
fn normalization_lowers_all_letters() {
    assert_eq!(prepare_table_name("É"), "é");
    assert_eq!(prepare_table_name("Ä-1"), prepare_table_name("ä 1"));
    assert_eq!(prepare_table_name("ÄÖÜ+Ω"), "äöü_ω");
}

#[test]
fn normalization_is_idempotent_on_samples() {
    for s in ["Intel i7-3770", "A+B-C D", "already_norm", "Ünïcode Ä-1", "\"quoted\""] {
        let once = prepare_table_name(s);
        assert_eq!(prepare_table_name(&once), once);
    }
}

#[test]
fn url_of_a_page() {
    assert_eq!(
        to_url("Intel i7 3770", 3),
        "https://browser.geekbench.com/v5/cpu/search?utf8=%E2%9C%93&page=3&q=Intel+i7+3770"
    );
    assert_eq!(
        to_url("X", 1024),
        "https://browser.geekbench.com/v5/cpu/search?utf8=%E2%9C%93&page=1024&q=X"
    );
    assert_eq!(
        to_url("", 0),
        "https://browser.geekbench.com/v5/cpu/search?utf8=%E2%9C%93&page=0&q="
    );
}

#[test]
fn number_parsing() {
    let v = |s: &str| s.chars().collect::<Vec<char>>();
    assert_eq!(parse_u32(&v("1234")), Some(1234));
    assert_eq!(parse_u32(&v("+7")), Some(7));
    assert_eq!(parse_u32(&v("007")), Some(7));
    assert_eq!(parse_u32(&v("4294967295")), Some(u32::MAX));
    assert_eq!(parse_u32(&v("4294967296")), None);
    assert_eq!(parse_u32(&v("")), None);
    assert_eq!(parse_u32(&v("+")), None);
    assert_eq!(parse_u32(&v("-1")), None);
    assert_eq!(parse_u32(&v("12a")), None);
}

#[test]
fn probe_without_pagination_is_absent() {
    let p = probe_page(&page(None, &[(1, 2)]));
    assert_eq!(p, Ok(Probe { exists: false, page_count: 0 }));
}

#[test]
fn probe_with_five_pages() {
    let p = probe_page(&page(Some(5), &[(1, 2)]));
    assert_eq!(p, Ok(Probe { exists: true, page_count: 5 }));
}

#[test]
fn probe_from_link_texts() {
    assert_eq!(probe_from_links(&vec![]), Ok(Probe { exists: false, page_count: 0 }));
    assert_eq!(probe_from_links(&vec![" 12 ".to_string()]), Ok(Probe { exists: true, page_count: 12 }));
    assert_eq!(probe_from_links(&vec!["0".to_string()]), Ok(Probe { exists: true, page_count: 1 }));
    assert_eq!(probe_from_links(&vec!["…".to_string()]), Err(PageError::ExtractionParseError));
}

#[test]
fn extraction_keeps_rows_in_order() {
    let rows = [(100, 400), (110, 420), (105, 410), (0, 4294967295)];
    let got = extract_scores(&page(Some(1), &rows)).unwrap();
    let want: Vec<ScorePair> = rows
        .iter()
        .map(|&(s, m)| ScorePair { single_core: s, multi_core: m })
        .collect();
    assert_eq!(got, want);
    assert_eq!(extract_scores(&page(None, &[])), Ok(vec![]));
}

#[test]
fn extraction_trims_figures() {
    let html = format!("<html><body>{}</body></html>", row("\n   812\n ", " 3001 "));
    assert_eq!(extract_scores(&html), Ok(vec![ScorePair { single_core: 812, multi_core: 3001 }]));
}

#[test]
fn extraction_mismatch() {
    let broken = "<div class=\"list-col-inner\"><div class=\"row\">\
        <div class=\"col-12\">a</div><div class=\"col-6\">b</div><div class=\"col-6\">c</div>\
        <div class=\"col-6\"><span class=\"list-col-text-score\">5</span></div>\
        </div></div>";
    let html = format!("<html><body>{}{}</body></html>", row("1", "2"), broken);
    assert_eq!(extract_scores(&html), Err(PageError::ExtractionMismatch));
    assert_eq!(
        pair_scores(&vec!["1".to_string()], &vec![]),
        Err(PageError::ExtractionMismatch)
    );
}

#[test]
fn extraction_parse_error() {
    let html = format!("<html><body>{}</body></html>", row("12", "n/a"));
    assert_eq!(extract_scores(&html), Err(PageError::ExtractionParseError));
}

#[test]
fn quoted_table_names_are_safe() {
    assert_eq!(
        create_statement("a\"b"),
        "CREATE TABLE IF NOT EXISTS \"a\"\"b\" (id INTEGER PRIMARY KEY AUTOINCREMENT, single_core_score INTEGER NOT NULL, multi_core_score INTEGER NOT NULL)"
    );
    let conn = rusqlite::Connection::open_in_memory().unwrap();
    let name = "x\"; DROP TABLE y; --";
    store(&conn, name, &[ScorePair { single_core: 1, multi_core: 2 }]);
    assert!(is_cached(&conn, name));
    assert_eq!(read(&conn, name), vec![ScorePair { single_core: 1, multi_core: 2 }]);
}

#[test]
fn cache_round_trip() {
    let conn = rusqlite::Connection::open_in_memory().unwrap();
    let series = vec![
        ScorePair { single_core: 5, multi_core: 9 },
        ScorePair { single_core: 3, multi_core: 1 },
        ScorePair { single_core: 5, multi_core: 9 },
    ];
    assert!(!is_cached(&conn, "Fresh Key"));
    store(&conn, "Fresh Key", &series);
    assert!(is_cached(&conn, "fresh-key"));
    assert_eq!(read(&conn, "fresh key"), series);
}

#[test]
fn fetch_list_of_an_uncached_processor() {
    let mut cpu = Cpu::new("Intel i7 3770".to_string(), false);
    assert!(cpu.needs_probe());
    assert_eq!(cpu.record_probe(page(Some(3), &[(1, 2)])), Ok(Probe { exists: true, page_count: 3 }));
    assert_eq!(cpu.is_on_internet, Exist::Present);
    assert_eq!(
        cpu.fetch_urls(),
        vec![to_url("Intel i7 3770", 2), to_url("Intel i7 3770", 3)]
    );
}

#[test]
fn scenario_single_page_fresh_processor() {
    let conn = rusqlite::Connection::open_in_memory().unwrap();
    let name = "Intel i7 3770";
    let rows = [(100, 400), (110, 420), (105, 410)];
    let mut cpu = Cpu::new(name.to_string(), is_cached(&conn, name));
    assert_eq!(cpu.is_in_db, Exist::Absent);
    assert!(cpu.needs_probe());
    cpu.record_probe(page(Some(1), &rows)).unwrap();
    assert_eq!(not_found(&vec![]), Ok(()));
    let cpus = vec![cpu];
    assert_eq!(not_found(&cpus), Ok(()));
    let mut cpu = cpus.into_iter().next().unwrap();
    assert!(cpu.fetch_urls().is_empty());
    let pairs = cpu.absorb_pages(vec![]).unwrap();
    store(&conn, name, &pairs);
    let want: Vec<ScorePair> = rows
        .iter()
        .map(|&(s, m)| ScorePair { single_core: s, multi_core: m })
        .collect();
    assert_eq!(read(&conn, &prepare_table_name(name)), want);
    assert_eq!(cpu.single_core_score, vec![100, 110, 105]);
    assert_eq!(cpu.multi_core_score, vec![400, 420, 410]);
}

#[test]
fn scenario_unknown_processor_aborts() {
    let conn = rusqlite::Connection::open_in_memory().unwrap();
    let name = "Unknown Chip X";
    let mut cpu = Cpu::new(name.to_string(), is_cached(&conn, name));
    cpu.record_probe(page(None, &[])).unwrap();
    assert_eq!(cpu.is_on_internet, Exist::Absent);
    assert_eq!(cpu.number_of_pages, 0);
    let mut known = Cpu::new("Known".to_string(), false);
    known.record_probe(page(Some(2), &[(1, 1)])).unwrap();
    let cpus = vec![known, cpu];
    assert_eq!(not_found(&cpus), Err(vec![name.to_string()]));
    assert!(!is_cached(&conn, name));
}

#[test]
fn scenario_cached_processor_is_not_fetched() {
    let conn = rusqlite::Connection::open_in_memory().unwrap();
    let name = "AMD Ryzen 5 3600";
    let series: Vec<ScorePair> = (0..10)
        .map(|i| ScorePair { single_core: 1000 + i, multi_core: 6000 + 2 * i })
        .collect();
    store(&conn, name, &series);
    let mut cpu = Cpu::new(name.to_string(), is_cached(&conn, name));
    assert_eq!(cpu.is_in_db, Exist::Present);
    assert!(!cpu.needs_probe());
    assert!(cpu.fetch_urls().is_empty());
    let stored = read(&conn, name);
    cpu.append_scores(&stored);
    assert_eq!(stored, series);
    assert_eq!(cpu.single_core_score, series.iter().map(|p| p.single_core).collect::<Vec<u32>>());
    assert_eq!(cpu.multi_core_score, series.iter().map(|p| p.multi_core).collect::<Vec<u32>>());
    assert!(cpu.pages.is_empty());
}

#[test]
fn absorbing_several_pages() {
    let mut cpu = Cpu::new("X".to_string(), false);
    cpu.record_probe(page(Some(2), &[(1, 2)])).unwrap();
    let pairs = cpu.absorb_pages(vec![page(Some(2), &[(3, 4), (5, 6)])]).unwrap();
    assert_eq!(
        pairs,
        vec![
            ScorePair { single_core: 1, multi_core: 2 },
            ScorePair { single_core: 3, multi_core: 4 },
            ScorePair { single_core: 5, multi_core: 6 },
        ]
    );
    assert_eq!(cpu.pages.len(), 2);
    let mut bad = Cpu::new("Y".to_string(), false);
    let html = format!("<html><body>{}</body></html>", row("x", "1"));
    assert_eq!(bad.absorb_pages(vec![html]), Err(PageError::ExtractionParseError));
    assert!(bad.single_core_score.is_empty());
    assert_eq!(bad.pages.len(), 1);
}

#[test]
fn default_processor_state() {
    let cpu = Cpu::default();
    assert_eq!(cpu.name, "");
    assert_eq!(cpu.is_in_db, Exist::Unknown);
    assert_eq!(cpu.is_on_internet, Exist::Unknown);
    assert_eq!(cpu.number_of_pages, 0);
    assert!(cpu.needs_probe());
    assert!(cpu.fetch_urls().is_empty());
}
