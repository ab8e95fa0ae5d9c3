use lib_rs_feed::enrich::{enrich, EnrichError, Fetched};
use lib_rs_feed::feed::{
    build_entry, feed_document, feed_entries, generate_document, generate_items, generate_channel, generate_entries, generate_uuid,
    IdentifierMode,
};
use lib_rs_feed::parser::{
    extract_content, extract_listing, meta_from_fields, normalize_description, parse_new,
    parse_trending, Crate, CrateMeta, ListingFields, Page,
};
use lib_rs_feed::time::Timestamp;

const JAN_2024: i64 = 1704067200;

fn entry_html(href: &str, title: &str, desc: &str, version: Option<&str>) -> String {
    let version = match version {
        Some(v) => format!("<div class=\"meta\"><span class=\"version\"><span>v</span>{}</span><span class=\"pubdate\">Jan 1</span></div>", v),
        None => String::new(),
    };
    format!(
        "<li><a href=\"{}\"><div class=\"h\"><h4>{}</h4><p class=\"desc\">{}</p></div>{}</a></li>",
        href, title, desc, version
    )
}

fn page(new_entries: &[String], trending_entries: &[String]) -> Page {
    let doc = format!(
        "<html><body><section class=\"new\"><ul class=\"crates-list\">{}</ul></section><section class=\"trending\"><ul class=\"crates-list\">{}</ul></section></body></html>",
        new_entries.concat(),
        trending_entries.concat()
    );
    Page::parse(&doc)
}

fn ts(seconds: i64) -> Timestamp {
    Timestamp::new(seconds, 0, 0).unwrap()
}

fn meta(title: &str, version: Option<&str>) -> CrateMeta {
    CrateMeta {
        url: format!("/crates/{}", title),
        title: title.to_string(),
        description: format!("{} things", title),
        version: version.map(|v| v.to_string()),
        pubdate: None,
    }
}

fn fields(href: Option<&str>, title: Option<&str>, desc: Option<&str>) -> ListingFields {
    ListingFields {
        href: href.map(|s| s.to_string()),
        title: title.map(|s| s.to_string()),
        description: desc.map(|s| s.to_string()),
        version: None,
        pubdate: None,
    }
}

#[test]
fn single_entry_scenario() {
    let doc = page(
        &[entry_html("/crates/foo", "foo", "A foo crate\ndoes foo things", Some("1.2.3"))],
        &[],
    );
    let metas = parse_new(&doc).unwrap();
    assert_eq!(metas.len(), 1);
    assert_eq!(metas[0].url, "/crates/foo");
    assert_eq!(metas[0].title, "foo");
    assert_eq!(metas[0].description, "A foo crate does foo things");
    assert_eq!(metas[0].version.as_deref(), Some("1.2.3"));
    assert_eq!(metas[0].pubdate.as_deref(), Some("Jan 1"));

    let fetched = vec![Fetched {
        page: Some("<html><body><div id=\"readme\">Hello</div></body></html>".to_string()),
        last_update: Some(ts(JAN_2024)),
    }];
    let crates = enrich(&metas, &fetched).unwrap();
    let entry = build_entry(&crates[0], IdentifierMode::Derived);
    assert_eq!(entry.title, "foo 1.2.3");
    assert_eq!(entry.description, "A foo crate does foo things");
    assert_eq!(entry.content, "<div id=\"readme\">Hello</div>");
    assert_eq!(entry.pub_date, "Mon, 1 Jan 2024 00:00:00 +0000");
    assert!(entry.link.starts_with("https://lib.rs/crates/foo?hash="));
    assert!(!entry.guid_is_permalink);
    assert_eq!(entry.link.len(), 31 + 36);
    let guid = entry.guid.unwrap();
    assert!(guid.starts_with("urn:uuid:"));
    assert_eq!(entry.link["https://lib.rs/crates/foo?hash=".len()..], guid["urn:uuid:".len()..]);

    let plain = build_entry(&crates[0], IdentifierMode::Plain);
    assert_eq!(plain.link, "https://lib.rs/crates/foo");
    assert!(plain.guid.is_none());
}

#[test]
fn listing_keeps_document_order() {
    let doc = page(
        &[
            entry_html("/crates/a", "a", "first", None),
            entry_html("/crates/b", "b", "second", Some("0.1.0")),
            entry_html("/crates/c", "c", "third", None),
        ],
        &[entry_html("/crates/t", "t", "hot", Some("2.0.0"))],
    );
    let metas = parse_new(&doc).unwrap();
    let titles: Vec<&str> = metas.iter().map(|m| m.title.as_str()).collect();
    assert_eq!(titles, vec!["a", "b", "c"]);
    assert_eq!(metas[0].version, None);
    assert_eq!(metas[1].version.as_deref(), Some("0.1.0"));
    let trending = parse_trending(&doc).unwrap();
    assert_eq!(trending.len(), 1);
    assert_eq!(trending[0].title, "t");
    assert_eq!(trending[0].url, "/crates/t");
}

#[test]
fn empty_section_gives_no_records() {
    let doc = page(&[], &[]);
    assert_eq!(parse_new(&doc).unwrap().len(), 0);
    assert_eq!(extract_listing(&Vec::new()).unwrap().len(), 0);
}

#[test]
fn missing_href_fails_whole_listing() {
    let broken = "<li><a><div class=\"h\"><h4>x</h4><p class=\"desc\">y</p></div></a></li>".to_string();
    let doc = page(&[entry_html("/crates/a", "a", "first", None), broken], &[]);
    assert!(parse_new(&doc).is_none());
}

#[test]
fn missing_description_fails_whole_listing() {
    let broken = "<li><a href=\"/crates/x\"><div class=\"h\"><h4>x</h4></div></a></li>".to_string();
    let doc = page(&[broken, entry_html("/crates/a", "a", "first", None)], &[]);
    assert!(parse_new(&doc).is_none());
}

#[test]
fn fields_all_or_nothing() {
    let good = fields(Some("/crates/a"), Some("a"), Some("  one\ntwo  "));
    let m = meta_from_fields(&good).unwrap();
    assert_eq!(m.description, "one two");
    assert!(meta_from_fields(&fields(Some("/x"), None, Some("d"))).is_none());
    assert!(meta_from_fields(&fields(None, Some("t"), Some("d"))).is_none());
    assert!(meta_from_fields(&fields(Some("/x"), Some("t"), None)).is_none());
    let all = vec![good, fields(Some("/crates/b"), Some("b"), None)];
    assert!(extract_listing(&all).is_none());
    let ok = vec![
        fields(Some("/crates/a"), Some("a"), Some("x")),
        fields(Some("/crates/b"), Some("b"), Some("y")),
    ];
    let r = extract_listing(&ok).unwrap();
    assert_eq!(r.len(), 2);
    assert_eq!(r[1].url, "/crates/b");
}

#[test]
fn description_is_trimmed_and_joined() {
    assert_eq!(normalize_description("\n  a\nb\nc \n"), "a b c");
    assert_eq!(normalize_description(""), "");
}

#[test]
fn meta_url_is_absolute() {
    assert_eq!(meta("foo", None).url(), "https://lib.rs/crates/foo");
}

#[test]
fn title_without_version_keeps_trailing_space() {
    let c = Crate { meta: meta("bar", None), last_update: ts(JAN_2024), content: String::new() };
    assert_eq!(build_entry(&c, IdentifierMode::Plain).title, "bar ");
}

#[test]
fn readme_missing_fails_batch() {
    let metas = vec![meta("a", None), meta("b", None)];
    let fetched = vec![
        Fetched { page: Some("<div id=\"readme\">A</div>".to_string()), last_update: Some(ts(JAN_2024)) },
        Fetched { page: Some("<div id=\"other\">B</div>".to_string()), last_update: Some(ts(JAN_2024)) },
    ];
    assert_eq!(enrich(&metas, &fetched).err(), Some(EnrichError::MissingReadme(1)));
}

#[test]
fn failed_lookup_fails_batch() {
    let metas = vec![meta("a", None), meta("b", None)];
    let fetched = vec![
        Fetched { page: Some("<div id=\"readme\">A</div>".to_string()), last_update: None },
        Fetched { page: None, last_update: Some(ts(JAN_2024)) },
    ];
    assert_eq!(enrich(&metas, &fetched).err(), Some(EnrichError::Fetch(0)));
    assert_eq!(enrich(&metas, &fetched[..1].to_vec_fetched()).err(), Some(EnrichError::CountMismatch));
}

trait ToVecFetched {
    fn to_vec_fetched(&self) -> Vec<Fetched>;
}

impl ToVecFetched for [Fetched] {
    fn to_vec_fetched(&self) -> Vec<Fetched> {
        self.iter()
            .map(|f| Fetched { page: f.page.clone(), last_update: f.last_update })
            .collect()
    }
}

#[test]
fn enrichment_keeps_input_order() {
    let metas = vec![meta("z", None), meta("a", Some("1.0.0")), meta("m", None)];
    let fetched: Vec<Fetched> = (0..3)
        .map(|i| Fetched {
            page: Some(format!("<p><div id=\"readme\">r{}</div></p>", i)),
            last_update: Some(ts(JAN_2024 + i)),
        })
        .collect();
    let crates = enrich(&metas, &fetched).unwrap();
    assert_eq!(crates.len(), 3);
    for (i, c) in crates.iter().enumerate() {
        assert_eq!(c.meta.title, metas[i].title);
        assert_eq!(c.last_update, ts(JAN_2024 + i as i64));
        assert_eq!(c.content, format!("<div id=\"readme\">r{}</div>", i));
    }
}

#[test]
fn identifier_is_deterministic() {
    let a = generate_uuid("foo", &ts(JAN_2024));
    let b = generate_uuid("foo", &ts(JAN_2024));
    assert_eq!(a, b);
    assert_eq!(a.len(), 36);
    assert_ne!(a, generate_uuid("foo", &ts(JAN_2024 + 1)));
    assert_ne!(a, generate_uuid("fob", &ts(JAN_2024)));
}

#[test]
fn identifier_matches_uuid_v5() {
    let site = uuid::Uuid::new_v5(&uuid::Uuid::NAMESPACE_URL, b"https://lib.rs");
    let expected = uuid::Uuid::new_v5(&site, b"foo-2024-01-01 00:00:00 +00:00");
    assert_eq!(generate_uuid("foo", &ts(JAN_2024)), expected.to_string());
}

#[test]
fn different_timestamps_give_different_links() {
    let c1 = Crate { meta: meta("foo", Some("1.0.0")), last_update: ts(JAN_2024), content: String::new() };
    let c2 = Crate { meta: meta("foo", Some("1.0.0")), last_update: ts(JAN_2024 + 86400), content: String::new() };
    let e1 = build_entry(&c1, IdentifierMode::Derived);
    let e2 = build_entry(&c2, IdentifierMode::Derived);
    assert_ne!(e1.guid, e2.guid);
    assert_ne!(e1.link, e2.link);
    assert_eq!(e2.pub_date, "Tue, 2 Jan 2024 00:00:00 +0000");
}

#[test]
fn offset_is_rendered() {
    let t = Timestamp::new(JAN_2024, 0, 3600).unwrap();
    let c = Crate { meta: meta("foo", None), last_update: t, content: String::new() };
    assert_eq!(build_entry(&c, IdentifierMode::Plain).pub_date, "Mon, 1 Jan 2024 01:00:00 +0100");
}

#[test]
fn timestamp_range_is_checked() {
    assert!(Timestamp::new(0, 0, 0).is_some());
    assert!(Timestamp::new(0, 1_000_000_000, 0).is_none());
    assert!(Timestamp::new(0, 0, 86_400).is_none());
    assert!(Timestamp::new(i64::MAX, 0, 0).is_none());
    assert!(Timestamp::new(i64::MIN, 0, 0).is_none());
}

#[test]
fn feed_document_wraps_entries() {
    let crates = vec![
        Crate { meta: meta("a", None), last_update: ts(JAN_2024), content: "x".to_string() },
        Crate { meta: meta("b", Some("2.0.0")), last_update: ts(JAN_2024), content: "y".to_string() },
    ];
    let doc = feed_document("new", feed_entries(&crates, IdentifierMode::Plain));
    assert_eq!(doc.title, "Lib.rs - new");
    assert_eq!(doc.link, "https://lib.rs");
    assert_eq!(doc.description, "Recently published Rust libraries and applications");
    assert_eq!(doc.items.len(), 2);
    assert_eq!(doc.items[1].title, "b 2.0.0");
    assert_eq!(doc.items[0].link, "https://lib.rs/crates/a");
}

#[test]
fn channel_round_trip() {
    let crates = vec![
        Crate { meta: meta("a", Some("0.1.0")), last_update: ts(JAN_2024), content: "<p>x</p>".to_string() },
        Crate { meta: meta("b", Some("2.0.0")), last_update: ts(JAN_2024 + 5), content: "y".to_string() },
    ];
    let expected = feed_entries(&crates, IdentifierMode::Derived);
    let channel = generate_channel("trending", generate_entries(crates));
    let xml = channel.to_string();
    let parsed = rss::Channel::read_from(xml.as_bytes()).unwrap();
    assert_eq!(parsed.title(), "Lib.rs - trending");
    assert_eq!(parsed.link(), "https://lib.rs");
    assert_eq!(parsed.items().len(), expected.len());
    for (item, e) in parsed.items().iter().zip(expected.iter()) {
        assert_eq!(item.title(), Some(e.title.as_str()));
        assert_eq!(item.link(), Some(e.link.as_str()));
        assert_eq!(item.description(), Some(e.description.as_str()));
        assert_eq!(item.pub_date(), Some(e.pub_date.as_str()));
        assert_eq!(item.content(), Some(e.content.as_str()));
        let guid = item.guid().unwrap();
        assert_eq!(Some(guid.value().to_string()), e.guid.clone());
        assert!(!guid.is_permalink());
    }
}

#[test]
fn readme_extracted_from_parsed_page() {
    let doc = Page::parse("<html><body><main><div id=\"readme\"><h1>T</h1></div></main></body></html>");
    assert_eq!(extract_content(&doc).as_deref(), Some("<div id=\"readme\"><h1>T</h1></div>"));
    let none = Page::parse("<html><body><p>nothing</p></body></html>");
    assert!(extract_content(&none).is_none());
}

#[test]
fn channel_reader_trims_versionless_title() {
    let crates = vec![Crate { meta: meta("a", None), last_update: ts(JAN_2024), content: String::new() }];
    let xml = generate_channel("new", generate_entries(crates)).to_string();
    let parsed = rss::Channel::read_from(xml.as_bytes()).unwrap();
    assert_eq!(parsed.items().len(), 1);
    assert_eq!(parsed.items()[0].title(), Some("a"));
    assert_eq!(parsed.items()[0].link().map(|l| l.starts_with("https://lib.rs/crates/a?hash=")), Some(true));
}

#[test]
fn document_follows_identifier_mode() {
    let crates = vec![Crate { meta: meta("q", Some("3.0.0")), last_update: ts(JAN_2024), content: "c".to_string() }];
    let plain = generate_document("new", &crates, IdentifierMode::Plain);
    let derived = generate_document("new", &crates, IdentifierMode::Derived);
    assert_eq!(plain.title, "Lib.rs - new");
    assert_eq!(plain.items[0].link, "https://lib.rs/crates/q");
    assert!(plain.items[0].guid.is_none());
    let id = generate_uuid("q", &ts(JAN_2024));
    assert_eq!(derived.items[0].link, format!("https://lib.rs/crates/q?hash={}", id));
    assert_eq!(derived.items[0].guid, Some(format!("urn:uuid:{}", id)));
    assert_eq!(derived.items[0].content, "c");
    assert_eq!(derived.items[0].description, "q things");
}

#[test]
fn sections_read_only_their_own_anchors() {
    let a = page(&[entry_html("/crates/a", "a", "x", None)], &[]);
    let b = page(
        &[entry_html("/crates/a", "a", "x", None)],
        &["<li><a>broken</a></li>".to_string()],
    );
    assert_eq!(parse_new(&a).unwrap()[0].title, parse_new(&b).unwrap()[0].title);
    assert!(parse_trending(&b).is_none());
    assert_eq!(parse_trending(&a).unwrap().len(), 0);
}

#[test]
fn empty_channel_header() {
    let channel = generate_channel("new", Vec::new());
    assert_eq!(channel.title(), "Lib.rs - new");
    assert_eq!(channel.link(), "https://lib.rs");
    assert_eq!(channel.description(), "Recently published Rust libraries and applications");
    assert!(channel.items().is_empty());
}

#[test]
fn items_carry_entry_fields() {
    let crates = vec![
        Crate { meta: meta("bar", None), last_update: ts(JAN_2024), content: String::new() },
        Crate { meta: meta("foo", Some("1.2.3")), last_update: ts(JAN_2024), content: "<div id=\"readme\">Hello</div>".to_string() },
    ];
    let plain = generate_items(&crates, IdentifierMode::Plain);
    assert_eq!(plain[0].title(), Some("bar "));
    assert_eq!(plain[0].link(), Some("https://lib.rs/crates/bar"));
    assert!(plain[0].guid().is_none());
    let derived = generate_entries(crates);
    assert_eq!(derived[1].title(), Some("foo 1.2.3"));
    assert_eq!(derived[1].description(), Some("foo things"));
    assert_eq!(derived[1].content(), Some("<div id=\"readme\">Hello</div>"));
    assert_eq!(derived[1].pub_date(), Some("Mon, 1 Jan 2024 00:00:00 +0000"));
    let link = derived[1].link().unwrap();
    assert!(link.starts_with("https://lib.rs/crates/foo?hash="));
    assert_eq!(link.len(), 31 + 36);
    let guid = derived[1].guid().unwrap();
    assert_eq!(guid.value(), format!("urn:uuid:{}", generate_uuid("foo", &ts(JAN_2024))));
    assert!(!guid.is_permalink());
}
