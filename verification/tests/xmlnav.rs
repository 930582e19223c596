use igdp::xml::{parse_xml, Cursor};

#[test]
fn cursor_chains_through_missing_elements() {
    let doc = parse_xml("<a><b><c>text</c></b></a>").expect("xml");
    let cur = Cursor::new(&doc);
    assert_eq!(cur.get("a").get("b").get("c").text(), Some("text".to_string()));
    assert!(cur.get("a").get("missing").get("c").text().is_none());
    assert!(cur.get("missing").get("b").get("c").text().is_none());
}

#[test]
fn cursor_takes_first_matching_child_in_document_order() {
    let doc = parse_xml("<a><b>first</b><b>second</b></a>").expect("xml");
    let cur = Cursor::new(&doc);
    assert_eq!(cur.get("a").get("b").text(), Some("first".to_string()));
}

#[test]
fn cursor_finds_direct_children_only() {
    let doc = parse_xml("<a><b><c>deep</c></b></a>").expect("xml");
    let cur = Cursor::new(&doc);
    assert!(cur.get("a").get("c").text().is_none());
}

#[test]
fn namespace_prefixes_are_stripped() {
    let doc = parse_xml("<s:a xmlns:s=\"urn:x\"><s:b>t</s:b></s:a>").expect("xml");
    let cur = Cursor::new(&doc);
    assert_eq!(cur.get("a").get("b").text(), Some("t".to_string()));
}

#[test]
fn element_without_leading_text_has_none() {
    let doc = parse_xml("<a><b/>tail</a>").expect("xml");
    let cur = Cursor::new(&doc);
    assert!(cur.get("a").get("b").text().is_none());
}

#[test]
fn malformed_xml_is_rejected() {
    assert!(parse_xml("<a><b></a>").is_none());
    assert!(parse_xml("plain text").is_none());
}
