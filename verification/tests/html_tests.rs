use neo_mangal::scraper::html::select_elements;

const PAGE: &str = r#"<html><body>
<div class="item"><a href="/manga/1" TITLE="One">One <b>Piece</b></a></div>
<div class="item"><a href="/manga/2">Naruto</a></div>
</body></html>"#;

#[test]
fn selectors_pick_elements_in_document_order() {
    let links = select_elements(PAGE, false, "div.item a");
    assert_eq!(links.len(), 2);
    assert_eq!(links[0].text, "One  Piece");
    assert_eq!(links[0].inner_html, "One <b>Piece</b>");
    assert_eq!(links[0].attribute("href"), "/manga/1");
    // Attribute names match up to ASCII case; a missing one is empty.
    assert_eq!(links[0].attribute("Title"), "One");
    assert_eq!(links[1].attribute("title"), "");
    assert_eq!(links[1].text, "Naruto");
    // A query inside an element's inner HTML.
    let bold = select_elements(&links[0].inner_html, true, "b");
    assert_eq!(bold.len(), 1);
    assert_eq!(bold[0].text, "Piece");
    // A selector that does not parse picks nothing.
    assert!(select_elements(PAGE, false, "div[").is_empty());
    assert!(select_elements(PAGE, false, "span").is_empty());
}

#[test]
fn test_lua_runtime_html_parsing() {
    let doc = "<div class='manga'><a href='/manga/123'>One Piece</a><span class='author'>Oda</span></div>";
    let links = select_elements(doc, false, ".manga a");
    let link = &links[0];
    assert_eq!(link.text, "One Piece");
    assert_eq!(link.attribute("href"), "/manga/123");
    assert_eq!(select_elements(doc, false, "a, span").len(), 2);
}
