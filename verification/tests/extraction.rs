use gradescope_calendar::gradescope::{
    read_attribute, read_markup, read_text, select_all, select_first,
};
use scraper::{Html, Selector};

fn fragment() -> Html {
    Html::parse_document(
        "<html><body><div id=\"scope\"><p class=\"a\" title=\"one\">first <b>bold</b></p>\
         <p class=\"a\">second</p><span class=\"b\" data-x=\"7\"></span></div>\
         <p class=\"a\" title=\"outside\">outside</p></body></html>",
    )
}

fn scope(page: &Html) -> scraper::ElementRef<'_> {
    page.select(&Selector::parse("#scope").unwrap()).next().unwrap()
}

#[test]
fn first_match_is_the_first_in_document_order() {
    let page = fragment();
    let found = select_first(scope(&page), &Selector::parse(".a").unwrap()).unwrap();
    assert_eq!(found.attr("title"), Some("one"));
}

#[test]
fn absence_is_none_and_no_failure() {
    let page = fragment();
    let nothing = Selector::parse(".missing").unwrap();
    assert!(select_first(scope(&page), &nothing).is_none());
    assert_eq!(read_markup(scope(&page), &nothing), None);
    assert_eq!(read_attribute(scope(&page), &nothing, "title"), None);
}

#[test]
fn markup_of_the_first_match_is_read() {
    let page = fragment();
    let a = Selector::parse(".a").unwrap();
    assert_eq!(read_markup(scope(&page), &a), Some("first <b>bold</b>".to_string()));
    let b = Selector::parse(".b").unwrap();
    assert_eq!(read_markup(scope(&page), &b), Some(String::new()));
}

#[test]
fn attribute_of_the_first_match_is_read() {
    let page = fragment();
    let a = Selector::parse(".a").unwrap();
    assert_eq!(read_attribute(scope(&page), &a, "title"), Some("one".to_string()));
    assert_eq!(read_attribute(scope(&page), &a, "href"), None);
    let b = Selector::parse(".b").unwrap();
    assert_eq!(read_attribute(scope(&page), &b, "data-x"), Some("7".to_string()));
}

#[test]
fn matches_are_sought_below_the_scope_only() {
    let page = fragment();
    let outside = Selector::parse("[title=outside]").unwrap();
    assert!(select_first(scope(&page), &outside).is_none());
    let itself = Selector::parse("#scope").unwrap();
    assert!(select_first(scope(&page), &itself).is_none());
}

#[test]
fn text_of_an_element_is_all_text_below_it() {
    let page = fragment();
    let a = Selector::parse(".a").unwrap();
    let first = select_first(scope(&page), &a).unwrap();
    assert_eq!(read_text(first), "first bold");
    assert_eq!(read_text(scope(&page)), "first boldsecond");
    let b = Selector::parse(".b").unwrap();
    assert_eq!(read_text(select_first(scope(&page), &b).unwrap()), "");
}

#[test]
fn all_matches_come_in_document_order() {
    let page = fragment();
    let found = select_all(scope(&page), ".a, .b").unwrap();
    let titles: Vec<Option<&str>> = found.iter().map(|element| element.attr("title")).collect();
    assert_eq!(titles, [Some("one"), None, None]);
    assert_eq!(found[2].attr("data-x"), Some("7"));
}

#[test]
fn no_match_is_an_empty_sequence() {
    let page = fragment();
    assert_eq!(select_all(scope(&page), ".missing").unwrap().len(), 0);
}

#[test]
fn text_that_is_no_selector_gives_no_result() {
    let page = fragment();
    assert!(select_all(scope(&page), "p >").is_none());
    assert!(select_all(scope(&page), "").is_none());
    assert!(select_all(scope(&page), "..a").is_none());
}
