use doc_cfg::quote_macro::quote_replace;

fn pairs(ps: &[(&str, &str)]) -> Vec<(String, String)> {
    ps.iter()
        .map(|(a, b)| (a.to_string(), b.to_string()))
        .collect()
}

#[test]
fn fills_markers() {
    let r = quote_replace("fn # name () { # body }", &pairs(&[("name", "test"), ("body", "")]));
    assert_eq!(r, "fn test () {  }");
}

#[test]
fn later_pairs_see_earlier_output() {
    let r = quote_replace("# a", &pairs(&[("a", "# b"), ("b", "done")]));
    assert_eq!(r, "done");
}

#[test]
fn no_markers_unchanged() {
    let r = quote_replace("fn test() {}", &pairs(&[("name", "x")]));
    assert_eq!(r, "fn test() {}");
    let r = quote_replace("fn # name()", &pairs(&[]));
    assert_eq!(r, "fn # name()");
}

#[test]
fn replaces_every_occurrence() {
    let r = quote_replace("# x + # x + # x", &pairs(&[("x", "1")]));
    assert_eq!(r, "1 + 1 + 1");
}
