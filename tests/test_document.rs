use latex::Element;
use moderncv::{closesection, document_class, emptysection};

#[test]
fn test_document_class() {
    let s = document_class().to_string();
    assert!(s.eq("moderncv"));
}

#[test]
fn test_closesection() {
    let left = closesection();
    let right = Element::UserDefined(r"\closesection{}".to_string());

    assert!(left.eq(&right));
}

#[test]
fn test_emptysection() {
    let left = emptysection();
    let right = Element::UserDefined(r"\emptysection{}".to_string());

    assert!(left.eq(&right));
}
