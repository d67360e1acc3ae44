//! The types of the `latex` crate that this library fills, and the few calls made into it.
use vstd::prelude::*;
use latex::{DocumentClass, Element, Preamble, PreambleElement, Section};

verus! {

#[verifier::external_type_specification]
#[verifier::external_body]
pub struct ExElement(Element);

#[verifier::external_type_specification]
#[verifier::external_body]
pub struct ExPreambleElement(PreambleElement);

#[verifier::external_type_specification]
#[verifier::external_body]
pub struct ExPreamble(Preamble);

#[verifier::external_type_specification]
#[verifier::external_body]
pub struct ExSection(Section);

#[verifier::external_type_specification]
#[verifier::external_body]
pub struct ExDocumentClass(DocumentClass);

/// The document element that renders the given text unchanged.
pub uninterp spec fn raw_element(text: Seq<char>) -> Element;

/// The preamble element that renders the given text unchanged.
pub uninterp spec fn raw_preamble_element(text: Seq<char>) -> PreambleElement;

/// The document class with the given class name.
pub uninterp spec fn other_class(name: Seq<char>) -> DocumentClass;

/// The elements of a preamble, in the order they were added.
pub uninterp spec fn preamble_contents(p: Preamble) -> Seq<PreambleElement>;

/// The elements of a section, in the order they were added.
pub uninterp spec fn section_contents(s: Section) -> Seq<Element>;

/// Relies on `latex::Element::UserDefined`: the variant that carries raw text.
#[verifier::external_body]
pub(crate) fn user_element(text: String) -> (r: Element)
    ensures
        r == raw_element(text@),
{
    Element::UserDefined(text)
}

/// Relies on `latex::PreambleElement::UserDefined`: the variant that carries raw text.
#[verifier::external_body]
pub(crate) fn user_preamble_element(text: String) -> (r: PreambleElement)
    ensures
        r == raw_preamble_element(text@),
{
    PreambleElement::UserDefined(text)
}

/// Relies on `latex::DocumentClass::Other`: the variant that carries a class name.
#[verifier::external_body]
pub(crate) fn class_named(name: String) -> (r: DocumentClass)
    ensures
        r == other_class(name@),
{
    DocumentClass::Other(name)
}

/// Relies on `latex::Preamble::push`: appends the element at the end of the contents.
#[verifier::external_body]
pub(crate) fn preamble_push(p: &mut Preamble, e: PreambleElement)
    ensures
        preamble_contents(*final(p)) == preamble_contents(*old(p)).push(e),
{
    p.push(e);
}

/// Relies on `latex::Section::push`: appends the element at the end of the contents.
#[verifier::external_body]
pub(crate) fn section_push(s: &mut Section, e: Element)
    ensures
        section_contents(*final(s)) == section_contents(*old(s)).push(e),
{
    s.push(e);
}

} // verus!
