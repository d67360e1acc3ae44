//! An ergonomic library for programmatically generating LaTeX resume.
//!
//! Import `CVPreamble` and `CVSection`: they add the commands of the moderncv class to a
//! `latex::Preamble` and to a `latex::Section`. Every command is formatted by a function of its
//! own (`name_directive`, `cventry_directive`, ...) whose result is stated exactly.
use vstd::prelude::*;
use latex::{DocumentClass, Element};
use crate::directive::{format_one, one_arg};
use crate::elements::{class_named, other_class, raw_element, user_element};

pub mod directive;
pub mod elements;
pub mod preamble;
pub mod section;

pub use preamble::{CVPreamble, Color, PhoneType, SocialType, Style};
pub use section::CVSection;

verus! {

/// DocumentClass for moderncv
pub fn document_class() -> (r: DocumentClass)
    ensures
        r == other_class("moderncv"@),
{
    class_named(String::from_str("moderncv"))
}

/// Formats `\closesection{}`.
pub fn closesection_directive() -> (r: String)
    ensures
        r@ == one_arg("closesection"@, Seq::empty()),
{
    let r = format_one("closesection", "");
    proof {
        reveal_strlit("");
    }
    assert(""@ =~= Seq::<char>::empty());
    r
}

/// Formats `\emptysection{}`.
pub fn emptysection_directive() -> (r: String)
    ensures
        r@ == one_arg("emptysection"@, Seq::empty()),
{
    let r = format_one("emptysection", "");
    proof {
        reveal_strlit("");
    }
    assert(""@ =~= Seq::<char>::empty());
    r
}

/// Close section(`\closesection{}`)
pub fn closesection() -> (r: Element)
    ensures
        r == raw_element(one_arg("closesection"@, Seq::empty())),
{
    user_element(closesection_directive())
}

/// Empty section(`\emptysection{}`)
pub fn emptysection() -> (r: Element)
    ensures
        r == raw_element(one_arg("emptysection"@, Seq::empty())),
{
    user_element(emptysection_directive())
}

} // verus!
