//! The entries of a moderncv section.
use vstd::prelude::*;
use latex::{Element, Section};
use crate::directive::{
    filled_group, format_four, format_one, format_three, format_two, four_args, one_arg,
    opt_view, push_filled, three_args, two_args,
};
use crate::elements::{raw_element, section_contents, section_push, user_element};

verus! {

/// `\cventry{years}{job}{employer}{localization}{grade}{comment}`: the last two groups are
/// always there, empty when their value is absent.
pub open spec fn cventry_text(
    years: Seq<char>,
    job: Seq<char>,
    employer: Seq<char>,
    localization: Seq<char>,
    grade: Option<Seq<char>>,
    comment: Option<Seq<char>>,
) -> Seq<char> {
    four_args("cventry"@, years, job, employer, localization) + filled_group(grade)
        + filled_group(comment)
}

/// Formats `\cventry{years}{job}{employer}{localization}{grade}{comment}`.
pub fn cventry_directive(
    years: &str,
    job: &str,
    employer: &str,
    localization: &str,
    grade: Option<&str>,
    comment: Option<&str>,
) -> (r: String)
    ensures
        r@ == cventry_text(
            years@,
            job@,
            employer@,
            localization@,
            opt_view(grade),
            opt_view(comment),
        ),
{
    let mut s = format_four("cventry", years, job, employer, localization);
    push_filled(&mut s, grade);
    push_filled(&mut s, comment);
    s
}

/// Formats `\cvlanguage` with its three arguments.
pub fn cvlanguage_directive(name: &str, level: &str, comment: &str) -> (r: String)
    ensures
        r@ == three_args("cvlanguage"@, name@, level@, comment@),
{
    format_three("cvlanguage", name, level, comment)
}

/// Formats `\cvcomputer` with its four arguments.
pub fn cvcomputer_directive(
    category1: &str,
    programs1: &str,
    category2: &str,
    programs2: &str,
) -> (r: String)
    ensures
        r@ == four_args("cvcomputer"@, category1@, programs1@, category2@, programs2@),
{
    format_four("cvcomputer", category1, programs1, category2, programs2)
}

/// Formats `\cvline` with its two arguments.
pub fn cvline_directive(header: &str, text: &str) -> (r: String)
    ensures
        r@ == two_args("cvline"@, header@, text@),
{
    format_two("cvline", header, text)
}

/// Formats `\cvitem` with its two arguments.
pub fn cvitem_directive(header: &str, text: &str) -> (r: String)
    ensures
        r@ == two_args("cvitem"@, header@, text@),
{
    format_two("cvitem", header, text)
}

/// Formats `\cvdoubleitem` with its four arguments.
pub fn cvdoubleitem_directive(header1: &str, text1: &str, header2: &str, text2: &str) -> (r: String)
    ensures
        r@ == four_args("cvdoubleitem"@, header1@, text1@, header2@, text2@),
{
    format_four("cvdoubleitem", header1, text1, header2, text2)
}

/// Formats `\cvlistitem` with its one argument.
pub fn cvlistitem_directive(item: &str) -> (r: String)
    ensures
        r@ == one_arg("cvlistitem"@, item@),
{
    format_one("cvlistitem", item)
}

/// Formats `\cvlistdoubleitem` with its two arguments.
pub fn cvlistdoubleitem_directive(item1: &str, item2: &str) -> (r: String)
    ensures
        r@ == two_args("cvlistdoubleitem"@, item1@, item2@),
{
    format_two("cvlistdoubleitem", item1, item2)
}

/// Formats `\cvitemwithcomment` with its three arguments.
pub fn cvitemwithcomment_directive(header: &str, text: &str, comment: &str) -> (r: String)
    ensures
        r@ == three_args("cvitemwithcomment"@, header@, text@, comment@),
{
    format_three("cvitemwithcomment", header, text, comment)
}

/// A trait which implement useful functions for moderncv section
pub trait CVSection: Sized {
    /// The elements held, in the order they were added.
    spec fn entries(&self) -> Seq<Element>;

    /// Make a typical resume job / education entry, at the end of the section.
    fn cventry(
        &mut self,
        years: &str,
        job: &str,
        employer: &str,
        localization: &str,
        grade: Option<&str>,
        comment: Option<&str>,
    ) -> (r: &mut Self)
        ensures
            r.entries() == old(self).entries().push(
                raw_element(
                    cventry_text(
                        years@,
                        job@,
                        employer@,
                        localization@,
                        opt_view(grade),
                        opt_view(comment),
                    ),
                ),
            ),
            *final(self) == *final(r),
    ;

    /// Make a resume entry to describe language skills, at the end of the section.
    fn cvlanguage(&mut self, name: &str, level: &str, comment: &str) -> (r: &mut Self)
        ensures
            r.entries() == old(self).entries().push(
                raw_element(three_args("cvlanguage"@, name@, level@, comment@)),
            ),
            *final(self) == *final(r),
    ;

    /// Make a resume entry to describe computer skills, at the end of the section.
    fn cvcomputer(
        &mut self,
        category1: &str,
        programs1: &str,
        category2: &str,
        programs2: &str,
    ) -> (r: &mut Self)
        ensures
            r.entries() == old(self).entries().push(
                raw_element(
                    four_args("cvcomputer"@, category1@, programs1@, category2@, programs2@),
                ),
            ),
            *final(self) == *final(r),
    ;

    /// Make a resume line with a header and a corresponding text (Alias of `cvitem`), at the
    /// end of the section.
    fn cvline(&mut self, header: &str, text: &str) -> (r: &mut Self)
        ensures
            r.entries() == old(self).entries().push(
                raw_element(two_args("cvline"@, header@, text@)),
            ),
            *final(self) == *final(r),
    ;

    /// Make a resume line with a header and a corresponding text, at the end of the section.
    fn cvitem(&mut self, header: &str, text: &str) -> (r: &mut Self)
        ensures
            r.entries() == old(self).entries().push(
                raw_element(two_args("cvitem"@, header@, text@)),
            ),
            *final(self) == *final(r),
    ;

    /// Make a resume line with two headers and their corresponding text, at the end of the section.
    fn cvdoubleitem(
        &mut self,
        header1: &str,
        text1: &str,
        header2: &str,
        text2: &str,
    ) -> (r: &mut Self)
        ensures
            r.entries() == old(self).entries().push(
                raw_element(four_args("cvdoubleitem"@, header1@, text1@, header2@, text2@)),
            ),
            *final(self) == *final(r),
    ;

    /// Make a resume line with a list item, at the end of the section.
    fn cvlistitem(&mut self, item: &str) -> (r: &mut Self)
        ensures
            r.entries() == old(self).entries().push(raw_element(one_arg("cvlistitem"@, item@))),
            *final(self) == *final(r),
    ;

    /// Make a resume line with two list items, at the end of the section.
    fn cvlistdoubleitem(&mut self, item1: &str, item2: &str) -> (r: &mut Self)
        ensures
            r.entries() == old(self).entries().push(
                raw_element(two_args("cvlistdoubleitem"@, item1@, item2@)),
            ),
            *final(self) == *final(r),
    ;

    /// Make a resume entry with a proficiency comment, at the end of the section.
    fn cvitemwithcomment(&mut self, header: &str, text: &str, comment: &str) -> (r: &mut Self)
        ensures
            r.entries() == old(self).entries().push(
                raw_element(three_args("cvitemwithcomment"@, header@, text@, comment@)),
            ),
            *final(self) == *final(r),
    ;

}

/// Two entries added one after the other stand at the end of the section in the order in which
/// they were added: on an empty section, exactly `[first, second]`.
pub proof fn lemma_entries_in_order<S: CVSection>(
    before: S,
    middle: S,
    after: S,
    first: Element,
    second: Element,
)
    requires
        middle.entries() == before.entries().push(first),
        after.entries() == middle.entries().push(second),
    ensures
        after.entries() == before.entries() + seq![first, second],
        before.entries().len() == 0 ==> after.entries() == seq![first, second],
{
    assert(after.entries() =~= before.entries() + seq![first, second]);
}

impl CVSection for Section {
    open spec fn entries(&self) -> Seq<Element> {
        section_contents(*self)
    }

    fn cventry(
        &mut self,
        years: &str,
        job: &str,
        employer: &str,
        localization: &str,
        grade: Option<&str>,
        comment: Option<&str>,
    ) -> (r: &mut Self) {
        let elem = self::cventry(years, job, employer, localization, grade, comment);
        section_push(self, elem);
        self
    }

    fn cvlanguage(&mut self, name: &str, level: &str, comment: &str) -> (r: &mut Self) {
        let elem = self::cvlanguage(name, level, comment);
        section_push(self, elem);
        self
    }

    fn cvcomputer(
        &mut self,
        category1: &str,
        programs1: &str,
        category2: &str,
        programs2: &str,
    ) -> (r: &mut Self) {
        let elem = self::cvcomputer(category1, programs1, category2, programs2);
        section_push(self, elem);
        self
    }

    fn cvline(&mut self, header: &str, text: &str) -> (r: &mut Self) {
        let elem = self::cvline(header, text);
        section_push(self, elem);
        self
    }

    fn cvitem(&mut self, header: &str, text: &str) -> (r: &mut Self) {
        let elem = self::cvitem(header, text);
        section_push(self, elem);
        self
    }

    fn cvdoubleitem(
        &mut self,
        header1: &str,
        text1: &str,
        header2: &str,
        text2: &str,
    ) -> (r: &mut Self) {
        let elem = self::cvdoubleitem(header1, text1, header2, text2);
        section_push(self, elem);
        self
    }

    fn cvlistitem(&mut self, item: &str) -> (r: &mut Self) {
        let elem = self::cvlistitem(item);
        section_push(self, elem);
        self
    }

    fn cvlistdoubleitem(&mut self, item1: &str, item2: &str) -> (r: &mut Self) {
        let elem = self::cvlistdoubleitem(item1, item2);
        section_push(self, elem);
        self
    }

    fn cvitemwithcomment(&mut self, header: &str, text: &str, comment: &str) -> (r: &mut Self) {
        let elem = self::cvitemwithcomment(header, text, comment);
        section_push(self, elem);
        self
    }

}

/// Make a typical resume job / education entry
pub fn cventry(
    years: &str,
    job: &str,
    employer: &str,
    localization: &str,
    grade: Option<&str>,
    comment: Option<&str>,
) -> (r: Element)
    ensures
        r == raw_element(
            cventry_text(
                years@,
                job@,
                employer@,
                localization@,
                opt_view(grade),
                opt_view(comment),
            ),
        ),
{
    user_element(cventry_directive(years, job, employer, localization, grade, comment))
}

/// Make a resume entry to describe language skills
pub fn cvlanguage(name: &str, level: &str, comment: &str) -> (r: Element)
    ensures
        r == raw_element(three_args("cvlanguage"@, name@, level@, comment@)),
{
    user_element(cvlanguage_directive(name, level, comment))
}

/// Make a resume entry to describe computer skills
pub fn cvcomputer(
    category1: &str,
    programs1: &str,
    category2: &str,
    programs2: &str,
) -> (r: Element)
    ensures
        r == raw_element(four_args("cvcomputer"@, category1@, programs1@, category2@, programs2@)),
{
    user_element(cvcomputer_directive(category1, programs1, category2, programs2))
}

/// Make a resume line with a header and a corresponding text (Alias of `cvitem`)
pub fn cvline(header: &str, text: &str) -> (r: Element)
    ensures
        r == raw_element(two_args("cvline"@, header@, text@)),
{
    user_element(cvline_directive(header, text))
}

/// Make a resume line with a header and a corresponding text
pub fn cvitem(header: &str, text: &str) -> (r: Element)
    ensures
        r == raw_element(two_args("cvitem"@, header@, text@)),
{
    user_element(cvitem_directive(header, text))
}

/// Make a resume line with two headers and their corresponding text
pub fn cvdoubleitem(header1: &str, text1: &str, header2: &str, text2: &str) -> (r: Element)
    ensures
        r == raw_element(four_args("cvdoubleitem"@, header1@, text1@, header2@, text2@)),
{
    user_element(cvdoubleitem_directive(header1, text1, header2, text2))
}

/// Make a resume line with a list item
pub fn cvlistitem(item: &str) -> (r: Element)
    ensures
        r == raw_element(one_arg("cvlistitem"@, item@)),
{
    user_element(cvlistitem_directive(item))
}

/// Make a resume line with two list items
pub fn cvlistdoubleitem(item1: &str, item2: &str) -> (r: Element)
    ensures
        r == raw_element(two_args("cvlistdoubleitem"@, item1@, item2@)),
{
    user_element(cvlistdoubleitem_directive(item1, item2))
}

/// Make a resume entry with a proficiency comment
pub fn cvitemwithcomment(header: &str, text: &str, comment: &str) -> (r: Element)
    ensures
        r == raw_element(three_args("cvitemwithcomment"@, header@, text@, comment@)),
{
    user_element(cvitemwithcomment_directive(header, text, comment))
}

} // verus!
