use latex::{Element, Preamble, PreambleElement, Section};
use moderncv::directive::{format_four, format_one, format_three, format_two, texify};
use moderncv::preamble::{
    address, address_directive, cvtheme_directive, email_directive, extrainfo_directive,
    familyname_directive, fax_directive, firstname_directive, givenname_directive,
    homepage_directive, lastname_directive, mobile_directive, name_directive, phone,
    phone_directive, photo_directive, quote_directive, social_directive,
};
use moderncv::section::{
    cventry, cventry_directive, cvitem_directive, cvitemwithcomment, cvitemwithcomment_directive,
    cvlistitem_directive,
};
use moderncv::{
    closesection_directive, emptysection_directive, CVPreamble, CVSection, Color, PhoneType,
    SocialType, Style,
};

#[test]
fn name_directive_wraps_both_parts() {
    assert_eq!(name_directive("a", "b"), r"\name{a}{b}");
    assert_eq!(name_directive("", ""), r"\name{}{}");
}

#[test]
fn single_value_directives() {
    assert_eq!(firstname_directive("s"), r"\firstname{s}");
    assert_eq!(lastname_directive("s"), r"\lastname{s}");
    assert_eq!(givenname_directive("s"), r"\givenname{s}");
    assert_eq!(familyname_directive("s"), r"\familyname{s}");
    assert_eq!(mobile_directive("s"), r"\mobile{s}");
    assert_eq!(fax_directive("s"), r"\fax{s}");
    assert_eq!(email_directive("s"), r"\email{s}");
    assert_eq!(homepage_directive("s"), r"\homepage{s}");
    assert_eq!(extrainfo_directive("s"), r"\extrainfo{s}");
    assert_eq!(quote_directive("s"), r"\quote{s}");
}

#[test]
fn address_stops_at_first_absent_part() {
    assert_eq!(
        address_directive("12 somestreet", Some("3456 somecity"), None),
        r"\address{12 somestreet}{3456 somecity}"
    );
    assert_eq!(
        address_directive("12 somestreet", None, Some("unused")),
        r"\address{12 somestreet}"
    );
    assert_eq!(address_directive("st", Some("ci"), Some("co")), r"\address{st}{ci}{co}");
    assert_eq!(address_directive("st", None, None), r"\address{st}");
}

#[test]
fn phone_bracket_only_when_type_given() {
    assert_eq!(
        phone_directive("12 (3)456 78 90", Some(PhoneType::Mobile)),
        r"\phone[mobile]{12 (3)456 78 90}"
    );
    assert_eq!(phone_directive("12 (3)456 78 90", None), r"\phone{12 (3)456 78 90}");
    assert_eq!(phone_directive("1", Some(PhoneType::Fixed)), r"\phone[fixed]{1}");
    assert_eq!(phone_directive("1", Some(PhoneType::Fax)), r"\phone[fax]{1}");
}

#[test]
fn social_type_bracket_always_present() {
    assert_eq!(social_directive("me", SocialType::Github, None), r"\social[github]{me}");
    assert_eq!(
        social_directive("me", SocialType::Telegram, Some("t.me/me")),
        r"\social[telegram][t.me/me]{me}"
    );
}

#[test]
fn cvtheme_color_is_optional() {
    assert_eq!(cvtheme_directive(Style::Classic, None), r"\moderncvtheme{classic}");
    assert_eq!(
        cvtheme_directive(Style::Casual, Some(Color::Green)),
        r"\moderncvtheme[green]{casual}"
    );
}

#[test]
fn photo_options_in_declared_order() {
    assert_eq!(
        photo_directive("jdoe_picture", Some("64pt"), None),
        r"\photo[64pt]{jdoe_picture}"
    );
    assert_eq!(photo_directive("p", None, Some("0.4pt")), r"\photo[0.4pt]{p}");
    assert_eq!(photo_directive("p", Some("64pt"), Some("0.4pt")), r"\photo[64pt][0.4pt]{p}");
    assert_eq!(photo_directive("p", None, None), r"\photo{p}");
}

#[test]
fn cventry_renders_empty_braces_for_absent_values() {
    assert_eq!(
        cventry_directive("2020--2021", "Degree", "Institution", "City", Some("Grade"), Some("Desc")),
        r"\cventry{2020--2021}{Degree}{Institution}{City}{Grade}{Desc}"
    );
    assert_eq!(
        cventry_directive("2020--2021", "Degree", "Institution", "City", None, Some("Desc")),
        r"\cventry{2020--2021}{Degree}{Institution}{City}{}{Desc}"
    );
    assert_eq!(
        cventry_directive("y", "j", "e", "l", Some("g"), None),
        r"\cventry{y}{j}{e}{l}{g}{}"
    );
    assert_eq!(cventry_directive("y", "j", "e", "l", None, None), r"\cventry{y}{j}{e}{l}{}{}");
}

#[test]
fn other_section_directives() {
    assert_eq!(cvitem_directive("h", "t"), r"\cvitem{h}{t}");
    assert_eq!(cvitemwithcomment_directive("h", "t", "c"), r"\cvitemwithcomment{h}{t}{c}");
    assert_eq!(cvlistitem_directive("i"), r"\cvlistitem{i}");
}

#[test]
fn section_switches() {
    assert_eq!(closesection_directive(), r"\closesection{}");
    assert_eq!(emptysection_directive(), r"\emptysection{}");
}

#[test]
fn generic_formatter() {
    assert_eq!(texify("x", &[], &[]), r"\x");
    assert_eq!(texify("x", &[None, Some("o")], &["a", "b"]), r"\x[o]{a}{b}");
    assert_eq!(texify("x", &[Some("p"), None], &["a"]), r"\x[p]{a}");
    assert_eq!(format_one("x", "a"), r"\x{a}");
    assert_eq!(format_two("x", "a", "b"), r"\x{a}{b}");
    assert_eq!(format_three("x", "a", "b", "c"), r"\x{a}{b}{c}");
    assert_eq!(format_four("x", "a", "b", "c", "d"), r"\x{a}{b}{c}{d}");
}

#[test]
fn values_pass_through_verbatim() {
    assert_eq!(quote_directive(r"{x}]%"), r"\quote{{x}]%}");
}

#[test]
fn tags_are_lower_case_names() {
    let social = [
        (SocialType::LinkedIn, "linkedin"),
        (SocialType::XING, "xing"),
        (SocialType::Twitter, "twitter"),
        (SocialType::Github, "github"),
        (SocialType::Gitlab, "gitlab"),
        (SocialType::StackOverflow, "stackoverflow"),
        (SocialType::Bitbucket, "bitbucket"),
        (SocialType::Skype, "skype"),
        (SocialType::ORCID, "orcid"),
        (SocialType::ResearchGate, "researchgate"),
        (SocialType::ResearcherID, "researcherid"),
        (SocialType::Telegram, "telegram"),
        (SocialType::GoogleScholar, "googlescholar"),
    ];
    for (t, s) in social.iter() {
        assert_eq!(t.as_str(), *s);
    }
    assert_eq!(Color::Black.as_str(), "black");
    assert_eq!(Color::Blue.as_str(), "blue");
    assert_eq!(Color::Burgundy.as_str(), "burgundy");
    assert_eq!(Color::Grey.as_str(), "grey");
    assert_eq!(Color::Orange.as_str(), "orange");
    assert_eq!(Color::Purple.as_str(), "purple");
    assert_eq!(Color::Red.as_str(), "red");
    assert_eq!(Style::Banking.as_str(), "banking");
    assert_eq!(Style::Empty.as_str(), "empty");
    assert_eq!(Style::Fancy.as_str(), "fancy");
    assert_eq!(Style::OldStyle.as_str(), "oldstyle");
}

#[test]
fn same_inputs_give_same_output() {
    assert_eq!(name_directive("a", "b"), name_directive("a", "b"));
    assert_eq!(
        cventry_directive("y", "j", "e", "l", None, Some("c")),
        cventry_directive("y", "j", "e", "l", None, Some("c"))
    );
    assert!(address("s", Some("c"), None).eq(&address("s", Some("c"), None)));
    assert!(phone("1", None).eq(&phone("1", None)));
}

#[test]
fn free_functions_build_raw_elements() {
    let left = cventry("y", "j", "e", "l", None, None);
    assert!(left.eq(&Element::UserDefined(r"\cventry{y}{j}{e}{l}{}{}".to_string())));
    let left = cvitemwithcomment("h", "t", "c");
    assert!(left.eq(&Element::UserDefined(r"\cvitemwithcomment{h}{t}{c}".to_string())));
    let left = address("st", Some("ci"), Some("co"));
    assert!(left.eq(&PreambleElement::UserDefined(r"\address{st}{ci}{co}".to_string())));
}

#[test]
fn section_keeps_order_of_calls() {
    let mut section = Section::new("Extra");
    section.cvlistitem("Item 1").cvitem("h", "t").cvlistitem("Item 1");
    let items: Vec<&Element> = section.iter().collect();
    assert_eq!(items.len(), 3);
    assert!(items[0].eq(&Element::UserDefined(r"\cvlistitem{Item 1}".to_string())));
    assert!(items[1].eq(&Element::UserDefined(r"\cvitem{h}{t}".to_string())));
    assert!(items[2].eq(&Element::UserDefined(r"\cvlistitem{Item 1}".to_string())));
}

#[test]
fn preamble_keeps_order_of_calls() {
    let mut preamble = Preamble::default();
    preamble.use_package("hyperref");
    preamble
        .cvtheme(Style::Classic, Some(Color::Blue))
        .social("acct", SocialType::Github, None)
        .givenname("John")
        .familyname("Doe");
    let items: Vec<&PreambleElement> = preamble.iter().collect();
    assert_eq!(items.len(), 5);
    assert!(items[1].eq(&PreambleElement::UserDefined(r"\moderncvtheme[blue]{classic}".to_string())));
    assert!(items[2].eq(&PreambleElement::UserDefined(r"\social[github]{acct}".to_string())));
    assert!(items[3].eq(&PreambleElement::UserDefined(r"\givenname{John}".to_string())));
    assert!(items[4].eq(&PreambleElement::UserDefined(r"\familyname{Doe}".to_string())));
}
