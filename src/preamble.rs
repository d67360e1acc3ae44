//! The personal data of a moderncv preamble.
use vstd::prelude::*;
use latex::{Preamble, PreambleElement};
use crate::directive::{
    braced, bracketed, command, format_one, format_two, lemma_optional_groups_1,
    lemma_optional_groups_2, lemma_required_groups_1, one_arg, opt_view, optional_group,
    push_braced, start_command, texify, two_args,
};
use crate::elements::{
    preamble_contents, preamble_push, raw_preamble_element, user_preamble_element,
};

verus! {

/// Social media types
#[derive(Clone, Copy, Debug)]
pub enum SocialType {
    LinkedIn,
    XING,
    Twitter,
    Github,
    Gitlab,
    StackOverflow,
    Bitbucket,
    Skype,
    ORCID,
    ResearchGate,
    ResearcherID,
    Telegram,
    GoogleScholar,
}

impl SocialType {
    /// The lower-case name moderncv knows the service by.
    pub open spec fn tag(self) -> Seq<char> {
        match self {
            SocialType::LinkedIn => "linkedin"@,
            SocialType::XING => "xing"@,
            SocialType::Twitter => "twitter"@,
            SocialType::Github => "github"@,
            SocialType::Gitlab => "gitlab"@,
            SocialType::StackOverflow => "stackoverflow"@,
            SocialType::Bitbucket => "bitbucket"@,
            SocialType::Skype => "skype"@,
            SocialType::ORCID => "orcid"@,
            SocialType::ResearchGate => "researchgate"@,
            SocialType::ResearcherID => "researcherid"@,
            SocialType::Telegram => "telegram"@,
            SocialType::GoogleScholar => "googlescholar"@,
        }
    }

    /// The lower-case name moderncv knows the service by.
    pub fn as_str(&self) -> (r: &'static str)
        ensures
            r@ == self.tag(),
    {
        match *self {
            SocialType::LinkedIn => "linkedin",
            SocialType::XING => "xing",
            SocialType::Twitter => "twitter",
            SocialType::Github => "github",
            SocialType::Gitlab => "gitlab",
            SocialType::StackOverflow => "stackoverflow",
            SocialType::Bitbucket => "bitbucket",
            SocialType::Skype => "skype",
            SocialType::ORCID => "orcid",
            SocialType::ResearchGate => "researchgate",
            SocialType::ResearcherID => "researcherid",
            SocialType::Telegram => "telegram",
            SocialType::GoogleScholar => "googlescholar",
        }
    }
}

/// Phone types
#[derive(Clone, Copy, Debug)]
pub enum PhoneType {
    Fixed,
    Mobile,
    Fax,
}

impl PhoneType {
    /// The lower-case name of the kind of line.
    pub open spec fn tag(self) -> Seq<char> {
        match self {
            PhoneType::Fixed => "fixed"@,
            PhoneType::Mobile => "mobile"@,
            PhoneType::Fax => "fax"@,
        }
    }

    /// The lower-case name of the kind of line.
    pub fn as_str(&self) -> (r: &'static str)
        ensures
            r@ == self.tag(),
    {
        match *self {
            PhoneType::Fixed => "fixed",
            PhoneType::Mobile => "mobile",
            PhoneType::Fax => "fax",
        }
    }
}

/// Moderncv colors
#[derive(Clone, Copy, Debug)]
pub enum Color {
    Black,
    Blue,
    Burgundy,
    Green,
    Grey,
    Orange,
    Purple,
    Red,
}

impl Color {
    /// The lower-case name of the color.
    pub open spec fn tag(self) -> Seq<char> {
        match self {
            Color::Black => "black"@,
            Color::Blue => "blue"@,
            Color::Burgundy => "burgundy"@,
            Color::Green => "green"@,
            Color::Grey => "grey"@,
            Color::Orange => "orange"@,
            Color::Purple => "purple"@,
            Color::Red => "red"@,
        }
    }

    /// The lower-case name of the color.
    pub fn as_str(&self) -> (r: &'static str)
        ensures
            r@ == self.tag(),
    {
        match *self {
            Color::Black => "black",
            Color::Blue => "blue",
            Color::Burgundy => "burgundy",
            Color::Green => "green",
            Color::Grey => "grey",
            Color::Orange => "orange",
            Color::Purple => "purple",
            Color::Red => "red",
        }
    }
}

/// Moderncv styles
#[derive(Clone, Copy, Debug)]
pub enum Style {
    Banking,
    Casual,
    Classic,
    Empty,
    Fancy,
    OldStyle,
}

impl Style {
    /// The lower-case name of the style.
    pub open spec fn tag(self) -> Seq<char> {
        match self {
            Style::Banking => "banking"@,
            Style::Casual => "casual"@,
            Style::Classic => "classic"@,
            Style::Empty => "empty"@,
            Style::Fancy => "fancy"@,
            Style::OldStyle => "oldstyle"@,
        }
    }

    /// The lower-case name of the style.
    pub fn as_str(&self) -> (r: &'static str)
        ensures
            r@ == self.tag(),
    {
        match *self {
            Style::Banking => "banking",
            Style::Casual => "casual",
            Style::Classic => "classic",
            Style::Empty => "empty",
            Style::Fancy => "fancy",
            Style::OldStyle => "oldstyle",
        }
    }
}

/// The tag of a phone type, when one is given.
pub open spec fn phone_tag(t: Option<PhoneType>) -> Option<Seq<char>> {
    match t {
        Some(t) => Some(t.tag()),
        None => None,
    }
}

/// The tag of a color, when one is given.
pub open spec fn color_tag(c: Option<Color>) -> Option<Seq<char>> {
    match c {
        Some(c) => Some(c.tag()),
        None => None,
    }
}

/// `\address{street}`, then `{city}` when a city is given, then `{country}` when a city and a
/// country are given: a country without a city is dropped.
pub open spec fn address_text(
    street: Seq<char>,
    city: Option<Seq<char>>,
    country: Option<Seq<char>>,
) -> Seq<char> {
    command("address"@) + braced(street) + match city {
        None => Seq::empty(),
        Some(c) => braced(c) + match country {
            None => Seq::empty(),
            Some(k) => braced(k),
        },
    }
}

/// `\phone[type]{number}`, the bracket only when a type is given.
pub open spec fn phone_text(number: Seq<char>, phone_type: Option<PhoneType>) -> Seq<char> {
    command("phone"@) + optional_group(phone_tag(phone_type)) + braced(number)
}

/// `\social[type][url]{account}`, the second bracket only when a url is given.
pub open spec fn social_text(
    account: Seq<char>,
    social_type: SocialType,
    url: Option<Seq<char>>,
) -> Seq<char> {
    command("social"@) + bracketed(social_type.tag()) + optional_group(url) + braced(account)
}

/// `\moderncvtheme[color]{style}`, the bracket only when a color is given.
pub open spec fn cvtheme_text(style: Style, color: Option<Color>) -> Seq<char> {
    command("moderncvtheme"@) + optional_group(color_tag(color)) + braced(style.tag())
}

/// `\photo[width][frame]{photo}`, each bracket only when its value is given.
pub open spec fn photo_text(
    photo: Seq<char>,
    width: Option<Seq<char>>,
    frame: Option<Seq<char>>,
) -> Seq<char> {
    command("photo"@) + optional_group(width) + optional_group(frame) + braced(photo)
}

/// Formats `\name{firstname}{lastname}`.
pub fn name_directive(firstname: &str, lastname: &str) -> (r: String)
    ensures
        r@ == two_args("name"@, firstname@, lastname@),
{
    format_two("name", firstname, lastname)
}

/// Formats `\firstname{name}`.
pub fn firstname_directive(name: &str) -> (r: String)
    ensures
        r@ == one_arg("firstname"@, name@),
{
    format_one("firstname", name)
}

/// Formats `\lastname{name}`.
pub fn lastname_directive(name: &str) -> (r: String)
    ensures
        r@ == one_arg("lastname"@, name@),
{
    format_one("lastname", name)
}

/// Formats `\givenname{name}`.
pub fn givenname_directive(name: &str) -> (r: String)
    ensures
        r@ == one_arg("givenname"@, name@),
{
    format_one("givenname", name)
}

/// Formats `\familyname{name}`.
pub fn familyname_directive(name: &str) -> (r: String)
    ensures
        r@ == one_arg("familyname"@, name@),
{
    format_one("familyname", name)
}

/// Formats `\address{street}{city}{country}`, stopping at the first absent part.
pub fn address_directive(street: &str, city: Option<&str>, country: Option<&str>) -> (r: String)
    ensures
        r@ == address_text(street@, opt_view(city), opt_view(country)),
{
    let mut s = start_command("address");
    push_braced(&mut s, street);
    match city {
        None => {
            assert(s@ =~= address_text(street@, opt_view(city), opt_view(country)));
        },
        Some(c) => {
            push_braced(&mut s, c);
            match country {
                None => {
                    assert(s@ =~= address_text(street@, opt_view(city), opt_view(country)));
                },
                Some(k) => {
                    push_braced(&mut s, k);
                    assert(s@ =~= address_text(street@, opt_view(city), opt_view(country)));
                },
            }
        },
    }
    s
}

/// Formats `\mobile{number}`.
pub fn mobile_directive(number: &str) -> (r: String)
    ensures
        r@ == one_arg("mobile"@, number@),
{
    format_one("mobile", number)
}

/// Formats `\phone[type]{number}`.
pub fn phone_directive(number: &str, phone_type: Option<PhoneType>) -> (r: String)
    ensures
        r@ == phone_text(number@, phone_type),
{
    let t: Option<&str> = match phone_type {
        Some(p) => Some(p.as_str()),
        None => None,
    };
    let opts: &[Option<&str>] = &[t];
    let reqs: &[&str] = &[number];
    let r = texify("phone", opts, reqs);
    proof {
        assert(opt_view(t) == phone_tag(phone_type));
        assert(opts@.map_values(|o: Option<&str>| opt_view(o)) =~= seq![opt_view(t)]);
        assert(reqs@.map_values(|v: &str| v@) =~= seq![number@]);
        lemma_optional_groups_1(opt_view(t));
        lemma_required_groups_1(number@);
        assert(r@ =~= phone_text(number@, phone_type));
    }
    r
}

/// Formats `\fax{number}`.
pub fn fax_directive(number: &str) -> (r: String)
    ensures
        r@ == one_arg("fax"@, number@),
{
    format_one("fax", number)
}

/// Formats `\email{address}`.
pub fn email_directive(address: &str) -> (r: String)
    ensures
        r@ == one_arg("email"@, address@),
{
    format_one("email", address)
}

/// Formats `\social[type][url]{account}`.
pub fn social_directive(account: &str, social_type: SocialType, url: Option<&str>) -> (r: String)
    ensures
        r@ == social_text(account@, social_type, opt_view(url)),
{
    let t: Option<&str> = Some(social_type.as_str());
    let opts: &[Option<&str>] = &[t, url];
    let reqs: &[&str] = &[account];
    let r = texify("social", opts, reqs);
    proof {
        assert(opts@.map_values(|o: Option<&str>| opt_view(o))
            =~= seq![opt_view(t), opt_view(url)]);
        assert(reqs@.map_values(|v: &str| v@) =~= seq![account@]);
        lemma_optional_groups_2(opt_view(t), opt_view(url));
        lemma_required_groups_1(account@);
        assert(r@ =~= social_text(account@, social_type, opt_view(url)));
    }
    r
}

/// Formats `\homepage{url}`.
pub fn homepage_directive(url: &str) -> (r: String)
    ensures
        r@ == one_arg("homepage"@, url@),
{
    format_one("homepage", url)
}

/// Formats `\moderncvtheme[color]{style}`.
pub fn cvtheme_directive(style: Style, color: Option<Color>) -> (r: String)
    ensures
        r@ == cvtheme_text(style, color),
{
    let c: Option<&str> = match color {
        Some(c) => Some(c.as_str()),
        None => None,
    };
    let opts: &[Option<&str>] = &[c];
    let reqs: &[&str] = &[style.as_str()];
    let r = texify("moderncvtheme", opts, reqs);
    proof {
        assert(opt_view(c) == color_tag(color));
        assert(opts@.map_values(|o: Option<&str>| opt_view(o)) =~= seq![opt_view(c)]);
        assert(reqs@.map_values(|v: &str| v@) =~= seq![style.tag()]);
        lemma_optional_groups_1(opt_view(c));
        lemma_required_groups_1(style.tag());
        assert(r@ =~= cvtheme_text(style, color));
    }
    r
}

/// Formats `\extrainfo{info}`.
pub fn extrainfo_directive(info: &str) -> (r: String)
    ensures
        r@ == one_arg("extrainfo"@, info@),
{
    format_one("extrainfo", info)
}

/// Formats `\photo[width][frame]{photo}`.
pub fn photo_directive(photo: &str, width: Option<&str>, frame: Option<&str>) -> (r: String)
    ensures
        r@ == photo_text(photo@, opt_view(width), opt_view(frame)),
{
    let opts: &[Option<&str>] = &[width, frame];
    let reqs: &[&str] = &[photo];
    let r = texify("photo", opts, reqs);
    proof {
        assert(opts@.map_values(|o: Option<&str>| opt_view(o))
            =~= seq![opt_view(width), opt_view(frame)]);
        assert(reqs@.map_values(|v: &str| v@) =~= seq![photo@]);
        lemma_optional_groups_2(opt_view(width), opt_view(frame));
        lemma_required_groups_1(photo@);
        assert(r@ =~= photo_text(photo@, opt_view(width), opt_view(frame)));
    }
    r
}

/// Formats `\quote{msg}`.
pub fn quote_directive(msg: &str) -> (r: String)
    ensures
        r@ == one_arg("quote"@, msg@),
{
    format_one("quote", msg)
}

/// A trait which implement useful functions for moderncv preamble
pub trait CVPreamble: Sized {
    /// The elements held, in the order they were added.
    spec fn entries(&self) -> Seq<PreambleElement>;

    /// Set name, at the end of the preamble.
    fn name(&mut self, firstname: &str, lastname: &str) -> (r: &mut Self)
        ensures
            r.entries() == old(self).entries().push(
                raw_preamble_element(two_args("name"@, firstname@, lastname@)),
            ),
            *final(self) == *final(r),
    ;

    /// Set first name, at the end of the preamble.
    fn firstname(&mut self, name: &str) -> (r: &mut Self)
        ensures
            r.entries() == old(self).entries().push(
                raw_preamble_element(one_arg("firstname"@, name@)),
            ),
            *final(self) == *final(r),
    ;

    /// Set last name, at the end of the preamble.
    fn lastname(&mut self, name: &str) -> (r: &mut Self)
        ensures
            r.entries() == old(self).entries().push(
                raw_preamble_element(one_arg("lastname"@, name@)),
            ),
            *final(self) == *final(r),
    ;

    /// Set given name (First name), at the end of the preamble.
    fn givenname(&mut self, name: &str) -> (r: &mut Self)
        ensures
            r.entries() == old(self).entries().push(
                raw_preamble_element(one_arg("givenname"@, name@)),
            ),
            *final(self) == *final(r),
    ;

    /// Set family name (Last name), at the end of the preamble.
    fn familyname(&mut self, name: &str) -> (r: &mut Self)
        ensures
            r.entries() == old(self).entries().push(
                raw_preamble_element(one_arg("familyname"@, name@)),
            ),
            *final(self) == *final(r),
    ;

    /// Set address, at the end of the preamble.
    fn address(&mut self, street: &str, city: Option<&str>, country: Option<&str>) -> (r: &mut Self)
        ensures
            r.entries() == old(self).entries().push(
                raw_preamble_element(address_text(street@, opt_view(city), opt_view(country))),
            ),
            *final(self) == *final(r),
    ;

    /// Set mobile number, at the end of the preamble.
    fn mobile(&mut self, number: &str) -> (r: &mut Self)
        ensures
            r.entries() == old(self).entries().push(
                raw_preamble_element(one_arg("mobile"@, number@)),
            ),
            *final(self) == *final(r),
    ;

    /// Set phone number, at the end of the preamble.
    fn phone(&mut self, number: &str, phone_type: Option<PhoneType>) -> (r: &mut Self)
        ensures
            r.entries() == old(self).entries().push(
                raw_preamble_element(phone_text(number@, phone_type)),
            ),
            *final(self) == *final(r),
    ;

    /// Set fax number, at the end of the preamble.
    fn fax(&mut self, number: &str) -> (r: &mut Self)
        ensures
            r.entries() == old(self).entries().push(raw_preamble_element(one_arg("fax"@, number@))),
            *final(self) == *final(r),
    ;

    /// Set email address, at the end of the preamble.
    fn email(&mut self, address: &str) -> (r: &mut Self)
        ensures
            r.entries() == old(self).entries().push(
                raw_preamble_element(one_arg("email"@, address@)),
            ),
            *final(self) == *final(r),
    ;

    /// Set social link, at the end of the preamble.
    fn social(
        &mut self,
        account: &str,
        social_type: SocialType,
        url: Option<&str>,
    ) -> (r: &mut Self)
        ensures
            r.entries() == old(self).entries().push(
                raw_preamble_element(social_text(account@, social_type, opt_view(url))),
            ),
            *final(self) == *final(r),
    ;

    /// Set home page, at the end of the preamble.
    fn homepage(&mut self, url: &str) -> (r: &mut Self)
        ensures
            r.entries() == old(self).entries().push(
                raw_preamble_element(one_arg("homepage"@, url@)),
            ),
            *final(self) == *final(r),
    ;

    /// Set moderncv theme, at the end of the preamble.
    fn cvtheme(&mut self, style: Style, color: Option<Color>) -> (r: &mut Self)
        ensures
            r.entries() == old(self).entries().push(
                raw_preamble_element(cvtheme_text(style, color)),
            ),
            *final(self) == *final(r),
    ;

    /// Set extra information, at the end of the preamble.
    fn extrainfo(&mut self, info: &str) -> (r: &mut Self)
        ensures
            r.entries() == old(self).entries().push(
                raw_preamble_element(one_arg("extrainfo"@, info@)),
            ),
            *final(self) == *final(r),
    ;

    /// Set photo, at the end of the preamble.
    fn photo(&mut self, photo: &str, width: Option<&str>, frame: Option<&str>) -> (r: &mut Self)
        ensures
            r.entries() == old(self).entries().push(
                raw_preamble_element(photo_text(photo@, opt_view(width), opt_view(frame))),
            ),
            *final(self) == *final(r),
    ;

    /// Set quote string, at the end of the preamble.
    fn quote(&mut self, msg: &str) -> (r: &mut Self)
        ensures
            r.entries() == old(self).entries().push(raw_preamble_element(one_arg("quote"@, msg@))),
            *final(self) == *final(r),
    ;
}

impl CVPreamble for Preamble {
    open spec fn entries(&self) -> Seq<PreambleElement> {
        preamble_contents(*self)
    }

    fn name(&mut self, firstname: &str, lastname: &str) -> (r: &mut Self) {
        let elem = self::name(firstname, lastname);
        preamble_push(self, elem);
        self
    }

    fn firstname(&mut self, name: &str) -> (r: &mut Self) {
        let elem = self::firstname(name);
        preamble_push(self, elem);
        self
    }

    fn lastname(&mut self, name: &str) -> (r: &mut Self) {
        let elem = self::lastname(name);
        preamble_push(self, elem);
        self
    }

    fn givenname(&mut self, name: &str) -> (r: &mut Self) {
        let elem = self::givenname(name);
        preamble_push(self, elem);
        self
    }

    fn familyname(&mut self, name: &str) -> (r: &mut Self) {
        let elem = self::familyname(name);
        preamble_push(self, elem);
        self
    }

    fn address(
        &mut self,
        street: &str,
        city: Option<&str>,
        country: Option<&str>,
    ) -> (r: &mut Self) {
        let elem = self::address(street, city, country);
        preamble_push(self, elem);
        self
    }

    fn mobile(&mut self, number: &str) -> (r: &mut Self) {
        let elem = self::mobile(number);
        preamble_push(self, elem);
        self
    }

    fn phone(&mut self, number: &str, phone_type: Option<PhoneType>) -> (r: &mut Self) {
        let elem = self::phone(number, phone_type);
        preamble_push(self, elem);
        self
    }

    fn fax(&mut self, number: &str) -> (r: &mut Self) {
        let elem = self::fax(number);
        preamble_push(self, elem);
        self
    }

    fn email(&mut self, address: &str) -> (r: &mut Self) {
        let elem = self::email(address);
        preamble_push(self, elem);
        self
    }

    fn social(
        &mut self,
        account: &str,
        social_type: SocialType,
        url: Option<&str>,
    ) -> (r: &mut Self) {
        let elem = self::social(account, social_type, url);
        preamble_push(self, elem);
        self
    }

    fn homepage(&mut self, url: &str) -> (r: &mut Self) {
        let elem = self::homepage(url);
        preamble_push(self, elem);
        self
    }

    fn cvtheme(&mut self, style: Style, color: Option<Color>) -> (r: &mut Self) {
        let elem = self::cvtheme(style, color);
        preamble_push(self, elem);
        self
    }

    fn extrainfo(&mut self, info: &str) -> (r: &mut Self) {
        let elem = self::extrainfo(info);
        preamble_push(self, elem);
        self
    }

    fn photo(&mut self, photo: &str, width: Option<&str>, frame: Option<&str>) -> (r: &mut Self) {
        let elem = self::photo(photo, width, frame);
        preamble_push(self, elem);
        self
    }

    fn quote(&mut self, msg: &str) -> (r: &mut Self) {
        let elem = self::quote(msg);
        preamble_push(self, elem);
        self
    }
}

/// Set name
pub fn name(firstname: &str, lastname: &str) -> (r: PreambleElement)
    ensures
        r == raw_preamble_element(two_args("name"@, firstname@, lastname@)),
{
    user_preamble_element(name_directive(firstname, lastname))
}

/// Set first name
pub fn firstname(name: &str) -> (r: PreambleElement)
    ensures
        r == raw_preamble_element(one_arg("firstname"@, name@)),
{
    user_preamble_element(firstname_directive(name))
}

/// Set last name
pub fn lastname(name: &str) -> (r: PreambleElement)
    ensures
        r == raw_preamble_element(one_arg("lastname"@, name@)),
{
    user_preamble_element(lastname_directive(name))
}

/// Set given name (First name)
pub fn givenname(name: &str) -> (r: PreambleElement)
    ensures
        r == raw_preamble_element(one_arg("givenname"@, name@)),
{
    user_preamble_element(givenname_directive(name))
}

/// Set family name (Last name)
pub fn familyname(name: &str) -> (r: PreambleElement)
    ensures
        r == raw_preamble_element(one_arg("familyname"@, name@)),
{
    user_preamble_element(familyname_directive(name))
}

/// Set address
pub fn address(street: &str, city: Option<&str>, country: Option<&str>) -> (r: PreambleElement)
    ensures
        r == raw_preamble_element(address_text(street@, opt_view(city), opt_view(country))),
{
    user_preamble_element(address_directive(street, city, country))
}

/// Set mobile number
pub fn mobile(number: &str) -> (r: PreambleElement)
    ensures
        r == raw_preamble_element(one_arg("mobile"@, number@)),
{
    user_preamble_element(mobile_directive(number))
}

/// Set phone number
pub fn phone(number: &str, phone_type: Option<PhoneType>) -> (r: PreambleElement)
    ensures
        r == raw_preamble_element(phone_text(number@, phone_type)),
{
    user_preamble_element(phone_directive(number, phone_type))
}

/// Set fax number
pub fn fax(number: &str) -> (r: PreambleElement)
    ensures
        r == raw_preamble_element(one_arg("fax"@, number@)),
{
    user_preamble_element(fax_directive(number))
}

/// Set email address
pub fn email(address: &str) -> (r: PreambleElement)
    ensures
        r == raw_preamble_element(one_arg("email"@, address@)),
{
    user_preamble_element(email_directive(address))
}

/// Set social link
pub fn social(account: &str, social_type: SocialType, url: Option<&str>) -> (r: PreambleElement)
    ensures
        r == raw_preamble_element(social_text(account@, social_type, opt_view(url))),
{
    user_preamble_element(social_directive(account, social_type, url))
}

/// Set home page
pub fn homepage(url: &str) -> (r: PreambleElement)
    ensures
        r == raw_preamble_element(one_arg("homepage"@, url@)),
{
    user_preamble_element(homepage_directive(url))
}

/// Set moderncv theme
pub fn cvtheme(style: Style, color: Option<Color>) -> (r: PreambleElement)
    ensures
        r == raw_preamble_element(cvtheme_text(style, color)),
{
    user_preamble_element(cvtheme_directive(style, color))
}

/// Set extra information
pub fn extrainfo(info: &str) -> (r: PreambleElement)
    ensures
        r == raw_preamble_element(one_arg("extrainfo"@, info@)),
{
    user_preamble_element(extrainfo_directive(info))
}

/// Set photo
pub fn photo(file: &str, width: Option<&str>, frame: Option<&str>) -> (r: PreambleElement)
    ensures
        r == raw_preamble_element(photo_text(file@, opt_view(width), opt_view(frame))),
{
    user_preamble_element(photo_directive(file, width, frame))
}

/// Set quote string
pub fn quote(msg: &str) -> (r: PreambleElement)
    ensures
        r == raw_preamble_element(one_arg("quote"@, msg@)),
{
    user_preamble_element(quote_directive(msg))
}

} // verus!
