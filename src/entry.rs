use vstd::prelude::*;

use crate::generator::{all_in_alphabet, generate_password};
use crate::text::{trim_line, trimmed};

verus! {

/// One stored credential: the site or application it is for, the user name
/// there and the password, all as plain text.
#[derive(Debug, Clone)]
pub struct Entry {
    pub site_app: String,
    pub username: String,
    pub password: String,
}

/// The three texts of an entry.
pub struct EntryView {
    pub site_app: Seq<char>,
    pub username: Seq<char>,
    pub password: Seq<char>,
}

impl View for Entry {
    type V = EntryView;

    open spec fn view(&self) -> EntryView {
        EntryView { site_app: self.site_app@, username: self.username@, password: self.password@ }
    }
}

impl PartialEq for Entry {
    fn eq(&self, other: &Entry) -> (r: bool) {
        self.site_app == other.site_app && self.username == other.username && self.password
            == other.password
    }
}

impl vstd::std_specs::cmp::PartialEqSpecImpl for Entry {
    open spec fn obeys_eq_spec() -> bool {
        true
    }

    open spec fn eq_spec(&self, other: &Entry) -> bool {
        self@ == other@
    }
}

/// How an entry is shown to the user: three lines, label first.
pub open spec fn rendered(e: EntryView) -> Seq<char> {
    "Site/App: "@ + e.site_app + "\n - Username: "@ + e.username + "\n - Password: "@
        + e.password
}

impl Entry {
    /// An entry of the three given texts.
    pub fn new(site_app: String, username: String, password: String) -> (e: Entry)
        ensures
            e.site_app@ == site_app@,
            e.username@ == username@,
            e.password@ == password@,
    {
        Entry { site_app, username, password }
    }

    /// A builder with all three texts empty.
    pub fn builder() -> (b: EntryBuilder)
        ensures
            b@ == (EntryView { site_app: Seq::empty(), username: Seq::empty(), password: Seq::empty() }),
    {
        EntryBuilder::default()
    }

    /// The entry as the user sees it when the vault is listed.
    pub fn render(&self) -> (r: String)
        ensures
            r@ == rendered(self@),
    {
        let mut r = String::from_str("Site/App: ");
        r.append(self.site_app.as_str());
        r.append("\n - Username: ");
        r.append(self.username.as_str());
        r.append("\n - Password: ");
        r.append(self.password.as_str());
        r
    }
}

/// Gathers an entry's texts in the order in which they are asked for: label,
/// user name, password.
pub struct EntryBuilder {
    site_app: String,
    username: String,
    password: String,
}

impl View for EntryBuilder {
    type V = EntryView;

    closed spec fn view(&self) -> EntryView {
        EntryView { site_app: self.site_app@, username: self.username@, password: self.password@ }
    }
}

impl EntryBuilder {
    /// A builder with all three texts empty.
    pub fn new() -> (b: EntryBuilder)
        ensures
            b@ == (EntryView { site_app: Seq::empty(), username: Seq::empty(), password: Seq::empty() }),
    {
        EntryBuilder { site_app: String::new(), username: String::new(), password: String::new() }
    }

    /// Sets the label from a line that the user typed, without its leading
    /// and trailing white space.
    pub fn site_app(self, line: &str) -> (b: EntryBuilder)
        ensures
            b@ == (EntryView { site_app: trimmed(line@), ..self@ }),
    {
        let t = trim_line(line);
        EntryBuilder { site_app: String::from_str(t), ..self }
    }

    /// Sets the user name from a line that the user typed, without its
    /// leading and trailing white space.
    pub fn username(self, line: &str) -> (b: EntryBuilder)
        ensures
            b@ == (EntryView { username: trimmed(line@), ..self@ }),
    {
        let t = trim_line(line);
        EntryBuilder { username: String::from_str(t), ..self }
    }

    /// Sets the password to a fresh one of `password_length` characters from
    /// the alphabet.
    pub fn password(self, password_length: u8) -> (b: EntryBuilder)
        ensures
            b@.site_app == self@.site_app,
            b@.username == self@.username,
            b@.password.len() == password_length as nat,
            all_in_alphabet(b@.password),
    {
        let p = generate_password(password_length);
        EntryBuilder { password: p, ..self }
    }

    /// The entry of the texts gathered so far.
    pub fn build(&self) -> (e: Entry)
        ensures
            e@ == self@,
    {
        Entry {
            site_app: self.site_app.clone(),
            username: self.username.clone(),
            password: self.password.clone(),
        }
    }
}

impl Default for EntryBuilder {
    fn default() -> (b: EntryBuilder)
        ensures
            b@ == (EntryView { site_app: Seq::empty(), username: Seq::empty(), password: Seq::empty() }),
    {
        Self::new()
    }
}

} // verus!
