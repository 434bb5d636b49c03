//! The records that the client browses, and what is fetched with them.

use crate::text;
use vstd::prelude::*;
use vstd::string::StringExecFns;

verus! {

/// Which list the server is asked for.
#[derive(Clone, Copy, Debug, PartialEq, Eq, Structural)]
pub enum AssignmentType {
    Circular,
    Homework,
}

/// What a record holds, as plain text.
pub struct Record {
    pub serial: Seq<char>,
    pub id: Seq<char>,
    pub name: Seq<char>,
    pub date: Seq<char>,
    pub category: Seq<char>,
}

/// One entry of the list: an assignment or a circular.
///
/// `s_no` is the position that the server reported and stays with the record
/// when a filter hides others; `id` is the key under which the server keeps it.
#[derive(Debug)]
pub struct Assignment {
    pub id: String,
    pub name: String,
    pub date: String,
    pub type_: String,
    pub s_no: String,
}

impl View for Assignment {
    type V = Record;

    open spec fn view(&self) -> Record {
        Record {
            serial: self.s_no@,
            id: self.id@,
            name: self.name@,
            date: self.date@,
            category: self.type_@,
        }
    }
}

impl Clone for Assignment {
    fn clone(&self) -> (out: Self)
        ensures
            out == *self,
    {
        Assignment {
            id: self.id.clone(),
            name: self.name.clone(),
            date: self.date.clone(),
            type_: self.type_.clone(),
            s_no: self.s_no.clone(),
        }
    }
}

impl PartialEq for Assignment {
    fn eq(&self, other: &Self) -> (same: bool) {
        self.id == other.id && self.name == other.name && self.date == other.date && self.type_
            == other.type_ && self.s_no == other.s_no
    }
}

impl vstd::std_specs::cmp::PartialEqSpecImpl for Assignment {
    open spec fn obeys_eq_spec() -> bool {
        true
    }

    open spec fn eq_spec(&self, other: &Self) -> bool {
        self@ == other@
    }
}

impl Eq for Assignment {

}

/// The views of a sequence of records.
pub open spec fn records_view(records: Seq<Assignment>) -> Seq<Record> {
    records.map_values(|a: Assignment| a@)
}

/// The five fields of a record in the order in which a row shows them.
pub open spec fn row_fields(r: Record) -> Seq<Seq<char>> {
    seq![r.serial, r.id, r.date, r.category, r.name]
}

/// Five fields with `sep` between each two.
pub open spec fn joined5(f: Seq<Seq<char>>, sep: char) -> Seq<char> {
    f[0] + seq![sep] + f[1] + seq![sep] + f[2] + seq![sep] + f[3] + seq![sep] + f[4]
}

impl Assignment {
    /// The record as one line of text: serial, id, date, category and name,
    /// separated by single spaces.
    pub fn field(&self) -> (line: String)
        ensures
            line@ == joined5(row_fields(self@), ' '),
    {
        proof {
            reveal_strlit(" ");
        }
        assert(" "@ =~= seq![' ']);
        let mut line = self.s_no.clone();
        line.append(" ");
        line.append(self.id.as_str());
        line.append(" ");
        line.append(self.date.as_str());
        line.append(" ");
        line.append(self.type_.as_str());
        line.append(" ");
        line.append(self.name.as_str());
        line
    }

    /// The text that a filter query is matched against: name, category and date.
    pub fn search_text(&self) -> (hay: String)
        ensures
            hay@ == text::spaced3(self@.name, self@.category, self@.date),
    {
        text::join3(self.name.as_str(), self.type_.as_str(), self.date.as_str())
    }
}

/// A file that comes with a record's details.
#[derive(Debug, PartialEq, Eq)]
pub struct Attachment {
    /// The file's name as the server gives it.
    pub name: String,
    /// Where the file can be fetched from.
    pub remote_path: String,
}

impl View for Attachment {
    type V = (Seq<char>, Seq<char>);

    open spec fn view(&self) -> (Seq<char>, Seq<char>) {
        (self.name@, self.remote_path@)
    }
}

impl Clone for Attachment {
    fn clone(&self) -> (out: Self)
        ensures
            out == *self,
    {
        Attachment { name: self.name.clone(), remote_path: self.remote_path.clone() }
    }
}

/// The views of a sequence of attachments.
pub open spec fn attachments_view(items: Seq<Attachment>) -> Seq<(Seq<char>, Seq<char>)> {
    items.map_values(|a: Attachment| a@)
}

/// What is fetched when a record is opened.
#[derive(Debug, PartialEq, Eq)]
pub struct RecordDetails {
    /// The record's text.
    pub text: String,
    /// The files that come with it.
    pub attachments: Vec<Attachment>,
}

/// What opens a terminal hyperlink, before the address.
pub const LINK_OPEN: &'static str = "\u{1b}]8;;";

/// What stands between a hyperlink's address and its text.
pub const LINK_TEXT: &'static str = "\u{1b}\\";

/// What closes a terminal hyperlink.
pub const LINK_CLOSE: &'static str = "\u{1b}]8;;\u{1b}\\";

/// A piece of text that leads to an address.
#[derive(Debug, PartialEq, Eq, Hash)]
pub struct Link {
    pub text: String,
    pub url: String,
}

/// A link as the terminal takes it: the address and the text between the
/// escape sequences of a hyperlink.
pub open spec fn hyperlink(url: Seq<char>, text: Seq<char>) -> Seq<char> {
    LINK_OPEN@ + url + LINK_TEXT@ + text + LINK_CLOSE@
}

impl Clone for Link {
    fn clone(&self) -> (out: Self)
        ensures
            out == *self,
    {
        Link { text: self.text.clone(), url: self.url.clone() }
    }
}

impl Link {
    /// A link with the given text and address.
    pub fn new(text: String, url: String) -> (link: Self)
        ensures
            link.text == text,
            link.url == url,
    {
        Self { text, url }
    }

    /// The link as a terminal hyperlink.
    pub fn to_string(&self) -> (out: String)
        ensures
            out@ == hyperlink(self.url@, self.text@),
    {
        let mut out = String::from_str(LINK_OPEN);
        out.append(self.url.as_str());
        out.append(LINK_TEXT);
        out.append(self.text.as_str());
        out.append(LINK_CLOSE);
        out
    }
}

/// What `from_str` says of a string that names no list, before the string.
pub const INVALID_TYPE: &'static str = "Invalid assignment type: '";

impl AssignmentType {
    /// The letter by which the server knows the list.
    pub fn to_string(&self) -> (out: String)
        ensures
            out@ == (match *self {
                AssignmentType::Circular => "C"@,
                AssignmentType::Homework => "H"@,
            }),
    {
        match self {
            AssignmentType::Circular => String::from_str("C"),
            AssignmentType::Homework => String::from_str("H"),
        }
    }

    /// Reads the letter of a list, in either case. Any other string is
    /// refused, with a message that quotes it.
    pub fn from_str(s: &str) -> (out: Result<AssignmentType, String>)
        ensures
            text::uppered(s@) == "H"@ ==> out == Ok::<AssignmentType, String>(
                AssignmentType::Homework,
            ),
            text::uppered(s@) != "H"@ && text::uppered(s@) == "C"@ ==> out == Ok::<
                AssignmentType,
                String,
            >(AssignmentType::Circular),
            text::uppered(s@) != "H"@ && text::uppered(s@) != "C"@ ==> (out matches Err(message)
                && message@ == INVALID_TYPE@ + s@ + "'"@),
    {
        let upper = text::to_uppercase(s);
        if upper == String::from_str("H") {
            Ok(AssignmentType::Homework)
        } else if upper == String::from_str("C") {
            Ok(AssignmentType::Circular)
        } else {
            let mut message = String::from_str(INVALID_TYPE);
            message.append(s);
            message.append("'");
            Err(message)
        }
    }
}

/// The six character references that a server's text may hold, each with the
/// character that it stands for, in the order in which they are resolved.
pub open spec fn entities() -> Seq<(Seq<char>, Seq<char>)> {
    seq![
        ("&nbsp;"@, " "@),
        ("&quot;"@, "\""@),
        ("&amp;"@, "&"@),
        ("&lt;"@, "<"@),
        ("&gt;"@, ">"@),
        ("&#39;"@, "'"@),
    ]
}

/// `s` with the first `n` character references resolved, one after the other.
pub open spec fn resolved(s: Seq<char>, n: nat) -> Seq<char>
    decreases n,
{
    if n == 0 {
        s
    } else {
        let e = entities()[n - 1];
        text::replaced(resolved(s, (n - 1) as nat), e.0, e.1)
    }
}

/// Text as it is shown: character references resolved and the whitespace at
/// both ends removed.
pub open spec fn cleaned(s: Seq<char>) -> Seq<char> {
    text::trimmed(resolved(s, 6))
}

/// Text that can be cleaned of what a server's markup leaves in it.
pub trait CleanString {
    fn clean_string(self) -> Self;
}

impl CleanString for String {
    fn clean_string(self) -> (out: String)
        ensures
            out@ == cleaned(self@),
    {
        proof {
            reveal_strlit("&nbsp;");
            reveal_strlit("&quot;");
            reveal_strlit("&amp;");
            reveal_strlit("&lt;");
            reveal_strlit("&gt;");
            reveal_strlit("&#39;");
            reveal_with_fuel(resolved, 7);
        }
        let out = text::replace(self.as_str(), "&nbsp;", " ");
        let out = text::replace(out.as_str(), "&quot;", "\"");
        let out = text::replace(out.as_str(), "&amp;", "&");
        let out = text::replace(out.as_str(), "&lt;", "<");
        let out = text::replace(out.as_str(), "&gt;", ">");
        let out = text::replace(out.as_str(), "&#39;", "'");
        text::trim(out.as_str())
    }
}

} // verus!
