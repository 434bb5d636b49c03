//! From the server's answer to the details of one record: its text and the
//! files that come with it.

use crate::error::{FetchError, NormalizationError, RepositoryError};
use crate::html::{self, dom_nodes, dom_top, parsed_nodes, parsed_top, HtmlNode};
use crate::json::{self, element, json_of, length_of, member, text_of, Json};
use crate::record::{
    attachments_view, cleaned, hyperlink, Assignment, AssignmentType, Attachment, CleanString,
    Link, RecordDetails,
};
use crate::text;
use serde_json::Value;
use vstd::prelude::*;
use vstd::string::StringExecFns;

verus! {

/// Where the server keeps the files, before a file's name.
pub const FILES_URL: &'static str = "https://www.lviscampuscare.org/Assignment/";

/// The first `upto` paragraphs, each followed by a line break.
pub open spec fn stacked(paragraphs: Seq<Seq<char>>, upto: int) -> Seq<char>
    decreases upto,
{
    if upto <= 0 {
        Seq::empty()
    } else {
        stacked(paragraphs, upto - 1) + paragraphs[upto - 1] + "\r\n"@
    }
}

/// The first `upto` files as hyperlinks, each followed by a tab.
pub open spec fn linked(names: Seq<Seq<char>>, upto: int) -> Seq<char>
    decreases upto,
{
    if upto <= 0 {
        Seq::empty()
    } else {
        linked(names, upto - 1) + hyperlink(FILES_URL@ + names[upto - 1], names[upto - 1])
            + seq!['\t']
    }
}

/// The text of a record's details: the paragraphs, an empty line, the files
/// as hyperlinks, all of it cleaned.
pub open spec fn details_text(paragraphs: Seq<Seq<char>>, names: Seq<Seq<char>>) -> Seq<char> {
    cleaned(
        stacked(paragraphs, paragraphs.len() as int) + "\r\n"@ + linked(names, names.len() as int),
    )
}

/// A file by its name: the name, and the address under which the server keeps it.
pub open spec fn file_of(name: Seq<char>) -> (Seq<char>, Seq<char>) {
    (name, FILES_URL@ + name)
}

/// The details of a record as plain values: the text and the files.
pub open spec fn details_view(details: RecordDetails) -> (Seq<char>, Seq<(Seq<char>, Seq<char>)>) {
    (details.text@, attachments_view(details.attachments@))
}

/// The details made of `paragraphs` and the files named `names`.
pub open spec fn composed(paragraphs: Seq<Seq<char>>, names: Seq<Seq<char>>) -> (
    Seq<char>,
    Seq<(Seq<char>, Seq<char>)>,
) {
    (details_text(paragraphs, names), names.map_values(|name: Seq<char>| file_of(name)))
}

/// Puts the details of a record together from the paragraphs of its text and
/// the names of its files.
pub fn compose_details(paragraphs: &Vec<String>, names: &Vec<String>) -> (details: RecordDetails)
    ensures
        details_view(details) == composed(
            text::string_views(paragraphs@),
            text::string_views(names@),
        ),
{
    let ghost ps = text::string_views(paragraphs@);
    let ghost ns = text::string_views(names@);
    let mut out = String::new();
    let mut i: usize = 0;
    while i < paragraphs.len()
        invariant
            i <= paragraphs.len(),
            ps == text::string_views(paragraphs@),
            out@ == stacked(ps, i as int),
        decreases paragraphs.len() - i,
    {
        out.append(paragraphs[i].as_str());
        out.append("\r\n");
        assert(ps[i as int] == paragraphs@[i as int]@);
        i += 1;
    }
    out.append("\r\n");
    let ghost head = out@;
    let mut attachments: Vec<Attachment> = Vec::new();
    let mut j: usize = 0;
    proof {
        reveal_strlit("\t");
        assert("\t"@ =~= seq!['\t']);
        assert(out@ =~= head + linked(ns, 0));
    }
    while j < names.len()
        invariant
            j <= names.len(),
            ns == text::string_views(names@),
            out@ == head + linked(ns, j as int),
            attachments.len() == j,
            forall|k: int| 0 <= k < j ==> (#[trigger] attachments@[k])@ == file_of(ns[k]),
        decreases names.len() - j,
    {
        let mut url = String::from_str(FILES_URL);
        url.append(names[j].as_str());
        let link = Link::new(names[j].clone(), url.clone());
        assert(ns[j as int] == names@[j as int]@);
        let shown = link.to_string();
        let ghost before = out@;
        proof {
            reveal_strlit("\t");
            assert("\t"@ =~= seq!['\t']);
        }
        assert(shown@ == hyperlink(FILES_URL@ + ns[j as int], ns[j as int]));
        out.append(shown.as_str());
        out.append("\t");
        assert(out@ =~= before + shown@ + seq!['\t']);
        assert(linked(ns, j + 1) == linked(ns, j as int) + shown@ + seq!['\t']);
        assert(out@ =~= head + linked(ns, j + 1));
        attachments.push(Attachment { name: names[j].clone(), remote_path: url });
        j += 1;
    }
    assert(attachments_view(attachments@) =~= ns.map_values(|name: Seq<char>| file_of(name)));
    RecordDetails { text: out.clean_string(), attachments }
}

/// The name of the file at `at` of the list `files`: the member `Attachment`
/// of that element, a string.
pub open spec fn file_name(files: Json, at: int) -> Option<Seq<char>> {
    match element(files, at) {
        Some(file) => match member(file, "Attachment"@) {
            Some(name) => text_of(name),
            None => None,
        },
        None => None,
    }
}

/// The names of the first `upto` files, or the error of the first file that
/// has no name.
pub open spec fn names_upto(files: Json, upto: int) -> Option<Seq<Seq<char>>>
    decreases upto,
{
    if upto <= 0 {
        Some(Seq::empty())
    } else {
        match (names_upto(files, upto - 1), file_name(files, upto - 1)) {
            (Some(before), Some(name)) => Some(before.push(name)),
            _ => None,
        }
    }
}

/// A file without a name leaves the list without names, however long it is.
pub proof fn lemma_nameless_stays(files: Json, at: int, upto: int)
    requires
        at <= upto,
        names_upto(files, at) is None,
    ensures
        names_upto(files, upto) is None,
    decreases upto - at,
{
    if at < upto {
        lemma_nameless_stays(files, at, upto - 1);
    }
}

/// The texts of the nodes at the top of a document, if every place in `top`
/// lies within the table.
pub open spec fn top_texts(nodes: Seq<HtmlNode>, top: Seq<int>) -> Option<Seq<Seq<char>>> {
    if forall|i: int| 0 <= i < top.len() ==> 0 <= #[trigger] top[i] < nodes.len() {
        Some(top.map_values(|at: int| nodes[at].text))
    } else {
        None
    }
}

/// The markup of the text in the server's answer: the member `Assignment` of
/// the first element of `data`, a string.
pub open spec fn text_markup(data: Json) -> Option<Seq<char>> {
    match element(data, 0) {
        Some(first) => match member(first, "Assignment"@) {
            Some(markup) => text_of(markup),
            None => None,
        },
        None => None,
    }
}

/// The paragraphs in the server's answer.
pub open spec fn paragraphs_of(data: Json) -> Option<Seq<Seq<char>>> {
    match text_markup(data) {
        Some(markup) => match parsed_nodes(markup) {
            Some(nodes) => top_texts(nodes, parsed_top(markup)),
            None => None,
        },
        None => None,
    }
}

/// The details in the server's answer to the request for one record. An
/// answer of another form is malformed; a file without a name is an error of
/// its own.
pub open spec fn details_of(response: Seq<char>) -> Result<
    (Seq<char>, Seq<(Seq<char>, Seq<char>)>),
    RepositoryError,
> {
    match json_of(response) {
        None => Err(RepositoryError::Fetch(FetchError::Malformed)),
        Some(answer) => match member(answer, "Data"@) {
            None => Err(RepositoryError::Fetch(FetchError::Malformed)),
            Some(data) => match (paragraphs_of(data), element(data, 3)) {
                (Some(paragraphs), Some(files)) => match length_of(files) {
                    None => Err(RepositoryError::Fetch(FetchError::Malformed)),
                    Some(count) => match names_upto(files, count as int) {
                        None => Err(
                            RepositoryError::Normalization(NormalizationError::NamelessAttachment),
                        ),
                        Some(names) => Ok(composed(paragraphs, names)),
                    },
                },
                _ => Err(RepositoryError::Fetch(FetchError::Malformed)),
            },
        },
    }
}

/// Reads the paragraphs of the text.
fn read_paragraphs(data: &Value) -> (out: Option<Vec<String>>)
    ensures
        match out {
            Some(paragraphs) => paragraphs_of(json::value_json(*data)) == Some(
                text::string_views(paragraphs@),
            ),
            None => paragraphs_of(json::value_json(*data)) is None,
        },
{
    let first = json::get_element(data, 0)?;
    let holder = json::get_member(first, "Assignment")?;
    let markup = json::get_text(holder)?;
    let dom = match html::parse(markup.as_str()) {
        Ok(dom) => dom,
        Err(_) => {
            return None;
        },
    };
    let ghost nodes = dom_nodes(dom);
    let ghost places = dom_top(dom);
    let count = html::node_count(&dom);
    let top = html::top_nodes(&dom);
    let mut paragraphs: Vec<String> = Vec::new();
    let mut i: usize = 0;
    assert(places.len() == top@.len());
    assert(paragraphs_of(json::value_json(*data)) == top_texts(nodes, places));
    while i < top.len()
        invariant
            i <= top.len(),
            paragraphs_of(json::value_json(*data)) == top_texts(nodes, places),
            count == nodes.len(),
            nodes == dom_nodes(dom),
            places == dom_top(dom),
            places == top@.map_values(|at: usize| at as int),
            paragraphs.len() == i,
            forall|k: int| 0 <= k < i ==> 0 <= #[trigger] places[k] < nodes.len(),
            forall|k: int| 0 <= k < i ==> (#[trigger] paragraphs@[k])@ == nodes[places[k]].text,
        decreases top.len() - i,
    {
        assert(places[i as int] == top@[i as int] as int);
        if top[i] >= count {
            assert(!(0 <= places[i as int] < nodes.len()));
            return None;
        }
        paragraphs.push(html::node_text(&dom, top[i]));
        i += 1;
    }
    assert(text::string_views(paragraphs@) =~= places.map_values(|at: int| nodes[at].text));
    Some(paragraphs)
}

/// Reads the names of the files.
fn read_names(files: &Value, count: usize) -> (out: Option<Vec<String>>)
    ensures
        match out {
            Some(names) => names_upto(json::value_json(*files), count as int) == Some(
                text::string_views(names@),
            ),
            None => names_upto(json::value_json(*files), count as int) is None,
        },
{
    let ghost list = json::value_json(*files);
    let mut names: Vec<String> = Vec::new();
    let mut i: usize = 0;
    assert(text::string_views(names@) =~= Seq::<Seq<char>>::empty());
    while i < count
        invariant
            i <= count,
            list == json::value_json(*files),
            names_upto(list, i as int) == Some(text::string_views(names@)),
        decreases count - i,
    {
        let name = match json::get_element(files, i) {
            Some(file) => match json::get_member(file, "Attachment") {
                Some(holder) => json::get_text(holder),
                None => None,
            },
            None => None,
        };
        match name {
            Some(name) => {
                assert(text::string_views(names@.push(name)) =~= text::string_views(names@).push(
                    name@,
                ));
                names.push(name);
            },
            None => {
                proof {
                    lemma_nameless_stays(list, i + 1, count as int);
                }
                return None;
            },
        }
        i += 1;
    }
    Some(names)
}

impl Assignment {
    /// Reads the details of a record from the server's answer to the request
    /// for them.
    pub fn get_details(&self, response: &str) -> (out: Result<RecordDetails, RepositoryError>)
        ensures
            match out {
                Ok(details) => details_of(response@) == Ok::<
                    (Seq<char>, Seq<(Seq<char>, Seq<char>)>),
                    RepositoryError,
                >(details_view(details)),
                Err(error) => details_of(response@) == Err::<
                    (Seq<char>, Seq<(Seq<char>, Seq<char>)>),
                    RepositoryError,
                >(error),
            },
    {
        let answer = match json::parse(response) {
            Ok(answer) => answer,
            Err(_) => {
                return Err(RepositoryError::Fetch(FetchError::Malformed));
            },
        };
        let data = match json::get_member(&answer, "Data") {
            Some(data) => data,
            None => {
                return Err(RepositoryError::Fetch(FetchError::Malformed));
            },
        };
        let paragraphs = read_paragraphs(data);
        let files = json::get_element(data, 3);
        match (paragraphs, files) {
            (Some(paragraphs), Some(files)) => {
                match json::get_length(files) {
                    None => Err(RepositoryError::Fetch(FetchError::Malformed)),
                    Some(count) => match read_names(files, count) {
                        None => Err(
                            RepositoryError::Normalization(NormalizationError::NamelessAttachment),
                        ),
                        Some(names) => Ok(compose_details(&paragraphs, &names)),
                    },
                }
            },
            _ => Err(RepositoryError::Fetch(FetchError::Malformed)),
        }
    }

    /// The form that asks the server for the details of this record, as
    /// pairs of a field's name and its value.
    pub fn details_form(&self, kind: AssignmentType) -> (form: Vec<(String, String)>)
        ensures
            form.len() == 5,
            form@[0].0@ == "frmDate"@ && form@[0].1@ == ""@,
            form@[1].0@ == "AssignType"@ && form@[1].1@ == (match kind {
                AssignmentType::Circular => "C"@,
                AssignmentType::Homework => "H"@,
            }),
            form@[2].0@ == "toDate"@ && form@[2].1@ == ""@,
            form@[3].0@ == "Subject"@ && form@[3].1@ == "0"@,
            form@[4].0@ == "AssigID"@ && form@[4].1@ == self@.id,
    {
        let mut form: Vec<(String, String)> = Vec::new();
        form.push((String::from_str("frmDate"), String::from_str("")));
        form.push((String::from_str("AssignType"), kind.to_string()));
        form.push((String::from_str("toDate"), String::from_str("")));
        form.push((String::from_str("Subject"), String::from_str("0")));
        form.push((String::from_str("AssigID"), self.id.clone()));
        form
    }
}

} // verus!
