//! From the server's answer to records: the table of a list, row by row.

use crate::error::{FetchError, NormalizationError, RepositoryError};
use crate::html::{self, dom_nodes, parsed_nodes, HtmlNode};
use crate::json::{self, element, json_of, member, text_of, Json};
use crate::record::{cleaned, records_view, Assignment, AssignmentType, CleanString, Record};
use crate::serial::{denotes, stands_for};
use crate::text;
use tl::VDom;
use vstd::prelude::*;
use vstd::string::StringExecFns;

verus! {

/// The text of a cell: line breaks taken out, then the whitespace at both ends.
pub open spec fn cell_text(raw: Seq<char>) -> Seq<char> {
    text::trimmed(
        text::replaced(text::replaced(raw, seq!['\r'], Seq::empty()), seq!['\n'], Seq::empty()),
    )
}

/// The cells among the nodes from `first` up to, not including, `upto`: the
/// text of every tag, in document order.
pub open spec fn cells_upto(nodes: Seq<HtmlNode>, first: int, upto: int) -> Seq<Seq<char>>
    decreases upto - first,
{
    if upto <= first {
        Seq::empty()
    } else {
        let before = cells_upto(nodes, first, upto - 1);
        if nodes[upto - 1].tag is Some {
            before.push(cell_text(nodes[upto - 1].text))
        } else {
            before
        }
    }
}

/// The `id` of the last tag that has one among the nodes from `first` up to,
/// not including, `upto`; empty where no tag has one.
pub open spec fn id_upto(nodes: Seq<HtmlNode>, first: int, upto: int) -> Seq<char>
    decreases upto - first,
{
    if upto <= first {
        Seq::empty()
    } else if nodes[upto - 1].tag is Some && nodes[upto - 1].id is Some {
        nodes[upto - 1].id->0
    } else {
        id_upto(nodes, first, upto - 1)
    }
}

/// The name of a record as it is shown. A circular has its apostrophes
/// resolved before the rest.
pub open spec fn shown_name(cell: Seq<char>, kind: AssignmentType) -> Seq<char> {
    match kind {
        AssignmentType::Circular => cleaned(text::replaced(cell, "&#39;"@, "'"@)),
        AssignmentType::Homework => cleaned(cell),
    }
}

/// The record that a row of four cells or more stands for: serial, date,
/// category and name, in this order, under the key `id`.
pub open spec fn record_of(cells: Seq<Seq<char>>, id: Seq<char>, kind: AssignmentType) -> Record {
    Record {
        serial: cells[0],
        id,
        name: shown_name(cells[3], kind),
        date: cells[1],
        category: cells[2],
    }
}

/// Makes a record of the cells of one row. A row of fewer than four cells
/// makes none.
pub fn record_from_cells(cells: &Vec<String>, id: String, kind: AssignmentType) -> (out: Result<
    Assignment,
    RepositoryError,
>)
    ensures
        cells.len() < 4 ==> out == Err::<Assignment, RepositoryError>(
            RepositoryError::Normalization(NormalizationError::ShortRow),
        ),
        cells.len() >= 4 ==> (out matches Ok(a) && a@ == record_of(
            text::string_views(cells@),
            id@,
            kind,
        )),
{
    if cells.len() < 4 {
        return Err(RepositoryError::Normalization(NormalizationError::ShortRow));
    }
    proof {
        reveal_strlit("&#39;");
    }
    let name = match kind {
        AssignmentType::Circular => text::replace(cells[3].as_str(), "&#39;", "'").clean_string(),
        AssignmentType::Homework => cells[3].clone().clean_string(),
    };
    Ok(
        Assignment {
            id,
            name,
            date: cells[1].clone(),
            type_: cells[2].clone(),
            s_no: cells[0].clone(),
        },
    )
}

/// A node is a row of the table: a tag named `tr`.
pub open spec fn is_row(node: HtmlNode) -> bool {
    node.tag == Some("tr"@)
}

/// The span of a node lies within the table of nodes.
pub open spec fn span_ok(nodes: Seq<HtmlNode>, span: Option<(int, int)>) -> bool {
    match span {
        Some((first, last)) => 0 <= first <= last < nodes.len(),
        None => true,
    }
}

/// The cells of the nodes below a row.
pub open spec fn row_cells(nodes: Seq<HtmlNode>, span: Option<(int, int)>) -> Seq<Seq<char>> {
    match span {
        Some((first, last)) => cells_upto(nodes, first, last + 1),
        None => Seq::empty(),
    }
}

/// The key of a row: the `id` of the last tag below it that has one.
pub open spec fn row_id(nodes: Seq<HtmlNode>, span: Option<(int, int)>) -> Seq<char> {
    match span {
        Some((first, last)) => id_upto(nodes, first, last + 1),
        None => Seq::empty(),
    }
}

/// Every record carries the serial of its place: the first the serial 1, the
/// next the serial 2, and so on without gap or repeat.
pub open spec fn serials_dense(records: Seq<Record>) -> bool {
    forall|i: int| 0 <= i < records.len() ==> denotes((#[trigger] records[i]).serial, (i + 1) as nat)
}

/// The records of the rows among the first `upto` nodes, or what is wrong
/// with the first row that makes no record. A row makes a record only if its
/// first cell is the serial of the record's place in the list.
pub open spec fn records_upto(nodes: Seq<HtmlNode>, upto: int, kind: AssignmentType) -> Result<
    Seq<Record>,
    RepositoryError,
>
    decreases upto,
{
    if upto <= 0 {
        Ok(Seq::empty())
    } else {
        match records_upto(nodes, upto - 1, kind) {
            Err(error) => Err(error),
            Ok(before) => {
                let node = nodes[upto - 1];
                if !is_row(node) {
                    Ok(before)
                } else if !span_ok(nodes, node.span) {
                    Err(RepositoryError::Fetch(FetchError::Malformed))
                } else if row_cells(nodes, node.span).len() < 4 {
                    Err(RepositoryError::Normalization(NormalizationError::ShortRow))
                } else if !denotes(row_cells(nodes, node.span)[0], before.len() + 1) {
                    Err(RepositoryError::Normalization(NormalizationError::SerialOutOfPlace))
                } else {
                    Ok(
                        before.push(
                            record_of(row_cells(nodes, node.span), row_id(nodes, node.span), kind),
                        ),
                    )
                }
            },
        }
    }
}

/// What is wrong with the first row that makes no record is wrong with the
/// table, however long it goes on.
pub proof fn lemma_error_stays(
    nodes: Seq<HtmlNode>,
    at: int,
    upto: int,
    kind: AssignmentType,
)
    requires
        at <= upto,
        records_upto(nodes, at, kind) is Err,
    ensures
        records_upto(nodes, upto, kind) == records_upto(nodes, at, kind),
    decreases upto - at,
{
    if at < upto {
        lemma_error_stays(nodes, at, upto - 1, kind);
    }
}

/// The records that a table makes carry the serials 1, 2, 3 and so on, each
/// at its place.
pub proof fn law_fetched_serials_dense(nodes: Seq<HtmlNode>, upto: int, kind: AssignmentType)
    ensures
        records_upto(nodes, upto, kind) matches Ok(records) ==> serials_dense(records),
    decreases upto,
{
    if upto > 0 {
        law_fetched_serials_dense(nodes, upto - 1, kind);
    }
}

/// Records that carry the serials of their places share no serial.
pub proof fn law_dense_serials_unique(records: Seq<Record>)
    requires
        serials_dense(records),
    ensures
        crate::laws::serials_unique(records),
{
    assert forall|i: int, j: int|
        0 <= i < records.len() && 0 <= j < records.len() && i != j implies records[i].serial
        != records[j].serial by {
        if records[i].serial == records[j].serial {
            crate::serial::law_serial_names_one_place(
                records[i].serial,
                (i + 1) as nat,
                (j + 1) as nat,
            );
        }
    }
}

/// The records of a table, one for each row. A table without rows is an error.
pub open spec fn records_of_nodes(nodes: Seq<HtmlNode>, kind: AssignmentType) -> Result<
    Seq<Record>,
    RepositoryError,
> {
    match records_upto(nodes, nodes.len() as int, kind) {
        Err(error) => Err(error),
        Ok(records) => if records.len() == 0 {
            Err(RepositoryError::Fetch(FetchError::Empty))
        } else {
            Ok(records)
        },
    }
}

/// The markup of the table in the server's answer: the first element of the
/// member `Data`, a string.
pub open spec fn table_markup(answer: Json) -> Option<Seq<char>> {
    match member(answer, "Data"@) {
        Some(data) => match element(data, 0) {
            Some(first) => text_of(first),
            None => None,
        },
        None => None,
    }
}

/// The records in the server's answer to the request for a list.
pub open spec fn records_of(response: Seq<char>, kind: AssignmentType) -> Result<
    Seq<Record>,
    RepositoryError,
> {
    match json_of(response) {
        None => Err(RepositoryError::Fetch(FetchError::Malformed)),
        Some(answer) => match table_markup(answer) {
            None => Err(RepositoryError::Fetch(FetchError::Malformed)),
            Some(markup) => match parsed_nodes(markup) {
                None => Err(RepositoryError::Fetch(FetchError::Malformed)),
                Some(nodes) => records_of_nodes(nodes, kind),
            },
        },
    }
}

/// Whether an outcome is the one that the model gives; records that were
/// read carry the serials of their places.
pub open spec fn same_outcome(
    out: Result<Vec<Assignment>, RepositoryError>,
    model: Result<Seq<Record>, RepositoryError>,
) -> bool {
    match out {
        Ok(records) => model == Ok::<Seq<Record>, RepositoryError>(records_view(records@))
            && serials_dense(records_view(records@)) && records.len() > 0,
        Err(error) => model == Err::<Seq<Record>, RepositoryError>(error),
    }
}

/// Reads the cells and the key of the row whose nodes lie from `first` to `last`.
fn read_row(dom: &VDom<'_>, first: usize, last: usize) -> (out: (Vec<String>, String))
    requires
        first <= last < dom_nodes(*dom).len() <= usize::MAX,
    ensures
        text::string_views(out.0@) == cells_upto(dom_nodes(*dom), first as int, last + 1),
        out.1@ == id_upto(dom_nodes(*dom), first as int, last + 1),
{
    let ghost nodes = dom_nodes(*dom);
    let mut cells: Vec<String> = Vec::new();
    let mut id = String::new();
    let mut at: usize = first;
    assert(text::string_views(cells@) =~= cells_upto(nodes, first as int, first as int));
    while at <= last
        invariant
            first <= at <= last + 1,
            last < nodes.len() <= usize::MAX,
            nodes == dom_nodes(*dom),
            text::string_views(cells@) == cells_upto(nodes, first as int, at as int),
            id@ == id_upto(nodes, first as int, at as int),
        decreases last + 1 - at,
    {
        let tag = html::node_tag(dom, at);
        if tag.is_some() {
            let raw = html::node_text(dom, at);
            proof {
                reveal_strlit("\r");
                reveal_strlit("\n");
                reveal_strlit("");
                assert("\r"@ =~= seq!['\r']);
                assert("\n"@ =~= seq!['\n']);
                assert(""@ =~= Seq::<char>::empty());
            }
            let no_cr = text::replace(raw.as_str(), "\r", "");
            let no_breaks = text::replace(no_cr.as_str(), "\n", "");
            let cell = text::trim(no_breaks.as_str());
            assert(text::string_views(cells@.push(cell)) =~= text::string_views(cells@).push(
                cell@,
            ));
            cells.push(cell);
            match html::node_id(dom, at) {
                Some(found) => {
                    id = found;
                },
                None => {},
            }
        }
        at += 1;
    }
    (cells, id)
}

/// Reads the records of a parsed table.
fn read_rows(dom: &VDom<'_>, kind: AssignmentType) -> (out: Result<Vec<Assignment>, RepositoryError>)
    ensures
        same_outcome(out, records_of_nodes(dom_nodes(*dom), kind)),
{
    let ghost nodes = dom_nodes(*dom);
    let count = html::node_count(dom);
    let mut records: Vec<Assignment> = Vec::new();
    let mut at: usize = 0;
    proof {
        reveal_strlit("tr");
        assert(records_view(records@) =~= Seq::<Record>::empty());
    }
    while at < count
        invariant
            at <= count == nodes.len(),
            nodes == dom_nodes(*dom),
            records_upto(nodes, at as int, kind) == Ok::<Seq<Record>, RepositoryError>(
                records_view(records@),
            ),
            records.len() <= at,
        decreases count - at,
    {
        let is_row = match html::node_tag(dom, at) {
            Some(name) => name == String::from_str("tr"),
            None => false,
        };
        if is_row {
            let row = match html::node_span(dom, at) {
                Some((first, last)) => {
                    if first <= last && last < count {
                        read_row(dom, first, last)
                    } else {
                        proof {
                            lemma_error_stays(nodes, at + 1, count as int, kind);
                        }
                        return Err(RepositoryError::Fetch(FetchError::Malformed));
                    }
                },
                None => (Vec::new(), String::new()),
            };
            assert(text::string_views(row.0@) =~= row_cells(nodes, nodes[at as int].span));
            match record_from_cells(&row.0, row.1, kind) {
                Ok(record) => {
                    assert(record@.serial == row_cells(nodes, nodes[at as int].span)[0]);
                    if !stands_for(record.s_no.as_str(), records.len() + 1) {
                        proof {
                            lemma_error_stays(nodes, at + 1, count as int, kind);
                        }
                        return Err(
                            RepositoryError::Normalization(NormalizationError::SerialOutOfPlace),
                        );
                    }
                    assert(records_view(records@.push(record)) =~= records_view(records@).push(
                        record@,
                    ));
                    records.push(record);
                },
                Err(error) => {
                    proof {
                        lemma_error_stays(nodes, at + 1, count as int, kind);
                    }
                    return Err(error);
                },
            }
        }
        at += 1;
    }
    if records.len() == 0 {
        Err(RepositoryError::Fetch(FetchError::Empty))
    } else {
        proof {
            law_fetched_serials_dense(nodes, count as int, kind);
        }
        Ok(records)
    }
}

/// Reads the markup of a table: one record for each row.
pub fn read_table(markup: &str, kind: AssignmentType) -> (out: Result<
    Vec<Assignment>,
    RepositoryError,
>)
    ensures
        same_outcome(
            out,
            match parsed_nodes(markup@) {
                None => Err(RepositoryError::Fetch(FetchError::Malformed)),
                Some(nodes) => records_of_nodes(nodes, kind),
            },
        ),
{
    match html::parse(markup) {
        Ok(dom) => read_rows(&dom, kind),
        Err(_) => Err(RepositoryError::Fetch(FetchError::Malformed)),
    }
}

/// Reads the server's answer to the request for a list.
pub fn read_response(response: &str, kind: AssignmentType) -> (out: Result<
    Vec<Assignment>,
    RepositoryError,
>)
    ensures
        same_outcome(out, records_of(response@, kind)),
{
    let answer = match json::parse(response) {
        Ok(answer) => answer,
        Err(_) => {
            return Err(RepositoryError::Fetch(FetchError::Malformed));
        },
    };
    let first = match json::get_member(&answer, "Data") {
        Some(data) => json::get_element(data, 0),
        None => None,
    };
    let markup = match first {
        Some(first) => json::get_text(first),
        None => None,
    };
    match markup {
        Some(markup) => read_table(markup.as_str(), kind),
        None => Err(RepositoryError::Fetch(FetchError::Malformed)),
    }
}

impl AssignmentType {
    /// The form that asks the server for this list, as pairs of a field's
    /// name and its value.
    pub fn list_form(&self) -> (form: Vec<(String, String)>)
        ensures
            form.len() == 4,
            form@[0].0@ == "AssignType"@ && form@[0].1@ == (match *self {
                AssignmentType::Circular => "C"@,
                AssignmentType::Homework => "H"@,
            }),
            form@[1].0@ == "frmDate"@ && form@[1].1@ == ""@,
            form@[2].0@ == "toDate"@ && form@[2].1@ == ""@,
            form@[3].0@ == "Subject"@ && form@[3].1@ == ""@,
    {
        let mut form: Vec<(String, String)> = Vec::new();
        form.push((String::from_str("AssignType"), self.to_string()));
        form.push((String::from_str("frmDate"), String::from_str("")));
        form.push((String::from_str("toDate"), String::from_str("")));
        form.push((String::from_str("Subject"), String::from_str("")));
        form
    }
}

/// Reads the circulars in the server's answer: one record for each row of
/// the table, each carrying the serial of its place, so that the serials are
/// 1 to the number of records without gap or repeat.
pub fn get_circular(response: &str) -> (out: Result<Vec<Assignment>, RepositoryError>)
    ensures
        same_outcome(out, records_of(response@, AssignmentType::Circular)),
        out matches Ok(records) ==> serials_dense(records_view(records@)),
{
    read_response(response, AssignmentType::Circular)
}

} // verus!
