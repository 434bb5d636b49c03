use client_core::components::details::Details;
use client_core::details::compose_details;
use client_core::Action;
use client_core::{Assignment, AssignmentType, Attachment, FetchError, NormalizationError, RepositoryError};

fn record() -> Assignment {
    Assignment {
        id: "a17".to_string(),
        name: "Essay".to_string(),
        date: "01/02/2025".to_string(),
        type_: "English".to_string(),
        s_no: "01".to_string(),
    }
}

fn string(s: &str) -> serde_json::Value {
    serde_json::Value::String(s.to_string())
}

fn object(key: &str, value: serde_json::Value) -> serde_json::Value {
    let mut map = serde_json::Map::new();
    map.insert(key.to_string(), value);
    serde_json::Value::Object(map)
}

fn answer(markup: &str, files: Vec<serde_json::Value>) -> String {
    let data = serde_json::Value::Array(vec![
        object("Assignment", string(markup)),
        serde_json::Value::Null,
        serde_json::Value::Null,
        serde_json::Value::Array(files),
    ]);
    object("Data", data).to_string()
}

fn link(name: &str) -> String {
    format!(
        "\u{1b}]8;;https://www.lviscampuscare.org/Assignment/{name}\u{1b}\\{name}\u{1b}]8;;\u{1b}\\"
    )
}

#[test]
fn details_are_text_then_links() {
    let response = answer(
        "<p>Write &amp; draw</p><p>Due <b>Friday</b></p>",
        vec![object("Attachment", string("task.pdf")), object("Attachment", string("b.png"))],
    );
    let details = record().get_details(&response).unwrap();
    assert_eq!(
        details.text,
        format!("Write & draw\r\nDue Friday\r\n\r\n{}\t{}", link("task.pdf"), link("b.png"))
    );
    assert_eq!(
        details.attachments,
        vec![
            Attachment {
                name: "task.pdf".to_string(),
                remote_path: "https://www.lviscampuscare.org/Assignment/task.pdf".to_string(),
            },
            Attachment {
                name: "b.png".to_string(),
                remote_path: "https://www.lviscampuscare.org/Assignment/b.png".to_string(),
            },
        ]
    );
}

#[test]
fn details_without_files() {
    let details = record().get_details(&answer("<p>Read chapter 2</p>", vec![])).unwrap();
    assert_eq!(details.text, "Read chapter 2");
    assert!(details.attachments.is_empty());
}

#[test]
fn compose_details_of_nothing_is_empty() {
    let details = compose_details(&vec![], &vec![]);
    assert_eq!(details.text, "");
    assert!(details.attachments.is_empty());
    let details = compose_details(&vec!["a".to_string(), "b".to_string()], &vec![]);
    assert_eq!(details.text, "a\r\nb");
}

#[test]
fn details_answer_of_another_form_is_malformed() {
    let malformed = Err(RepositoryError::Fetch(FetchError::Malformed));
    assert_eq!(record().get_details("not json"), malformed);
    assert_eq!(record().get_details("{}"), malformed);
    assert_eq!(record().get_details("{\"Data\": [{\"Assignment\": \"<p>x</p>\"}]}"), malformed);
    assert_eq!(record().get_details("{\"Data\": [{\"Other\": \"x\"}, 1, 2, []]}"), malformed);
    assert_eq!(
        record().get_details("{\"Data\": [{\"Assignment\": \"<p>x</p>\"}, 1, 2, \"files\"]}"),
        malformed
    );
}

#[test]
fn file_without_name_is_refused() {
    let response = answer("<p>x</p>", vec![object("Attachment", string("a.pdf")), object("Name", string("b"))]);
    assert_eq!(
        record().get_details(&response),
        Err(RepositoryError::Normalization(NormalizationError::NamelessAttachment))
    );
    let response = answer("<p>x</p>", vec![object("Attachment", serde_json::Value::Null)]);
    assert_eq!(
        record().get_details(&response),
        Err(RepositoryError::Normalization(NormalizationError::NamelessAttachment))
    );
}

#[test]
fn details_form_names_the_record() {
    let form = record().details_form(AssignmentType::Circular);
    let pairs: Vec<(&str, &str)> = form.iter().map(|(k, v)| (k.as_str(), v.as_str())).collect();
    assert_eq!(
        pairs,
        vec![("frmDate", ""), ("AssignType", "C"), ("toDate", ""), ("Subject", "0"), ("AssigID", "a17")]
    );
    assert_eq!(record().details_form(AssignmentType::Homework)[1].1, "H");
}

#[test]
fn lines_end_at_line_feeds() {
    let mut details = Details::new();
    for (text, lines) in [("", 0), ("a", 1), ("a\n", 1), ("a\nb", 2), ("\n", 1), ("a\r\nb\r", 2), ("\n\n", 2)] {
        details.update(&Action::AssignmentDetails(Some(text.to_string())));
        assert_eq!(details.content_height(), lines, "{text:?}");
    }
}
