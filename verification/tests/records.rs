use client_core::{Assignment, AssignmentType, Attachment, CleanString, Link, NormalizationError, RepositoryError, FetchError};
use client_core::repository::record_from_cells;
use client_core::serial::{stands_for, to_decimal};

#[test]
fn link_is_a_terminal_hyperlink() {
    let link = Link::new("notes.pdf".to_string(), "https://example.org/notes.pdf".to_string());
    assert_eq!(link.text, "notes.pdf");
    assert_eq!(link.url, "https://example.org/notes.pdf");
    assert_eq!(
        link.to_string(),
        "\u{1b}]8;;https://example.org/notes.pdf\u{1b}\\notes.pdf\u{1b}]8;;\u{1b}\\"
    );
    assert_eq!(link.clone(), link);
}

#[test]
fn assignment_type_letters() {
    assert_eq!(AssignmentType::Circular.to_string(), "C");
    assert_eq!(AssignmentType::Homework.to_string(), "H");
}

#[test]
fn assignment_type_reads_either_case() {
    assert_eq!(AssignmentType::from_str("h"), Ok(AssignmentType::Homework));
    assert_eq!(AssignmentType::from_str("H"), Ok(AssignmentType::Homework));
    assert_eq!(AssignmentType::from_str("c"), Ok(AssignmentType::Circular));
    assert_eq!(AssignmentType::from_str("C"), Ok(AssignmentType::Circular));
}

#[test]
fn assignment_type_refuses_other_strings() {
    assert_eq!(
        AssignmentType::from_str("homework"),
        Err("Invalid assignment type: 'homework'".to_string())
    );
    assert_eq!(AssignmentType::from_str(""), Err("Invalid assignment type: ''".to_string()));
}

#[test]
fn clean_string_resolves_references_and_trims() {
    assert_eq!("  a&nbsp;b  ".to_string().clean_string(), "a b");
    assert_eq!("&quot;x&quot; &lt;y&gt; &amp; z&#39;s".to_string().clean_string(), "\"x\" <y> & z's");
    assert_eq!("\r\n plain \t".to_string().clean_string(), "plain");
    assert_eq!("".to_string().clean_string(), "");
}

#[test]
fn clean_string_resolves_in_order() {
    assert_eq!("&amp;lt;".to_string().clean_string(), "<");
    assert_eq!("&amp;amp;".to_string().clean_string(), "&amp;");
    assert_eq!("&amp;nbsp;".to_string().clean_string(), "&nbsp;");
}

#[test]
fn record_from_four_cells() {
    let cells: Vec<String> =
        ["4", "02/03/2025", "Notice", "  Parents&#39; day &amp; fair ", "extra"].iter().map(|s| s.to_string()).collect();
    let a = record_from_cells(&cells, "771".to_string(), AssignmentType::Circular).unwrap();
    assert_eq!(
        a,
        Assignment {
            id: "771".to_string(),
            name: "Parents' day & fair".to_string(),
            date: "02/03/2025".to_string(),
            type_: "Notice".to_string(),
            s_no: "4".to_string(),
        }
    );
    let b = record_from_cells(&cells, "771".to_string(), AssignmentType::Homework).unwrap();
    assert_eq!(a, b);
}

#[test]
fn record_from_few_cells_is_refused() {
    let cells: Vec<String> = ["4", "02/03/2025", "Notice"].iter().map(|s| s.to_string()).collect();
    assert_eq!(
        record_from_cells(&cells, String::new(), AssignmentType::Homework),
        Err(RepositoryError::Normalization(NormalizationError::ShortRow))
    );
    assert_eq!(
        record_from_cells(&Vec::new(), String::new(), AssignmentType::Circular),
        Err(RepositoryError::Normalization(NormalizationError::ShortRow))
    );
}

#[test]
fn error_messages() {
    assert_eq!(
        RepositoryError::Fetch(FetchError::Network("timed out".to_string())).message(),
        "The request failed: timed out"
    );
    assert_eq!(
        RepositoryError::Fetch(FetchError::Malformed).message(),
        "The server's response could not be read"
    );
    assert_eq!(RepositoryError::Fetch(FetchError::Empty).message(), "The server sent no records");
    assert_eq!(
        RepositoryError::Normalization(NormalizationError::ShortRow).message(),
        "A row of the table has too few cells"
    );
    assert_eq!(
        RepositoryError::Normalization(NormalizationError::SerialOutOfPlace).message(),
        "A row of the table is out of its place"
    );
    assert_eq!(
        RepositoryError::Normalization(NormalizationError::NamelessAttachment).message(),
        "An attachment has no file name"
    );
}

#[test]
fn attachment_clone_is_equal() {
    let a = Attachment { name: "a.pdf".to_string(), remote_path: "https://x/a.pdf".to_string() };
    assert_eq!(a.clone(), a);
}

#[test]
fn list_form_names_the_list() {
    let form = AssignmentType::Homework.list_form();
    let pairs: Vec<(&str, &str)> = form.iter().map(|(k, v)| (k.as_str(), v.as_str())).collect();
    assert_eq!(pairs, vec![("AssignType", "H"), ("frmDate", ""), ("toDate", ""), ("Subject", "")]);
    assert_eq!(AssignmentType::Circular.list_form()[0].1, "C");
}

#[test]
fn serials_stand_for_places() {
    assert!(stands_for("1", 1));
    assert!(stands_for("01", 1));
    assert!(stands_for("0012", 12));
    assert!(stands_for("120", 120));
    assert!(!stands_for("12", 120));
    assert!(!stands_for("1", 2));
    assert!(!stands_for("", 1));
    assert!(!stands_for("0", 0));
    assert!(!stands_for("000", 1));
    assert!(!stands_for("1a", 1));
    assert!(!stands_for(" 1", 1));
    assert!(!stands_for("+1", 1));
    assert!(!stands_for("१", 1));
    assert_eq!(to_decimal(0), vec!['0']);
    assert_eq!(to_decimal(907), vec!['9', '0', '7']);
    assert_eq!(to_decimal(usize::MAX).iter().collect::<String>(), usize::MAX.to_string());
}
