use hint_checker::filter::{is_python_file, EntryFilter, NotHidden, NotTest};

#[test]
fn hidden_names_are_left_out() {
    assert!(!NotHidden.should_be_processed(Some(".git")));
    assert!(!NotHidden.should_be_processed(Some(".hidden.py")));
    assert!(NotHidden.should_be_processed(Some(".")));
    assert!(NotHidden.should_be_processed(Some("src")));
    assert!(!NotHidden.should_be_processed(None));
}

#[test]
fn test_names_are_left_out() {
    assert!(!NotTest.should_be_processed(Some("tests")));
    assert!(!NotTest.should_be_processed(Some("test_parser.py")));
    assert!(NotTest.should_be_processed(Some("test")));
    assert!(NotTest.should_be_processed(Some("parser_test.py")));
    assert!(NotTest.should_be_processed(Some("testsuite")));
    assert!(!NotTest.should_be_processed(None));
}

#[test]
fn entry_filter_combines_the_filters() {
    let none = EntryFilter { ignore_hidden: false, ignore_tests: false };
    let both = EntryFilter { ignore_hidden: true, ignore_tests: true };
    let hidden = EntryFilter { ignore_hidden: true, ignore_tests: false };
    assert!(none.should_be_processed(Some(".venv")));
    assert!(none.should_be_processed(Some("tests")));
    assert!(!both.should_be_processed(Some(".venv")));
    assert!(!both.should_be_processed(Some("tests")));
    assert!(both.should_be_processed(Some(".")));
    assert!(hidden.should_be_processed(Some("tests")));
    assert!(!hidden.should_be_processed(Some(".x")));
}

#[test]
fn python_files_by_suffix() {
    assert!(is_python_file("a.py"));
    assert!(is_python_file(".py"));
    assert!(!is_python_file("a.pyc"));
    assert!(!is_python_file("py"));
    assert!(!is_python_file("a.rs"));
}
