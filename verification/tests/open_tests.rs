use nu_command::dataframe_open::{csv_delimiter, OpenDataFrame};
use nu_command::error::ShellError;

#[test]
fn open_test_examples() {
    let cmd = OpenDataFrame;
    assert_eq!(cmd.name(), "dataframe open");
    assert_eq!(cmd.usage(), "Opens csv, json or parquet file to create dataframe");
    let examples = cmd.examples();
    assert_eq!(examples.len(), 1);
    // the one example fixes no result: opening a file is the host's work
    assert!(examples[0].result.is_none());
    assert_eq!(examples[0].example, "dataframe open test.csv");
}

#[test]
fn csv_delimiter_takes_one_character() {
    assert_eq!(csv_delimiter(&";".to_string()), Ok(b';'));
    assert_eq!(csv_delimiter(&"\t".to_string()), Ok(b'\t'));
    match csv_delimiter(&"ab".to_string()) {
        Err(ShellError::LabeledError(msg, label)) => {
            assert_eq!(msg, "Incorrect delimiter");
            assert_eq!(label, "Delimiter has to be one character");
        },
        other => panic!("expected a delimiter error, got {:?}", other),
    }
    assert!(csv_delimiter(&"".to_string()).is_err());
}
