use splinter_store::cli::error::CliError;
use splinter_store::cli::messages::chown_result;
use splinter_store::cli::messages::cylinder_bearer;
use splinter_store::cli::messages::key_file_error;
use splinter_store::cli::messages::token_error;
use splinter_store::cli::messages::KeyFileStep;
use splinter_store::cli::messages::msg_from_io_error;
use splinter_store::cli::messages::private_key_text;
use splinter_store::cli::messages::IoErrorKind;
use splinter_store::cli::subcommands::CommandIndex;
use splinter_store::cli::table::format_row;
use splinter_store::cli::table::format_table;
use splinter_store::cli::table::measure_columns;

fn row(cells: &[&str]) -> Vec<String> {
    cells.iter().map(|cell| cell.to_string()).collect()
}

#[test]
fn columns_are_as_wide_as_their_widest_cell() {
    let table = vec![
        row(&["ID", "NAME", "ENDPOINTS"]),
        row(&["n1", "alpha-node", "tcp://a:1"]),
        row(&["node-22", "b"]),
    ];
    assert_eq!(measure_columns(&table), vec![7, 10, 9]);
    assert_eq!(measure_columns(&vec![]), Vec::<usize>::new());
    assert_eq!(measure_columns(&vec![row(&[]), row(&[])]), Vec::<usize>::new());
    assert_eq!(measure_columns(&vec![row(&["", ""])]), vec![0, 0]);
    // the width is the length in bytes
    assert_eq!(measure_columns(&vec![row(&["é"]), row(&["a"])]), vec![2]);
}

#[test]
fn table_lines_are_padded_and_short_rows_filled() {
    let table = vec![
        row(&["ID", "NAME", "ENDPOINTS"]),
        row(&["n1", "alpha-node", "tcp://a:1"]),
        row(&["node-22", "b"]),
        row(&[]),
    ];
    let lines = format_table(&table);
    assert_eq!(
        lines,
        vec![
            "ID      NAME       ENDPOINTS ".to_string(),
            "n1      alpha-node tcp://a:1 ".to_string(),
            // a missing cell is filled with spaces, without the separator
            "node-22 b          ".to_string() + "         ",
            " ".repeat(7 + 10 + 9),
        ]
    );
    assert_eq!(format_table(&vec![]), Vec::<String>::new());
    assert_eq!(format_table(&vec![row(&[])]), vec!["".to_string()]);
    assert_eq!(format_table(&vec![row(&["x"])]), vec!["x ".to_string()]);
}

#[test]
fn row_is_laid_out_in_the_given_widths() {
    assert_eq!(format_row(&row(&["ab", "c"]), &vec![4, 1]), "ab   c ");
    assert_eq!(format_row(&row(&["ab"]), &vec![2, 3]), "ab    ");
    // cells beyond the widths are left out
    assert_eq!(format_row(&row(&["ab", "c", "d"]), &vec![2]), "ab ");
    // a cell longer than its column is not cut
    assert_eq!(format_row(&row(&["abcdef", "g"]), &vec![2, 1]), "abcdef g ");
    assert_eq!(format_row(&row(&[]), &vec![]), "");
}

#[test]
fn io_error_messages() {
    assert_eq!(msg_from_io_error(IoErrorKind::NotFound), "File not found");
    assert_eq!(msg_from_io_error(IoErrorKind::PermissionDenied), "Permission denied");
    assert_eq!(msg_from_io_error(IoErrorKind::InvalidData), "Invalid data");
    assert_eq!(msg_from_io_error(IoErrorKind::Other), "Unknown I/O error");
}

#[test]
fn bearer_header_names_the_scheme() {
    assert_eq!(cylinder_bearer("abc.def.ghi"), "Bearer Cylinder:abc.def.ghi");
    assert_eq!(cylinder_bearer(""), "Bearer Cylinder:");
}

#[test]
fn private_key_is_the_file_without_surrounding_white_space() {
    assert_eq!(private_key_text("  0a1b2c\n"), "0a1b2c");
    assert_eq!(private_key_text("\t0a 1b\r\n\n"), "0a 1b");
    assert_eq!(private_key_text("0a1b2c"), "0a1b2c");
    assert_eq!(private_key_text(" \n "), "");
}

#[test]
fn subcommands_are_found_by_name() {
    let mut index = CommandIndex::new();
    assert_eq!(index.len(), 0);
    assert_eq!(index.lookup("list"), None);
    assert_eq!(index.register("list"), 0);
    assert_eq!(index.register("show"), 1);
    assert_eq!(index.register("propose"), 2);
    // a name that is registered again keeps its slot
    assert_eq!(index.register("show"), 1);
    assert_eq!(index.len(), 3);
    assert_eq!(index.lookup("list"), Some(0));
    assert_eq!(index.lookup("propose"), Some(2));
    assert_eq!(index.lookup("Show"), None);
    assert_eq!(index.lookup(""), None);
}

#[test]
fn dispatch_needs_arguments_and_a_known_subcommand() {
    let mut index = CommandIndex::new();
    index.register("list");
    index.register("show");
    assert_eq!(index.dispatch(Some("show")), Ok(1));
    assert_eq!(index.dispatch(Some("list")), Ok(0));
    assert_eq!(index.dispatch(None), Err(CliError::RequiresArgs));
    assert_eq!(index.dispatch(Some("remove")), Err(CliError::InvalidSubcommand));
    assert_eq!(index.dispatch(Some("")), Err(CliError::InvalidSubcommand));
    assert_eq!(CommandIndex::new().dispatch(None), Err(CliError::RequiresArgs));
}

#[test]
fn key_file_errors_name_the_step_the_file_and_the_reason() {
    assert_eq!(
        key_file_error(KeyFileStep::Open, "/keys/alice.priv", IoErrorKind::NotFound),
        CliError::EnvironmentError(
            "Unable to open key file '/keys/alice.priv': File not found".to_string()
        )
    );
    assert_eq!(
        key_file_error(KeyFileStep::Read, "alice.priv", IoErrorKind::InvalidData),
        CliError::EnvironmentError("Unable to read key file 'alice.priv': Invalid data".to_string())
    );
    assert_eq!(
        key_file_error(KeyFileStep::Open, "", IoErrorKind::Other),
        CliError::EnvironmentError("Unable to open key file '': Unknown I/O error".to_string())
    );
}

#[test]
fn chown_status_zero_is_success() {
    assert_eq!(chown_result("/var/lib/splinter", 0), Ok(()));
    assert_eq!(
        chown_result("/var/lib/splinter", -1),
        Err(CliError::EnvironmentError(
            "Error chowning file /var/lib/splinter: -1".to_string()
        ))
    );
    assert_eq!(
        chown_result("f", 13),
        Err(CliError::EnvironmentError("Error chowning file f: 13".to_string()))
    );
}

#[test]
fn token_errors_carry_the_reason() {
    assert_eq!(
        token_error("signing failed"),
        CliError::ActionError("failed to build json web token: signing failed".to_string())
    );
}
