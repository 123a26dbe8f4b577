use prqldoc::panel::{
    table_of_comparison, table_of_error, table_of_rows, ERROR_TITLE, FENCE, NEWLINE, PANEL_CLOSE,
    PANEL_OPEN, PANE_BREAK, PRQL_TITLE, SQL_TITLE, TABLE_TITLE,
};

#[test]
fn comparison_holds_both_panes() {
    let expected = "<div class=\"comparison\">\n\n<div>\n\n```prql title=\"PRQL\"\nfrom a\n```\n\n</div>\n\n<div>\n\n```sql title=\"SQL\"\nSELECT * FROM a\n```\n\n</div>\n\n</div>\n";
    assert_eq!(table_of_comparison("from a", "SELECT * FROM a"), expected);
}

#[test]
fn comparison_trims_both_texts() {
    let plain = table_of_comparison("from a", "SELECT\n  *\nFROM\n  a");
    assert_eq!(table_of_comparison("from a\n", "SELECT\n  *\nFROM\n  a\n"), plain);
    assert_eq!(table_of_comparison("\n\n  from a \t", " \nSELECT\n  *\nFROM\n  a\n\n"), plain);
}

#[test]
fn comparison_keeps_inner_white_space() {
    let out = table_of_comparison("from a\n\nselect {b}", "SELECT\n  b\nFROM\n  a");
    assert!(out.contains("```prql title=\"PRQL\"\nfrom a\n\nselect {b}\n```"));
    assert!(out.contains("```sql title=\"SQL\"\nSELECT\n  b\nFROM\n  a\n```"));
}

#[test]
fn comparison_of_nothing() {
    let expected = "<div class=\"comparison\">\n\n<div>\n\n```prql title=\"PRQL\"\n\n```\n\n</div>\n\n<div>\n\n```sql title=\"SQL\"\n\n```\n\n</div>\n\n</div>\n";
    assert_eq!(table_of_comparison("", " \n"), expected);
}

#[test]
fn comparison_is_assembled_from_the_parts() {
    let expected = format!(
        "{}{}{}{}{}{}{}{}{}{}{}",
        PANEL_OPEN,
        FENCE,
        PRQL_TITLE,
        NEWLINE,
        "from x",
        PANE_BREAK,
        FENCE,
        SQL_TITLE,
        NEWLINE,
        "SELECT 1",
        PANEL_CLOSE
    );
    assert_eq!(table_of_comparison("from x", "SELECT 1"), expected);
}

#[test]
fn error_holds_source_and_message() {
    let expected = "<div class=\"comparison\">\n\n<div>\n\n```prql title=\"PRQL\"\nfrom b d\n```\n\n</div>\n\n<div>\n\n```text title=\"Error\"\nError: too many\n```\n\n</div>\n\n</div>\n";
    assert_eq!(table_of_error("from b d\n", "Error: too many\n"), expected);
}

#[test]
fn error_trims_both_texts() {
    let plain = table_of_error("from b d", "Error:\n  │ x");
    assert_eq!(table_of_error(" from b d\n\n", "\nError:\n  │ x\n"), plain);
}

#[test]
fn error_is_assembled_from_the_parts() {
    let expected = format!(
        "{}{}{}{}{}{}{}{}{}{}{}",
        PANEL_OPEN,
        FENCE,
        PRQL_TITLE,
        NEWLINE,
        "x",
        PANE_BREAK,
        FENCE,
        ERROR_TITLE,
        NEWLINE,
        "y",
        PANEL_CLOSE
    );
    assert_eq!(table_of_error("x", "y"), expected);
}

#[test]
fn titles() {
    assert_eq!(PRQL_TITLE, "prql title=\"PRQL\"");
    assert_eq!(SQL_TITLE, "sql title=\"SQL\"");
    assert_eq!(ERROR_TITLE, "text title=\"Error\"");
    assert_eq!(TABLE_TITLE, "text title=\"Table\"");
}

#[test]
fn rows_stand_beside_the_trimmed_source() {
    let expected = "<div class=\"comparison\">\n\n<div>\n\n```prql title=\"PRQL\"\nfrom a\n```\n\n</div>\n\n<div>\n\n```text title=\"Table\"\n| x |\n|--:|\n| 1 |\n\n```\n\n</div>\n\n</div>\n";
    assert_eq!(table_of_rows("\nfrom a\n\n", "| x |\n|--:|\n| 1 |\n"), expected);
}

#[test]
fn rows_are_taken_byte_for_byte() {
    let rows = "  \n| x |\t\n\n ";
    let out = table_of_rows("from a", rows);
    assert_eq!(
        out,
        format!(
            "{}{}{}{}{}{}{}{}{}{}{}",
            PANEL_OPEN,
            FENCE,
            PRQL_TITLE,
            NEWLINE,
            "from a",
            PANE_BREAK,
            FENCE,
            TABLE_TITLE,
            NEWLINE,
            rows,
            PANEL_CLOSE
        )
    );
    assert_ne!(out, table_of_rows("from a", rows.trim()));
}

#[test]
fn rows_of_nothing() {
    let expected = "<div class=\"comparison\">\n\n<div>\n\n```prql title=\"PRQL\"\nfrom a\n```\n\n</div>\n\n<div>\n\n```text title=\"Table\"\n\n```\n\n</div>\n\n</div>\n";
    assert_eq!(table_of_rows("from a", ""), expected);
}
