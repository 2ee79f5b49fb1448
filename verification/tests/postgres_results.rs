use sqlzen::postgres::{column_of, columns, result, rows, PgColumn, PgMessage};
use sqlzen::{CellValue, Column};

fn reported(name: &str, oid: u32) -> PgColumn {
    PgColumn { name: name.to_string(), oid }
}

fn text(s: &str) -> CellValue {
    CellValue::Text(s.to_string())
}

fn data(cells: &[Option<&str>]) -> PgMessage {
    PgMessage::Row(cells.iter().map(|c| c.map(|s| s.to_string())).collect())
}

#[test]
fn postgres_column_copies_name_and_oid() {
    assert_eq!(
        column_of(&reported("id", 23)),
        Column { name: "id".to_string(), type_id: Some(23), data_type_name: None }
    );
    assert_eq!(
        column_of(&reported("", u32::MAX)),
        Column { name: "".to_string(), type_id: Some(u32::MAX), data_type_name: None }
    );
    assert_eq!(column_of(&reported("zero", 0)).type_id, Some(0));
}

#[test]
fn postgres_columns_keep_order() {
    let got = columns(&vec![reported("id", 23), reported("name", 25), reported("ok", 16)]);
    assert_eq!(
        got,
        vec![
            Column { name: "id".to_string(), type_id: Some(23), data_type_name: None },
            Column { name: "name".to_string(), type_id: Some(25), data_type_name: None },
            Column { name: "ok".to_string(), type_id: Some(16), data_type_name: None },
        ]
    );
    assert_eq!(columns(&vec![]), Vec::<Column>::new());
}

#[test]
fn postgres_rows_pass_over_other_messages() {
    let messages = vec![
        PgMessage::RowDescription(vec!["id".to_string(), "name".to_string()]),
        data(&[Some("1"), Some("ann")]),
        PgMessage::CommandComplete(1),
        data(&[Some("2"), Some("bob")]),
        PgMessage::CommandComplete(1),
    ];
    assert_eq!(
        rows(&messages, 2),
        vec![vec![text("1"), text("ann")], vec![text("2"), text("bob")]]
    );
}

#[test]
fn postgres_null_becomes_empty_text() {
    let messages = vec![data(&[Some("1"), None]), data(&[None, None])];
    assert_eq!(rows(&messages, 2), vec![vec![text("1"), text("")], vec![text(""), text("")]]);
}

#[test]
fn postgres_rows_are_cut_to_the_columns() {
    let messages = vec![data(&[Some("1")]), data(&[Some("a"), Some("b"), Some("c")]), data(&[])];
    assert_eq!(
        rows(&messages, 2),
        vec![vec![text("1"), text("")], vec![text("a"), text("b")], vec![text(""), text("")]]
    );
}

#[test]
fn postgres_result_has_one_cell_per_column() {
    let described = vec![reported("id", 23), reported("name", 25)];
    let messages = vec![
        data(&[Some("1"), Some("ann")]),
        data(&[Some("2")]),
        PgMessage::CommandComplete(2),
    ];
    let table = result(&described, &messages);
    assert_eq!(table.columns, columns(&described));
    assert_eq!(table.rows, vec![vec![text("1"), text("ann")], vec![text("2"), text("")]]);
    assert!(table.is_well_formed());
    assert!(table.rows.iter().all(|row| row.len() == table.columns.len()));
}

#[test]
fn postgres_result_without_rows_still_has_columns() {
    let described = vec![reported("id", 23), reported("name", 25)];
    let none = result(&described, &vec![]);
    assert_eq!(none.columns.len(), 2);
    assert_eq!(none.columns[0].name, "id");
    assert_eq!(none.columns[1].type_id, Some(25));
    assert!(none.rows.is_empty());
    let only_status = result(
        &described,
        &vec![PgMessage::RowDescription(vec!["id".to_string()]), PgMessage::CommandComplete(0)],
    );
    assert_eq!(only_status.columns, none.columns);
    assert!(only_status.rows.is_empty());
    assert!(only_status.is_well_formed());
}

#[test]
fn postgres_result_without_columns_has_empty_rows() {
    let table = result(&vec![], &vec![data(&[Some("x")]), data(&[])]);
    assert!(table.columns.is_empty());
    assert_eq!(table.rows, vec![Vec::<CellValue>::new(), Vec::<CellValue>::new()]);
    assert!(table.is_well_formed());
}

#[test]
fn postgres_cells_are_all_text() {
    let table = result(
        &vec![reported("n", 23)],
        &vec![data(&[Some("42")]), data(&[None]), data(&[Some("")])],
    );
    assert!(table.rows.iter().flatten().all(|cell| matches!(cell, CellValue::Text(_))));
}
