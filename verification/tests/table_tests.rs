use mhw_companion::table::CompoundTableDataModel;
use mhw_companion::table::SimpleTableDataModel;

fn simple_with(cols: usize, cells: &[&str]) -> SimpleTableDataModel {
    let mut t = SimpleTableDataModel::new(cols);
    for c in cells {
        t.push((*c).to_owned());
    }
    t
}

#[test]
fn partial_trailing_row_counts() {
    let t = simple_with(2, &["A", "1", "B", "2", "C"]);
    assert_eq!(t.col_count(), 2);
    assert_eq!(t.row_count(), 3);
    assert_eq!(t.cell_at(0, 2), Some("C".to_owned()));
    assert_eq!(t.cell_at(1, 2), None);
}

#[test]
fn cell_lookup_in_full_rows() {
    let t = simple_with(2, &["A", "1", "B", "2", "C"]);
    assert_eq!(t.cell_at(0, 0), Some("A".to_owned()));
    assert_eq!(t.cell_at(1, 0), Some("1".to_owned()));
    assert_eq!(t.cell_at(0, 1), Some("B".to_owned()));
    assert_eq!(t.cell_at(1, 1), Some("2".to_owned()));
}

#[test]
fn out_of_bounds_is_benign() {
    let t = simple_with(2, &["A", "1"]);
    assert_eq!(t.cell_at(2, 0), None);
    assert_eq!(t.cell_at(0, 5), None);
    assert_eq!(t.cell_at(17, 93), None);
}

#[test]
fn empty_until_columns_configured() {
    let mut t = SimpleTableDataModel::default();
    assert!(t.is_empty());
    assert_eq!(t.row_count(), 0);
    t.set_columns(3);
    assert!(!t.is_empty());
    assert_eq!(t.row_count(), 0);
    t.push("x".to_owned());
    assert!(!t.is_empty());
    assert_eq!(t.row_count(), 1);
}

#[test]
fn zero_width_table_reports_no_rows() {
    let t = SimpleTableDataModel::new(0);
    assert!(t.is_empty());
    assert_eq!(t.col_count(), 0);
    assert_eq!(t.row_count(), 0);
    assert_eq!(t.cell_at(0, 0), None);
}

#[test]
fn append_preserves_order() {
    let mut t = SimpleTableDataModel::new(2);
    t.push("a".to_owned());
    t.append(vec!["b".to_owned(), "c".to_owned()]);
    assert_eq!(t.cell_at(1, 0), Some("b".to_owned()));
    assert_eq!(t.cell_at(0, 1), Some("c".to_owned()));
}

#[test]
fn pop_removes_last_cell() {
    let mut t = simple_with(2, &["a", "b", "c"]);
    assert_eq!(t.pop(), Some("c".to_owned()));
    assert_eq!(t.row_count(), 1);
    let mut empty = SimpleTableDataModel::new(2);
    assert_eq!(empty.pop(), None);
}

#[test]
fn compound_row_counts_sum_and_route() {
    let first = simple_with(2, &["a", "1", "b", "2"]);
    let second = simple_with(1, &["x", "y", "z"]);
    let mut c = CompoundTableDataModel::new();
    assert!(c.is_empty());
    c.push(first);
    c.push(second);
    assert!(!c.is_empty());
    assert_eq!(c.row_count(), 5);
    assert_eq!(c.col_count(), 2);
    // global row 3 resolves to local row 1 of the second child
    assert_eq!(c.cell_at(0, 3), Some("y".to_owned()));
    assert_eq!(c.cell_at(0, 2), Some("x".to_owned()));
    assert_eq!(c.cell_at(0, 4), Some("z".to_owned()));
    assert_eq!(c.cell_at(0, 1), Some("b".to_owned()));
}

#[test]
fn compound_ragged_children_report_absent_cells() {
    let wide = simple_with(2, &["a", "1"]);
    let narrow = simple_with(1, &["x"]);
    let mut c = CompoundTableDataModel::new();
    c.push(wide);
    c.push(narrow);
    // the narrow child owns row 1 but has no second column
    assert_eq!(c.cell_at(1, 1), None);
    assert_eq!(c.cell_at(1, 0), Some("1".to_owned()));
    // beyond every child's width
    assert_eq!(c.cell_at(2, 0), None);
    // beyond the total rows
    assert_eq!(c.cell_at(0, 5), None);
}
