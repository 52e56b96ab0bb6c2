use hello_rust::matrix::{pretty_print, transpose};

#[test]
fn transpose_example() {
    let m = [[1, 2, 3], [4, 5, 6], [7, 8, 9]];
    assert_eq!(transpose(m), [[1, 4, 7], [2, 5, 8], [3, 6, 9]]);
}

#[test]
fn transpose_twice_is_identity() {
    let m = [[101, 102, 103], [201, 202, 203], [301, 302, 303]];
    assert_eq!(transpose(transpose(m)), m);
    let n = [[0, -1, 5], [i32::MIN, i32::MAX, 2], [9, -9, 0]];
    assert_eq!(transpose(transpose(n)), n);
}

#[test]
fn pretty_print_rows() {
    let m = [[101, 102, 103], [201, 202, 203], [301, 302, 303]];
    let lines = pretty_print(&m);
    assert_eq!(lines, vec!["101 102 103 ", "201 202 203 ", "301 302 303 "]);
}

#[test]
fn pretty_print_negative_entries() {
    let m = [[-1, 0, 2], [3, -45, 6], [7, 8, -9]];
    let lines = pretty_print(&m);
    assert_eq!(lines, vec!["-1 0 2 ", "3 -45 6 ", "7 8 -9 "]);
}
