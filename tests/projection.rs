use truck_info::{
    check_status, envelope, handle, project_document, project_rows, select, HandlerError,
    MIN_FIELDS, OUTPUT_FIELDS,
};

fn record(prefix: &str, n: usize) -> Vec<String> {
    (0..n).map(|i| format!("{}{}", prefix, i)).collect()
}

fn letters_header() -> &'static str {
    "a,b,c,d,e,f,g,h,i,j,k,l,m,n,o,p,q,r\n"
}

#[test]
fn round_trip_letters_and_numbers() {
    let body = format!("{}{}", letters_header(), "1,2,3,4,5,6,7,8,9,10,11,12,13,14,15,16,17,18\n");
    let out = project_document(body.as_bytes()).unwrap();
    assert_eq!(out, "b,c,e,f,k,l,o,p,r\n2,3,5,6,11,12,15,16,18\n");
}

#[test]
fn select_letters_header() {
    let header: Vec<String> = "a,b,c,d,e,f,g,h,i,j,k,l,m,n,o,p,q,r"
        .split(',')
        .map(String::from)
        .collect();
    assert_eq!(select(&header), vec!["b", "c", "e", "f", "k", "l", "o", "p", "r"]);
}

#[test]
fn select_keeps_fixed_positions_of_long_record() {
    let r = select(&record("f", 25));
    assert_eq!(r.len(), OUTPUT_FIELDS);
    assert_eq!(r, vec!["f1", "f2", "f4", "f5", "f10", "f11", "f14", "f15", "f17"]);
}

#[test]
fn select_minimum_length_record() {
    let r = select(&record("x", MIN_FIELDS));
    assert_eq!(r[8], "x17");
}

#[test]
fn project_rows_keeps_count_and_order() {
    let table = vec![record("h", 18), record("a", 18), record("b", 20), record("c", 18)];
    let out = project_rows(&table).unwrap();
    assert_eq!(out.len(), 4);
    assert_eq!(out[0][0], "h1");
    assert_eq!(out[1][0], "a1");
    assert_eq!(out[2][8], "b17");
    assert_eq!(out[3][3], "c5");
    for row in &out {
        assert_eq!(row.len(), OUTPUT_FIELDS);
    }
}

#[test]
fn project_rows_header_only() {
    let out = project_rows(&vec![record("h", 18)]).unwrap();
    assert_eq!(out, vec![select(&record("h", 18))]);
}

#[test]
fn project_rows_empty_table_fails() {
    assert_eq!(project_rows(&vec![]), Err(HandlerError::RowTooShort(0)));
}

#[test]
fn project_rows_short_data_row_fails() {
    let table = vec![record("h", 18), record("a", 18), record("b", 17), record("c", 3)];
    assert_eq!(project_rows(&table), Err(HandlerError::RowTooShort(2)));
}

#[test]
fn project_rows_short_header_fails() {
    let table = vec![record("h", 10), record("a", 18)];
    assert_eq!(project_rows(&table), Err(HandlerError::RowTooShort(0)));
}

#[test]
fn document_with_short_rows_fails() {
    let body = "a,b,c\n1,2,3\n";
    assert_eq!(project_document(body.as_bytes()), Err(HandlerError::RowTooShort(0)));
}

#[test]
fn document_with_one_short_data_row_fails() {
    let body = format!("{}{}", letters_header(), "1,2,3,4,5,6,7,8,9,10,11,12,13,14,15,16,17\n");
    assert!(project_document(body.as_bytes()).is_err());
}

#[test]
fn empty_document_fails() {
    assert_eq!(project_document(b""), Err(HandlerError::RowTooShort(0)));
}

#[test]
fn binary_garbage_fails_at_parse() {
    let body: Vec<u8> = vec![0xff, 0xfe, 0x00, 0x9f, 0x92, 0x96, 0xc3, 0x28, 0x0a, 0x80];
    assert!(matches!(project_document(&body), Err(HandlerError::Parse(_))));
}

#[test]
fn quoted_fields_keep_embedded_delimiters() {
    let body = format!(
        "{}{}",
        letters_header(),
        "0,\"x,y\",2,3,4,\"say \"\"hi\"\"\",6,7,8,9,10,11,12,13,14,15,16,17\n"
    );
    let out = project_document(body.as_bytes()).unwrap();
    assert_eq!(out, "b,c,e,f,k,l,o,p,r\n\"x,y\",2,4,\"say \"\"hi\"\"\",10,11,14,15,17\n");
}

#[test]
fn several_rows_keep_order() {
    let body = format!(
        "{}{}{}",
        letters_header(),
        "z0,z1,z2,z3,z4,z5,z6,z7,z8,z9,z10,z11,z12,z13,z14,z15,z16,z17\n",
        "y0,y1,y2,y3,y4,y5,y6,y7,y8,y9,y10,y11,y12,y13,y14,y15,y16,y17\n"
    );
    let out = project_document(body.as_bytes()).unwrap();
    assert_eq!(
        out,
        "b,c,e,f,k,l,o,p,r\nz1,z2,z4,z5,z10,z11,z14,z15,z17\ny1,y2,y4,y5,y10,y11,y14,y15,y17\n"
    );
}

#[test]
fn server_error_status_fails() {
    let body = format!("{}{}", letters_header(), "1,2,3,4,5,6,7,8,9,10,11,12,13,14,15,16,17,18\n");
    assert_eq!(handle(500, body.as_bytes()).err(), Some(HandlerError::Status(500)));
}

#[test]
fn client_error_status_fails() {
    assert_eq!(handle(404, b"").err(), Some(HandlerError::Status(404)));
}

#[test]
fn status_boundaries() {
    assert_eq!(check_status(199), Err(HandlerError::Status(199)));
    assert_eq!(check_status(200), Ok(()));
    assert_eq!(check_status(302), Ok(()));
    assert_eq!(check_status(399), Ok(()));
    assert_eq!(check_status(400), Err(HandlerError::Status(400)));
}

#[test]
fn handle_success_builds_envelope() {
    let body = format!("{}{}", letters_header(), "1,2,3,4,5,6,7,8,9,10,11,12,13,14,15,16,17,18\n");
    let env = handle(200, body.as_bytes()).unwrap();
    assert_eq!(env.status_code, 200);
    assert!(env.headers.is_empty());
    assert!(!env.is_base64_encoded);
    assert_eq!(env.body, "b,c,e,f,k,l,o,p,r\n2,3,5,6,11,12,15,16,18\n");
}

#[test]
fn handle_with_accepted_status_reports_parse_failure() {
    let body: Vec<u8> = vec![0xff, 0xff, 0xff];
    assert!(matches!(handle(200, &body), Err(HandlerError::Parse(_))));
}

#[test]
fn envelope_wraps_text() {
    let env = envelope(String::from("x,y\n"));
    assert_eq!(env.status_code, 200);
    assert!(env.headers.is_empty());
    assert_eq!(env.body, "x,y\n");
    assert!(!env.is_base64_encoded);
}

#[test]
fn data_row_longer_than_header_fails_at_parse() {
    let body = format!("{}{}", letters_header(), "1,2,3,4,5,6,7,8,9,10,11,12,13,14,15,16,17,18,19\n");
    assert!(matches!(project_document(body.as_bytes()), Err(HandlerError::Parse(_))));
}

#[test]
fn data_row_shorter_than_header_fails_at_parse() {
    let body = format!("{}{}", letters_header(), "1,2,3,4,5,6,7,8,9,10,11,12,13,14,15,16,17\n");
    assert!(matches!(project_document(body.as_bytes()), Err(HandlerError::Parse(_))));
}

#[test]
fn header_only_document_gives_projected_header() {
    assert_eq!(project_document(letters_header().as_bytes()).unwrap(), "b,c,e,f,k,l,o,p,r\n");
}

#[test]
fn same_body_gives_same_response() {
    let body = format!("{}{}", letters_header(), "1,2,3,4,5,6,7,8,9,10,11,12,13,14,15,16,17,18\n");
    let first = handle(200, body.as_bytes()).unwrap();
    let second = handle(200, body.as_bytes()).unwrap();
    assert_eq!(first.body, second.body);
    assert_eq!(first.status_code, second.status_code);
}
