use gsecs_site::bond::{Bond, Timestamp};
use gsecs_site::http::{generic_error_message, get_all, get_bonds, Body, Response};
use gsecs_site::repository::{list_all_bonds, map_row, map_rows, BondRow, RepositoryError};

fn ts(seconds: i64) -> Timestamp {
    Timestamp::new(seconds, 0).unwrap()
}

fn sample_row() -> BondRow {
    BondRow {
        id: Some(1),
        bondCode: Some("GB001".to_string()),
        issueDate: Some(ts(1577836800)),
        isReissue: Some(false),
        repaymentDate: Some(ts(1893456000)),
        auctionHappeningDate: Some(ts(1575158400)),
        auctionSettlementDate: Some(ts(1575504000)),
        pressReleaseWeblink: Some("http://x".to_string()),
    }
}

fn row_with_id(id: i32, code: &str) -> BondRow {
    let mut row = sample_row();
    row.id = Some(id);
    row.bondCode = Some(code.to_string());
    row
}

fn bonds_of(response: &Response) -> &Vec<Bond> {
    match &response.body {
        Body::Bonds(bonds) => bonds,
        other => panic!("expected bonds, got {:?}", other),
    }
}

fn same_bond(a: &Bond, b: &Bond) -> bool {
    a.id == b.id
        && a.bondCode == b.bondCode
        && a.issueDate == b.issueDate
        && a.isReissue == b.isReissue
        && a.repaymentDate == b.repaymentDate
        && a.auctionHappeningDate == b.auctionHappeningDate
        && a.auctionSettlementDate == b.auctionSettlementDate
        && a.pressReleaseWeblink == b.pressReleaseWeblink
}

#[test]
fn listing_returns_the_stored_bond_field_for_field() {
    let response = get_all(Some(vec![sample_row()]));
    assert_eq!(response.status, 200);
    let bonds = bonds_of(&response);
    assert_eq!(bonds.len(), 1);
    let b = &bonds[0];
    assert_eq!(b.id, 1);
    assert_eq!(b.bondCode, "GB001");
    assert_eq!(b.issueDate, Timestamp { seconds: 1577836800, nanos: 0 });
    assert!(!b.isReissue);
    assert_eq!(b.repaymentDate, Timestamp { seconds: 1893456000, nanos: 0 });
    assert_eq!(b.auctionHappeningDate, Timestamp { seconds: 1575158400, nanos: 0 });
    assert_eq!(b.auctionSettlementDate, Timestamp { seconds: 1575504000, nanos: 0 });
    assert_eq!(b.pressReleaseWeblink, "http://x");
}

#[test]
fn listing_an_empty_store_is_an_empty_array() {
    let response = get_all(Some(vec![]));
    assert_eq!(response.status, 200);
    assert!(bonds_of(&response).is_empty());
}

#[test]
fn listing_an_unreachable_store_answers_the_generic_error() {
    let response = get_all(None);
    assert_eq!(response.status, 500);
    assert!(matches!(response.body, Body::GenericError));
    assert_eq!(generic_error_message(), "Something went wrong!");
}

#[test]
fn a_row_that_does_not_map_answers_the_generic_error() {
    let mut row = sample_row();
    row.pressReleaseWeblink = None;
    let response = get_all(Some(vec![sample_row(), row]));
    assert_eq!(response.status, 500);
    assert!(matches!(response.body, Body::GenericError));
}

#[test]
fn repeated_listings_are_identical() {
    let rows = || vec![row_with_id(1, "GB001"), row_with_id(2, "GB002")];
    let first = get_all(Some(rows()));
    let second = get_all(Some(rows()));
    assert_eq!(first.status, second.status);
    let (a, b) = (bonds_of(&first), bonds_of(&second));
    assert_eq!(a.len(), b.len());
    for i in 0..a.len() {
        assert!(same_bond(&a[i], &b[i]));
    }
}

#[test]
fn listings_of_reordered_rows_hold_the_same_bonds() {
    let first = get_all(Some(vec![row_with_id(1, "GB001"), row_with_id(2, "GB002")]));
    let second = get_all(Some(vec![row_with_id(2, "GB002"), row_with_id(1, "GB001")]));
    assert_eq!(first.status, 200);
    assert_eq!(second.status, 200);
    let (a, b) = (bonds_of(&first), bonds_of(&second));
    assert_eq!(a.len(), 2);
    assert!(same_bond(&a[0], &b[1]));
    assert!(same_bond(&a[1], &b[0]));
}

#[test]
fn listing_keeps_the_order_of_the_rows() {
    let bonds = list_all_bonds(Some(vec![row_with_id(3, "C"), row_with_id(1, "A")])).unwrap();
    assert_eq!(bonds[0].id, 3);
    assert_eq!(bonds[0].bondCode, "C");
    assert_eq!(bonds[1].id, 1);
    assert_eq!(bonds[1].bondCode, "A");
}

#[test]
fn a_failed_query_is_query_failed() {
    assert!(matches!(list_all_bonds(None), Err(RepositoryError::QueryFailed)));
}

#[test]
fn a_null_column_is_mapping_failed() {
    let mut row = sample_row();
    row.id = None;
    assert!(matches!(map_row(&row), Err(RepositoryError::MappingFailed)));
    let mut row = sample_row();
    row.isReissue = None;
    assert!(matches!(map_row(&row), Err(RepositoryError::MappingFailed)));
    let mut row = sample_row();
    row.auctionSettlementDate = None;
    assert!(matches!(
        list_all_bonds(Some(vec![row])),
        Err(RepositoryError::MappingFailed)
    ));
}

#[test]
fn repayment_before_issue_is_mapping_failed() {
    let mut row = sample_row();
    row.repaymentDate = Some(ts(1577836799));
    assert!(matches!(map_row(&row), Err(RepositoryError::MappingFailed)));
}

#[test]
fn settlement_before_auction_is_mapping_failed() {
    let mut row = sample_row();
    row.auctionSettlementDate = Some(Timestamp { seconds: 1575158399, nanos: 999_999_999 });
    assert!(matches!(map_row(&row), Err(RepositoryError::MappingFailed)));
}

#[test]
fn equal_dates_are_accepted() {
    let mut row = sample_row();
    row.repaymentDate = row.issueDate;
    row.auctionSettlementDate = row.auctionHappeningDate;
    let bond = map_row(&row).unwrap();
    assert_eq!(bond.repaymentDate, bond.issueDate);
    assert!(bond.is_well_formed());
}

#[test]
fn a_malformed_timestamp_is_mapping_failed() {
    let mut row = sample_row();
    row.issueDate = Some(Timestamp { seconds: 1577836800, nanos: 1_000_000_000 });
    assert!(matches!(map_rows(&vec![row]), Err(RepositoryError::MappingFailed)));
}

#[test]
fn get_bonds_passes_the_bonds_through() {
    let bonds = map_rows(&vec![sample_row()]).unwrap();
    let response = get_bonds(Ok(bonds));
    assert_eq!(response.status, 200);
    assert_eq!(bonds_of(&response)[0].bondCode, "GB001");
    let response = get_bonds(Err(RepositoryError::MappingFailed));
    assert_eq!(response.status, 500);
    assert!(matches!(response.body, Body::GenericError));
}

#[test]
fn timestamps_refuse_a_full_second_of_nanos() {
    assert_eq!(Timestamp::new(5, 999_999_999), Some(Timestamp { seconds: 5, nanos: 999_999_999 }));
    assert_eq!(Timestamp::new(5, 1_000_000_000), None);
    assert!(ts(1).is_not_after(&ts(1)));
    assert!(Timestamp { seconds: 1, nanos: 2 }.is_not_after(&Timestamp { seconds: 2, nanos: 0 }));
    assert!(!Timestamp { seconds: 1, nanos: 3 }.is_not_after(&Timestamp { seconds: 1, nanos: 2 }));
}
