//! Turning the rows of the bonds table into bond records.
#![allow(non_snake_case)]

use vstd::prelude::*;
use crate::bond::{Bond, BondView, Timestamp};

verus! {

/// One row of the bonds table as the store handed it over: a column is `None`
/// when it was null, absent, or of a type that does not fit.
#[derive(Debug)]
pub struct BondRow {
    pub id: Option<i32>,
    pub bondCode: Option<String>,
    pub issueDate: Option<Timestamp>,
    pub isReissue: Option<bool>,
    pub repaymentDate: Option<Timestamp>,
    pub auctionHappeningDate: Option<Timestamp>,
    pub auctionSettlementDate: Option<Timestamp>,
    pub pressReleaseWeblink: Option<String>,
}

/// Why listing the bonds failed.
#[derive(Clone, Copy, Debug, PartialEq, Eq, Structural)]
pub enum RepositoryError {
    /// The connection or the query itself failed.
    QueryFailed,
    /// A row was read but cannot be made into a bond.
    MappingFailed,
}

/// Every column of the row is present.
pub open spec fn row_complete(row: BondRow) -> bool {
    &&& row.id is Some
    &&& row.bondCode is Some
    &&& row.issueDate is Some
    &&& row.isReissue is Some
    &&& row.repaymentDate is Some
    &&& row.auctionHappeningDate is Some
    &&& row.auctionSettlementDate is Some
    &&& row.pressReleaseWeblink is Some
}

/// The bond that a row describes, read field by field.
pub open spec fn bond_of_row(row: BondRow) -> BondView {
    BondView {
        id: row.id.unwrap(),
        bondCode: row.bondCode.unwrap()@,
        issueDate: row.issueDate.unwrap(),
        isReissue: row.isReissue.unwrap(),
        repaymentDate: row.repaymentDate.unwrap(),
        auctionHappeningDate: row.auctionHappeningDate.unwrap(),
        auctionSettlementDate: row.auctionSettlementDate.unwrap(),
        pressReleaseWeblink: row.pressReleaseWeblink.unwrap()@,
    }
}

/// A row maps to a bond when every column is present and the record it
/// gives is well formed.
pub open spec fn row_maps(row: BondRow) -> bool {
    row_complete(row) && bond_of_row(row).wf()
}

/// Every row of `rows` maps to a bond.
pub open spec fn all_rows_map(rows: Seq<BondRow>) -> bool {
    forall|i: int| 0 <= i < rows.len() ==> #[trigger] row_maps(rows[i])
}

/// The bonds that `rows` describe, in the same order.
pub open spec fn bonds_of_rows(rows: Seq<BondRow>) -> Seq<BondView> {
    rows.map_values(|row: BondRow| bond_of_row(row))
}

/// The views of a sequence of bonds.
pub open spec fn views_of(bonds: Seq<Bond>) -> Seq<BondView> {
    bonds.map_values(|b: Bond| b@)
}

/// Makes a bond out of one row, or fails when a column is missing or the
/// record breaks the data model's rules.
pub fn map_row(row: &BondRow) -> (r: Result<Bond, RepositoryError>)
    ensures
        r is Ok <==> row_maps(*row),
        r matches Ok(b) ==> b@ == bond_of_row(*row) && b.wf(),
        r matches Err(e) ==> e == RepositoryError::MappingFailed,
{
    match row {
        BondRow {
            id: Some(id),
            bondCode: Some(bondCode),
            issueDate: Some(issueDate),
            isReissue: Some(isReissue),
            repaymentDate: Some(repaymentDate),
            auctionHappeningDate: Some(auctionHappeningDate),
            auctionSettlementDate: Some(auctionSettlementDate),
            pressReleaseWeblink: Some(pressReleaseWeblink),
        } => {
            let bond = Bond {
                id: *id,
                bondCode: bondCode.clone(),
                issueDate: *issueDate,
                isReissue: *isReissue,
                repaymentDate: *repaymentDate,
                auctionHappeningDate: *auctionHappeningDate,
                auctionSettlementDate: *auctionSettlementDate,
                pressReleaseWeblink: pressReleaseWeblink.clone(),
            };
            if bond.is_well_formed() {
                Ok(bond)
            } else {
                Err(RepositoryError::MappingFailed)
            }
        },
        _ => Err(RepositoryError::MappingFailed),
    }
}

/// Maps every row, all or nothing: one row that does not map fails the whole
/// listing.
pub fn map_rows(rows: &Vec<BondRow>) -> (r: Result<Vec<Bond>, RepositoryError>)
    ensures
        r is Ok <==> all_rows_map(rows@),
        r matches Ok(bonds) ==> views_of(bonds@) == bonds_of_rows(rows@),
        r matches Err(e) ==> e == RepositoryError::MappingFailed,
{
    let mut bonds: Vec<Bond> = Vec::new();
    let n: usize = rows.len();
    let mut i: usize = 0;
    while i < n
        invariant
            n == rows@.len(),
            i <= n,
            forall|j: int| 0 <= j < i ==> #[trigger] row_maps(rows@[j]),
            views_of(bonds@) =~= bonds_of_rows(rows@.subrange(0, i as int)),
        decreases n - i,
    {
        match map_row(&rows[i]) {
            Ok(bond) => {
                let ghost before = bonds@;
                bonds.push(bond);
                proof {
                    assert(bonds@ == before.push(bond));
                    assert(views_of(bonds@) =~= views_of(before).push(bond@));
                    assert(rows@.subrange(0, i as int + 1) =~= rows@.subrange(0, i as int).push(
                        rows@[i as int],
                    ));
                    assert(bonds_of_rows(rows@.subrange(0, i as int + 1)) =~= bonds_of_rows(
                        rows@.subrange(0, i as int),
                    ).push(bond_of_row(rows@[i as int])));
                }
            },
            Err(e) => {
                return Err(e);
            },
        }
        i = i + 1;
    }
    assert(rows@.subrange(0, n as int) =~= rows@);
    Ok(bonds)
}

/// Mapping keeps a reordering a reordering: two sequences that hold the same
/// elements are mapped to two that hold the same images.
proof fn lemma_map_permuted<A, B>(s1: Seq<A>, s2: Seq<A>, f: spec_fn(A) -> B)
    requires
        s1.to_multiset() == s2.to_multiset(),
    ensures
        s1.map_values(f).to_multiset() == s2.map_values(f).to_multiset(),
    decreases s1.len(),
{
    broadcast use vstd::seq_lib::group_to_multiset_ensures;

    if s1.len() == 0 {
        assert(s2.to_multiset().len() == 0);
        assert(s2.len() == 0);
        assert(s1.map_values(f) =~= Seq::<B>::empty());
        assert(s2.map_values(f) =~= Seq::<B>::empty());
    } else {
        let x = s1.last();
        let t1 = s1.drop_last();
        assert(s1 =~= t1.push(x));
        assert(s1.to_multiset().count(x) > 0);
        assert(s2.contains(x));
        let j = choose|j: int| 0 <= j < s2.len() && s2[j] == x;
        let t2 = s2.remove(j);
        assert(t2.to_multiset() == s2.to_multiset().remove(x));
        assert(t1.to_multiset() == s1.to_multiset().remove(x));
        lemma_map_permuted(t1, t2, f);
        assert(s1.map_values(f) =~= t1.map_values(f).push(f(x)));
        assert(s2 =~= t2.insert(j, x));
        assert(s2.map_values(f) =~= t2.map_values(f).insert(j, f(x)));
        assert(s2.map_values(f).to_multiset() == t2.map_values(f).to_multiset().insert(f(x)));
        assert(s1.map_values(f).to_multiset() == t1.map_values(f).to_multiset().insert(f(x)));
    }
}

/// Two fetches that return the same rows in any order either both map or both
/// fail, and when they map they give the same bonds.
pub proof fn lemma_rows_permuted(first: Seq<BondRow>, second: Seq<BondRow>)
    requires
        first.to_multiset() == second.to_multiset(),
    ensures
        all_rows_map(first) <==> all_rows_map(second),
        bonds_of_rows(first).to_multiset() == bonds_of_rows(second).to_multiset(),
{
    broadcast use vstd::seq_lib::group_to_multiset_ensures;

    lemma_map_permuted(first, second, |row: BondRow| bond_of_row(row));
    if all_rows_map(first) {
        assert forall|i: int| 0 <= i < second.len() implies #[trigger] row_maps(second[i]) by {
            vstd::seq_lib::to_multiset_contains(second, second[i]);
            vstd::seq_lib::to_multiset_contains(first, second[i]);
            assert(second.contains(second[i]));
            let k = choose|k: int| 0 <= k < first.len() && first[k] == second[i];
            assert(row_maps(first[k]));
        }
    }
    if all_rows_map(second) {
        assert forall|i: int| 0 <= i < first.len() implies #[trigger] row_maps(first[i]) by {
            vstd::seq_lib::to_multiset_contains(first, first[i]);
            vstd::seq_lib::to_multiset_contains(second, first[i]);
            assert(first.contains(first[i]));
            let k = choose|k: int| 0 <= k < second.len() && second[k] == first[i];
            assert(row_maps(second[k]));
        }
    }
}

/// What the query returned, as a sequence of rows; `None` when the
/// connection or the query failed.
pub open spec fn fetched_rows(fetched: Option<Vec<BondRow>>) -> Option<Seq<BondRow>> {
    match fetched {
        Some(rows) => Some(rows@),
        None => None,
    }
}

/// A listing's outcome with the bonds as views.
pub open spec fn listing_view(r: Result<Vec<Bond>, RepositoryError>) -> Result<
    Seq<BondView>,
    RepositoryError,
> {
    match r {
        Ok(bonds) => Ok(views_of(bonds@)),
        Err(e) => Err(e),
    }
}

/// The listing that the fetched rows give: a failed query is `QueryFailed`,
/// a row that does not map is `MappingFailed`, and otherwise every row
/// becomes a bond, in order.
pub open spec fn listing(fetched: Option<Seq<BondRow>>) -> Result<Seq<BondView>, RepositoryError> {
    match fetched {
        None => Err(RepositoryError::QueryFailed),
        Some(rows) => if all_rows_map(rows) {
            Ok(bonds_of_rows(rows))
        } else {
            Err(RepositoryError::MappingFailed)
        },
    }
}

/// The repository's listing: `fetched` is what the query over the bonds table
/// returned, `None` when the connection or the query failed.
pub fn list_all_bonds(fetched: Option<Vec<BondRow>>) -> (r: Result<Vec<Bond>, RepositoryError>)
    ensures
        listing_view(r) == listing(fetched_rows(fetched)),
{
    match fetched {
        Some(rows) => map_rows(&rows),
        None => Err(RepositoryError::QueryFailed),
    }
}

} // verus!
