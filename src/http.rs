//! The responses of the two routes: the liveness probe and the bond listing.

use vstd::prelude::*;
use crate::bond::{Bond, BondView};
use crate::repository::{
    bonds_of_rows, fetched_rows, lemma_rows_permuted, list_all_bonds, listing, listing_view,
    views_of, BondRow, RepositoryError,
};

verus! {

/// What a response carries.
#[derive(Debug)]
pub enum Body {
    /// Nothing: a zero-length body.
    Empty,
    /// The bonds, sent as a JSON array of bond objects.
    Bonds(Vec<Bond>),
    /// The fixed message of a failed request, the same whatever went wrong.
    GenericError,
}

/// A response: its status code and its body.
#[derive(Debug)]
pub struct Response {
    pub status: u16,
    pub body: Body,
}

/// What a body carries, with the bonds as views.
pub enum BodyView {
    Empty,
    Bonds(Seq<BondView>),
    GenericError,
}

/// A response with its body as a view.
pub struct ResponseView {
    pub status: u16,
    pub body: BodyView,
}

impl View for Response {
    type V = ResponseView;

    open spec fn view(&self) -> ResponseView {
        ResponseView {
            status: self.status,
            body: match self.body {
                Body::Empty => BodyView::Empty,
                Body::Bonds(bonds) => BodyView::Bonds(views_of(bonds@)),
                Body::GenericError => BodyView::GenericError,
            },
        }
    }
}

/// The response to a bond listing: 200 with the bonds, or 500 with the
/// generic message whatever the failure was.
pub open spec fn bonds_response(listing: Result<Seq<BondView>, RepositoryError>) -> ResponseView {
    match listing {
        Ok(bonds) => ResponseView { status: 200, body: BodyView::Bonds(bonds) },
        Err(_) => ResponseView { status: 500, body: BodyView::GenericError },
    }
}

/// The text sent for `Body::GenericError`.
pub open spec fn generic_error_text() -> Seq<char> {
    "Something went wrong!"@
}

/// The text of the body that a failed request carries.
pub fn generic_error_message() -> (r: &'static str)
    ensures
        r@ == generic_error_text(),
{
    let r = "Something went wrong!";
    proof {
        reveal_strlit("Something went wrong!");
    }
    r
}

/// `GET /health_check`: success with an empty body, whatever the state of the
/// store.
pub fn health_check() -> (r: Response)
    ensures
        r.status == 200,
        r.body is Empty,
{
    Response { status: 200, body: Body::Empty }
}

/// `GET /bonds`: the bonds that the repository listed with status 200, or
/// status 500 with the fixed message when the listing failed. No detail of
/// the failure reaches the body.
pub fn get_bonds(listing: Result<Vec<Bond>, RepositoryError>) -> (r: Response)
    ensures
        r@ == bonds_response(listing_view(listing)),
        listing is Ok ==> r.body == Body::Bonds(listing.unwrap()),
{
    match listing {
        Ok(bonds) => Response { status: 200, body: Body::Bonds(bonds) },
        Err(_) => Response { status: 500, body: Body::GenericError },
    }
}

/// The bond listing route from what the query returned to the response:
/// `fetched` is `None` when the connection or the query failed.
pub fn get_all(fetched: Option<Vec<BondRow>>) -> (r: Response)
    ensures
        r@ == bonds_response(listing(fetched_rows(fetched))),
{
    get_bonds(list_all_bonds(fetched))
}

/// When the store cannot be reached the listing answers 500 with the generic
/// message, which holds nothing of the failure.
pub proof fn lemma_unreachable_store_answers_generic_error()
    ensures
        bonds_response(listing(None)) == (ResponseView { status: 500, body: BodyView::GenericError }),
        generic_error_text() == "Something went wrong!"@,
{
}

/// Listing twice over the same stored rows gives the same response, order
/// aside: when the two fetches return the same rows in any order, the status
/// is the same and a successful body holds the same bonds.
pub proof fn lemma_listing_repeatable(first: Seq<BondRow>, second: Seq<BondRow>)
    requires
        first.to_multiset() == second.to_multiset(),
    ensures
        bonds_response(listing(Some(first))).status == bonds_response(listing(Some(second))).status,
        bonds_response(listing(Some(first))).status == 200 ==> bonds_of_rows(first).to_multiset()
            == bonds_of_rows(second).to_multiset(),
        first == second ==> bonds_response(listing(Some(first))) == bonds_response(
            listing(Some(second)),
        ),
{
    lemma_rows_permuted(first, second);
}

} // verus!
