use vstd::prelude::*;

verus! {

/// The request document sent to the market for a lot search.
pub const MARKET_QUERY: &'static str = r#"
            query GET_ALL_LOTS($offset: NonNegativeInt, $limit: NonNegativeInt, $sort: LotsSortInput, $filter: LotsFilterInput) {
              lots(limit: $limit, offset: $offset, sort: $sort, filter: $filter) {
                Lots {
                  id
                  source
                  isMine
                  type
                  gearScore
                  hasPendingCounterOffer
                  Prices {
                    value
                    Currency {
                      id
                      code
                      type
                      title
                      __typename
                    }
                    __typename
                  }
                  Currencies {
                    id
                    code
                    type
                    title
                    isAvailableForLots
                    __typename
                  }
                  __typename
                }
                Pagination {
                  total
                  currentPage
                  nextPageExists
                  __typename
                }
                __typename
              }
            }
        "#;

/// The variables of a market search: what to match, how many, from where, in
/// which order.
#[derive(Clone, Debug, PartialEq, Eq)]
pub struct Vars {
    pub filter: Filter,
    pub limit: u32,
    pub offset: u32,
    pub sort: Sort,
}

/// What a listed lot must match. An option filter that is `None` is left out
/// of the request altogether.
#[derive(Clone, Debug, PartialEq, Eq)]
pub struct Filter {
    pub dd: Option<Vec<u8>>,
    pub dsr: Option<Vec<u8>>,
    pub iml: Option<Vec<u8>>,
    pub imsd: Option<Vec<u8>>,
    pub izdr: Option<Vec<u8>>,
    pub rd: Option<Vec<u8>>,
    pub item_type: Option<Vec<String>>,
    pub name: Option<String>,
}

/// The order of the results.
#[derive(Clone, Debug, PartialEq, Eq)]
pub struct Sort {
    pub field: String,
    pub sort_type: String,
}

/// A currency a price is given in.
#[derive(Clone, Debug, PartialEq, Eq)]
pub struct Currency {
    pub id: Option<u8>,
    pub code: Option<String>,
    pub currency_type: Option<String>,
    pub title: Option<String>,
}

/// A currency the seller accepts.
#[derive(Clone, Debug, PartialEq, Eq)]
pub struct Currencies {
    pub id: Option<u8>,
    pub code: Option<String>,
    pub currencies_type: Option<String>,
    pub title: Option<String>,
    pub is_available_for_lots: Option<bool>,
}

/// Where a page of results stands among all results.
#[derive(Clone, Copy, Debug, PartialEq, Eq, Structural)]
pub struct Pagination {
    pub total: u32,
    pub current_page: u32,
    pub next_page_exists: bool,
}

} // verus!
