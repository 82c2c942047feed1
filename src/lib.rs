//! A player's collection of gear-set items: the catalog of classes, sets and
//! slots, the option flags of each item, the market search built from them,
//! and the application state that ties these together.

pub mod app;
pub mod gql;
pub mod items;
