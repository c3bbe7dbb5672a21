//! Ordering and paging options of direct-child listings.

use vstd::prelude::*;

verus! {

/// Order of a listing by kind and then name.
#[derive(Clone, Copy, Debug, PartialEq, Eq, Structural)]
pub enum Order {
    Asc,
    Desc,
}

/// How to order and cut a listing of direct children.
#[derive(Clone, Copy, Debug, PartialEq, Eq)]
pub struct ListOptions<'a> {
    /// Listing order.
    pub order: Order,
    /// Keep only names before this one (exclusive).
    pub before_name: Option<&'a str>,
    /// Keep only names after this one (exclusive).
    pub after_name: Option<&'a str>,
    /// Keep at most this many entries.
    pub limit: Option<usize>,
}

impl<'a> ListOptions<'a> {
    /// Ascending, uncut.
    pub fn asc() -> (o: Self)
        ensures
            o.order == Order::Asc && o.before_name is None && o.after_name is None && o.limit is None,
    {
        ListOptions { order: Order::Asc, before_name: None, after_name: None, limit: None }
    }

    /// Descending, uncut.
    pub fn desc() -> (o: Self)
        ensures
            o.order == Order::Desc && o.before_name is None && o.after_name is None && o.limit is None,
    {
        ListOptions { order: Order::Desc, before_name: None, after_name: None, limit: None }
    }

    /// The same options with the exclusive upper cursor `before_name`.
    pub fn before_name(self, before_name: Option<&'a str>) -> (o: Self)
        ensures
            o == (ListOptions { before_name, ..self }),
    {
        ListOptions { before_name, ..self }
    }

    /// The same options with the exclusive lower cursor `after_name`.
    pub fn after_name(self, after_name: Option<&'a str>) -> (o: Self)
        ensures
            o == (ListOptions { after_name, ..self }),
    {
        ListOptions { after_name, ..self }
    }

    /// The same options keeping at most `limit` entries.
    pub fn limit(self, limit: usize) -> (o: Self)
        ensures
            o == (ListOptions { limit: Some(limit), ..self }),
    {
        ListOptions { limit: Some(limit), ..self }
    }
}

impl<'a> From<Order> for ListOptions<'a> {
    fn from(order: Order) -> (o: Self) {
        ListOptions { order, before_name: None, after_name: None, limit: None }
    }
}

impl<'a> vstd::std_specs::convert::FromSpecImpl<Order> for ListOptions<'a> {
    open spec fn obeys_from_spec() -> bool {
        true
    }

    open spec fn from_spec(order: Order) -> Self {
        ListOptions { order, before_name: None, after_name: None, limit: None }
    }
}

} // verus!
