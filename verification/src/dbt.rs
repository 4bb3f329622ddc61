//! The records shared with the remote authority: tables, offers and orders.
//!
//! Every record has a mathematical model, reached with `deep_view()`, in
//! which text is a sequence of characters and a list is a sequence. The
//! contracts of the library are stated over these models.

use vstd::prelude::*;

verus! {

/// Names a table. No two tables share a name.
pub type VirtualTableID = String;

/// Names an offer. No two offers share a name.
pub type OfferID = String;

/// A seating unit. `order_count` is informational and set by the authority.
#[derive(Clone, Debug, PartialEq, Eq)]
pub struct VirtualTable {
    pub name: VirtualTableID,
    pub order_count: u32,
}

/// The model of a [`VirtualTable`].
pub struct VirtualTableModel {
    pub name: Seq<char>,
    pub order_count: nat,
}

impl DeepView for VirtualTable {
    type V = VirtualTableModel;

    open spec fn deep_view(&self) -> VirtualTableModel {
        VirtualTableModel { name: self.name@, order_count: self.order_count as nat }
    }
}

/// A menu entry with a fixed-point price: `price_integer` major units and
/// `price_fraction` hundredths.
#[derive(Clone, Debug, PartialEq, Eq)]
pub struct Offer {
    pub name: OfferID,
    pub description: String,
    pub price_integer: u32,
    pub price_fraction: u32,
}

/// The model of an [`Offer`].
pub struct OfferModel {
    pub name: Seq<char>,
    pub description: Seq<char>,
    pub price_integer: nat,
    pub price_fraction: nat,
}

impl OfferModel {
    /// The hundredths never reach a whole unit.
    pub open spec fn well_formed(self) -> bool {
        self.price_fraction < 100
    }

    /// The price in hundredths.
    pub open spec fn price_in_hundredths(self) -> nat {
        self.price_integer * 100 + self.price_fraction
    }
}

impl DeepView for Offer {
    type V = OfferModel;

    open spec fn deep_view(&self) -> OfferModel {
        OfferModel {
            name: self.name@,
            description: self.description@,
            price_integer: self.price_integer as nat,
            price_fraction: self.price_fraction as nat,
        }
    }
}

/// Identifies an order: the table it belongs to and its sequence number in
/// that table's history.
#[derive(Clone, Debug, PartialEq, Eq)]
pub struct OrderID {
    pub table: VirtualTableID,
    pub count: u32,
}

/// The model of an [`OrderID`].
pub struct OrderIDModel {
    pub table: Seq<char>,
    pub count: nat,
}

impl DeepView for OrderID {
    type V = OrderIDModel;

    open spec fn deep_view(&self) -> OrderIDModel {
        OrderIDModel { table: self.table@, count: self.count as nat }
    }
}

/// One line of an order: an offer, by name, and how many of it.
#[derive(Clone, Debug, PartialEq, Eq)]
pub struct OrderedItem {
    pub id: OfferID,
    pub count: u32,
}

/// The model of an [`OrderedItem`].
pub struct OrderedItemModel {
    pub id: Seq<char>,
    pub count: nat,
}

impl DeepView for OrderedItem {
    type V = OrderedItemModel;

    open spec fn deep_view(&self) -> OrderedItemModel {
        OrderedItemModel { id: self.id@, count: self.count as nat }
    }
}

/// An order: its identity and its lines, in the order they were placed.
#[derive(Clone, Debug, PartialEq, Eq)]
pub struct Order {
    pub id: OrderID,
    pub items: Vec<OrderedItem>,
}

/// The model of an [`Order`].
pub struct OrderModel {
    pub id: OrderIDModel,
    pub items: Seq<OrderedItemModel>,
}

impl DeepView for Order {
    type V = OrderModel;

    open spec fn deep_view(&self) -> OrderModel {
        OrderModel { id: self.id.deep_view(), items: self.items.deep_view() }
    }
}

/// `Result::clone` of the standard library, which copies whichever side the
/// value holds. Nothing is claimed of the copy: the library's contracts are
/// never proved through it.
pub assume_specification<T, E>[ <Result<T, E> as Clone>::clone ](value: &Result<T, E>) -> Result<T, E>
    where E: Clone, T: Clone
;

/// The model of a snapshot: the last good value, or the message shown in
/// its place while it is loading or after a fetch failed.
pub open spec fn snapshot_view<T: DeepView>(snapshot: Result<T, String>) -> Result<T::V, Seq<char>> {
    match snapshot {
        Ok(value) => Ok(value.deep_view()),
        Err(message) => Err(message@),
    }
}

} // verus!
