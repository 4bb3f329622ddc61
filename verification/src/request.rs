//! The requests of the catalogue, each with the payload its kind carries,
//! and the commands by which a state machine asks for one to be sent.

use vstd::prelude::*;
use crate::dbt::{Offer, OfferModel, Order, OrderModel, VirtualTable, VirtualTableID, VirtualTableModel};
use crate::kind::RequestKind;

verus! {

/// A request to the remote authority. The variant fixes the kind, so a
/// payload of the wrong shape for its kind cannot be written down.
#[derive(Clone, Debug, PartialEq, Eq)]
#[allow(inconsistent_fields)]
pub enum Request {
    /// List all tables.
    Tables,
    /// Create a table.
    TablesInsert { table: VirtualTable },
    /// Delete a table, and with it its orders.
    TablesDelete { table: VirtualTableID },
    /// List all offers.
    Offers,
    /// Create or replace an offer.
    OffersInsert { offer: Offer },
    /// List all tables and all offers in one exchange.
    OffersTables,
    /// List orders: only the unfinished ones if `new`, of one table or,
    /// with `table` absent, across all tables.
    Orders { new: bool, table: Option<VirtualTableID> },
    /// Mark one order finished. Of `order` only the `id` is meaningful.
    OrdersFinish { order: Order },
}

/// The model of a [`Request`].
#[allow(inconsistent_fields)]
pub enum RequestModel {
    Tables,
    TablesInsert { table: VirtualTableModel },
    TablesDelete { table: Seq<char> },
    Offers,
    OffersInsert { offer: OfferModel },
    OffersTables,
    Orders { new: bool, table: Option<Seq<char>> },
    OrdersFinish { order: OrderModel },
}

impl RequestModel {
    /// The kind under which the request travels.
    pub open spec fn kind(self) -> RequestKind {
        match self {
            RequestModel::Tables => RequestKind::Tables,
            RequestModel::TablesInsert { .. } => RequestKind::TablesInsert,
            RequestModel::TablesDelete { .. } => RequestKind::TablesDelete,
            RequestModel::Offers => RequestKind::Offers,
            RequestModel::OffersInsert { .. } => RequestKind::OffersInsert,
            RequestModel::OffersTables => RequestKind::OffersTables,
            RequestModel::Orders { .. } => RequestKind::Orders,
            RequestModel::OrdersFinish { .. } => RequestKind::OrdersFinish,
        }
    }

    /// Whether the request only reads: sending it twice asks the same
    /// question twice and changes nothing at the authority.
    pub open spec fn is_query(self) -> bool {
        match self {
            RequestModel::Tables | RequestModel::Offers | RequestModel::OffersTables
            | RequestModel::Orders { .. } => true,
            _ => false,
        }
    }
}

impl DeepView for Request {
    type V = RequestModel;

    open spec fn deep_view(&self) -> RequestModel {
        match self {
            Request::Tables => RequestModel::Tables,
            Request::TablesInsert { table } => RequestModel::TablesInsert { table: table.deep_view() },
            Request::TablesDelete { table } => RequestModel::TablesDelete { table: table@ },
            Request::Offers => RequestModel::Offers,
            Request::OffersInsert { offer } => RequestModel::OffersInsert { offer: offer.deep_view() },
            Request::OffersTables => RequestModel::OffersTables,
            Request::Orders { new, table } => RequestModel::Orders {
                new: *new,
                table: table.deep_view(),
            },
            Request::OrdersFinish { order } => RequestModel::OrdersFinish { order: order.deep_view() },
        }
    }
}

impl Request {
    /// The kind under which the request travels.
    pub fn kind(&self) -> (kind: RequestKind)
        ensures
            kind == self.deep_view().kind(),
    {
        match self {
            Request::Tables => RequestKind::Tables,
            Request::TablesInsert { .. } => RequestKind::TablesInsert,
            Request::TablesDelete { .. } => RequestKind::TablesDelete,
            Request::Offers => RequestKind::Offers,
            Request::OffersInsert { .. } => RequestKind::OffersInsert,
            Request::OffersTables => RequestKind::OffersTables,
            Request::Orders { .. } => RequestKind::Orders,
            Request::OrdersFinish { .. } => RequestKind::OrdersFinish,
        }
    }
}

/// What a state machine asks of its runtime after a transition: nothing, or
/// to send one request and hand the outcome back as the message that
/// `reply` names.
#[derive(Clone, Debug, PartialEq, Eq)]
pub enum Command<R> {
    Nothing,
    Send { request: Request, reply: R },
}

/// The model of a [`Command`].
pub enum CommandModel<R> {
    Nothing,
    Send { request: RequestModel, reply: R },
}

impl<R> DeepView for Command<R> {
    type V = CommandModel<R>;

    open spec fn deep_view(&self) -> CommandModel<R> {
        match self {
            Command::Nothing => CommandModel::Nothing,
            Command::Send { request, reply } => CommandModel::Send {
                request: request.deep_view(),
                reply: *reply,
            },
        }
    }
}

} // verus!
