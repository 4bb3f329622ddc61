//! The order list: which tables have unfinished orders, what the selected
//! table holds, and the transitions that keep both in step with the remote
//! authority.
//!
//! The machine never performs a request itself. A transition returns a
//! [`Command`]; the runtime sends the request and hands the outcome back as
//! the message that the command names.

use vstd::prelude::*;
use vstd::string::*;
use crate::dbt::{
    snapshot_view, Offer, OfferModel, Order, OrderID, OrderIDModel, OrderModel, OrderedItem,
    OrderedItemModel, VirtualTable, VirtualTableID, VirtualTableModel,
};
use crate::request::{Command, CommandModel, Request, RequestModel};

verus! {

/// The seconds between two ticks of the polling timer.
pub const POLL_SECONDS: u64 = 3;

/// The answer to the combined fetch of tables and offers.
#[derive(Clone, Debug, PartialEq, Eq)]
pub struct TablesAndOffers {
    pub tables: Vec<VirtualTable>,
    pub offers: Vec<Offer>,
}

/// The model of [`TablesAndOffers`].
pub struct TablesAndOffersModel {
    pub tables: Seq<VirtualTableModel>,
    pub offers: Seq<OfferModel>,
}

impl DeepView for TablesAndOffers {
    type V = TablesAndOffersModel;

    open spec fn deep_view(&self) -> TablesAndOffersModel {
        TablesAndOffersModel { tables: self.tables.deep_view(), offers: self.offers.deep_view() }
    }
}

/// The events of the order list. Those that carry a `Result` report how a
/// request ended: its data, or the text of the failure.
#[derive(Clone, Debug, PartialEq, Eq)]
pub enum OrderListMessage {
    /// The combined fetch of tables and offers ended.
    FetchedVirtualTablesAndItems(Result<TablesAndOffers, String>),
    /// Finishing an order ended; on success with the table that owned it.
    UpdateOrders(Result<VirtualTableID, String>),
    /// The user selected a table.
    TablePressed(VirtualTableID),
    /// A fetch of the selected table's orders ended; no refresh follows.
    FetchedOrders(Result<Vec<Order>, String>),
    /// The user finished an order.
    FinishOrder(OrderID),
    /// The polling timer ticked.
    PollOrders,
    /// A fetch of the selected table's orders ended; on success the
    /// unfinished tables are refreshed next.
    FetchedOrderAndUnfinished(Result<Vec<Order>, String>),
    /// The unfinished tables are to be refreshed.
    PollFetchedTablesWithUnfinishedOrders,
    /// The fetch of all unfinished orders ended.
    PollFetchedTablesWithUnfinishedOrdersPost(Result<Vec<Order>, String>),
}

/// The model of an [`OrderListMessage`].
pub enum OrderListMessageModel {
    FetchedVirtualTablesAndItems(Result<TablesAndOffersModel, Seq<char>>),
    UpdateOrders(Result<Seq<char>, Seq<char>>),
    TablePressed(Seq<char>),
    FetchedOrders(Result<Seq<OrderModel>, Seq<char>>),
    FinishOrder(OrderIDModel),
    PollOrders,
    FetchedOrderAndUnfinished(Result<Seq<OrderModel>, Seq<char>>),
    PollFetchedTablesWithUnfinishedOrders,
    PollFetchedTablesWithUnfinishedOrdersPost(Result<Seq<OrderModel>, Seq<char>>),
}

impl DeepView for OrderListMessage {
    type V = OrderListMessageModel;

    open spec fn deep_view(&self) -> OrderListMessageModel {
        match self {
            OrderListMessage::FetchedVirtualTablesAndItems(r) =>
                OrderListMessageModel::FetchedVirtualTablesAndItems(snapshot_view(*r)),
            OrderListMessage::UpdateOrders(r) => OrderListMessageModel::UpdateOrders(
                snapshot_view(*r),
            ),
            OrderListMessage::TablePressed(t) => OrderListMessageModel::TablePressed(t@),
            OrderListMessage::FetchedOrders(r) => OrderListMessageModel::FetchedOrders(
                snapshot_view(*r),
            ),
            OrderListMessage::FinishOrder(id) => OrderListMessageModel::FinishOrder(
                id.deep_view(),
            ),
            OrderListMessage::PollOrders => OrderListMessageModel::PollOrders,
            OrderListMessage::FetchedOrderAndUnfinished(r) =>
                OrderListMessageModel::FetchedOrderAndUnfinished(snapshot_view(*r)),
            OrderListMessage::PollFetchedTablesWithUnfinishedOrders =>
                OrderListMessageModel::PollFetchedTablesWithUnfinishedOrders,
            OrderListMessage::PollFetchedTablesWithUnfinishedOrdersPost(r) =>
                OrderListMessageModel::PollFetchedTablesWithUnfinishedOrdersPost(
                    snapshot_view(*r),
                ),
        }
    }
}

/// Names the message by which the outcome of a request comes back.
#[derive(Clone, Copy, Debug, PartialEq, Eq, Structural)]
pub enum OrderListReply {
    /// Comes back as [`OrderListMessage::FetchedVirtualTablesAndItems`].
    VirtualTablesAndItems,
    /// Comes back as [`OrderListMessage::UpdateOrders`].
    UpdateOrders,
    /// Comes back as [`OrderListMessage::FetchedOrderAndUnfinished`].
    OrderAndUnfinished,
    /// Comes back as [`OrderListMessage::PollFetchedTablesWithUnfinishedOrdersPost`].
    TablesWithUnfinishedOrders,
}

/// The state of the order list. Each snapshot is the last good value or
/// the message shown in its place; a response replaces it whole.
#[derive(Clone, Debug, PartialEq, Eq)]
pub struct OrderList {
    pub fetch_vtables: Result<Vec<VirtualTable>, String>,
    pub current_vtable: Option<VirtualTableID>,
    pub fetch_orders: Result<Vec<Order>, String>,
    pub fetch_items: Result<Vec<Offer>, String>,
    pub unfinished_tables: Result<Vec<VirtualTableID>, String>,
}

/// The model of an [`OrderList`].
pub struct OrderListModel {
    pub tables: Result<Seq<VirtualTableModel>, Seq<char>>,
    pub selected: Option<Seq<char>>,
    pub orders: Result<Seq<OrderModel>, Seq<char>>,
    pub offers: Result<Seq<OfferModel>, Seq<char>>,
    pub unfinished: Result<Seq<Seq<char>>, Seq<char>>,
}

impl DeepView for OrderList {
    type V = OrderListModel;

    open spec fn deep_view(&self) -> OrderListModel {
        OrderListModel {
            tables: snapshot_view(self.fetch_vtables),
            selected: self.current_vtable.deep_view(),
            orders: snapshot_view(self.fetch_orders),
            offers: snapshot_view(self.fetch_items),
            unfinished: snapshot_view(self.unfinished_tables),
        }
    }
}

/// The names of `names`, each once, in the order of first appearance.
pub open spec fn distinct(names: Seq<Seq<char>>) -> Seq<Seq<char>>
    decreases names.len(),
{
    if names.len() == 0 {
        Seq::empty()
    } else {
        let earlier = distinct(names.drop_last());
        if earlier.contains(names.last()) {
            earlier
        } else {
            earlier.push(names.last())
        }
    }
}

/// The table that owns each order, in the order of the orders.
pub open spec fn owning_tables(orders: Seq<OrderModel>) -> Seq<Seq<char>> {
    Seq::new(orders.len(), |i: int| orders[i].id.table)
}

/// The tables that own at least one of `orders`, each once.
pub open spec fn tables_with_orders(orders: Seq<OrderModel>) -> Seq<Seq<char>> {
    distinct(owning_tables(orders))
}

/// The request for the unfinished orders across all tables.
pub open spec fn unfinished_everywhere() -> RequestModel {
    RequestModel::Orders { new: true, table: None }
}

/// The request for the unfinished orders of one table.
pub open spec fn unfinished_of(table: Seq<char>) -> RequestModel {
    RequestModel::Orders { new: true, table: Some(table) }
}

/// The command that refreshes the unfinished tables.
pub open spec fn refresh_unfinished() -> CommandModel<OrderListReply> {
    CommandModel::Send {
        request: unfinished_everywhere(),
        reply: OrderListReply::TablesWithUnfinishedOrders,
    }
}

/// The command that refreshes the orders of `table`.
pub open spec fn refresh_orders(table: Seq<char>) -> CommandModel<OrderListReply> {
    CommandModel::Send { request: unfinished_of(table), reply: OrderListReply::OrderAndUnfinished }
}

/// One transition of the order list: the state after `message`, and the
/// command the transition issues.
pub open spec fn step(state: OrderListModel, message: OrderListMessageModel) -> (
    OrderListModel,
    CommandModel<OrderListReply>,
) {
    match message {
        OrderListMessageModel::PollFetchedTablesWithUnfinishedOrders => (
            state,
            refresh_unfinished(),
        ),
        OrderListMessageModel::PollFetchedTablesWithUnfinishedOrdersPost(Ok(orders)) => (
            OrderListModel { unfinished: Ok(tables_with_orders(orders)), ..state },
            CommandModel::Nothing,
        ),
        OrderListMessageModel::PollFetchedTablesWithUnfinishedOrdersPost(Err(failure)) => (
            OrderListModel { unfinished: Err(failure), ..state },
            CommandModel::Nothing,
        ),
        OrderListMessageModel::FetchedVirtualTablesAndItems(Ok(fetched)) => (
            OrderListModel { tables: Ok(fetched.tables), offers: Ok(fetched.offers), ..state },
            refresh_unfinished(),
        ),
        OrderListMessageModel::FetchedVirtualTablesAndItems(Err(failure)) => (
            OrderListModel { tables: Err(failure), offers: Err(failure), ..state },
            CommandModel::Nothing,
        ),
        OrderListMessageModel::TablePressed(table) => (
            OrderListModel { selected: Some(table), ..state },
            refresh_orders(table),
        ),
        OrderListMessageModel::PollOrders => match state.selected {
            Some(table) => (state, refresh_orders(table)),
            None => (state, CommandModel::Nothing),
        },
        OrderListMessageModel::FetchedOrders(outcome) => (
            OrderListModel { orders: outcome, ..state },
            CommandModel::Nothing,
        ),
        OrderListMessageModel::FetchedOrderAndUnfinished(Ok(orders)) => (
            OrderListModel { orders: Ok(orders), ..state },
            refresh_unfinished(),
        ),
        OrderListMessageModel::FetchedOrderAndUnfinished(Err(failure)) => (
            OrderListModel { orders: Err(failure), ..state },
            CommandModel::Nothing,
        ),
        OrderListMessageModel::FinishOrder(id) => (
            OrderListModel { orders: Err("Refetching orders..."@), ..state },
            CommandModel::Send {
                request: RequestModel::OrdersFinish {
                    order: OrderModel { id: id, items: Seq::empty() },
                },
                reply: OrderListReply::UpdateOrders,
            },
        ),
        OrderListMessageModel::UpdateOrders(Ok(owner)) => {
            let table = match state.selected {
                Some(selected) => selected,
                None => owner,
            };
            (OrderListModel { selected: Some(table), ..state }, refresh_orders(table))
        },
        OrderListMessageModel::UpdateOrders(Err(failure)) => (
            OrderListModel {
                orders: Err("Something went wrong when deleting: "@ + failure),
                ..state
            },
            CommandModel::Nothing,
        ),
    }
}

/// Each table that owns one of the orders is derived exactly once: the
/// derived sequence has no duplicates, and it holds a name if and only if
/// some order belongs to that table.
pub proof fn lemma_tables_with_orders_is_the_set_of_owners(orders: Seq<OrderModel>)
    ensures
        tables_with_orders(orders).no_duplicates(),
        forall|table: Seq<char>|
            tables_with_orders(orders).contains(table) <==> exists|i: int|
                0 <= i < orders.len() && orders[i].id.table == table,
{
    let owners = owning_tables(orders);
    lemma_distinct(owners);
    assert forall|table: Seq<char>|
        tables_with_orders(orders).contains(table) <==> exists|i: int|
            0 <= i < orders.len() && orders[i].id.table == table by {
        if owners.contains(table) {
            let i = choose|i: int| 0 <= i < owners.len() && owners[i] == table;
            assert(orders[i].id.table == table);
        }
        if exists|i: int| 0 <= i < orders.len() && orders[i].id.table == table {
            let i = choose|i: int| 0 <= i < orders.len() && orders[i].id.table == table;
            assert(owners[i] == table);
        }
    }
}

/// `distinct` keeps every name and repeats none.
pub proof fn lemma_distinct(names: Seq<Seq<char>>)
    ensures
        distinct(names).no_duplicates(),
        forall|name: Seq<char>| distinct(names).contains(name) <==> names.contains(name),
    decreases names.len(),
{
    if names.len() > 0 {
        let init = names.drop_last();
        let last = names.last();
        let earlier = distinct(init);
        lemma_distinct(init);
        assert forall|name: Seq<char>| distinct(names).contains(name) <==> names.contains(
            name,
        ) by {
            if names.contains(name) {
                let i = choose|i: int| 0 <= i < names.len() && names[i] == name;
                if i < names.len() - 1 {
                    assert(init[i] == name);
                    assert(init.contains(name));
                    assert(earlier.contains(name));
                    let k = choose|k: int| 0 <= k < earlier.len() && earlier[k] == name;
                    assert(distinct(names)[k] == name);
                } else if !earlier.contains(last) {
                    assert(distinct(names)[earlier.len() as int] == name);
                }
            }
            if distinct(names).contains(name) {
                let k = choose|k: int| 0 <= k < distinct(names).len() && distinct(names)[k] == name;
                if k < earlier.len() {
                    assert(earlier[k] == name);
                    assert(init.contains(name));
                    let i = choose|i: int| 0 <= i < init.len() && init[i] == name;
                    assert(names[i] == name);
                } else {
                    assert(names[names.len() - 1] == name);
                }
            }
        }
        if !earlier.contains(last) {
            assert forall|i: int, j: int|
                0 <= i < distinct(names).len() && 0 <= j < distinct(names).len() && i != j
                implies distinct(names)[i] != distinct(names)[j] by {
                if i < earlier.len() && j < earlier.len() {
                } else if i < earlier.len() {
                    assert(earlier[i] != last);
                } else {
                    assert(earlier[j] != last);
                }
            }
        }
    }
}

/// A fetched snapshot depends on the response alone: when the same
/// response to a query arrives twice in a row, the state after the second
/// is the state after the first.
pub proof fn lemma_repeated_response_same_snapshot(
    state: OrderListModel,
    message: OrderListMessageModel,
)
    requires
        message is FetchedVirtualTablesAndItems || message is FetchedOrders
            || message is FetchedOrderAndUnfinished
            || message is PollFetchedTablesWithUnfinishedOrdersPost,
    ensures
        step(step(state, message).0, message) == step(state, message),
{
}

/// The snapshot that a response targets is replaced whole, whatever it
/// held before: two states that receive the same response to a query
/// agree on that snapshot afterwards.
pub proof fn lemma_response_supersedes_snapshot(
    one: OrderListModel,
    other: OrderListModel,
    message: OrderListMessageModel,
)
    ensures
        message is FetchedOrders || message is FetchedOrderAndUnfinished ==> step(
            one,
            message,
        ).0.orders == step(other, message).0.orders,
        message is PollFetchedTablesWithUnfinishedOrdersPost ==> step(one, message).0.unfinished
            == step(other, message).0.unfinished,
        message is FetchedVirtualTablesAndItems ==> step(one, message).0.tables == step(
            other,
            message,
        ).0.tables && step(one, message).0.offers == step(other, message).0.offers,
{
}

/// Finishing an order never overrides an explicit selection: with a table
/// selected, the selection stays and it is that table whose orders are
/// fetched again, whichever table the response reports. Only with no
/// table selected is the reported one adopted.
pub proof fn lemma_finish_preserves_selection(state: OrderListModel, owner: Seq<char>)
    ensures
        state.selected matches Some(selected) ==> {
            &&& step(state, OrderListMessageModel::UpdateOrders(Ok(owner))).0.selected == Some(
                selected,
            )
            &&& step(state, OrderListMessageModel::UpdateOrders(Ok(owner))).1 == refresh_orders(
                selected,
            )
        },
        state.selected is None ==> {
            &&& step(state, OrderListMessageModel::UpdateOrders(Ok(owner))).0.selected == Some(
                owner,
            )
            &&& step(state, OrderListMessageModel::UpdateOrders(Ok(owner))).1 == refresh_orders(
                owner,
            )
        },
{
}

/// A failed bootstrap leaves the text of the failure in both the tables
/// and the offers, and issues no request.
pub proof fn lemma_failed_bootstrap(state: OrderListModel, failure: Seq<char>)
    ensures
        ({
            let after = step(
                state,
                OrderListMessageModel::FetchedVirtualTablesAndItems(Err(failure)),
            );
            &&& after.0.tables == Err::<Seq<VirtualTableModel>, Seq<char>>(failure)
            &&& after.0.offers == Err::<Seq<OfferModel>, Seq<char>>(failure)
            &&& after.0.orders == state.orders
            &&& after.0.unfinished == state.unfinished
            &&& after.0.selected == state.selected
            &&& after.1 is Nothing
        }),
{
}

/// Selecting a table issues exactly the request for that table's
/// unfinished orders, and the success of that request issues exactly the
/// request for the unfinished orders of all tables.
pub proof fn lemma_selection_cascade(
    state: OrderListModel,
    table: Seq<char>,
    orders: Seq<OrderModel>,
)
    ensures
        ({
            let selected = step(state, OrderListMessageModel::TablePressed(table));
            let fetched = step(
                selected.0,
                OrderListMessageModel::FetchedOrderAndUnfinished(Ok(orders)),
            );
            &&& selected.0.selected == Some(table)
            &&& selected.1 == refresh_orders(table)
            &&& fetched.0.orders == Ok::<Seq<OrderModel>, Seq<char>>(orders)
            &&& fetched.0.selected == Some(table)
            &&& fetched.1 == refresh_unfinished()
        }),
{
}

/// The requests that a transition can issue. The unfinished tables are
/// always derived from the orders of all tables, never from those of the
/// selected one; the orders shown are always those of the table selected
/// after the transition; and nothing but finishing an order changes
/// anything at the authority.
pub proof fn lemma_issued_requests(state: OrderListModel, message: OrderListMessageModel)
    ensures
        match step(state, message).1 {
            CommandModel::Nothing => true,
            CommandModel::Send { request, reply } => match reply {
                OrderListReply::TablesWithUnfinishedOrders => request == unfinished_everywhere(),
                OrderListReply::OrderAndUnfinished => step(state, message).0.selected
                    matches Some(table) && request == unfinished_of(table),
                OrderListReply::UpdateOrders => message matches OrderListMessageModel::FinishOrder(
                    id,
                ) && request == (RequestModel::OrdersFinish {
                    order: OrderModel { id: id, items: Seq::empty() },
                }),
                OrderListReply::VirtualTablesAndItems => false,
            },
        },
        !(message is FinishOrder) ==> (step(state, message).1 matches CommandModel::Send {
            request,
            ..
        } ==> request.is_query()),
        message is PollOrders && state.selected is None ==> step(state, message) == (
            state,
            CommandModel::<OrderListReply>::Nothing,
        ),
{
}

/// Whether `name` is among `names`.
fn contains_name(names: &Vec<VirtualTableID>, name: &VirtualTableID) -> (found: bool)
    ensures
        found == names.deep_view().contains(name@),
{
    let mut i: usize = 0;
    while i < names.len()
        invariant
            i <= names.len(),
            forall|j: int| 0 <= j < i ==> names.deep_view()[j] != name@,
        decreases names.len() - i,
    {
        if names[i] == *name {
            assert(names.deep_view()[i as int] == name@);
            return true;
        }
        i += 1;
    }
    false
}

/// The tables that own at least one of `orders`, each once, in the order
/// of first appearance.
pub fn unfinished_tables_of(orders: &Vec<Order>) -> (tables: Vec<VirtualTableID>)
    ensures
        tables.deep_view() == tables_with_orders(orders.deep_view()),
{
    let ghost owners = owning_tables(orders.deep_view());
    let mut tables: Vec<VirtualTableID> = Vec::new();
    let mut i: usize = 0;
    while i < orders.len()
        invariant
            i <= orders.len(),
            owners == owning_tables(orders.deep_view()),
            owners.len() == orders.len(),
            tables.deep_view() == distinct(owners.take(i as int)),
        decreases orders.len() - i,
    {
        assert(owners.take(i + 1).drop_last() =~= owners.take(i as int));
        if !contains_name(&tables, &orders[i].id.table) {
            tables.push(orders[i].id.table.clone());
        }
        i += 1;
    }
    assert(owners.take(orders.len() as int) =~= owners);
    tables
}

/// The offer that `id` names: where several offers share the name, the
/// one that stands last.
pub open spec fn offer_named(offers: Seq<OfferModel>, id: Seq<char>) -> Option<OfferModel>
    decreases offers.len(),
{
    if offers.len() == 0 {
        None
    } else if offers.last().name == id {
        Some(offers.last())
    } else {
        offer_named(offers.drop_last(), id)
    }
}

/// What one line of an order costs, in hundredths: the price of its offer
/// times its count. A line whose offer is unknown costs nothing.
pub open spec fn line_total(offers: Seq<OfferModel>, item: OrderedItemModel) -> nat {
    match offer_named(offers, item.id) {
        Some(offer) => offer.price_in_hundredths() * item.count,
        None => 0,
    }
}

/// What the lines `items` cost together, in hundredths.
pub open spec fn items_total(offers: Seq<OfferModel>, items: Seq<OrderedItemModel>) -> nat
    decreases items.len(),
{
    if items.len() == 0 {
        0
    } else {
        items_total(offers, items.drop_last()) + line_total(offers, items.last())
    }
}

/// Lines only add to a total: the first lines cost no more than all.
proof fn lemma_items_total_grows(offers: Seq<OfferModel>, items: Seq<OrderedItemModel>, k: int)
    requires
        0 <= k <= items.len(),
    ensures
        items_total(offers, items.take(k)) <= items_total(offers, items),
    decreases items.len() - k,
{
    if k < items.len() {
        lemma_items_total_grows(offers, items, k + 1);
        assert(items.take(k + 1).drop_last() =~= items.take(k));
    } else {
        assert(items.take(k) =~= items);
    }
}

/// Finds the offer that `id` names: the index of the last offer of that
/// name.
pub fn find_offer(offers: &Vec<Offer>, id: &String) -> (found: Option<usize>)
    ensures
        match found {
            Some(at) => at < offers.len() && offers[at as int].name@ == id@ && offer_named(
                offers.deep_view(),
                id@,
            ) == Some(offers[at as int].deep_view()),
            None => offer_named(offers.deep_view(), id@) is None,
        },
        forall|j: int|
            (match found {
                Some(at) => at < j,
                None => 0 <= j,
            }) && j < offers.len() ==> offers[j].name@ != id@,
{
    let ghost all = offers.deep_view();
    let mut i: usize = offers.len();
    assert(all.take(i as int) =~= all);
    while i > 0
        invariant
            i <= offers.len(),
            all == offers.deep_view(),
            offer_named(all, id@) == offer_named(all.take(i as int), id@),
            forall|j: int| i <= j < offers.len() ==> offers[j].name@ != id@,
        decreases i,
    {
        i -= 1;
        assert(all.take(i + 1).drop_last() =~= all.take(i as int));
        if offers[i].name == *id {
            return Some(i);
        }
    }
    None
}

/// What `order` costs at the prices of `offers`: whole units and
/// hundredths, the hundredths below one hundred. Lines whose offer is
/// unknown are left out. There is no total where the whole units exceed
/// 64 bits.
pub fn order_total(order: &Order, offers: &Vec<Offer>) -> (total: Option<(u64, u32)>)
    ensures
        ({
            let hundredths = items_total(offers.deep_view(), order.deep_view().items);
            match total {
                Some((units, fraction)) => units == hundredths / 100 && fraction == hundredths
                    % 100,
                None => hundredths / 100 > u64::MAX,
            }
        }),
{
    let ghost prices = offers.deep_view();
    let ghost items = order.deep_view().items;
    let mut sum: u128 = 0;
    let mut i: usize = 0;
    while i < order.items.len()
        invariant
            i <= order.items.len(),
            prices == offers.deep_view(),
            items == order.deep_view().items,
            items.len() == order.items.len(),
            sum == items_total(prices, items.take(i as int)),
        decreases order.items.len() - i,
    {
        let item = &order.items[i];
        assert(items.take(i + 1).drop_last() =~= items.take(i as int));
        let line: u128 = match find_offer(offers, &item.id) {
            Some(at) => {
                let offer = &offers[at];
                let price: u128 = offer.price_integer as u128 * 100 + offer.price_fraction as u128;
                assert(price * item.count as u128 <= 0x65_0000_0000 * 0x1_0000_0000)
                    by (nonlinear_arith)
                    requires
                        price <= 0x65_0000_0000,
                        item.count <= 0x1_0000_0000,
                ;
                price * item.count as u128
            },
            None => 0,
        };
        if sum > u128::MAX - line {
            proof {
                lemma_items_total_grows(prices, items, i + 1);
            }
            return None;
        }
        sum = sum + line;
        i += 1;
    }
    assert(items.take(order.items.len() as int) =~= items);
    let units: u128 = sum / 100;
    if units > u64::MAX as u128 {
        return None;
    }
    Some((units as u64, (sum % 100) as u32))
}

impl Default for OrderList {
    /// The order list before anything was fetched: no table is selected,
    /// and every snapshot holds the message shown in its place.
    fn default() -> (list: OrderList)
        ensures
            list.deep_view() == (OrderListModel {
                tables: Err("Fetching data..."@),
                selected: None,
                orders: Err("Click on a table first :)"@),
                offers: Err("Couldn't fetch Item's"@),
                unfinished: Err("Couldn't fetch orders."@),
            }),
    {
        OrderList {
            current_vtable: None,
            fetch_vtables: Err(String::from_str("Fetching data...")),
            fetch_orders: Err(String::from_str("Click on a table first :)")),
            fetch_items: Err(String::from_str("Couldn't fetch Item's")),
            unfinished_tables: Err(String::from_str("Couldn't fetch orders.")),
        }
    }
}

impl OrderList {
    /// Whether `table` is known to have unfinished orders.
    pub fn has_unfinished_orders(&self, table: &VirtualTableID) -> (unfinished: bool)
        ensures
            unfinished == (self.deep_view().unfinished matches Ok(tables) && tables.contains(
                table@,
            )),
    {
        match &self.unfinished_tables {
            Ok(tables) => contains_name(tables, table),
            Err(_) => false,
        }
    }

    /// The heading of the orders: `Orders`, and the selected table where
    /// there is one.
    pub fn orders_label(&self) -> (label: String)
        ensures
            label@ == match self.deep_view().selected {
                Some(table) => "Orders from `"@ + table + "`"@,
                None => "Orders"@,
            },
    {
        match &self.current_vtable {
            Some(table) => String::from_str("Orders from `").concat(table.as_str()).concat("`"),
            None => String::from_str("Orders"),
        }
    }

    /// Takes one transition: applies `message` to the state and returns the
    /// command that the runtime is to carry out.
    pub fn update(&mut self, message: OrderListMessage) -> (command: Command<OrderListReply>)
        ensures
            (final(self).deep_view(), command.deep_view()) == step(
                old(self).deep_view(),
                message.deep_view(),
            ),
    {
        match message {
            OrderListMessage::PollFetchedTablesWithUnfinishedOrders => Command::Send {
                request: Request::Orders { new: true, table: None },
                reply: OrderListReply::TablesWithUnfinishedOrders,
            },
            OrderListMessage::PollFetchedTablesWithUnfinishedOrdersPost(fetch) => {
                match fetch {
                    Ok(orders) => {
                        self.unfinished_tables = Ok(unfinished_tables_of(&orders));
                    },
                    Err(failure) => {
                        self.unfinished_tables = Err(failure);
                    },
                }
                Command::Nothing
            },
            OrderListMessage::FetchedVirtualTablesAndItems(fetch) => {
                match fetch {
                    Ok(fetched) => {
                        self.fetch_vtables = Ok(fetched.tables);
                        self.fetch_items = Ok(fetched.offers);
                        Command::Send {
                            request: Request::Orders { new: true, table: None },
                            reply: OrderListReply::TablesWithUnfinishedOrders,
                        }
                    },
                    Err(failure) => {
                        self.fetch_items = Err(failure.clone());
                        self.fetch_vtables = Err(failure);
                        Command::Nothing
                    },
                }
            },
            OrderListMessage::TablePressed(table) => {
                self.current_vtable = Some(table.clone());
                Command::Send {
                    request: Request::Orders { new: true, table: Some(table) },
                    reply: OrderListReply::OrderAndUnfinished,
                }
            },
            OrderListMessage::PollOrders => {
                match &self.current_vtable {
                    Some(current_table) => Command::Send {
                        request: Request::Orders { new: true, table: Some(current_table.clone()) },
                        reply: OrderListReply::OrderAndUnfinished,
                    },
                    None => Command::Nothing,
                }
            },
            OrderListMessage::FetchedOrders(orders) => {
                self.fetch_orders = orders;
                Command::Nothing
            },
            OrderListMessage::FetchedOrderAndUnfinished(orders) => {
                match orders {
                    Ok(orders) => {
                        self.fetch_orders = Ok(orders);
                        Command::Send {
                            request: Request::Orders { new: true, table: None },
                            reply: OrderListReply::TablesWithUnfinishedOrders,
                        }
                    },
                    Err(failure) => {
                        self.fetch_orders = Err(failure);
                        Command::Nothing
                    },
                }
            },
            OrderListMessage::FinishOrder(order_id) => {
                self.fetch_orders = Err(String::from_str("Refetching orders..."));
                let order = Order { id: order_id, items: Vec::new() };
                assert(order.items.deep_view() =~= Seq::<OrderedItemModel>::empty());
                Command::Send {
                    request: Request::OrdersFinish { order },
                    reply: OrderListReply::UpdateOrders,
                }
            },
            OrderListMessage::UpdateOrders(result) => {
                match result {
                    Ok(owner) => {
                        let current_table = match &self.current_vtable {
                            Some(selected) => selected.clone(),
                            None => owner,
                        };
                        self.current_vtable = Some(current_table.clone());
                        Command::Send {
                            request: Request::Orders { new: true, table: Some(current_table) },
                            reply: OrderListReply::OrderAndUnfinished,
                        }
                    },
                    Err(failure) => {
                        let text = String::from_str("Something went wrong when deleting: ").concat(
                            failure.as_str(),
                        );
                        self.fetch_orders = Err(text);
                        Command::Nothing
                    },
                }
            },
        }
    }
}

} // verus!
