use oby_desktop::dbt::{Offer, Order, OrderID, OrderedItem, VirtualTable};
use oby_desktop::orders::{
    find_offer, order_total, unfinished_tables_of, OrderList, OrderListMessage, OrderListReply,
    TablesAndOffers,
};
use oby_desktop::request::{Command, Request};

fn order(table: &str, count: u32) -> Order {
    Order { id: OrderID { table: table.to_string(), count }, items: vec![] }
}

fn offer(name: &str, integer: u32, fraction: u32) -> Offer {
    Offer {
        name: name.to_string(),
        description: format!("{name}, as on the menu"),
        price_integer: integer,
        price_fraction: fraction,
    }
}

fn line(id: &str, count: u32) -> OrderedItem {
    OrderedItem { id: id.to_string(), count }
}

fn refresh_unfinished() -> Command<OrderListReply> {
    Command::Send {
        request: Request::Orders { new: true, table: None },
        reply: OrderListReply::TablesWithUnfinishedOrders,
    }
}

fn refresh_orders(table: &str) -> Command<OrderListReply> {
    Command::Send {
        request: Request::Orders { new: true, table: Some(table.to_string()) },
        reply: OrderListReply::OrderAndUnfinished,
    }
}

#[test]
fn default_shows_a_message_in_place_of_every_snapshot() {
    let list = OrderList::default();
    assert_eq!(list.fetch_vtables, Err("Fetching data...".to_string()));
    assert_eq!(list.current_vtable, None);
    assert_eq!(list.fetch_orders, Err("Click on a table first :)".to_string()));
    assert_eq!(list.fetch_items, Err("Couldn't fetch Item's".to_string()));
    assert_eq!(list.unfinished_tables, Err("Couldn't fetch orders.".to_string()));
}

#[test]
fn unfinished_tables_collapse_duplicates() {
    let orders = vec![order("A", 1), order("B", 1), order("A", 2)];
    let mut tables = unfinished_tables_of(&orders);
    tables.sort();
    assert_eq!(tables, vec!["A".to_string(), "B".to_string()]);
}

#[test]
fn unfinished_tables_come_in_order_of_first_appearance() {
    let orders = vec![order("C", 4), order("A", 1), order("C", 5), order("B", 1), order("A", 2)];
    assert_eq!(unfinished_tables_of(&orders), vec!["C".to_string(), "A".to_string(), "B".to_string()]);
}

#[test]
fn unfinished_tables_of_no_orders_are_none() {
    assert_eq!(unfinished_tables_of(&vec![]), Vec::<String>::new());
}

#[test]
fn unfinished_response_replaces_the_unfinished_tables() {
    let mut list = OrderList::default();
    let command = list.update(OrderListMessage::PollFetchedTablesWithUnfinishedOrdersPost(Ok(vec![
        order("A", 1),
        order("B", 1),
        order("A", 2),
    ])));
    assert_eq!(command, Command::Nothing);
    assert_eq!(list.unfinished_tables, Ok(vec!["A".to_string(), "B".to_string()]));
    assert!(list.has_unfinished_orders(&"A".to_string()));
    assert!(list.has_unfinished_orders(&"B".to_string()));
    assert!(!list.has_unfinished_orders(&"C".to_string()));
}

#[test]
fn unfinished_failure_is_kept_verbatim() {
    let mut list = OrderList::default();
    let command = list.update(OrderListMessage::PollFetchedTablesWithUnfinishedOrdersPost(Err(
        "Connection refused".to_string(),
    )));
    assert_eq!(command, Command::Nothing);
    assert_eq!(list.unfinished_tables, Err("Connection refused".to_string()));
    assert!(!list.has_unfinished_orders(&"A".to_string()));
}

#[test]
fn refresh_of_unfinished_asks_across_all_tables() {
    let mut list = OrderList::default();
    list.current_vtable = Some("A".to_string());
    let before = list.clone();
    let command = list.update(OrderListMessage::PollFetchedTablesWithUnfinishedOrders);
    assert_eq!(command, refresh_unfinished());
    assert_eq!(list, before);
}

#[test]
fn bootstrap_success_populates_tables_and_offers_and_cascades() {
    let mut list = OrderList::default();
    let tables = vec![VirtualTable { name: "A".to_string(), order_count: 2 }];
    let offers = vec![offer("Soup", 3, 50)];
    let command = list.update(OrderListMessage::FetchedVirtualTablesAndItems(Ok(TablesAndOffers {
        tables: tables.clone(),
        offers: offers.clone(),
    })));
    assert_eq!(command, refresh_unfinished());
    assert_eq!(list.fetch_vtables, Ok(tables));
    assert_eq!(list.fetch_items, Ok(offers));
    assert_eq!(list.fetch_orders, Err("Click on a table first :)".to_string()));
    assert_eq!(list.current_vtable, None);
}

#[test]
fn bootstrap_failure_fills_both_snapshots_with_the_message_and_issues_nothing() {
    let mut list = OrderList::default();
    let failure = oby_desktop::client::IoError::ConnectFailed("Connection refused (os error 111)".to_string());
    let outcome = oby_desktop::client::incoming(oby_desktop::kind::RequestKind::OffersTables, Err(failure));
    let message = outcome.clone().unwrap_err();
    let command = list.update(OrderListMessage::FetchedVirtualTablesAndItems(Err(message)));
    assert_eq!(command, Command::Nothing);
    assert_eq!(list.fetch_vtables, Err("Connection refused (os error 111)".to_string()));
    assert_eq!(list.fetch_items, Err("Connection refused (os error 111)".to_string()));
    assert_eq!(list.unfinished_tables, Err("Couldn't fetch orders.".to_string()));
}

#[test]
fn selecting_a_table_asks_for_its_unfinished_orders_then_for_all() {
    let mut list = OrderList::default();
    let first = list.update(OrderListMessage::TablePressed("T1".to_string()));
    assert_eq!(first, refresh_orders("T1"));
    assert_eq!(list.current_vtable, Some("T1".to_string()));

    let orders = vec![order("T1", 1)];
    let second = list.update(OrderListMessage::FetchedOrderAndUnfinished(Ok(orders.clone())));
    assert_eq!(second, refresh_unfinished());
    assert_eq!(list.fetch_orders, Ok(orders));

    let third = list.update(OrderListMessage::PollFetchedTablesWithUnfinishedOrdersPost(Ok(vec![order("T1", 1)])));
    assert_eq!(third, Command::Nothing);
    assert_eq!(list.unfinished_tables, Ok(vec!["T1".to_string()]));
}

#[test]
fn failed_fetch_of_orders_does_not_cascade() {
    let mut list = OrderList::default();
    list.update(OrderListMessage::TablePressed("T1".to_string()));
    let command = list.update(OrderListMessage::FetchedOrderAndUnfinished(Err("timed out".to_string())));
    assert_eq!(command, Command::Nothing);
    assert_eq!(list.fetch_orders, Err("timed out".to_string()));
    assert_eq!(list.current_vtable, Some("T1".to_string()));
}

#[test]
fn selecting_another_table_replaces_the_selection() {
    let mut list = OrderList::default();
    list.update(OrderListMessage::TablePressed("A".to_string()));
    let command = list.update(OrderListMessage::TablePressed("B".to_string()));
    assert_eq!(command, refresh_orders("B"));
    assert_eq!(list.current_vtable, Some("B".to_string()));
}

#[test]
fn tick_without_selection_does_nothing() {
    let mut list = OrderList::default();
    let before = list.clone();
    assert_eq!(list.update(OrderListMessage::PollOrders), Command::Nothing);
    assert_eq!(list, before);
}

#[test]
fn tick_with_selection_asks_for_the_selected_table() {
    let mut list = OrderList::default();
    list.update(OrderListMessage::TablePressed("A".to_string()));
    let before = list.clone();
    assert_eq!(list.update(OrderListMessage::PollOrders), refresh_orders("A"));
    assert_eq!(list, before);
}

#[test]
fn fetched_orders_replace_the_snapshot_without_cascade() {
    let mut list = OrderList::default();
    let orders = vec![order("A", 1), order("A", 2)];
    assert_eq!(list.update(OrderListMessage::FetchedOrders(Ok(orders.clone()))), Command::Nothing);
    assert_eq!(list.fetch_orders, Ok(orders));
    assert_eq!(list.update(OrderListMessage::FetchedOrders(Err("gone".to_string()))), Command::Nothing);
    assert_eq!(list.fetch_orders, Err("gone".to_string()));
}

#[test]
fn the_same_response_twice_gives_the_same_snapshot() {
    let orders = vec![order("A", 1), order("B", 7), order("A", 2)];
    let messages = vec![
        OrderListMessage::FetchedOrders(Ok(orders.clone())),
        OrderListMessage::FetchedOrderAndUnfinished(Ok(orders.clone())),
        OrderListMessage::PollFetchedTablesWithUnfinishedOrdersPost(Ok(orders.clone())),
        OrderListMessage::FetchedVirtualTablesAndItems(Ok(TablesAndOffers {
            tables: vec![VirtualTable { name: "A".to_string(), order_count: 2 }],
            offers: vec![offer("Soup", 3, 50)],
        })),
    ];
    for message in messages {
        let mut list = OrderList::default();
        let first_command = list.update(message.clone());
        let first = list.clone();
        let second_command = list.update(message);
        assert_eq!(list, first);
        assert_eq!(second_command, first_command);
    }
}

#[test]
fn finishing_an_order_shows_loading_and_sends_the_order_id() {
    let mut list = OrderList::default();
    list.update(OrderListMessage::FetchedOrders(Ok(vec![order("A", 3)])));
    let command = list.update(OrderListMessage::FinishOrder(OrderID { table: "A".to_string(), count: 3 }));
    assert_eq!(
        command,
        Command::Send {
            request: Request::OrdersFinish { order: order("A", 3) },
            reply: OrderListReply::UpdateOrders,
        }
    );
    assert_eq!(list.fetch_orders, Err("Refetching orders...".to_string()));
}

#[test]
fn finish_keeps_an_explicit_selection() {
    let mut list = OrderList::default();
    list.update(OrderListMessage::TablePressed("A".to_string()));
    let command = list.update(OrderListMessage::UpdateOrders(Ok("B".to_string())));
    assert_eq!(list.current_vtable, Some("A".to_string()));
    assert_eq!(command, refresh_orders("A"));
}

#[test]
fn finish_adopts_the_reported_table_when_none_is_selected() {
    let mut list = OrderList::default();
    let command = list.update(OrderListMessage::UpdateOrders(Ok("B".to_string())));
    assert_eq!(list.current_vtable, Some("B".to_string()));
    assert_eq!(command, refresh_orders("B"));
}

#[test]
fn failed_finish_embeds_the_error() {
    let mut list = OrderList::default();
    list.update(OrderListMessage::TablePressed("A".to_string()));
    let command = list.update(OrderListMessage::UpdateOrders(Err("Invalid message kind...".to_string())));
    assert_eq!(command, Command::Nothing);
    assert_eq!(
        list.fetch_orders,
        Err("Something went wrong when deleting: Invalid message kind...".to_string())
    );
    assert_eq!(list.current_vtable, Some("A".to_string()));
}

#[test]
fn orders_label_names_the_selected_table() {
    let mut list = OrderList::default();
    assert_eq!(list.orders_label(), "Orders");
    list.update(OrderListMessage::TablePressed("Terrace 4".to_string()));
    assert_eq!(list.orders_label(), "Orders from `Terrace 4`");
}

#[test]
fn find_offer_takes_the_last_of_a_shared_name() {
    let offers = vec![offer("Soup", 3, 50), offer("Tea", 1, 20), offer("Soup", 4, 0)];
    assert_eq!(find_offer(&offers, &"Soup".to_string()), Some(2));
    assert_eq!(find_offer(&offers, &"Tea".to_string()), Some(1));
    assert_eq!(find_offer(&offers, &"Cake".to_string()), None);
    assert_eq!(find_offer(&vec![], &"Soup".to_string()), None);
}

#[test]
fn order_total_carries_hundredths_into_units() {
    let offers = vec![offer("Soup", 3, 50), offer("Tea", 1, 20)];
    let mut placed = order("A", 1);
    placed.items = vec![line("Soup", 3), line("Tea", 2)];
    // 3 * 3.50 + 2 * 1.20 = 12.90
    assert_eq!(order_total(&placed, &offers), Some((12, 90)));
    placed.items = vec![line("Soup", 2)];
    assert_eq!(order_total(&placed, &offers), Some((7, 0)));
}

#[test]
fn order_total_leaves_unknown_offers_out() {
    let offers = vec![offer("Soup", 3, 50)];
    let mut placed = order("A", 1);
    placed.items = vec![line("Cake", 10), line("Soup", 1)];
    assert_eq!(order_total(&placed, &offers), Some((3, 50)));
    placed.items = vec![line("Cake", 10)];
    assert_eq!(order_total(&placed, &offers), Some((0, 0)));
    placed.items = vec![];
    assert_eq!(order_total(&placed, &offers), Some((0, 0)));
}

#[test]
fn order_total_beyond_32_bits() {
    let offers = vec![offer("Gold", u32::MAX, 99)];
    let mut placed = order("A", 1);
    placed.items = vec![line("Gold", u32::MAX)];
    // (4294967295.99) * 4294967295 = 18446744073709551615 * ... computed in hundredths
    let hundredths: u128 = (u32::MAX as u128 * 100 + 99) * u32::MAX as u128;
    assert_eq!(order_total(&placed, &offers), Some(((hundredths / 100) as u64, (hundredths % 100) as u32)));
}

#[test]
fn order_total_that_does_not_fit_is_none() {
    let offers = vec![offer("Gold", u32::MAX, 99)];
    let mut placed = order("A", 1);
    placed.items = vec![line("Gold", u32::MAX); 3];
    let hundredths: u128 = 3 * (u32::MAX as u128 * 100 + 99) * u32::MAX as u128;
    assert!(hundredths / 100 > u64::MAX as u128);
    assert_eq!(order_total(&placed, &offers), None);
}
