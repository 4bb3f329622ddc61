//! The interface after login: the tabs, and the routing of every event to
//! the tab it belongs to.

use vstd::prelude::*;
use crate::orders::{OrderList, OrderListMessage, OrderListMessageModel, OrderListModel,
    OrderListReply};
use crate::request::{Command, CommandModel, Request, RequestModel};
use crate::settings::{Settings, SettingsMessage, SettingsModel};
use crate::vtable::{VirtualTableManager, VirtualTableManagerMessage,
    VirtualTableManagerMessageModel, VirtualTableManagerModel, VirtualTableManagerReply};

verus! {

/// Names a tab.
#[derive(Clone, Copy, Debug, PartialEq, Eq, Structural)]
pub enum UITabID {
    Settings,
    Orders,
    VirtualTableManager,
}

impl Default for UITabID {
    fn default() -> (tab: UITabID)
        ensures
            tab == UITabID::Settings,
    {
        UITabID::Settings
    }
}

/// The events of the interface: a tab was selected, or an event of one of
/// the tabs.
#[derive(Clone, Debug, PartialEq, Eq)]
pub enum UIMessage {
    TabSelected(UITabID),
    Settings(SettingsMessage),
    Orders(OrderListMessage),
    VirtualTableManager(VirtualTableManagerMessage),
}

/// The model of a [`UIMessage`].
pub enum UIMessageModel {
    TabSelected(UITabID),
    Settings(SettingsMessage),
    Orders(OrderListMessageModel),
    VirtualTableManager(VirtualTableManagerMessageModel),
}

impl DeepView for UIMessage {
    type V = UIMessageModel;

    open spec fn deep_view(&self) -> UIMessageModel {
        match self {
            UIMessage::TabSelected(tab) => UIMessageModel::TabSelected(*tab),
            UIMessage::Settings(message) => UIMessageModel::Settings(*message),
            UIMessage::Orders(message) => UIMessageModel::Orders(message.deep_view()),
            UIMessage::VirtualTableManager(message) => UIMessageModel::VirtualTableManager(
                message.deep_view(),
            ),
        }
    }
}

/// Names the tab to which the outcome of a request goes, and the message
/// of that tab by which it comes back.
#[derive(Clone, Copy, Debug, PartialEq, Eq, Structural)]
pub enum UIReply {
    Orders(OrderListReply),
    VirtualTableManager(VirtualTableManagerReply),
}

/// The state of the interface: the tab that is open, and the state of
/// each tab.
#[derive(Clone, Debug, PartialEq, Eq)]
pub struct UI {
    pub active_tab: UITabID,
    pub vtable: VirtualTableManager,
    pub settings: Settings,
    pub orders: OrderList,
}

/// The model of a [`UI`].
pub struct UIModel {
    pub active_tab: UITabID,
    pub vtable: VirtualTableManagerModel,
    pub settings: SettingsModel,
    pub orders: OrderListModel,
}

impl DeepView for UI {
    type V = UIModel;

    open spec fn deep_view(&self) -> UIModel {
        UIModel {
            active_tab: self.active_tab,
            vtable: self.vtable.deep_view(),
            settings: self.settings.deep_view(),
            orders: self.orders.deep_view(),
        }
    }
}

/// A command of the order list, as a command of the interface.
pub open spec fn from_orders(command: CommandModel<OrderListReply>) -> CommandModel<UIReply> {
    match command {
        CommandModel::Nothing => CommandModel::Nothing,
        CommandModel::Send { request, reply } => CommandModel::Send {
            request: request,
            reply: UIReply::Orders(reply),
        },
    }
}

/// A command of the table manager, as a command of the interface.
pub open spec fn from_vtable(command: CommandModel<VirtualTableManagerReply>) -> CommandModel<
    UIReply,
> {
    match command {
        CommandModel::Nothing => CommandModel::Nothing,
        CommandModel::Send { request, reply } => CommandModel::Send {
            request: request,
            reply: UIReply::VirtualTableManager(reply),
        },
    }
}

/// The command by which a tab fetches what it shows when it is opened:
/// the order list its tables and offers in one exchange, the table
/// manager its tables, the settings nothing.
pub open spec fn on_open(tab: UITabID) -> CommandModel<UIReply> {
    match tab {
        UITabID::Orders => CommandModel::Send {
            request: RequestModel::OffersTables,
            reply: UIReply::Orders(OrderListReply::VirtualTablesAndItems),
        },
        UITabID::VirtualTableManager => CommandModel::Send {
            request: RequestModel::Tables,
            reply: UIReply::VirtualTableManager(VirtualTableManagerReply::Tables),
        },
        UITabID::Settings => CommandModel::Nothing,
    }
}

/// One transition of the interface, on a machine whose tables are served
/// by `host` on `port`: the state after `message`, and the command the
/// transition issues.
pub open spec fn step(state: UIModel, message: UIMessageModel, host: Seq<char>, port: nat) -> (
    UIModel,
    CommandModel<UIReply>,
) {
    match message {
        UIMessageModel::TabSelected(tab) => (UIModel { active_tab: tab, ..state }, on_open(tab)),
        UIMessageModel::Settings(message) => (
            UIModel { settings: state.settings.changed(message), ..state },
            CommandModel::Nothing,
        ),
        UIMessageModel::Orders(message) => {
            let (orders, command) = crate::orders::step(state.orders, message);
            (UIModel { orders: orders, ..state }, from_orders(command))
        },
        UIMessageModel::VirtualTableManager(message) => {
            let (vtable, command) = crate::vtable::step(state.vtable, message, host, port);
            (UIModel { vtable: vtable, ..state }, from_vtable(command))
        },
    }
}

/// An event of one tab leaves the other tabs as they were, and what it
/// asks for comes back to the tab that asked.
pub proof fn lemma_tabs_are_independent(
    state: UIModel,
    message: UIMessageModel,
    host: Seq<char>,
    port: nat,
)
    ensures
        !(message is Orders) ==> step(state, message, host, port).0.orders == state.orders,
        !(message is VirtualTableManager) ==> step(state, message, host, port).0.vtable
            == state.vtable,
        !(message is Settings) ==> step(state, message, host, port).0.settings == state.settings,
        !(message is TabSelected) ==> step(state, message, host, port).0.active_tab
            == state.active_tab,
        message is Orders ==> (step(state, message, host, port).1 matches CommandModel::Send {
            reply,
            ..
        } ==> reply is Orders),
        message is VirtualTableManager ==> (step(
            state,
            message,
            host,
            port,
        ).1 matches CommandModel::Send { reply, .. } ==> reply is VirtualTableManager),
{
}

impl UI {
    /// Takes one transition: applies `message` to the state and returns the
    /// command that the runtime is to carry out. `host` and `port` say
    /// where this machine serves its tables.
    pub fn update(&mut self, message: UIMessage, host: &str, port: u16) -> (command: Command<UIReply>)
        ensures
            (final(self).deep_view(), command.deep_view()) == step(
                old(self).deep_view(),
                message.deep_view(),
                host@,
                port as nat,
            ),
    {
        match message {
            UIMessage::TabSelected(tab_id) => {
                self.active_tab = tab_id;
                match tab_id {
                    UITabID::Orders => Command::Send {
                        request: Request::OffersTables,
                        reply: UIReply::Orders(OrderListReply::VirtualTablesAndItems),
                    },
                    UITabID::VirtualTableManager => Command::Send {
                        request: Request::Tables,
                        reply: UIReply::VirtualTableManager(VirtualTableManagerReply::Tables),
                    },
                    UITabID::Settings => Command::Nothing,
                }
            },
            UIMessage::Settings(setting_message) => {
                self.settings.change(setting_message);
                Command::Nothing
            },
            UIMessage::Orders(orders_message) => {
                match self.orders.update(orders_message) {
                    Command::Nothing => Command::Nothing,
                    Command::Send { request, reply } => Command::Send {
                        request,
                        reply: UIReply::Orders(reply),
                    },
                }
            },
            UIMessage::VirtualTableManager(message) => {
                match self.vtable.update(message, host, port) {
                    Command::Nothing => Command::Nothing,
                    Command::Send { request, reply } => Command::Send {
                        request,
                        reply: UIReply::VirtualTableManager(reply),
                    },
                }
            },
        }
    }

    /// Whether the polling timer runs: only while the order list is open.
    pub fn polls_orders(&self) -> (polls: bool)
        ensures
            polls == (self.active_tab == UITabID::Orders),
    {
        self.active_tab == UITabID::Orders
    }
}

} // verus!
