use oby_desktop::dbt::{Offer, Order, OrderID, VirtualTable};
use oby_desktop::error::Position;
use oby_desktop::kind::RequestKind;
use oby_desktop::login::{Login, LoginMessage, LoginState, Lookup};
use oby_desktop::orders::{OrderListMessage, OrderListReply};
use oby_desktop::request::{Command, Request};
use oby_desktop::session::{Page, Session};
use oby_desktop::settings::{FileOutcome, Settings, SettingsMessage};
use oby_desktop::ui::{UIMessage, UIReply, UITabID, UI};
use oby_desktop::user::{
    SettingTabPosition, SettingTheme, UserData, UserEntry, UserPrivilege,
};
use oby_desktop::vtable::{VirtualTableManagerMessage, VirtualTableManagerReply};

fn entry(username: &str, md5: &str, salt: &str) -> UserEntry {
    UserEntry { username: username.to_string(), md5: md5.to_string(), salt: salt.to_string() }
}

#[test]
fn calculate_takes_the_md5_of_password_then_salt() {
    let mut user = entry("ana", "", "");
    user.calculate("abcdefghijklm".to_string(), "nopqrstuvwxyz".to_string());
    assert_eq!(user.md5, "c3fcd3d76192e4007dfb496cca67e13b");
    assert_eq!(user.salt, "nopqrstuvwxyz");
    assert_eq!(user.username, "ana");
}

#[test]
fn calculate_of_nothing_is_the_digest_of_the_empty_text() {
    let mut user = entry("ana", "old", "old");
    user.calculate(String::new(), String::new());
    assert_eq!(user.md5, "d41d8cd98f00b204e9800998ecf8427e");
    assert_eq!(user.salt, "");
}

#[test]
fn calculate_depends_on_the_order_of_password_and_salt() {
    let mut one = entry("ana", "", "");
    let mut other = entry("ana", "", "");
    one.calculate("ab".to_string(), "c".to_string());
    other.calculate("a".to_string(), "bc".to_string());
    assert_eq!(one.md5, "900150983cd24fb0d6963f7d28e17f72");
    assert_eq!(one.md5, other.md5);
    other.calculate("c".to_string(), "ab".to_string());
    assert_ne!(one.md5, other.md5);
}

#[test]
fn is_equal_compares_name_and_digest_but_not_salt() {
    assert!(entry("ana", "d1", "s1").is_equal(&entry("ana", "d1", "s2")));
    assert!(!entry("ana", "d1", "s1").is_equal(&entry("ana", "d2", "s1")));
    assert!(!entry("ana", "d1", "s1").is_equal(&entry("eva", "d1", "s1")));
}

#[test]
fn user_defaults() {
    assert_eq!(UserEntry::default(), entry("", "", ""));
    assert_eq!(UserPrivilege::default(), UserPrivilege::Admin);
    assert_eq!(SettingTheme::default(), SettingTheme::Light);
    assert_eq!(SettingTabPosition::default(), SettingTabPosition::Top);
    assert_eq!(
        oby_desktop::user::Settings::default(),
        oby_desktop::user::Settings { theme: SettingTheme::Light, tab_bar_position: SettingTabPosition::Top }
    );
    assert_eq!(
        UserData::default(),
        UserData {
            username: "josko".to_string(),
            privilege: UserPrivilege::Admin,
            name: "Joško".to_string(),
            surname: "Križanović".to_string(),
            user_image: Some("image.qoi".to_string()),
        }
    );
}

#[test]
fn privilege_names() {
    assert_eq!(UserPrivilege::Admin.to_text(), "Admin");
    assert_eq!(UserPrivilege::Basic.to_text(), "Basic");
}

#[test]
fn record_lookup_outcomes() {
    assert_eq!(
        Login::fetch_username_from_database("ana", Lookup::Found { md5: "d".to_string(), salt: "s".to_string() }),
        Ok(entry("ana", "d", "s"))
    );
    assert_eq!(
        Login::fetch_username_from_database("ana", Lookup::NotFound),
        Err("User 'ana' does not exist.".to_string())
    );
    assert_eq!(
        Login::fetch_username_from_database("ana", Lookup::Unreadable),
        Err("Failed to read 'ana.toml'.".to_string())
    );
    assert_eq!(
        Login::fetch_username_from_database("ana", Lookup::Invalid("missing field `salt`".to_string())),
        Err("User 'ana' contains invalid data!\nmissing field `salt`".to_string())
    );
}

fn typed(username: &str, password: &str) -> Login {
    let mut form = Login::default();
    form.update(LoginMessage::UsernameFieldChanged(username.to_string()), Lookup::NotFound);
    form.update(LoginMessage::PasswordFieldChanged(password.to_string()), Lookup::NotFound);
    form
}

#[test]
fn login_default_awaits_the_user() {
    let form = Login::default();
    assert_eq!(form.state, LoginState::AwaitingUser);
    assert_eq!(form.entry, entry("", "", ""));
    assert_eq!(form.password, "");
    assert_eq!(form.issue, "");
    assert_eq!(form.found_entry, None);
}

#[test]
fn typing_changes_only_the_field() {
    let form = typed("ana", "secret");
    assert_eq!(form.entry, entry("ana", "", ""));
    assert_eq!(form.password, "secret");
    assert_eq!(form.state, LoginState::AwaitingUser);
    assert_eq!(form.found_entry, None);
    let mut other = Login::default();
    other.set_username("ana".to_string());
    other.set_password("secret".to_string());
    assert_eq!(other, form);
}

#[test]
fn login_with_the_right_password_succeeds() {
    // md5("abcdefghijklm" + "nopqrstuvwxyz")
    let record = Lookup::Found { md5: "c3fcd3d76192e4007dfb496cca67e13b".to_string(), salt: "nopqrstuvwxyz".to_string() };
    let mut form = typed("ana", "abcdefghijklm");
    form.update(LoginMessage::LoginButtonPressed, record.clone());
    let expected = entry("ana", "c3fcd3d76192e4007dfb496cca67e13b", "nopqrstuvwxyz");
    assert_eq!(form.found_entry, Some(expected.clone()));
    assert_eq!(form.state, LoginState::AwaitingServer);
    assert_eq!(form.issue, "");

    let mut again = typed("ana", "abcdefghijklm");
    assert_eq!(again.find_match_and_login(record), Ok(expected));
}

#[test]
fn login_with_a_wrong_password_fails() {
    let record = Lookup::Found { md5: "c3fcd3d76192e4007dfb496cca67e13b".to_string(), salt: "nopqrstuvwxyz".to_string() };
    let mut form = typed("ana", "guess");
    form.update(LoginMessage::LoginButtonPressed, record.clone());
    assert_eq!(form.found_entry, None);
    assert_eq!(form.state, LoginState::AwaitingUser);
    assert_eq!(form.issue, "Passwords do not match!");
    assert_eq!(form.entry.salt, "nopqrstuvwxyz");

    let mut again = typed("ana", "guess");
    assert_eq!(again.find_match_and_login(record), Err("Passwords do not match!".to_string()));
}

#[test]
fn login_of_an_unknown_user_fails_and_leaves_the_form() {
    let mut form = typed("bob", "secret");
    let before = form.clone();
    form.update(LoginMessage::LoginButtonPressed, Lookup::NotFound);
    assert_eq!(form.issue, "User 'bob' does not exist.");
    assert_eq!(form.state, LoginState::AwaitingUser);
    assert_eq!(form.entry, before.entry);
    assert_eq!(form.found_entry, None);
}

#[test]
fn a_new_attempt_replaces_the_last_issue() {
    let mut form = typed("bob", "secret");
    form.update(LoginMessage::LoginButtonPressed, Lookup::Unreadable);
    assert_eq!(form.issue, "Failed to read 'bob.toml'.");
    form.update(LoginMessage::LoginButtonPressed, Lookup::NotFound);
    assert_eq!(form.issue, "User 'bob' does not exist.");
}

const HERE: Position = Position { line: 40, column: 13 };

fn profile() -> UserData {
    UserData {
        username: String::new(),
        privilege: UserPrivilege::Basic,
        name: "Ana".to_string(),
        surname: "Anić".to_string(),
        user_image: None,
    }
}

#[test]
fn settings_from_both_files() {
    let dark = oby_desktop::user::Settings { theme: SettingTheme::Dark, tab_bar_position: SettingTabPosition::Bottom };
    let settings = Settings::from_database(
        &entry("ana", "d", "s"),
        FileOutcome::Loaded(profile()),
        FileOutcome::Loaded(dark),
        "load",
        HERE,
    )
    .unwrap();
    assert_eq!(settings.user_settings, dark);
    assert_eq!(settings.user_data, UserData { username: "ana".to_string(), ..profile() });
}

#[test]
fn settings_default_when_the_settings_file_is_missing() {
    let settings = Settings::from_database(
        &entry("ana", "d", "s"),
        FileOutcome::Loaded(profile()),
        FileOutcome::Missing,
        "load",
        HERE,
    )
    .unwrap();
    assert_eq!(settings.user_settings, oby_desktop::user::Settings::default());
    assert_eq!(settings.user_data.username, "ana");
}

#[test]
fn settings_need_the_profile() {
    let error = Settings::from_database(&entry("ana", "d", "s"), FileOutcome::Missing, FileOutcome::Missing, "load", HERE)
        .unwrap_err();
    assert_eq!(error.place, vec![("load", HERE)]);
    assert_eq!(error.name, "Cannot find `user.toml`");
    assert_eq!(error.message, "No `user.toml` was found for username `ana`");
    assert_eq!(
        error.render(),
        "From `load` at 40:13\nCannot find `user.toml`!\nNo `user.toml` was found for username `ana`.\n"
    );
}

#[test]
fn settings_report_an_unreadable_or_invalid_profile() {
    let unreadable = Settings::from_database(
        &entry("ana", "d", "s"),
        FileOutcome::Unreadable("Permission denied".to_string()),
        FileOutcome::Invalid("ignored".to_string()),
        "load",
        HERE,
    )
    .unwrap_err();
    assert_eq!(unreadable.name, "Failed to read `user.toml`");
    assert_eq!(unreadable.message, "std::fs::read_to_string returned the following message: Permission denied");

    let invalid = Settings::from_database(
        &entry("ana", "d", "s"),
        FileOutcome::Invalid("missing field `name`".to_string()),
        FileOutcome::Missing,
        "load",
        HERE,
    )
    .unwrap_err();
    assert_eq!(invalid.name, "Failed to parse `user.toml`");
    assert_eq!(invalid.message, "toml::from_str returned the following message: missing field `name`");
}

#[test]
fn settings_report_an_unreadable_or_invalid_settings_file() {
    let unreadable = Settings::from_database(
        &entry("ana", "d", "s"),
        FileOutcome::Loaded(profile()),
        FileOutcome::Unreadable("Permission denied".to_string()),
        "load",
        HERE,
    )
    .unwrap_err();
    assert_eq!(unreadable.name, "Failed to read `user.toml`");
    assert_eq!(unreadable.message, "std::fs::read_to_string returned the following message: Permission denied");

    let invalid = Settings::from_database(
        &entry("ana", "d", "s"),
        FileOutcome::Loaded(profile()),
        FileOutcome::Invalid("unknown variant `Blue`".to_string()),
        "load",
        HERE,
    )
    .unwrap_err();
    assert_eq!(invalid.name, "Failed to parse `user.toml`");
    assert_eq!(invalid.message, "toml::from_str returned the following message: unknown variant `Blue`");
}

#[test]
fn settings_change_and_title() {
    let mut settings = Settings::default();
    assert_eq!(settings.title(), "Settings: Joško Križanović");
    settings.change(SettingsMessage::ThemeChanged(SettingTheme::Dark));
    assert_eq!(settings.user_settings.theme, SettingTheme::Dark);
    assert_eq!(settings.user_settings.tab_bar_position, SettingTabPosition::Top);
    settings.change(SettingsMessage::TabPositionChanged(SettingTabPosition::Bottom));
    assert_eq!(settings.user_settings.theme, SettingTheme::Dark);
    assert_eq!(settings.user_settings.tab_bar_position, SettingTabPosition::Bottom);
    assert_eq!(settings.user_data, UserData::default());
}

fn interface() -> UI {
    UI {
        active_tab: UITabID::default(),
        vtable: Default::default(),
        settings: Settings::default(),
        orders: Default::default(),
    }
}

#[test]
fn opening_the_orders_tab_fetches_tables_and_offers() {
    let mut ui = interface();
    assert_eq!(ui.active_tab, UITabID::Settings);
    assert!(!ui.polls_orders());
    let command = ui.update(UIMessage::TabSelected(UITabID::Orders), "h", 1);
    assert_eq!(
        command,
        Command::Send {
            request: Request::OffersTables,
            reply: UIReply::Orders(OrderListReply::VirtualTablesAndItems),
        }
    );
    assert_eq!(ui.active_tab, UITabID::Orders);
    assert!(ui.polls_orders());
    match command {
        Command::Send { request, .. } => assert_eq!(request.kind(), RequestKind::OffersTables),
        Command::Nothing => unreachable!(),
    }
}

#[test]
fn opening_the_table_manager_fetches_the_tables() {
    let mut ui = interface();
    let command = ui.update(UIMessage::TabSelected(UITabID::VirtualTableManager), "h", 1);
    assert_eq!(
        command,
        Command::Send {
            request: Request::Tables,
            reply: UIReply::VirtualTableManager(VirtualTableManagerReply::Tables),
        }
    );
    assert!(!ui.polls_orders());
}

#[test]
fn opening_the_settings_fetches_nothing() {
    let mut ui = interface();
    ui.update(UIMessage::TabSelected(UITabID::Orders), "h", 1);
    assert_eq!(ui.update(UIMessage::TabSelected(UITabID::Settings), "h", 1), Command::Nothing);
    assert_eq!(ui.active_tab, UITabID::Settings);
}

#[test]
fn events_are_routed_to_their_tab() {
    let mut ui = interface();
    let command = ui.update(UIMessage::Orders(OrderListMessage::TablePressed("A".to_string())), "h", 1);
    assert_eq!(
        command,
        Command::Send {
            request: Request::Orders { new: true, table: Some("A".to_string()) },
            reply: UIReply::Orders(OrderListReply::OrderAndUnfinished),
        }
    );
    assert_eq!(ui.orders.current_vtable, Some("A".to_string()));

    let command = ui.update(
        UIMessage::VirtualTableManager(VirtualTableManagerMessage::GenerateQRCode("A B".to_string())),
        "10.1.1.1",
        8080,
    );
    assert_eq!(command, Command::Nothing);
    assert_eq!(ui.vtable.qr_code, Some(("A B".to_string(), b"http://10.1.1.1:8080/A%20B".to_vec())));

    let command = ui.update(UIMessage::Settings(SettingsMessage::ThemeChanged(SettingTheme::Dark)), "h", 1);
    assert_eq!(command, Command::Nothing);
    assert_eq!(ui.settings.user_settings.theme, SettingTheme::Dark);
    assert_eq!(ui.active_tab, UITabID::Settings);
}

#[test]
fn every_request_travels_under_its_own_kind() {
    let table = VirtualTable { name: "A".to_string(), order_count: 0 };
    let offer = Offer { name: "n".to_string(), description: "d".to_string(), price_integer: 1, price_fraction: 2 };
    let order = Order { id: OrderID { table: "A".to_string(), count: 1 }, items: vec![] };
    assert_eq!(Request::Tables.kind(), RequestKind::Tables);
    assert_eq!(Request::TablesInsert { table }.kind(), RequestKind::TablesInsert);
    assert_eq!(Request::TablesDelete { table: "A".to_string() }.kind(), RequestKind::TablesDelete);
    assert_eq!(Request::Offers.kind(), RequestKind::Offers);
    assert_eq!(Request::OffersInsert { offer }.kind(), RequestKind::OffersInsert);
    assert_eq!(Request::OffersTables.kind(), RequestKind::OffersTables);
    assert_eq!(Request::Orders { new: true, table: None }.kind(), RequestKind::Orders);
    assert_eq!(Request::OrdersFinish { order }.kind(), RequestKind::OrdersFinish);
}

fn session() -> Session {
    Session { page: Page::default(), login: Login::default(), ui: interface() }
}

#[test]
fn a_session_starts_at_the_login_form() {
    let session = session();
    assert_eq!(session.page, Page::Login);
    assert!(!session.polls_orders());
}

#[test]
fn typing_and_failed_logins_stay_at_the_login_form() {
    let mut session = session();
    assert_eq!(session.login(LoginMessage::UsernameFieldChanged("ana".to_string()), Lookup::NotFound), None);
    assert_eq!(session.login(LoginMessage::PasswordFieldChanged("guess".to_string()), Lookup::NotFound), None);
    assert_eq!(session.login(LoginMessage::LoginButtonPressed, Lookup::NotFound), None);
    assert_eq!(session.page, Page::Login);
    assert_eq!(session.login.issue, "User 'ana' does not exist.");
    let record = Lookup::Found { md5: "c3fcd3d76192e4007dfb496cca67e13b".to_string(), salt: "nopqrstuvwxyz".to_string() };
    assert_eq!(session.login(LoginMessage::LoginButtonPressed, record), None);
    assert_eq!(session.page, Page::Login);
    assert_eq!(session.login.issue, "Passwords do not match!");
}

#[test]
fn a_successful_login_shows_the_interface() {
    let mut session = session();
    session.login(LoginMessage::UsernameFieldChanged("ana".to_string()), Lookup::NotFound);
    session.login(LoginMessage::PasswordFieldChanged("abcdefghijklm".to_string()), Lookup::NotFound);
    let record = Lookup::Found { md5: "c3fcd3d76192e4007dfb496cca67e13b".to_string(), salt: "nopqrstuvwxyz".to_string() };
    let user = session.login(LoginMessage::LoginButtonPressed, record);
    assert_eq!(user, Some(entry("ana", "c3fcd3d76192e4007dfb496cca67e13b", "nopqrstuvwxyz")));
    assert_eq!(session.page, Page::UI);
    assert_eq!(session.login.found_entry, user);
}

#[test]
fn the_timer_runs_only_at_the_open_order_list() {
    let mut session = session();
    session.ui.update(UIMessage::TabSelected(UITabID::Orders), "h", 1);
    assert!(!session.polls_orders());
    session.page = Page::UI;
    assert!(session.polls_orders());
    session.ui.update(UIMessage::TabSelected(UITabID::VirtualTableManager), "h", 1);
    assert!(!session.polls_orders());
}
