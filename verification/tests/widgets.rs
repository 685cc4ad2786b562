use app_modes::body::ContentType;
use app_modes::key_value::copy_rows;
use app_modes::key_value::KeyValue;
use app_modes::request::copy_settings;
use app_modes::request::Auth;
use app_modes::request::Request;
use app_modes::request::Setting;
use app_modes::table::StatefulCustomTable;
use app_modes::text_input::TextInput;

fn kv(enabled: bool, key: &str, value: &str) -> KeyValue {
    KeyValue { enabled, data: (key.to_string(), value.to_string()) }
}

#[test]
fn text_input_load_puts_the_cursor_at_the_end() {
    let mut input = TextInput::new();
    assert_eq!(input.text, "");
    assert_eq!(input.cursor_position, 0);
    input.load(&"abc".to_string());
    assert_eq!(input.text, "abc");
    assert_eq!(input.cursor_position, 3);
    input.load(&"My API".to_string());
    assert_eq!(input.text, "My API");
    assert_eq!(input.cursor_position, 6);
    input.load(&String::new());
    assert_eq!(input.text, "");
    assert_eq!(input.cursor_position, 0);
}

#[test]
fn text_input_cursor_is_a_byte_offset() {
    let mut input = TextInput::new();
    input.load(&"né €".to_string());
    assert_eq!(input.text, "né €");
    assert_eq!(input.cursor_position, 7);
    assert_eq!(input.cursor_position, input.text.len());
}

#[test]
fn text_input_reset_drops_the_text() {
    let mut input = TextInput::new();
    input.load(&"something".to_string());
    input.reset_input();
    assert_eq!(input.text, "");
    assert_eq!(input.cursor_position, 0);
}

#[test]
fn table_selected_text_by_column() {
    let mut table = StatefulCustomTable::new();
    assert_eq!(table.selected_text(), None);
    table.rows = vec![kv(true, "k0", "v0"), kv(false, "k1", "v1")];
    assert_eq!(table.selected_text(), None);
    table.selection = Some((1, 0));
    assert_eq!(table.selected_text(), Some("k1".to_string()));
    table.selection = Some((0, 1));
    assert_eq!(table.selected_text(), Some("v0".to_string()));
    table.selection = Some((0, 2));
    assert_eq!(table.selected_text(), Some(String::new()));
    table.selection = Some((9, 7));
    assert_eq!(table.selected_text(), Some(String::new()));
    table.selection = Some((2, 0));
    assert_eq!(table.selected_text(), None);
    table.selection = Some((2, 1));
    assert_eq!(table.selected_text(), None);
}

#[test]
fn table_show_selects_the_first_cell() {
    let mut table = StatefulCustomTable::new();
    table.selection_text_input.load(&"kept".to_string());
    table.show(vec![kv(true, "a", "1"), kv(true, "b", "2")]);
    assert_eq!(table.rows.len(), 2);
    assert_eq!(table.selection, Some((0, 0)));
    assert_eq!(table.selection_text_input.text, "kept");
    table.selection = Some((1, 1));
    table.show(vec![]);
    assert!(table.rows.is_empty());
    assert_eq!(table.selection, None);
}

#[test]
fn table_refresh_keeps_a_selection_that_still_fits() {
    let mut table = StatefulCustomTable::new();
    table.show(vec![kv(true, "a", "1"), kv(true, "b", "2"), kv(true, "c", "3")]);
    table.selection = Some((2, 1));
    table.refresh(vec![kv(true, "x", "10"), kv(true, "y", "20"), kv(false, "z", "30")]);
    assert_eq!(table.selection, Some((2, 1)));
    assert_eq!(table.selection_text_input.text, "30");
    assert_eq!(table.selection_text_input.cursor_position, 2);
    table.refresh(vec![kv(true, "only", "one")]);
    assert_eq!(table.selection, Some((0, 0)));
    assert_eq!(table.selection_text_input.text, "only");
    table.refresh(vec![]);
    assert_eq!(table.selection, None);
    assert_eq!(table.selection_text_input.text, "");
    assert_eq!(table.selection_text_input.cursor_position, 0);
    table.refresh(vec![kv(true, "back", "again")]);
    assert_eq!(table.selection, Some((0, 0)));
    assert_eq!(table.selection_text_input.text, "back");
}

#[test]
fn table_update_selection_follows_the_rows() {
    let mut table = StatefulCustomTable::new();
    table.update_selection();
    assert_eq!(table.selection, None);
    table.rows.push(kv(true, "a", "1"));
    table.selection = Some((0, 1));
    table.update_selection();
    assert_eq!(table.selection, Some((0, 0)));
}

#[test]
fn copies_are_equal_and_independent() {
    let rows = vec![kv(true, "a", "1"), kv(false, "b", "2")];
    let mut copy = copy_rows(&rows);
    assert_eq!(copy.len(), 2);
    assert_eq!(copy[1].enabled, false);
    assert_eq!(copy[1].data, ("b".to_string(), "2".to_string()));
    copy[0].data.0.push('!');
    assert_eq!(rows[0].data.0, "a");
    let cloned = rows[0].clone();
    assert_eq!(cloned.enabled, true);
    assert_eq!(cloned.data, ("a".to_string(), "1".to_string()));

    let settings = vec![Setting { name: "proxy".to_string(), enabled: true }];
    let copied = copy_settings(&settings);
    assert_eq!(copied.len(), 1);
    assert_eq!(copied[0].name, "proxy");
    assert!(copied[0].enabled);
}

#[test]
fn request_clone_keeps_every_field() {
    let request = Request {
        name: "login".to_string(),
        url: "https://example.org/login".to_string(),
        params: vec![kv(true, "next", "/")],
        headers: vec![kv(false, "x-trace", "1")],
        body: ContentType::Multipart(vec![kv(true, "file", "a.txt")]),
        auth: Auth::BearerToken { token: "abc".to_string() },
        settings: vec![Setting { name: "proxy".to_string(), enabled: false }],
    };
    let copy = request.clone();
    assert_eq!(copy.name, "login");
    assert_eq!(copy.url, "https://example.org/login");
    assert_eq!(copy.params[0].data, ("next".to_string(), "/".to_string()));
    assert!(!copy.headers[0].enabled);
    assert!(matches!(&copy.body, ContentType::Multipart(rows) if rows.len() == 1 && rows[0].data.1 == "a.txt"));
    assert!(matches!(&copy.auth, Auth::BearerToken { token } if token == "abc"));
    assert_eq!(copy.settings[0].name, "proxy");
    assert!(!copy.settings[0].enabled);
}

#[test]
fn body_parts_by_family() {
    let form = ContentType::Form(vec![kv(true, "a", "b")]);
    assert_eq!(form.form().len(), 1);
    assert_eq!(form.text(), "");
    let xml = ContentType::Xml("<a/>".to_string());
    assert!(xml.form().is_empty());
    assert_eq!(xml.text(), "<a/>");
    assert!(matches!(xml.clone(), ContentType::Xml(text) if text == "<a/>"));
}

#[test]
fn auth_parts_by_scheme() {
    let none = Auth::NoAuth;
    assert_eq!(none.username(), "");
    assert_eq!(none.password(), "");
    assert_eq!(none.bearer_token(), "");
    let basic = Auth::BasicAuth { username: "ada".to_string(), password: "pw".to_string() };
    assert_eq!(basic.username(), "ada");
    assert_eq!(basic.password(), "pw");
    assert_eq!(basic.bearer_token(), "");
    let bearer = Auth::BearerToken { token: "tok".to_string() };
    assert_eq!(bearer.username(), "");
    assert_eq!(bearer.bearer_token(), "tok");
    assert!(matches!(basic.clone(), Auth::BasicAuth { username, password } if username == "ada" && password == "pw"));
}
