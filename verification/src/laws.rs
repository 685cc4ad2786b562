use vstd::prelude::*;
use vstd::utf8::encode_utf8;
use vstd::utf8::is_ascii_chars;
use vstd::utf8::is_ascii_chars_encode_utf8;
use crate::app::AppView;
use crate::app::LockFault;
use crate::app::RequestParamsTabs;
use crate::app_states::AppState;
use crate::body::ContentTypeView;
use crate::body::EditFamily;
use crate::cookies::CookieView;
use crate::key_value::KeyValueView;
use crate::model::Transition;
use crate::request::RequestView;
use crate::table::TableView;
use crate::table::default_selection;
use crate::text_input::TextInputView;

verus! {

/// After any transition the application is in exactly one mode, and that mode
/// is the transition's target, or the mode before where the guard refused and
/// nothing at all changed, or `Normal` where a lock was found poisoned and
/// nothing but the mode and the recorded fault changed.
pub proof fn lemma_step_leaves_one_mode(app: AppView, transition: Transition)
    ensures
        exists|mode: AppState|
            #![trigger app.step(transition).state.active(mode)]
            app.step(transition).state.active(mode) && forall|other: AppState|
                #[trigger] app.step(transition).state.active(other) ==> other == mode,
        ({
            let after = app.step(transition);
            ||| after.state == transition.target()
            ||| after == app
            ||| after == app.faulted(LockFault::CookieJar)
            ||| after == app.faulted(LockFault::Request)
        }),
{
    let after = app.step(transition);
    assert(after.state.active(after.state));
    match transition {
        Transition::SelectRequest(read) => {
            assert(after.state == AppState::SelectedRequest || after =~= app.faulted(
                LockFault::Request,
            ));
        },
        Transition::EditRequestParam(read) => {
            assert(after.state == AppState::EditingRequestParam || after =~= app.faulted(
                LockFault::Request,
            ));
        },
        Transition::EditRequestHeader(read) => {
            assert(after.state == AppState::EditingRequestHeader || after =~= app.faulted(
                LockFault::Request,
            ));
        },
        _ => {},
    }
}

/// Without a collection the transition to creating a request changes nothing:
/// not the mode, not the popup, not the collections.
pub proof fn lemma_create_request_needs_collection(app: AppView)
    ensures
        app.collections.len() == 0 ==> app.create_new_request() == app,
        app.collections.len() > 0 ==> app.create_new_request().state
            == AppState::CreatingNewRequest,
        app.collections.len() > 0 ==> app.create_new_request().new_request_popup.max_selection
            == app.collections.len() as usize,
{
}

/// A body is tabular exactly if it is `Form` or `Multipart`, and a text
/// exactly if it is `Raw`, `Json`, `Xml` or `Html`.
pub proof fn lemma_families(body: ContentTypeView)
    ensures
        body.family() == EditFamily::TabularEditable <==> (body is Form || body is Multipart),
        body.family() == EditFamily::StringEditable <==> (body is Raw || body is Json || body is Xml
            || body is Html),
{
}

/// With a request selected and read, exactly one of the two body transitions
/// goes through, by the body's variant: the table transition commits
/// `EditingRequestBodyTable` for `Form` and `Multipart` and changes nothing
/// for the others; the text transition commits `EditingRequestBodyString`
/// for `Raw`, `Json`, `Xml` and `Html` and changes nothing for the others.
pub proof fn lemma_body_gating(app: AppView, request: RequestView)
    requires
        app.selected_request() is Some,
    ensures
        (request.body is Form || request.body is Multipart) ==> {
            &&& app.edit_request_body_table(Some(request)).state
                == AppState::EditingRequestBodyTable
            &&& app.edit_request_body_string(Some(request)) == app
        },
        (request.body is Raw || request.body is Json || request.body is Xml || request.body is Html)
            ==> {
            &&& app.edit_request_body_string(Some(request)).state
                == AppState::EditingRequestBodyString
            &&& app.edit_request_body_table(Some(request)) == app
        },
{
}

/// Without a selected request neither body transition changes anything,
/// whatever was read.
pub proof fn lemma_body_needs_request(app: AppView, read: Option<RequestView>)
    requires
        app.selected_request() is None,
    ensures
        app.edit_request_body_table(read) == app,
        app.edit_request_body_string(read) == app,
{
}

/// The application after `times` transitions to `Normal` in a row.
pub open spec fn normal_repeated(app: AppView, times: nat) -> AppView
    decreases times,
{
    if times == 0 {
        app
    } else {
        normal_repeated(app, (times - 1) as nat).normal()
    }
}

/// However often the transition to `Normal` is taken, the outcome is that of
/// taking it once: the mode is `Normal` and nothing else has changed.
pub proof fn lemma_normal_idempotent(app: AppView, times: nat)
    requires
        times >= 1,
    ensures
        normal_repeated(app, times) == (AppView { state: AppState::Normal, ..app }),
        app.normal().normal() == app.normal(),
    decreases times,
{
    if times == 1 {
        assert(normal_repeated(app, 0) == app);
    } else {
        lemma_normal_idempotent(app, (times - 1) as nat);
    }
    assert(normal_repeated(app, times) == normal_repeated(app, (times - 1) as nat).normal());
}

/// Showing a jar puts one enabled row per cookie into the cookie table, in
/// the jar's order and with the cookie's name and value, and selects the
/// first cell where there is one.
pub proof fn lemma_display_cookies_rows(app: AppView, cookies: Seq<CookieView>)
    ensures
        ({
            let after = app.display_cookies(Some(cookies));
            let table = after.cookies_popup.cookies_table;
            &&& after.state == AppState::DisplayingCookies
            &&& table.rows.len() == cookies.len()
            &&& forall|i: int|
                0 <= i < cookies.len() ==> #[trigger] table.rows[i] == (KeyValueView {
                    enabled: true,
                    key: cookies[i].name,
                    value: cookies[i].value,
                })
            &&& table.selection == default_selection(cookies.len())
            &&& table.selection_valid()
        }),
{
}

/// Where the selection denotes a cookie cell, the transition to editing it
/// puts that cell's text under edit with the cursor at its end, and changes
/// neither the rows nor the selection.
pub proof fn lemma_edit_cookie_seeds(app: AppView)
    requires
        app.cookies_popup.cookies_table.selected_text() is Some,
    ensures
        ({
            let before = app.cookies_popup.cookies_table;
            let table = app.edit_cookie().cookies_popup.cookies_table;
            &&& app.edit_cookie().state == AppState::EditingCookies
            &&& table.selection_text_input.text == before.selected_text()->0
            &&& table.selection_text_input.cursor_at_end()
            &&& table.rows == before.rows
            &&& table.selection == before.selection
        }),
{
}

/// A loaded input holds the text it was given, with the cursor at its end;
/// loading no text is the same as resetting.
pub proof fn lemma_loaded(text: Seq<char>)
    ensures
        TextInputView::loaded(text).text == text,
        TextInputView::loaded(text).cursor_at_end(),
        TextInputView::loaded(Seq::empty()) == TextInputView::empty(),
{
    assert(encode_utf8(Seq::<char>::empty()).len() == 0);
}

/// The cursor is a byte offset: for ASCII text its place after loading is
/// the number of characters.
pub proof fn lemma_loaded_ascii(text: Seq<char>)
    requires
        is_ascii_chars(text),
    ensures
        TextInputView::loaded(text).cursor == text.len(),
{
    is_ascii_chars_encode_utf8(text);
}

/// A table that is given new rows has a valid selection, whatever it held
/// before; putting a text under edit keeps a valid selection valid.
pub proof fn lemma_table_selection_valid(table: TableView, rows: Seq<KeyValueView>, text: Seq<char>)
    ensures
        table.refreshed(rows).selection_valid(),
        table.showing(rows).selection_valid(),
        table.selection_valid() ==> table.editing(text).selection_valid(),
{
}

/// Filling the request panel keeps every selection valid.
proof fn lemma_update_inputs_keeps_selections_valid(app: AppView, read: Option<RequestView>)
    requires
        app.selections_valid(),
    ensures
        app.update_inputs(read).selections_valid(),
{
    if app.selected_request() is Some {
        if let Some(request) = read {
            let after = app.showing_request(request);
            lemma_table_selection_valid(app.query_params_table, request.params, Seq::empty());
            lemma_table_selection_valid(app.headers_table, request.headers, Seq::empty());
            lemma_table_selection_valid(app.body_form_table, request.body.form(), Seq::empty());
            assert(after.selected == app.selected);
            assert(after.collections == app.collections);
            assert(after.cookies_popup == app.cookies_popup);
        }
    }
}

/// No transition breaks a selection: where every selection denotes something
/// that exists before a transition, it does so after it.
pub proof fn lemma_step_keeps_selections_valid(app: AppView, transition: Transition)
    requires
        app.selections_valid(),
    ensures
        app.step(transition).selections_valid(),
{
    match transition {
        Transition::DisplayCookies(jar) => {
            if let Some(cookies) = jar {
                lemma_display_cookies_rows(app, cookies);
            }
        },
        Transition::SelectRequest(read) => {
            lemma_update_inputs_keeps_selections_valid(
                app.with_state(AppState::SelectedRequest),
                read,
            );
        },
        Transition::EditRequestParam(read) => {
            lemma_update_inputs_keeps_selections_valid(
                app.with_state(AppState::EditingRequestParam),
                read,
            );
        },
        Transition::EditRequestHeader(read) => {
            lemma_update_inputs_keeps_selections_valid(
                app.with_state(AppState::EditingRequestHeader),
                read,
            );
        },
        Transition::EditRequestBodyTable(read) => {
            let entered = AppView {
                state: AppState::EditingRequestBodyTable,
                request_param_tab: RequestParamsTabs::Body,
                ..app
            };
            lemma_update_inputs_keeps_selections_valid(entered, read);
        },
        _ => {},
    }
}

} // verus!
