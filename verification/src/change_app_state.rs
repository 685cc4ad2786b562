use vstd::prelude::*;
use crate::app::App;
use crate::app::LockFault;
use crate::app::RequestParamsTabs;
use crate::app_states::AppState;
use crate::body::EditFamily;
use crate::cookies::CookieJar;
use crate::cookies::CookieView;
use crate::key_value::copy_rows;
use crate::model::viewed;
use crate::request::Request;
use crate::request::RequestView;
use crate::request::copy_settings;
use crate::shared::snapshot;

verus! {

/// The transitions between the modes.
///
/// Each one checks its guard before it changes anything: where the guard
/// fails, the application stays exactly as it was. A transition that reads
/// shared data takes one copy under the read lock, lets the lock go, and only
/// then changes the widgets. Where the lock is poisoned the application goes
/// back to `Normal` and records the fault, and nothing else changes.
///
/// For each transition that reads shared data there is a second method whose
/// name ends in `_with`: it takes what the read gave and does the rest. Its
/// contract is exact, while that of the reading method can only say that some
/// read led to the outcome.
impl App {
    /// A copy of the selected request, taken under its read lock; `None`
    /// where no request is selected or the lock is poisoned.
    fn read_selected_request(&self) -> (read: Option<Request>)
        ensures
            self@.selected_request() is None ==> read is None,
    {
        match self.selected_request() {
            Some((collection, request)) => snapshot(&self.collections[collection].requests[request]),
            None => None,
        }
    }

    /// Back to `Normal` with the fault recorded.
    fn fault(&mut self, fault: LockFault)
        ensures
            final(self)@ == old(self)@.faulted(fault),
    {
        self.lock_fault = Some(fault);
        self.state = AppState::Normal;
    }

    /// Fills every widget of the request panel from `request`.
    fn show_request(&mut self, request: &Request)
        ensures
            final(self)@ == old(self)@.showing_request(request@),
    {
        self.url_text_input.load(&request.url);
        self.query_params_table.refresh(copy_rows(&request.params));
        self.headers_table.refresh(copy_rows(&request.headers));
        let username = request.auth.username();
        self.auth_basic_username_text_input.load(&username);
        let password = request.auth.password();
        self.auth_basic_password_text_input.load(&password);
        let token = request.auth.bearer_token();
        self.auth_bearer_token_text_input.load(&token);
        self.body_form_table.refresh(request.body.form());
        let text = request.body.text();
        self.body_text_input.load(&text);
    }

    /// Goes to `Normal`; nothing but the mode changes.
    pub fn normal_state(&mut self)
        ensures
            final(self)@ == old(self)@.normal(),
    {
        self.state = AppState::Normal;
    }

    /// Puts the cookie table's selection to its default: the first cell, or
    /// nothing where the table has no row.
    pub fn update_cookies_table_selection(&mut self)
        ensures
            final(self)@ == old(self)@.cookies_reselected(),
    {
        self.cookies_popup.cookies_table.update_selection();
    }

    /// Shows `jar` in the cookie table, or records the fault where it is
    /// `None`.
    pub fn display_cookies_with(&mut self, jar: Option<&CookieJar>)
        ensures
            final(self)@ == old(self)@.display_cookies(viewed(jar)),
    {
        match jar {
            None => {
                self.fault(LockFault::CookieJar);
            },
            Some(jar) => {
                self.cookies_popup.cookies_table.rows = jar.rows();
                self.update_cookies_table_selection();
                self.state = AppState::DisplayingCookies;
            },
        }
    }

    /// Copies the shared cookie jar into the cookie table and shows it.
    pub fn display_cookies_state(&mut self)
        ensures
            exists|jar: Option<Seq<CookieView>>|
                final(self)@ == #[trigger] old(self)@.display_cookies(jar),
    {
        let jar = snapshot(&self.cookies_popup.cookie_store);
        self.display_cookies_with(jar.as_ref());
    }

    /// Puts the selected cookie cell's text under edit: the name in column
    /// 0, the value in column 1, no text in any other column. Does nothing
    /// where no cell is selected or the selected row does not exist.
    pub fn edit_cookie_state(&mut self)
        ensures
            final(self)@ == old(self)@.edit_cookie(),
    {
        match self.cookies_popup.cookies_table.selected_text() {
            None => {},
            Some(text) => {
                self.cookies_popup.cookies_table.selection_text_input.load(&text);
                self.state = AppState::EditingCookies;
            },
        }
    }

    /// Goes to `CreatingNewCollection`; nothing but the mode changes.
    pub fn create_new_collection_state(&mut self)
        ensures
            final(self)@ == old(self)@.create_new_collection(),
    {
        self.state = AppState::CreatingNewCollection;
    }

    /// Opens the popup that creates a request, which may choose among all
    /// collections. Does nothing where there is no collection.
    pub fn create_new_request_state(&mut self)
        ensures
            final(self)@ == old(self)@.create_new_request(),
    {
        let collections_length = self.collections.len();
        if collections_length == 0 {
            return ;
        }
        self.new_request_popup.max_selection = collections_length;
        self.state = AppState::CreatingNewRequest;
    }

    /// Asks whether to delete the collection; the answer starts at "no".
    pub fn delete_collection_state(&mut self)
        ensures
            final(self)@ == old(self)@.delete_collection(),
    {
        self.delete_collection_popup.state = false;
        self.state = AppState::DeletingCollection;
    }

    /// Asks whether to delete the request; the answer starts at "no".
    pub fn delete_request_state(&mut self)
        ensures
            final(self)@ == old(self)@.delete_request(),
    {
        self.delete_request_popup.state = false;
        self.state = AppState::DeletingRequest;
    }

    /// Puts the name of the collection that the selection lies in under
    /// edit, the cursor at its end. Does nothing where the selection lies in
    /// no collection.
    pub fn rename_collection_state(&mut self)
        ensures
            final(self)@ == old(self)@.rename_collection(),
    {
        match self.selected_collection() {
            None => {},
            Some(index) => {
                let name = self.collections[index].name.clone();
                self.rename_collection_input.load(&name);
                self.state = AppState::RenamingCollection;
            },
        }
    }

    /// Puts the name of `read` under edit, or records the fault where it is
    /// `None`; does nothing where no request is selected.
    pub fn rename_request_with(&mut self, read: Option<&Request>)
        ensures
            final(self)@ == old(self)@.rename_request(viewed(read)),
    {
        if self.selected_request().is_none() {
            return ;
        }
        match read {
            None => {
                self.fault(LockFault::Request);
            },
            Some(request) => {
                self.rename_request_input.load(&request.name);
                self.state = AppState::RenamingRequest;
            },
        }
    }

    /// Puts the selected request's name under edit, the cursor at its end.
    /// Does nothing where no request is selected.
    pub fn rename_request_state(&mut self)
        ensures
            exists|read: Option<RequestView>|
                final(self)@ == #[trigger] old(self)@.rename_request(read),
    {
        let read = self.read_selected_request();
        self.rename_request_with(read.as_ref());
    }

    /// Fills the request panel from `read`, or records the fault where it is
    /// `None`; does nothing where no request is selected.
    pub fn update_inputs_with(&mut self, read: Option<&Request>)
        ensures
            final(self)@ == old(self)@.update_inputs(viewed(read)),
    {
        if self.selected_request().is_none() {
            return ;
        }
        match read {
            None => {
                self.fault(LockFault::Request);
            },
            Some(request) => {
                self.show_request(request);
            },
        }
    }

    /// Fills the request panel from the selected request.
    pub fn update_inputs(&mut self)
        ensures
            exists|read: Option<RequestView>|
                final(self)@ == #[trigger] old(self)@.update_inputs(read),
    {
        let read = self.read_selected_request();
        self.update_inputs_with(read.as_ref());
    }

    /// Goes to `SelectedRequest` and fills the request panel from `read`, or
    /// records the fault where a request is selected and `read` is `None`.
    pub fn select_request_with(&mut self, read: Option<&Request>)
        ensures
            final(self)@ == old(self)@.select_request(viewed(read)),
    {
        self.state = AppState::SelectedRequest;
        self.update_inputs_with(read);
    }

    /// Goes to `SelectedRequest` and fills the request panel from the
    /// selected request.
    pub fn select_request_state(&mut self)
        ensures
            exists|read: Option<RequestView>|
                final(self)@ == #[trigger] old(self)@.select_request(read),
    {
        let read = self.read_selected_request();
        self.select_request_with(read.as_ref());
    }

    /// Goes to `EditingRequestUrl`; nothing but the mode changes.
    pub fn edit_request_url_state(&mut self)
        ensures
            final(self)@ == old(self)@.edit_request_url(),
    {
        self.state = AppState::EditingRequestUrl;
    }

    /// Goes to `EditingRequestParam` and fills the request panel from
    /// `read`, or records the fault where a request is selected and `read`
    /// is `None`.
    pub fn edit_request_param_with(&mut self, read: Option<&Request>)
        ensures
            final(self)@ == old(self)@.edit_request_param(viewed(read)),
    {
        self.state = AppState::EditingRequestParam;
        self.update_inputs_with(read);
    }

    /// Goes to `EditingRequestParam` and fills the request panel from the
    /// selected request, so that the selected parameter cell is under edit.
    pub fn edit_request_param_state(&mut self)
        ensures
            exists|read: Option<RequestView>|
                final(self)@ == #[trigger] old(self)@.edit_request_param(read),
    {
        let read = self.read_selected_request();
        self.edit_request_param_with(read.as_ref());
    }

    /// Goes to `EditingRequestAuthUsername`; nothing but the mode changes.
    pub fn edit_request_auth_username_state(&mut self)
        ensures
            final(self)@ == old(self)@.edit_request_auth_username(),
    {
        self.state = AppState::EditingRequestAuthUsername;
    }

    /// Goes to `EditingRequestAuthPassword`; nothing but the mode changes.
    pub fn edit_request_auth_password_state(&mut self)
        ensures
            final(self)@ == old(self)@.edit_request_auth_password(),
    {
        self.state = AppState::EditingRequestAuthPassword;
    }

    /// Goes to `EditingRequestAuthBearerToken`; nothing but the mode changes.
    pub fn edit_request_auth_bearer_token_state(&mut self)
        ensures
            final(self)@ == old(self)@.edit_request_auth_bearer_token(),
    {
        self.state = AppState::EditingRequestAuthBearerToken;
    }

    /// Goes to `EditingRequestHeader` and fills the request panel from
    /// `read`, or records the fault where a request is selected and `read`
    /// is `None`.
    pub fn edit_request_header_with(&mut self, read: Option<&Request>)
        ensures
            final(self)@ == old(self)@.edit_request_header(viewed(read)),
    {
        self.state = AppState::EditingRequestHeader;
        self.update_inputs_with(read);
    }

    /// Goes to `EditingRequestHeader` and fills the request panel from the
    /// selected request, so that the selected header cell is under edit.
    pub fn edit_request_header_state(&mut self)
        ensures
            exists|read: Option<RequestView>|
                final(self)@ == #[trigger] old(self)@.edit_request_header(read),
    {
        let read = self.read_selected_request();
        self.edit_request_header_with(read.as_ref());
    }

    /// Where the body of `read` is `Form` or `Multipart`: brings the body tab
    /// to the front, goes to `EditingRequestBodyTable` and fills the request
    /// panel from `read`. Does nothing for another body or where no request
    /// is selected; records the fault where `read` is `None`.
    pub fn edit_request_body_table_with(&mut self, read: Option<&Request>)
        ensures
            final(self)@ == old(self)@.edit_request_body_table(viewed(read)),
    {
        if self.selected_request().is_none() {
            return ;
        }
        match read {
            None => {
                self.fault(LockFault::Request);
            },
            Some(request) => {
                match request.body.classify() {
                    EditFamily::TabularEditable => {},
                    EditFamily::StringEditable => {
                        return ;
                    },
                }
                self.request_param_tab = RequestParamsTabs::Body;
                self.state = AppState::EditingRequestBodyTable;
                self.show_request(request);
            },
        }
    }

    /// Edits the selected request's body as a table, where it is `Form` or
    /// `Multipart`; does nothing otherwise.
    pub fn edit_request_body_table_state(&mut self)
        ensures
            exists|read: Option<RequestView>|
                final(self)@ == #[trigger] old(self)@.edit_request_body_table(read),
    {
        let read = self.read_selected_request();
        self.edit_request_body_table_with(read.as_ref());
    }

    /// Where the body of `read` is `Raw`, `Json`, `Xml` or `Html`: brings the
    /// body tab to the front and goes to `EditingRequestBodyString`. Does
    /// nothing for another body or where no request is selected; records the
    /// fault where `read` is `None`.
    pub fn edit_request_body_string_with(&mut self, read: Option<&Request>)
        ensures
            final(self)@ == old(self)@.edit_request_body_string(viewed(read)),
    {
        if self.selected_request().is_none() {
            return ;
        }
        match read {
            None => {
                self.fault(LockFault::Request);
            },
            Some(request) => {
                match request.body.classify() {
                    EditFamily::StringEditable => {},
                    EditFamily::TabularEditable => {
                        return ;
                    },
                }
                self.request_param_tab = RequestParamsTabs::Body;
                self.state = AppState::EditingRequestBodyString;
            },
        }
    }

    /// Edits the selected request's body as a text, where it is `Raw`,
    /// `Json`, `Xml` or `Html`; does nothing otherwise.
    pub fn edit_request_body_string_state(&mut self)
        ensures
            exists|read: Option<RequestView>|
                final(self)@ == #[trigger] old(self)@.edit_request_body_string(read),
    {
        let read = self.read_selected_request();
        self.edit_request_body_string_with(read.as_ref());
    }

    /// Goes to `EditingRequestSettings` with the popup's cursor on the first
    /// setting and the settings of `read` as its working copy; the copy stays
    /// as it is where no request is selected. Records the fault where a
    /// request is selected and `read` is `None`.
    pub fn edit_request_settings_with(&mut self, read: Option<&Request>)
        ensures
            final(self)@ == old(self)@.edit_request_settings(viewed(read)),
    {
        if self.selected_request().is_some() {
            match read {
                None => {
                    self.fault(LockFault::Request);
                    return ;
                },
                Some(request) => {
                    self.request_settings_popup.settings = copy_settings(&request.settings);
                },
            }
        }
        self.request_settings_popup.selection = 0;
        self.state = AppState::EditingRequestSettings;
    }

    /// Opens the settings popup on a copy of the selected request's settings.
    pub fn edit_request_settings_state(&mut self)
        ensures
            exists|read: Option<RequestView>|
                final(self)@ == #[trigger] old(self)@.edit_request_settings(read),
    {
        let read = self.read_selected_request();
        self.edit_request_settings_with(read.as_ref());
    }
}

} // verus!
