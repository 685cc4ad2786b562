use vstd::prelude::*;
use crate::app::AppView;
use crate::app::ChoicePopup;
use crate::app::CookiesPopupView;
use crate::app::LockFault;
use crate::app::NewRequestPopup;
use crate::app::RequestParamsTabs;
use crate::app::RequestSettingsPopupView;
use crate::app_states::AppState;
use crate::body::EditFamily;
use crate::cookies::CookieView;
use crate::cookies::rows_of;
use crate::request::RequestView;
use crate::text_input::TextInputView;

verus! {

/// The view of what was read from behind a lock: `None` where the lock was
/// poisoned.
pub open spec fn viewed<T: View>(read: Option<&T>) -> Option<T::V> {
    match read {
        Some(value) => Some(value@),
        None => None,
    }
}

/// Every transition as a function on the view of the application.
///
/// A transition that reads shared data takes what the read gave: `Some` with
/// the copy that was taken under the lock, `None` where the lock was
/// poisoned. Where nothing is selected the read is not looked at.
impl AppView {
    /// Only the mode changes.
    pub open spec fn with_state(self, state: AppState) -> AppView {
        AppView { state, ..self }
    }

    /// Back to `Normal` with the fault recorded; nothing else changes.
    pub open spec fn faulted(self, fault: LockFault) -> AppView {
        AppView { state: AppState::Normal, lock_fault: Some(fault), ..self }
    }

    /// The mode is `Normal`; nothing else changes.
    pub open spec fn normal(self) -> AppView {
        self.with_state(AppState::Normal)
    }

    /// The cookie table's selection goes back to its default; nothing else
    /// changes.
    pub open spec fn cookies_reselected(self) -> AppView {
        AppView {
            cookies_popup: CookiesPopupView {
                cookies_table: self.cookies_popup.cookies_table.reselected(),
                ..self.cookies_popup
            },
            ..self
        }
    }

    /// The cookie table shows one enabled row per cookie, in the jar's order,
    /// with the default selection.
    pub open spec fn display_cookies(self, jar: Option<Seq<CookieView>>) -> AppView {
        match jar {
            None => self.faulted(LockFault::CookieJar),
            Some(cookies) => AppView {
                state: AppState::DisplayingCookies,
                cookies_popup: CookiesPopupView {
                    cookies_table: self.cookies_popup.cookies_table.showing(rows_of(cookies)),
                    ..self.cookies_popup
                },
                ..self
            },
        }
    }

    /// The selected cookie cell's text goes under edit; nothing happens where
    /// the selection denotes no cell.
    pub open spec fn edit_cookie(self) -> AppView {
        match self.cookies_popup.cookies_table.selected_text() {
            None => self,
            Some(text) => AppView {
                state: AppState::EditingCookies,
                cookies_popup: CookiesPopupView {
                    cookies_table: self.cookies_popup.cookies_table.editing(text),
                    ..self.cookies_popup
                },
                ..self
            },
        }
    }

    /// The mode is `CreatingNewCollection`; nothing else changes.
    pub open spec fn create_new_collection(self) -> AppView {
        self.with_state(AppState::CreatingNewCollection)
    }

    /// Nothing happens without a collection to put the request in; otherwise
    /// the popup may choose among all collections.
    pub open spec fn create_new_request(self) -> AppView {
        if self.collections.len() == 0 {
            self
        } else {
            AppView {
                state: AppState::CreatingNewRequest,
                new_request_popup: NewRequestPopup {
                    max_selection: self.collections.len() as usize,
                },
                ..self
            }
        }
    }

    /// The confirmation starts unconfirmed.
    pub open spec fn delete_collection(self) -> AppView {
        AppView {
            state: AppState::DeletingCollection,
            delete_collection_popup: ChoicePopup { state: false },
            ..self
        }
    }

    /// The confirmation starts unconfirmed.
    pub open spec fn delete_request(self) -> AppView {
        AppView {
            state: AppState::DeletingRequest,
            delete_request_popup: ChoicePopup { state: false },
            ..self
        }
    }

    /// The selected collection's name goes under edit; nothing happens where
    /// the selection lies in no collection.
    pub open spec fn rename_collection(self) -> AppView {
        match self.selected_collection() {
            None => self,
            Some(index) => AppView {
                state: AppState::RenamingCollection,
                rename_collection_input: TextInputView::loaded(self.collections[index as int].name),
                ..self
            },
        }
    }

    /// The selected request's name goes under edit; nothing happens where no
    /// request is selected.
    pub open spec fn rename_request(self, read: Option<RequestView>) -> AppView {
        if self.selected_request() is None {
            self
        } else {
            match read {
                None => self.faulted(LockFault::Request),
                Some(request) => AppView {
                    state: AppState::RenamingRequest,
                    rename_request_input: TextInputView::loaded(request.name),
                    ..self
                },
            }
        }
    }

    /// Every widget of the request panel shows `request`.
    pub open spec fn showing_request(self, request: RequestView) -> AppView {
        AppView {
            url_text_input: TextInputView::loaded(request.url),
            query_params_table: self.query_params_table.refreshed(request.params),
            headers_table: self.headers_table.refreshed(request.headers),
            auth_basic_username_text_input: TextInputView::loaded(request.auth.username()),
            auth_basic_password_text_input: TextInputView::loaded(request.auth.password()),
            auth_bearer_token_text_input: TextInputView::loaded(request.auth.bearer_token()),
            body_form_table: self.body_form_table.refreshed(request.body.form()),
            body_text_input: TextInputView::loaded(request.body.text()),
            ..self
        }
    }

    /// The request panel is filled from the selected request; nothing happens
    /// where no request is selected.
    pub open spec fn update_inputs(self, read: Option<RequestView>) -> AppView {
        if self.selected_request() is None {
            self
        } else {
            match read {
                None => self.faulted(LockFault::Request),
                Some(request) => self.showing_request(request),
            }
        }
    }

    /// The mode is `SelectedRequest`, and the request panel is filled from
    /// the selected request where there is one.
    pub open spec fn select_request(self, read: Option<RequestView>) -> AppView {
        self.with_state(AppState::SelectedRequest).update_inputs(read)
    }

    /// The mode is `EditingRequestUrl`; nothing else changes.
    pub open spec fn edit_request_url(self) -> AppView {
        self.with_state(AppState::EditingRequestUrl)
    }

    /// The mode is `EditingRequestParam`, and the request panel is filled
    /// from the selected request where there is one.
    pub open spec fn edit_request_param(self, read: Option<RequestView>) -> AppView {
        self.with_state(AppState::EditingRequestParam).update_inputs(read)
    }

    /// The mode is `EditingRequestAuthUsername`; nothing else changes.
    pub open spec fn edit_request_auth_username(self) -> AppView {
        self.with_state(AppState::EditingRequestAuthUsername)
    }

    /// The mode is `EditingRequestAuthPassword`; nothing else changes.
    pub open spec fn edit_request_auth_password(self) -> AppView {
        self.with_state(AppState::EditingRequestAuthPassword)
    }

    /// The mode is `EditingRequestAuthBearerToken`; nothing else changes.
    pub open spec fn edit_request_auth_bearer_token(self) -> AppView {
        self.with_state(AppState::EditingRequestAuthBearerToken)
    }

    /// The mode is `EditingRequestHeader`, and the request panel is filled
    /// from the selected request where there is one.
    pub open spec fn edit_request_header(self, read: Option<RequestView>) -> AppView {
        self.with_state(AppState::EditingRequestHeader).update_inputs(read)
    }

    /// Only a `Form` or `Multipart` body is edited as a table; nothing happens
    /// for another body or where no request is selected.
    pub open spec fn edit_request_body_table(self, read: Option<RequestView>) -> AppView {
        if self.selected_request() is None {
            self
        } else {
            match read {
                None => self.faulted(LockFault::Request),
                Some(request) => if request.body.family() == EditFamily::TabularEditable {
                    AppView {
                        state: AppState::EditingRequestBodyTable,
                        request_param_tab: RequestParamsTabs::Body,
                        ..self
                    }.showing_request(request)
                } else {
                    self
                },
            }
        }
    }

    /// Only a `Raw`, `Json`, `Xml` or `Html` body is edited as a text; nothing
    /// happens for another body or where no request is selected.
    pub open spec fn edit_request_body_string(self, read: Option<RequestView>) -> AppView {
        if self.selected_request() is None {
            self
        } else {
            match read {
                None => self.faulted(LockFault::Request),
                Some(request) => if request.body.family() == EditFamily::StringEditable {
                    AppView {
                        state: AppState::EditingRequestBodyString,
                        request_param_tab: RequestParamsTabs::Body,
                        ..self
                    }
                } else {
                    self
                },
            }
        }
    }

    /// The popup's cursor goes to the first setting and its working copy is
    /// the selected request's settings; the copy stays as it is where no
    /// request is selected.
    pub open spec fn edit_request_settings(self, read: Option<RequestView>) -> AppView {
        if self.selected_request() is None {
            AppView {
                state: AppState::EditingRequestSettings,
                request_settings_popup: RequestSettingsPopupView {
                    selection: 0,
                    ..self.request_settings_popup
                },
                ..self
            }
        } else {
            match read {
                None => self.faulted(LockFault::Request),
                Some(request) => AppView {
                    state: AppState::EditingRequestSettings,
                    request_settings_popup: RequestSettingsPopupView {
                        selection: 0,
                        settings: request.settings,
                    },
                    ..self
                },
            }
        }
    }
}

/// A transition by name, with what it read where it reads shared data.
pub enum Transition {
    Normal,
    DisplayCookies(Option<Seq<CookieView>>),
    EditCookie,
    CreateNewCollection,
    CreateNewRequest,
    DeleteCollection,
    DeleteRequest,
    RenameCollection,
    RenameRequest(Option<RequestView>),
    SelectRequest(Option<RequestView>),
    EditRequestUrl,
    EditRequestParam(Option<RequestView>),
    EditRequestAuthUsername,
    EditRequestAuthPassword,
    EditRequestAuthBearerToken,
    EditRequestHeader(Option<RequestView>),
    EditRequestBodyTable(Option<RequestView>),
    EditRequestBodyString(Option<RequestView>),
    EditRequestSettings(Option<RequestView>),
}

impl Transition {
    /// The mode that the transition commits where it goes through.
    pub open spec fn target(self) -> AppState {
        match self {
            Transition::Normal => AppState::Normal,
            Transition::DisplayCookies(_) => AppState::DisplayingCookies,
            Transition::EditCookie => AppState::EditingCookies,
            Transition::CreateNewCollection => AppState::CreatingNewCollection,
            Transition::CreateNewRequest => AppState::CreatingNewRequest,
            Transition::DeleteCollection => AppState::DeletingCollection,
            Transition::DeleteRequest => AppState::DeletingRequest,
            Transition::RenameCollection => AppState::RenamingCollection,
            Transition::RenameRequest(_) => AppState::RenamingRequest,
            Transition::SelectRequest(_) => AppState::SelectedRequest,
            Transition::EditRequestUrl => AppState::EditingRequestUrl,
            Transition::EditRequestParam(_) => AppState::EditingRequestParam,
            Transition::EditRequestAuthUsername => AppState::EditingRequestAuthUsername,
            Transition::EditRequestAuthPassword => AppState::EditingRequestAuthPassword,
            Transition::EditRequestAuthBearerToken => AppState::EditingRequestAuthBearerToken,
            Transition::EditRequestHeader(_) => AppState::EditingRequestHeader,
            Transition::EditRequestBodyTable(_) => AppState::EditingRequestBodyTable,
            Transition::EditRequestBodyString(_) => AppState::EditingRequestBodyString,
            Transition::EditRequestSettings(_) => AppState::EditingRequestSettings,
        }
    }
}

impl AppView {
    /// The application after `transition`.
    pub open spec fn step(self, transition: Transition) -> AppView {
        match transition {
            Transition::Normal => self.normal(),
            Transition::DisplayCookies(jar) => self.display_cookies(jar),
            Transition::EditCookie => self.edit_cookie(),
            Transition::CreateNewCollection => self.create_new_collection(),
            Transition::CreateNewRequest => self.create_new_request(),
            Transition::DeleteCollection => self.delete_collection(),
            Transition::DeleteRequest => self.delete_request(),
            Transition::RenameCollection => self.rename_collection(),
            Transition::RenameRequest(read) => self.rename_request(read),
            Transition::SelectRequest(read) => self.select_request(read),
            Transition::EditRequestUrl => self.edit_request_url(),
            Transition::EditRequestParam(read) => self.edit_request_param(read),
            Transition::EditRequestAuthUsername => self.edit_request_auth_username(),
            Transition::EditRequestAuthPassword => self.edit_request_auth_password(),
            Transition::EditRequestAuthBearerToken => self.edit_request_auth_bearer_token(),
            Transition::EditRequestHeader(read) => self.edit_request_header(read),
            Transition::EditRequestBodyTable(read) => self.edit_request_body_table(read),
            Transition::EditRequestBodyString(read) => self.edit_request_body_string(read),
            Transition::EditRequestSettings(read) => self.edit_request_settings(read),
        }
    }
}

} // verus!
