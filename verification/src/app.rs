use vstd::prelude::*;
use std::sync::Arc;
use std::sync::RwLock;
use crate::app_states::AppState;
use crate::cookies::CookieJar;
use crate::key_value::views;
use crate::request::Request;
use crate::request::Setting;
use crate::request::SettingView;
use crate::table::StatefulCustomTable;
use crate::table::TableView;
use crate::text_input::TextInput;
use crate::text_input::TextInputView;

verus! {

/// The tab of the request panel that is in front.
#[derive(Clone, Copy, Debug, PartialEq, Eq, Structural)]
pub enum RequestParamsTabs {
    Params,
    Auth,
    Headers,
    Body,
}

/// The shared data whose lock was found poisoned when a transition tried to
/// read it.
#[derive(Clone, Copy, Debug, PartialEq, Eq, Structural)]
pub enum LockFault {
    CookieJar,
    Request,
}

/// A named, ordered group of requests. Each request is shared with the
/// threads that run requests and is read under its lock.
pub struct Collection {
    pub name: String,
    pub requests: Vec<Arc<RwLock<Request>>>,
}

/// What a [`Collection`] holds: its name and its shared requests, each taken
/// as the lock it is, not by what the lock guards at the moment.
#[verifier::ext_equal]
pub struct CollectionView {
    pub name: Seq<char>,
    pub requests: Seq<Arc<RwLock<Request>>>,
}

impl View for Collection {
    type V = CollectionView;

    open spec fn view(&self) -> CollectionView {
        CollectionView { name: self.name@, requests: self.requests@ }
    }
}

/// The tree of collections and requests. `selected` is the path to the
/// highlighted node: empty for none, `[i]` for collection `i`, `[i, j]` for
/// request `j` of collection `i`.
#[derive(Debug)]
pub struct CollectionsTree {
    pub selected: Vec<usize>,
}

/// The popup that lists the cookies: the shared jar and the table that shows
/// a copy of it.
pub struct CookiesPopup {
    pub cookie_store: Arc<RwLock<CookieJar>>,
    pub cookies_table: StatefulCustomTable,
}

/// What a [`CookiesPopup`] holds.
#[verifier::ext_equal]
pub struct CookiesPopupView {
    pub cookie_store: Arc<RwLock<CookieJar>>,
    pub cookies_table: TableView,
}

impl View for CookiesPopup {
    type V = CookiesPopupView;

    open spec fn view(&self) -> CookiesPopupView {
        CookiesPopupView { cookie_store: self.cookie_store, cookies_table: self.cookies_table@ }
    }
}

/// The popup that creates a request; `max_selection` bounds the choice of the
/// collection that will hold it.
#[derive(Clone, Copy, Debug, PartialEq, Eq, Structural)]
pub struct NewRequestPopup {
    pub max_selection: usize,
}

/// A popup that asks for a confirmation; `state` is true once the user has
/// moved to "yes".
#[derive(Clone, Copy, Debug, PartialEq, Eq, Structural)]
pub struct ChoicePopup {
    pub state: bool,
}

/// The popup that edits a request's settings on a working copy of them.
#[derive(Debug)]
pub struct RequestSettingsPopup {
    pub selection: usize,
    pub settings: Vec<Setting>,
}

/// What a [`RequestSettingsPopup`] holds.
#[verifier::ext_equal]
pub struct RequestSettingsPopupView {
    pub selection: usize,
    pub settings: Seq<SettingView>,
}

impl View for RequestSettingsPopup {
    type V = RequestSettingsPopupView;

    open spec fn view(&self) -> RequestSettingsPopupView {
        RequestSettingsPopupView { selection: self.selection, settings: views(self.settings@) }
    }
}

/// The application: the mode, the collections, and the widgets that the modes
/// edit in.
pub struct App {
    pub state: AppState,
    pub collections: Vec<Collection>,
    pub collections_tree: CollectionsTree,
    pub request_param_tab: RequestParamsTabs,
    pub cookies_popup: CookiesPopup,
    pub new_request_popup: NewRequestPopup,
    pub delete_collection_popup: ChoicePopup,
    pub delete_request_popup: ChoicePopup,
    pub request_settings_popup: RequestSettingsPopup,
    pub rename_collection_input: TextInput,
    pub rename_request_input: TextInput,
    pub url_text_input: TextInput,
    pub query_params_table: StatefulCustomTable,
    pub headers_table: StatefulCustomTable,
    pub auth_basic_username_text_input: TextInput,
    pub auth_basic_password_text_input: TextInput,
    pub auth_bearer_token_text_input: TextInput,
    pub body_form_table: StatefulCustomTable,
    pub body_text_input: TextInput,
    /// Set when a transition found a lock poisoned; cleared by whoever has
    /// shown it to the user.
    pub lock_fault: Option<LockFault>,
}

/// What an [`App`] holds. `selected` is the path of the tree's highlighted
/// node.
#[verifier::ext_equal]
pub struct AppView {
    pub state: AppState,
    pub collections: Seq<CollectionView>,
    pub selected: Seq<usize>,
    pub request_param_tab: RequestParamsTabs,
    pub cookies_popup: CookiesPopupView,
    pub new_request_popup: NewRequestPopup,
    pub delete_collection_popup: ChoicePopup,
    pub delete_request_popup: ChoicePopup,
    pub request_settings_popup: RequestSettingsPopupView,
    pub rename_collection_input: TextInputView,
    pub rename_request_input: TextInputView,
    pub url_text_input: TextInputView,
    pub query_params_table: TableView,
    pub headers_table: TableView,
    pub auth_basic_username_text_input: TextInputView,
    pub auth_basic_password_text_input: TextInputView,
    pub auth_bearer_token_text_input: TextInputView,
    pub body_form_table: TableView,
    pub body_text_input: TextInputView,
    pub lock_fault: Option<LockFault>,
}

impl View for App {
    type V = AppView;

    open spec fn view(&self) -> AppView {
        AppView {
            state: self.state,
            collections: views(self.collections@),
            selected: self.collections_tree.selected@,
            request_param_tab: self.request_param_tab,
            cookies_popup: self.cookies_popup@,
            new_request_popup: self.new_request_popup,
            delete_collection_popup: self.delete_collection_popup,
            delete_request_popup: self.delete_request_popup,
            request_settings_popup: self.request_settings_popup@,
            rename_collection_input: self.rename_collection_input@,
            rename_request_input: self.rename_request_input@,
            url_text_input: self.url_text_input@,
            query_params_table: self.query_params_table@,
            headers_table: self.headers_table@,
            auth_basic_username_text_input: self.auth_basic_username_text_input@,
            auth_basic_password_text_input: self.auth_basic_password_text_input@,
            auth_bearer_token_text_input: self.auth_bearer_token_text_input@,
            body_form_table: self.body_form_table@,
            body_text_input: self.body_text_input@,
            lock_fault: self.lock_fault,
        }
    }
}

impl AppView {
    /// The application as it starts: mode `Normal`, no collection, nothing
    /// selected, every widget empty.
    pub open spec fn initial(cookie_store: Arc<RwLock<CookieJar>>) -> AppView {
        AppView {
            state: AppState::Normal,
            collections: Seq::empty(),
            selected: Seq::empty(),
            request_param_tab: RequestParamsTabs::Params,
            cookies_popup: CookiesPopupView { cookie_store, cookies_table: TableView::empty() },
            new_request_popup: NewRequestPopup { max_selection: 0 },
            delete_collection_popup: ChoicePopup { state: false },
            delete_request_popup: ChoicePopup { state: false },
            request_settings_popup: RequestSettingsPopupView {
                selection: 0,
                settings: Seq::empty(),
            },
            rename_collection_input: TextInputView::empty(),
            rename_request_input: TextInputView::empty(),
            url_text_input: TextInputView::empty(),
            query_params_table: TableView::empty(),
            headers_table: TableView::empty(),
            auth_basic_username_text_input: TextInputView::empty(),
            auth_basic_password_text_input: TextInputView::empty(),
            auth_bearer_token_text_input: TextInputView::empty(),
            body_form_table: TableView::empty(),
            body_text_input: TextInputView::empty(),
            lock_fault: None,
        }
    }

    /// The index of the collection that the tree's selection lies in: the
    /// first step of the path, where it names a collection.
    pub open spec fn selected_collection(self) -> Option<usize> {
        if self.selected.len() >= 1 && self.selected[0] < self.collections.len() {
            Some(self.selected[0])
        } else {
            None
        }
    }

    /// The collection and request indices of the selected request: the first
    /// two steps of the path, where they name a request.
    pub open spec fn selected_request(self) -> Option<(usize, usize)> {
        if self.selected.len() >= 2 && self.selected[0] < self.collections.len()
            && self.selected[1] < self.collections[self.selected[0] as int].requests.len() {
            Some((self.selected[0], self.selected[1]))
        } else {
            None
        }
    }

    /// Every selection denotes something that exists: the tree's path is at
    /// most two steps long and names a collection or a request, and each
    /// table's selected row is a row of that table.
    pub open spec fn selections_valid(self) -> bool {
        &&& self.selected.len() <= 2
        &&& self.selected.len() == 1 ==> self.selected_collection() is Some
        &&& self.selected.len() == 2 ==> self.selected_request() is Some
        &&& self.cookies_popup.cookies_table.selection_valid()
        &&& self.query_params_table.selection_valid()
        &&& self.headers_table.selection_valid()
        &&& self.body_form_table.selection_valid()
    }
}

impl App {
    /// A fresh application around the shared cookie jar.
    pub fn new(cookie_store: Arc<RwLock<CookieJar>>) -> (app: App)
        ensures
            app@ == AppView::initial(cookie_store),
    {
        let app = App {
            state: AppState::Normal,
            collections: Vec::new(),
            collections_tree: CollectionsTree { selected: Vec::new() },
            request_param_tab: RequestParamsTabs::Params,
            cookies_popup: CookiesPopup { cookie_store, cookies_table: StatefulCustomTable::new() },
            new_request_popup: NewRequestPopup { max_selection: 0 },
            delete_collection_popup: ChoicePopup { state: false },
            delete_request_popup: ChoicePopup { state: false },
            request_settings_popup: RequestSettingsPopup { selection: 0, settings: Vec::new() },
            rename_collection_input: TextInput::new(),
            rename_request_input: TextInput::new(),
            url_text_input: TextInput::new(),
            query_params_table: StatefulCustomTable::new(),
            headers_table: StatefulCustomTable::new(),
            auth_basic_username_text_input: TextInput::new(),
            auth_basic_password_text_input: TextInput::new(),
            auth_bearer_token_text_input: TextInput::new(),
            body_form_table: StatefulCustomTable::new(),
            body_text_input: TextInput::new(),
            lock_fault: None,
        };
        assert(app@ =~= AppView::initial(cookie_store));
        app
    }

    /// The index of the collection that the tree's selection lies in.
    pub fn selected_collection(&self) -> (index: Option<usize>)
        ensures
            index == self@.selected_collection(),
    {
        let path = &self.collections_tree.selected;
        if path.len() >= 1 && path[0] < self.collections.len() {
            Some(path[0])
        } else {
            None
        }
    }

    /// The collection and request indices of the selected request.
    pub fn selected_request(&self) -> (path: Option<(usize, usize)>)
        ensures
            path == self@.selected_request(),
    {
        let path = &self.collections_tree.selected;
        if path.len() >= 2 && path[0] < self.collections.len() && path[1]
            < self.collections[path[0]].requests.len() {
            Some((path[0], path[1]))
        } else {
            None
        }
    }
}

} // verus!
