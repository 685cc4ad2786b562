use vstd::prelude::*;

verus! {

/// The mode the user interface is in. The renderer draws by it and the input
/// handler routes keys by it.
#[derive(Clone, Copy, Debug, PartialEq, Eq, Structural)]
pub enum AppState {
    Normal,
    DisplayingCookies,
    EditingCookies,
    CreatingNewCollection,
    CreatingNewRequest,
    DeletingCollection,
    DeletingRequest,
    RenamingCollection,
    RenamingRequest,
    SelectedRequest,
    EditingRequestUrl,
    EditingRequestParam,
    EditingRequestAuthUsername,
    EditingRequestAuthPassword,
    EditingRequestAuthBearerToken,
    EditingRequestHeader,
    EditingRequestBodyTable,
    EditingRequestBodyString,
    EditingRequestSettings,
}

impl AppState {
    /// Whether the user interface is in `mode`.
    pub open spec fn active(self, mode: AppState) -> bool {
        self == mode
    }
}

} // verus!
