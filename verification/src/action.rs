use vstd::prelude::*;
use crate::mode::Mode;

verus! {

/// A request for the application to do something: what key bindings produce,
/// what the event loop queues, and what handling one action may queue next.
#[derive(Debug, Clone, PartialEq, Eq, Hash)]
pub enum Action {
    Tick,
    Render,
    KeyRefresh,
    Resize(u16, u16),
    Suspend,
    Resume,
    Quit,
    Init,
    Refresh,
    NextTab,
    PreviousTab,
    ShowErrorPopup(String),
    ShowInfoPopup(String),
    ClosePopup,
    Help,
    GetCrates,
    SwitchMode(Mode),
    SwitchToLastMode,
    HandleFilterPromptChange,
    IncrementPage,
    DecrementPage,
    NextSummaryMode,
    PreviousSummaryMode,
    ToggleSortBy { reload: bool, forward: bool },
    ScrollBottom,
    ScrollTop,
    ScrollDown,
    ScrollUp,
    ScrollCrateInfoDown,
    ScrollCrateInfoUp,
    ScrollSearchResultsDown,
    ScrollSearchResultsUp,
    SubmitSearch,
    UpdateSearchTableResults,
    UpdateSummary,
    UpdateCurrentSelectionCrateInfo,
    UpdateCurrentSelectionSummary,
    ReloadData,
    ToggleShowCrateInfo,
    StoreTotalNumberOfCrates(u64),
    ClearTaskDetailsHandle(String),
    CopyCargoAddCommandToClipboard,
    OpenDocsUrlInBrowser,
    OpenCratesIOUrlInBrowser,
    ShowFullCrateInfo,
    EnterSearchInsertMode,
    EnterFilterInsertMode,
    EnterNormal,
}

} // verus!
