use vstd::prelude::*;

verus! {

/// The interaction mode of the application, which decides how keys and
/// actions are interpreted.
#[derive(Debug, Clone, Copy, PartialEq, Eq, Hash, Structural)]
pub enum Mode {
    Search,
    Filter,
    Picker,
    Popup,
    Quit,
}

impl Default for Mode {
    /// The application starts in search mode.
    fn default() -> (m: Self)
        ensures
            m == Mode::Search,
    {
        Mode::Search
    }
}

} // verus!
