use vstd::prelude::*;

verus! {

/// An event that the application shell sends to its window under a name.
pub trait EventType {
    /// The name the event is sent under.
    spec fn event_name(&self) -> Seq<char>;

    fn name(&self) -> (r: &str)
        ensures
            r@ == self.event_name(),
    ;
}

/// Asks the window to navigate to a route.
#[derive(Clone, Debug)]
pub struct GotoEvent {
    pub goto: String,
}

impl EventType for GotoEvent {
    open spec fn event_name(&self) -> Seq<char> {
        "goto"@
    }

    fn name(&self) -> (r: &str) {
        proof {
            reveal_strlit("goto");
        }
        "goto"
    }
}

} // verus!
