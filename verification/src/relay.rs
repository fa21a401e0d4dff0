//! Gated input-type relay: the type-inference side pushes "current input
//! type" updates at any time, visible or not. Every update is cached; it is
//! forwarded to the nested chooser only while the bar is visible, and the
//! moment the bar becomes visible the latest cached value is forwarded once.
//! A value equal to the last one forwarded is not forwarded again. The bar
//! thus never builds chooser list contents while hidden, yet the chooser is
//! accurate the instant it shows.

use vstd::prelude::*;

verus! {

/// Identifier of an input type pushed by the type-inference system.
pub type InputType = u64;

/// Mathematical state of the relay.
#[verifier::ext_equal]
pub struct RelayState {
    /// The most recent update received, visible or not.
    pub pending: Option<InputType>,
    /// The last value forwarded to the chooser: `None` while nothing has
    /// been forwarded yet, `Some(v)` after `v` was forwarded.
    pub forwarded: Option<Option<InputType>>,
}

/// The initial state: nothing received, nothing forwarded.
pub open spec fn relay_init() -> RelayState {
    RelayState { pending: None, forwarded: None }
}

/// State after an update arrives while the bar's visibility is `visible`.
pub open spec fn relay_update(s: RelayState, value: Option<InputType>, visible: bool) -> RelayState {
    RelayState {
        pending: value,
        forwarded: if visible && s.forwarded != Some(value) {
            Some(value)
        } else {
            s.forwarded
        },
    }
}

/// What an update forwards: the value itself, only while visible and only
/// if it differs from the last value forwarded.
pub open spec fn relay_update_forward(
    s: RelayState,
    value: Option<InputType>,
    visible: bool,
) -> Option<Option<InputType>> {
    if visible && s.forwarded != Some(value) {
        Some(value)
    } else {
        None
    }
}

/// State after the bar turns visible.
pub open spec fn relay_show(s: RelayState) -> RelayState {
    RelayState {
        pending: s.pending,
        forwarded: if s.forwarded != Some(s.pending) {
            Some(s.pending)
        } else {
            s.forwarded
        },
    }
}

/// What the turn to visible forwards: the cached value, once, unless it is
/// the last value forwarded.
pub open spec fn relay_show_forward(s: RelayState) -> Option<Option<InputType>> {
    if s.forwarded != Some(s.pending) {
        Some(s.pending)
    } else {
        None
    }
}

/// A value that arrives while the bar is hidden is cached, not forwarded;
/// when the bar next becomes visible (with no further update in between)
/// the chooser receives exactly that value, exactly once. The restriction
/// says only that the value is not already the last one forwarded: for a
/// repeated value the de-duplication rule suppresses the second forward.
pub proof fn lemma_hidden_update_forwarded_on_show(s: RelayState, value: Option<InputType>)
    requires
        s.forwarded != Some(value),
    ensures
        (relay_update_forward(s, value, false) is None),
        relay_show_forward(relay_update(s, value, false)) == Some(value),
        relay_show(relay_update(s, value, false)).forwarded == Some(value),
{
}

/// An update that arrives while the bar is hidden forwards nothing,
/// whatever the state: it only replaces the cached value.
pub proof fn lemma_hidden_update_forwards_nothing(s: RelayState, value: Option<InputType>)
    ensures
        (relay_update_forward(s, value, false) is None),
        relay_update(s, value, false) == (RelayState { pending: value, forwarded: s.forwarded }),
{
}

/// Of several updates that arrive while hidden, the latest wins: the cached
/// value after the run is the last update, whatever came before.
pub proof fn lemma_latest_hidden_update_wins(
    s: RelayState,
    first: Option<InputType>,
    second: Option<InputType>,
)
    ensures
        relay_update(relay_update(s, first, false), second, false).pending == second,
        relay_show_forward(relay_update(relay_update(s, first, false), second, false))
            == if s.forwarded != Some(second) {
            Some(second)
        } else {
            None
        },
{
}

/// The executable relay. Its view is the [`RelayState`] reached by the
/// updates and visibility edges handed to it.
pub struct InputTypeRelay {
    pending: Option<InputType>,
    forwarded: Option<Option<InputType>>,
}

impl View for InputTypeRelay {
    type V = RelayState;

    closed spec fn view(&self) -> RelayState {
        RelayState { pending: self.pending, forwarded: self.forwarded }
    }
}

/// Value equality on optional input types, mirroring spec equality.
fn input_type_eq(a: &Option<InputType>, b: &Option<InputType>) -> (r: bool)
    ensures
        r == (*a == *b),
{
    match (a, b) {
        (None, None) => true,
        (Some(x), Some(y)) => x == y,
        _ => false,
    }
}

impl InputTypeRelay {
    /// A relay with nothing received and nothing forwarded.
    pub fn new() -> (r: Self)
        ensures
            r@ == relay_init(),
    {
        InputTypeRelay { pending: None, forwarded: None }
    }

    /// The most recent update received.
    pub fn pending(&self) -> (v: Option<InputType>)
        ensures
            v == self@.pending,
    {
        self.pending
    }

    /// An update arrived while the bar's visibility is `visible`. Returns
    /// the forward for the chooser, if one fires.
    pub fn on_set_input_type(&mut self, value: Option<InputType>, visible: bool) -> (forward:
        Option<Option<InputType>>)
        ensures
            final(self)@ == relay_update(old(self)@, value, visible),
            forward == relay_update_forward(old(self)@, value, visible),
    {
        self.pending = value;
        if visible {
            self.forward_pending_if_changed()
        } else {
            None
        }
    }

    /// The bar just turned visible: forward the cached value once, unless it
    /// is the last value forwarded.
    pub fn on_became_visible(&mut self) -> (forward: Option<Option<InputType>>)
        ensures
            final(self)@ == relay_show(old(self)@),
            forward == relay_show_forward(old(self)@),
    {
        self.forward_pending_if_changed()
    }

    /// Forward the cached value if it differs from the last one forwarded.
    fn forward_pending_if_changed(&mut self) -> (forward: Option<Option<InputType>>)
        ensures
            final(self)@.pending == old(self)@.pending,
            final(self)@.forwarded == if old(self)@.forwarded != Some(old(self)@.pending) {
                Some(old(self)@.pending)
            } else {
                old(self)@.forwarded
            },
            forward == if old(self)@.forwarded != Some(old(self)@.pending) {
                Some(old(self)@.pending)
            } else {
                Option::<Option<InputType>>::None
            },
    {
        let unchanged = match &self.forwarded {
            Some(last) => input_type_eq(last, &self.pending),
            None => false,
        };
        if unchanged {
            None
        } else {
            self.forwarded = Some(self.pending);
            Some(self.pending)
        }
    }
}

} // verus!
