//! The UI state coordinator: the island's expansion flag and mode
//! descriptor, mutated only through operations that validate their inputs
//! and update the shared state in one atomic step.
//!
//! Setting the island mode persists the descriptor into the coordinator's
//! state (last write wins) rather than merely recording it, and unknown
//! descriptors are rejected; this is the stricter of the two readings of
//! the operation, chosen deliberately.
//!
//! The coordinator also carries the poisoning policy of its guard: once a
//! holder has terminated abnormally, every later operation that needs the
//! guard fails fast with `LockFailure` instead of deadlocking.
use vstd::prelude::*;

use crate::errors::IslandError;

verus! {

/// How large the island renders.
#[derive(Debug, Clone, Copy, PartialEq, Eq, Structural)]
pub enum IslandMode {
    Compact,
    Expanded,
    Activity,
}

/// What kind of content the island displays.
#[derive(Debug, Clone, Copy, PartialEq, Eq, Structural)]
pub enum ContentType {
    System,
    Music,
    Notification,
    Timer,
}

/// Declares serde_json's value type so a payload can stand in a field.
/// The payload is opaque to this crate: it is stored and handed back, never
/// inspected.
#[verifier::external_type_specification]
#[verifier::external_body]
pub struct ExValue(serde_json::Value);

/// Relies on serde_json::Value::Null: plain constructor of the empty payload.
#[verifier::external_body]
fn null_payload() -> (r: serde_json::Value) {
    serde_json::Value::Null
}

/// The island's display state: mode, content kind, and the opaque payload
/// whose shape depends on the content kind.
#[derive(Debug)]
pub struct IslandState {
    pub mode: IslandMode,
    pub content_type: ContentType,
    pub payload: serde_json::Value,
}

/// The mode a descriptor string denotes, if any.
pub open spec fn mode_of(s: Seq<char>) -> Option<IslandMode> {
    if s == "compact"@ {
        Some(IslandMode::Compact)
    } else if s == "expanded"@ {
        Some(IslandMode::Expanded)
    } else if s == "activity"@ {
        Some(IslandMode::Activity)
    } else {
        None
    }
}

/// The content kind a descriptor string denotes, if any.
pub open spec fn content_of(s: Seq<char>) -> Option<ContentType> {
    if s == "system"@ {
        Some(ContentType::System)
    } else if s == "music"@ {
        Some(ContentType::Music)
    } else if s == "notification"@ {
        Some(ContentType::Notification)
    } else if s == "timer"@ {
        Some(ContentType::Timer)
    } else {
        None
    }
}

/// Parses a mode descriptor; exactly the three domain values are accepted.
pub fn mode_from_str(s: &str) -> (r: Option<IslandMode>)
    ensures
        r == mode_of(s@),
{
    let t = s.to_owned();
    if t == String::from_str("compact") {
        Some(IslandMode::Compact)
    } else if t == String::from_str("expanded") {
        Some(IslandMode::Expanded)
    } else if t == String::from_str("activity") {
        Some(IslandMode::Activity)
    } else {
        None
    }
}

/// Parses a content-type descriptor; exactly the four domain values are
/// accepted.
pub fn content_from_str(s: &str) -> (r: Option<ContentType>)
    ensures
        r == content_of(s@),
{
    let t = s.to_owned();
    if t == String::from_str("system") {
        Some(ContentType::System)
    } else if t == String::from_str("music") {
        Some(ContentType::Music)
    } else if t == String::from_str("notification") {
        Some(ContentType::Notification)
    } else if t == String::from_str("timer") {
        Some(ContentType::Timer)
    } else {
        None
    }
}

/// Process-wide UI state: the expansion flag and the island descriptor,
/// together with the poisoning status of their guard.
pub struct Coordinator {
    poisoned: bool,
    expanded: bool,
    island: IslandState,
}

impl Coordinator {
    /// Whether the guard is poisoned: a prior holder terminated abnormally.
    pub closed spec fn spec_poisoned(&self) -> bool {
        self.poisoned
    }

    /// The current value of the expansion flag.
    pub closed spec fn spec_expanded(&self) -> bool {
        self.expanded
    }

    /// The island's current mode.
    pub closed spec fn spec_mode(&self) -> IslandMode {
        self.island.mode
    }

    /// The island's current content kind.
    pub closed spec fn spec_content(&self) -> ContentType {
        self.island.content_type
    }

    /// The island's current opaque payload.
    pub closed spec fn spec_payload(&self) -> serde_json::Value {
        self.island.payload
    }

    /// A fresh coordinator: collapsed, compact, showing system content.
    pub fn new() -> (c: Coordinator)
        ensures
            !c.spec_poisoned(),
            !c.spec_expanded(),
            c.spec_mode() == IslandMode::Compact,
            c.spec_content() == ContentType::System,
    {
        Coordinator {
            poisoned: false,
            expanded: false,
            island: IslandState {
                mode: IslandMode::Compact,
                content_type: ContentType::System,
                payload: null_payload(),
            },
        }
    }

    /// Flips the expansion flag in one read-modify-write step and returns
    /// the new value; fails fast with `LockFailure` on a poisoned guard,
    /// leaving everything unchanged.
    pub fn toggle_expansion(&mut self) -> (r: Result<bool, IslandError>)
        ensures
            old(self).spec_poisoned() ==> {
                &&& r is Err
                &&& r->Err_0 == IslandError::LockFailure
                &&& final(self).spec_expanded() == old(self).spec_expanded()
            },
            !old(self).spec_poisoned() ==> {
                &&& r is Ok
                &&& r->Ok_0 == !old(self).spec_expanded()
                &&& final(self).spec_expanded() == !old(self).spec_expanded()
            },
            final(self).spec_poisoned() == old(self).spec_poisoned(),
            final(self).spec_mode() == old(self).spec_mode(),
            final(self).spec_content() == old(self).spec_content(),
            final(self).spec_payload() == old(self).spec_payload(),
    {
        if self.poisoned {
            Err(IslandError::LockFailure)
        } else {
            self.expanded = !self.expanded;
            Ok(self.expanded)
        }
    }

    /// Validates the two descriptors against their closed domains and, on
    /// success, stores them in one atomic step (last write wins). Unknown
    /// descriptors are rejected with `InvalidArgument` before the guard is
    /// taken; a poisoned guard fails with `LockFailure`. A failed call
    /// leaves the state unchanged; the payload is never touched.
    pub fn set_mode(&mut self, mode: &str, content_type: &str) -> (r: Result<
        (),
        IslandError,
    >)
        ensures
            r is Ok <==> mode_of(mode@) is Some && content_of(content_type@) is Some
                && !old(self).spec_poisoned(),
            (mode_of(mode@) is None || content_of(content_type@) is None) ==> r
                == Err::<(), IslandError>(IslandError::InvalidArgument),
            mode_of(mode@) is Some && content_of(content_type@) is Some && old(
                self,
            ).spec_poisoned() ==> r == Err::<(), IslandError>(IslandError::LockFailure),
            r is Ok ==> final(self).spec_mode() == mode_of(mode@)->0
                && final(self).spec_content() == content_of(content_type@)->0,
            r is Err ==> final(self).spec_mode() == old(self).spec_mode()
                && final(self).spec_content() == old(self).spec_content(),
            final(self).spec_poisoned() == old(self).spec_poisoned(),
            final(self).spec_expanded() == old(self).spec_expanded(),
            final(self).spec_payload() == old(self).spec_payload(),
    {
        let parsed_mode = mode_from_str(mode);
        let parsed_content = content_from_str(content_type);
        match (parsed_mode, parsed_content) {
            (Some(m), Some(c)) => {
                if self.poisoned {
                    Err(IslandError::LockFailure)
                } else {
                    self.island.mode = m;
                    self.island.content_type = c;
                    Ok(())
                }
            },
            _ => Err(IslandError::InvalidArgument),
        }
    }

    /// Models a holder of the guard terminating abnormally while holding
    /// it: from here on, guarded operations fail fast with `LockFailure`.
    pub fn poison(&mut self)
        ensures
            final(self).spec_poisoned(),
            final(self).spec_expanded() == old(self).spec_expanded(),
            final(self).spec_mode() == old(self).spec_mode(),
            final(self).spec_content() == old(self).spec_content(),
            final(self).spec_payload() == old(self).spec_payload(),
    {
        self.poisoned = true;
    }

    /// Reads the expansion flag.
    pub fn is_expanded(&self) -> (b: bool)
        ensures
            b == self.spec_expanded(),
    {
        self.expanded
    }

    /// Reads the island's mode.
    pub fn mode(&self) -> (m: IslandMode)
        ensures
            m == self.spec_mode(),
    {
        self.island.mode
    }

    /// Reads the island's content kind.
    pub fn content_type(&self) -> (c: ContentType)
        ensures
            c == self.spec_content(),
    {
        self.island.content_type
    }
}

/// The flag value after `n` completed toggles starting from `init`.
pub open spec fn toggled(init: bool, n: nat) -> bool
    decreases n,
{
    if n == 0 {
        init
    } else {
        !toggled(init, (n - 1) as nat)
    }
}

/// Law: a sequence of `n` completed toggles — in any interleaving, since
/// each is one atomic read-modify-write — leaves the flag at the initial
/// value exactly when `n` is even; no update is lost.
pub proof fn lemma_toggle_parity(init: bool, n: nat)
    ensures
        toggled(init, n) == (init != (n % 2 == 1)),
    decreases n,
{
    if n > 0 {
        lemma_toggle_parity(init, (n - 1) as nat);
    }
}

} // verus!
