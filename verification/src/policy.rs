//! Presentation pacing policy: the current mode and the pacing capability.
//!
//! Two modes exist.  Fifo presents frames strictly in submission order
//! with at most one frame in flight, which needs a barrier-style pacing
//! capability on the primary surface.  Mailbox submits unthrottled and
//! lets the latest frame win.  Whether the capability was advertised is
//! resolved once at startup and never changes; when Fifo is selected
//! without it, submission silently degrades to unthrottled and only the
//! status text says so.

use vstd::prelude::*;

verus! {

/// The two pacing modes of the presentation policy.
#[derive(Clone, Copy, PartialEq, Eq, Structural, Debug)]
pub enum PresentationMode {
    Fifo,
    Mailbox,
}

/// The other mode: what one press of the toggle key switches to.
pub open spec fn toggled(mode: PresentationMode) -> PresentationMode {
    match mode {
        PresentationMode::Fifo => PresentationMode::Mailbox,
        PresentationMode::Mailbox => PresentationMode::Fifo,
    }
}

/// The status text reported after a mode change: the effective mode,
/// marked "(unavailable)" when Fifo is selected without the capability.
pub open spec fn spec_status_text(mode: PresentationMode, pacing_available: bool) -> Seq<char> {
    match mode {
        PresentationMode::Fifo => if pacing_available {
            "fifo"@
        } else {
            "fifo (unavailable)"@
        },
        PresentationMode::Mailbox => "mailbox"@,
    }
}

/// Current pacing mode together with the startup-resolved capability.
pub struct PresentationPolicy {
    mode: PresentationMode,
    pacing_available: bool,
}

impl PresentationPolicy {
    /// The currently selected pacing mode.
    pub closed spec fn spec_mode(self) -> PresentationMode {
        self.mode
    }

    /// Whether the pacing capability was advertised at startup.
    pub closed spec fn spec_pacing_available(self) -> bool {
        self.pacing_available
    }

    /// A commit waits on a pacing barrier exactly when Fifo is selected
    /// and the capability exists.
    pub open spec fn spec_should_pace(self) -> bool {
        self.spec_mode() is Fifo && self.spec_pacing_available()
    }

    /// Policy at startup: Fifo requested, capability as discovered.
    pub fn new(pacing_available: bool) -> (policy: PresentationPolicy)
        ensures
            policy.spec_mode() is Fifo,
            policy.spec_pacing_available() == pacing_available,
    {
        PresentationPolicy { mode: PresentationMode::Fifo, pacing_available }
    }

    /// The currently selected pacing mode.
    pub fn mode(&self) -> (mode: PresentationMode)
        ensures
            mode == self.spec_mode(),
    {
        self.mode
    }

    /// Whether the pacing capability was advertised at startup.
    pub fn pacing_available(&self) -> (r: bool)
        ensures
            r == self.spec_pacing_available(),
    {
        self.pacing_available
    }

    /// Switch to the other mode.  Takes effect from the next render step;
    /// the capability flag never changes after startup.
    pub fn toggle(&mut self)
        ensures
            final(self).spec_mode() == toggled(old(self).spec_mode()),
            final(self).spec_pacing_available() == old(self).spec_pacing_available(),
    {
        self.mode = match self.mode {
            PresentationMode::Fifo => PresentationMode::Mailbox,
            PresentationMode::Mailbox => PresentationMode::Fifo,
        };
    }

    /// Whether the next commit must set and wait on a pacing barrier.
    pub fn should_pace(&self) -> (r: bool)
        ensures
            r == self.spec_should_pace(),
    {
        match self.mode {
            PresentationMode::Fifo => self.pacing_available,
            PresentationMode::Mailbox => false,
        }
    }

    /// The status text naming the effective mode, marking Fifo
    /// "(unavailable)" when the capability is missing.
    pub fn status_text(&self) -> (text: &'static str)
        ensures
            text@ == spec_status_text(self.spec_mode(), self.spec_pacing_available()),
    {
        match self.mode {
            PresentationMode::Fifo => if self.pacing_available {
                "fifo"
            } else {
                "fifo (unavailable)"
            },
            PresentationMode::Mailbox => "mailbox",
        }
    }
}

/// Toggling the presentation mode twice returns to the original mode.
pub proof fn lemma_toggle_involutive(mode: PresentationMode)
    ensures
        toggled(toggled(mode)) == mode,
{
}

/// The status reported for a Fifo selection differs between the
/// pacing-available and pacing-unavailable cases.
pub proof fn lemma_status_marks_unavailability(mode: PresentationMode)
    requires
        mode is Fifo,
    ensures
        spec_status_text(mode, true) != spec_status_text(mode, false),
{
    reveal_strlit("fifo");
    reveal_strlit("fifo (unavailable)");
    assert(spec_status_text(mode, true).len() != spec_status_text(mode, false).len());
}

} // verus!
