//! The provider slot: at most one provider is active, and switching backend
//! first disconnects and drops the current one.
use vstd::prelude::*;
use crate::ipc::same_text;

verus! {

/// The provider implementations that can occupy the slot.
#[derive(Clone, Copy, Debug, PartialEq, Eq, Structural)]
pub enum BackendKind {
    /// The bridge that supervises the engine process.
    Baileys,
    /// The provider backed by the native protocol client.
    Rust,
}

/// What a backend name selects.
#[derive(Clone, Copy, Debug, PartialEq, Eq, Structural)]
pub enum BackendChoice {
    /// A provider to construct and initialize.
    Provider(BackendKind),
    /// A backend that is announced but has no adapter yet: nothing is
    /// installed, and setup succeeds.
    Announced,
    /// An unknown name.
    Unsupported,
}

pub open spec fn choice_of(name: Seq<char>) -> BackendChoice {
    if name == "baileys"@ {
        BackendChoice::Provider(BackendKind::Baileys)
    } else if name == "rust"@ {
        BackendChoice::Provider(BackendKind::Rust)
    } else if name == "wwebjs"@ || name == "whatsapp-web.js"@ {
        BackendChoice::Announced
    } else {
        BackendChoice::Unsupported
    }
}

/// Reads a backend name.
pub fn choose_backend(name: &str) -> (r: BackendChoice)
    ensures
        r == choice_of(name@),
{
    if same_text(name, "baileys") {
        BackendChoice::Provider(BackendKind::Baileys)
    } else if same_text(name, "rust") {
        BackendChoice::Provider(BackendKind::Rust)
    } else if same_text(name, "wwebjs") || same_text(name, "whatsapp-web.js") {
        BackendChoice::Announced
    } else {
        BackendChoice::Unsupported
    }
}

/// Whether a frontend name asks for the browser to be launched first.
pub fn wants_browser(frontend: &str) -> (r: bool)
    ensures
        r == (frontend@ == "chrome"@),
{
    same_text(frontend, "chrome")
}

/// One step of a setup, performed by the host in the order given.
#[derive(Clone, Copy, Debug, PartialEq, Eq, Structural)]
pub enum SlotStep {
    /// Disconnect this provider and drop it; its failure is ignored.
    Disconnect(BackendKind),
    /// Construct and initialize a provider of this kind.
    Initialize(BackendKind),
}

/// Why a setup failed.
#[derive(Clone, Copy, Debug, PartialEq, Eq, Structural)]
pub enum SetupFailure {
    /// The backend name is not known.
    Unsupported,
    /// The provider's initialization failed; the slot stays empty.
    InitializeFailed(BackendKind),
}

/// The steps of a setup that selects `choice` while `active` occupies the slot.
pub open spec fn setup_steps(active: Option<BackendKind>, choice: BackendChoice) -> Seq<SlotStep> {
    let leave = match active {
        Some(k) => seq![SlotStep::Disconnect(k)],
        None => Seq::empty(),
    };
    match choice {
        BackendChoice::Provider(k) => leave.push(SlotStep::Initialize(k)),
        _ => leave,
    }
}

/// The slot. `active` is the provider that is installed; `pending` the one
/// being initialized during a setup.
pub struct ProviderSlot {
    pub active: Option<BackendKind>,
    pub pending: Option<BackendKind>,
    pub refusal: Option<SetupFailure>,
}

impl ProviderSlot {
    /// An empty slot.
    pub fn new() -> (r: ProviderSlot)
        ensures
            r.active is None,
            r.pending is None,
            r.refusal is None,
    {
        ProviderSlot { active: None, pending: None, refusal: None }
    }

    /// Starts a setup for `choice`: the occupant leaves the slot, and the
    /// steps to perform are returned in order: disconnect the occupant if
    /// there is one, then initialize the chosen provider if there is one.
    pub fn begin_setup(&mut self, choice: BackendChoice) -> (r: Vec<SlotStep>)
        ensures
            r@ == setup_steps(old(self).active, choice),
            final(self).active is None,
            final(self).pending == (match choice {
                BackendChoice::Provider(k) => Some(k),
                _ => None::<BackendKind>,
            }),
            final(self).refusal == (match choice {
                BackendChoice::Unsupported => Some(SetupFailure::Unsupported),
                _ => None::<SetupFailure>,
            }),
    {
        let mut steps: Vec<SlotStep> = Vec::new();
        match self.active {
            Some(k) => steps.push(SlotStep::Disconnect(k)),
            None => {},
        }
        self.active = None;
        match choice {
            BackendChoice::Provider(k) => {
                steps.push(SlotStep::Initialize(k));
                self.pending = Some(k);
                self.refusal = None;
            },
            BackendChoice::Announced => {
                self.pending = None;
                self.refusal = None;
            },
            BackendChoice::Unsupported => {
                self.pending = None;
                self.refusal = Some(SetupFailure::Unsupported);
            },
        }
        proof {
            assert(steps@ =~= setup_steps(old(self).active, choice));
        }
        steps
    }

    /// Ends a setup. `initialized` reports the outcome of the `Initialize`
    /// step, if there was one. Only a successful initialization installs the
    /// provider; a failed one leaves the slot empty.
    pub fn finish_setup(&mut self, initialized: bool) -> (r: Result<(), SetupFailure>)
        ensures
            final(self).pending is None,
            final(self).refusal is None,
            match (old(self).refusal, old(self).pending) {
                (Some(f), _) => r == Err::<(), SetupFailure>(f) && final(self).active == old(self).active,
                (None, Some(k)) => if initialized {
                    r is Ok && final(self).active == Some(k)
                } else {
                    r == Err::<(), SetupFailure>(SetupFailure::InitializeFailed(k))
                        && final(self).active is None
                },
                (None, None) => r is Ok && final(self).active == old(self).active,
            },
    {
        let result = match (self.refusal, self.pending) {
            (Some(f), _) => Err(f),
            (None, Some(k)) => if initialized {
                self.active = Some(k);
                Ok(())
            } else {
                self.active = None;
                Err(SetupFailure::InitializeFailed(k))
            },
            (None, None) => Ok(()),
        };
        self.pending = None;
        self.refusal = None;
        result
    }

    /// Empties the slot, handing back the provider to disconnect, if any.
    pub fn reset(&mut self) -> (r: Option<BackendKind>)
        ensures
            r == old(self).active,
            final(self).active is None,
            final(self).pending == old(self).pending,
            final(self).refusal == old(self).refusal,
    {
        let r = self.active;
        self.active = None;
        r
    }
}

/// Switching from an active provider `a` to a provider `b` disconnects `a`
/// exactly once, and before `b` is initialized; nothing else is disconnected
/// or initialized.
pub proof fn lemma_switch_disconnects_once(a: BackendKind, b: BackendKind)
    ensures
        setup_steps(Some(a), BackendChoice::Provider(b)) == seq![
            SlotStep::Disconnect(a),
            SlotStep::Initialize(b),
        ],
        forall|i: int|
            0 <= i < setup_steps(Some(a), BackendChoice::Provider(b)).len() && (#[trigger] setup_steps(
                Some(a),
                BackendChoice::Provider(b),
            )[i] is Disconnect) ==> i == 0,
{
    let steps = setup_steps(Some(a), BackendChoice::Provider(b));
    assert(steps =~= seq![SlotStep::Disconnect(a), SlotStep::Initialize(b)]);
}

/// A setup on an empty slot disconnects nothing.
pub proof fn lemma_nothing_to_disconnect(choice: BackendChoice)
    ensures
        forall|i: int|
            0 <= i < setup_steps(None, choice).len() ==> !(setup_steps(None, choice)[i] is Disconnect),
{
}

} // verus!
