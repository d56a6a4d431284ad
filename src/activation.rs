//! The activation controller: which model is selected, and whether a session
//! for it is absent, being built, ready or generating. Builds run elsewhere;
//! each is identified by a ticket, so that a build that a later activation
//! superseded is never installed.
use vstd::prelude::*;

use crate::catalog::{has_id, ModelCatalog};
use crate::text::{owned, same_text};

verus! {

/// Why a model cannot be activated.
#[derive(PartialEq, Eq, Structural, Clone, Copy, Debug)]
pub enum ActivationError {
    /// The catalog does not list the model.
    ModelNotAvailable,
    /// The model's file is not on disk.
    ModelNotDownloaded,
}

/// The state of the session of the selected model.
#[derive(PartialEq, Eq, Structural, Clone, Copy, Debug)]
pub enum SessionSlot {
    /// There is no session: none was built, or its build failed.
    Absent,
    /// The session is being built, under `ticket`.
    Loading { ticket: u64 },
    /// The session is idle.
    Ready,
    /// The session is generating a reply.
    Generating,
}

/// What an accepted activation asks for.
#[derive(PartialEq, Eq, Structural, Clone, Copy, Debug)]
pub enum Activation {
    /// The model is already active, with a session built or being built.
    AlreadyActive,
    /// Build a session for the model, under `ticket`.
    Build { ticket: u64 },
}

/// What became of a finished build.
#[derive(PartialEq, Eq, Structural, Clone, Copy, Debug)]
pub enum Installed {
    /// The session is the active one now.
    Installed,
    /// The build failed; there is no session.
    Failed,
    /// A later activation superseded the build: drop its session.
    Superseded,
}

/// Why a generation cannot start now.
#[derive(PartialEq, Eq, Structural, Clone, Copy, Debug)]
pub enum NotReady {
    /// The session is generating another reply: the caller waits for it to
    /// end and asks again.
    Busy,
    /// There is no session: none was built, its build failed, or it is
    /// still being built.
    NoSession,
}

/// Whether a model is selected and present.
#[derive(PartialEq, Eq, Structural, Clone, Copy, Debug)]
pub enum ModelStatus {
    Unset,
    Selected,
}

/// The selected model and the state of its session.
pub struct Controller {
    /// Identifier of the selected model; empty while none is selected.
    pub active_model: String,
    pub slot: SessionSlot,
    /// Ticket of the next build.
    pub next_ticket: u64,
}

/// What a `Controller` holds, as mathematical values.
pub ghost struct ControllerView {
    pub active_model: Seq<char>,
    pub slot: SessionSlot,
    pub next_ticket: u64,
}

impl View for Controller {
    type V = ControllerView;

    open spec fn view(&self) -> ControllerView {
        ControllerView { active_model: self.active_model@, slot: self.slot, next_ticket: self.next_ticket }
    }
}

/// The ticket after `t`, wrapping to 0.
pub open spec fn ticket_after(t: u64) -> u64 {
    if t == u64::MAX {
        0
    } else {
        (t + 1) as u64
    }
}

/// The state after, and the answer to, activating the model `id` from state
/// `s`, where `listed` tells whether the catalog lists it and `downloaded`
/// whether its file is on disk.
pub open spec fn activate_spec(s: ControllerView, listed: bool, id: Seq<char>, downloaded: bool) -> (
    ControllerView,
    Result<Activation, ActivationError>,
) {
    if !listed {
        (s, Err(ActivationError::ModelNotAvailable))
    } else if !downloaded {
        (s, Err(ActivationError::ModelNotDownloaded))
    } else if s.active_model == id && s.slot != SessionSlot::Absent {
        (s, Ok(Activation::AlreadyActive))
    } else {
        (
            ControllerView {
                active_model: id,
                slot: SessionSlot::Loading { ticket: s.next_ticket },
                next_ticket: ticket_after(s.next_ticket),
            },
            Ok(Activation::Build { ticket: s.next_ticket }),
        )
    }
}

/// How many session builds the answer `o` asks for.
pub open spec fn builds(o: Result<Activation, ActivationError>) -> int {
    match o {
        Ok(Activation::Build { .. }) => 1,
        _ => 0,
    }
}

/// Whether the model `model_name` is a valid choice: listed in `catalog`,
/// and its file on disk (`downloaded`).
pub fn validate_model(catalog: &ModelCatalog, model_name: &str, downloaded: bool) -> (r: Result<
    (),
    ActivationError,
>)
    ensures
        !has_id(catalog@, model_name@) <==> r == Err::<(), ActivationError>(ActivationError::ModelNotAvailable),
        has_id(catalog@, model_name@) && !downloaded <==> r == Err::<(), ActivationError>(
            ActivationError::ModelNotDownloaded,
        ),
        r is Ok <==> has_id(catalog@, model_name@) && downloaded,
{
    if !catalog.contains(model_name) {
        return Err(ActivationError::ModelNotAvailable);
    }
    if !downloaded {
        return Err(ActivationError::ModelNotDownloaded);
    }
    Ok(())
}

/// The status of the selected model `name`, given whether its file is on
/// disk: set only if a model is selected and present.
pub fn model_status(name: &str, downloaded: bool) -> (r: ModelStatus)
    ensures
        r == (if name@.len() > 0 && downloaded {
            ModelStatus::Selected
        } else {
            ModelStatus::Unset
        }),
{
    if name.unicode_len() > 0 && downloaded {
        ModelStatus::Selected
    } else {
        ModelStatus::Unset
    }
}

impl Controller {
    /// A controller with `model_name` selected and no session.
    pub fn new(model_name: &str) -> (r: Controller)
        ensures
            r.active_model@ == model_name@,
            r.slot == SessionSlot::Absent,
            r.next_ticket == 0,
    {
        Controller { active_model: owned(model_name), slot: SessionSlot::Absent, next_ticket: 0 }
    }

    /// Takes a ticket for a build.
    fn take_ticket(&mut self) -> (r: u64)
        ensures
            r == old(self).next_ticket,
            final(self).next_ticket == ticket_after(old(self).next_ticket),
            final(self).active_model == old(self).active_model,
            final(self).slot == old(self).slot,
    {
        let t = self.next_ticket;
        self.next_ticket = if t == u64::MAX {
            0
        } else {
            t + 1
        };
        t
    }

    /// Activates the model `model_id`. A model the catalog does not list, or
    /// whose file is not on disk (`downloaded`), is refused and nothing
    /// changes. A model already active with its session built or being built
    /// needs nothing. Otherwise the current session is retired, the model
    /// selected, and a build of its session asked for.
    pub fn activate(&mut self, catalog: &ModelCatalog, model_id: &str, downloaded: bool) -> (r: Result<
        Activation,
        ActivationError,
    >)
        ensures
            (final(self)@, r) == activate_spec(old(self)@, has_id(catalog@, model_id@), model_id@, downloaded),
    {
        validate_model(catalog, model_id, downloaded)?;
        if same_text(self.active_model.as_str(), model_id) && self.slot != SessionSlot::Absent {
            return Ok(Activation::AlreadyActive);
        }
        let ticket = self.take_ticket();
        self.active_model = owned(model_id);
        self.slot = SessionSlot::Loading { ticket };
        Ok(Activation::Build { ticket })
    }

    /// Asks for a build of the selected model's session if there is none:
    /// the ticket of that build, or `None` if no model is selected or a
    /// session exists or is being built.
    pub fn ensure_session(&mut self) -> (r: Option<u64>)
        ensures
            old(self).slot == SessionSlot::Absent && old(self).active_model@.len() > 0 ==> {
                &&& r == Some(old(self).next_ticket)
                &&& final(self).slot == (SessionSlot::Loading { ticket: old(self).next_ticket })
                &&& final(self).next_ticket == ticket_after(old(self).next_ticket)
                &&& final(self).active_model == old(self).active_model
            },
            !(old(self).slot == SessionSlot::Absent && old(self).active_model@.len() > 0) ==> r is None
                && final(self)@ == old(self)@,
    {
        if self.slot == SessionSlot::Absent && self.active_model.unicode_len() > 0 {
            let ticket = self.take_ticket();
            self.slot = SessionSlot::Loading { ticket };
            Some(ticket)
        } else {
            None
        }
    }

    /// A build under `ticket` ended, with a session (`ok`) or without. Only
    /// the build the controller waits for is installed.
    pub fn install(&mut self, ticket: u64, ok: bool) -> (r: Installed)
        ensures
            final(self).active_model == old(self).active_model,
            final(self).next_ticket == old(self).next_ticket,
            old(self).slot == (SessionSlot::Loading { ticket }) ==> {
                &&& ok ==> r == Installed::Installed && final(self).slot == SessionSlot::Ready
                &&& !ok ==> r == Installed::Failed && final(self).slot == SessionSlot::Absent
            },
            old(self).slot != (SessionSlot::Loading { ticket }) ==> r == Installed::Superseded
                && final(self).slot == old(self).slot,
    {
        if self.slot == (SessionSlot::Loading { ticket }) {
            if ok {
                self.slot = SessionSlot::Ready;
                Installed::Installed
            } else {
                self.slot = SessionSlot::Absent;
                Installed::Failed
            }
        } else {
            Installed::Superseded
        }
    }

    /// Claims the idle session for one generation. A session that is
    /// generating another reply is busy; an absent or loading one is no
    /// session. When the claim fails nothing changes.
    pub fn begin_generate(&mut self) -> (r: Result<(), NotReady>)
        ensures
            final(self).active_model == old(self).active_model,
            final(self).next_ticket == old(self).next_ticket,
            old(self).slot == SessionSlot::Ready <==> r is Ok,
            old(self).slot == SessionSlot::Generating <==> r == Err::<(), NotReady>(NotReady::Busy),
            (old(self).slot == SessionSlot::Absent || old(self).slot is Loading) <==> r == Err::<
                (),
                NotReady,
            >(NotReady::NoSession),
            r is Ok ==> final(self).slot == SessionSlot::Generating,
            r is Err ==> final(self).slot == old(self).slot,
    {
        match self.slot {
            SessionSlot::Ready => {
                self.slot = SessionSlot::Generating;
                Ok(())
            },
            SessionSlot::Generating => Err(NotReady::Busy),
            _ => Err(NotReady::NoSession),
        }
    }

    /// The generation ended: the session is idle again, unless it was
    /// retired meanwhile.
    pub fn end_generate(&mut self)
        ensures
            final(self).active_model == old(self).active_model,
            final(self).next_ticket == old(self).next_ticket,
            old(self).slot == SessionSlot::Generating ==> final(self).slot == SessionSlot::Ready,
            old(self).slot != SessionSlot::Generating ==> final(self).slot == old(self).slot,
    {
        if self.slot == SessionSlot::Generating {
            self.slot = SessionSlot::Ready;
        }
    }

    /// The model `model_name` was deleted from disk. If it was the selected
    /// one, nothing is selected any more and its session is dropped; the
    /// answer tells whether the cleared selection must be persisted.
    pub fn model_deleted(&mut self, model_name: &str) -> (r: bool)
        ensures
            r == (old(self).active_model@ == model_name@),
            r ==> final(self).active_model@.len() == 0 && final(self).slot == SessionSlot::Absent,
            !r ==> final(self)@ == old(self)@,
            final(self).next_ticket == old(self).next_ticket,
    {
        if same_text(self.active_model.as_str(), model_name) {
            self.active_model = String::new();
            self.slot = SessionSlot::Absent;
            true
        } else {
            false
        }
    }
}

/// Activation is idempotent: activating the same model twice in a row, with
/// nothing in between, asks for at most one session build. The second call
/// never builds and changes nothing; the first builds exactly when the model
/// is valid and not already active with a session.
pub proof fn lemma_activation_idempotent(s: ControllerView, listed: bool, id: Seq<char>, downloaded: bool)
    ensures
        ({
            let (s1, o1) = activate_spec(s, listed, id, downloaded);
            let (s2, o2) = activate_spec(s1, listed, id, downloaded);
            &&& builds(o2) == 0
            &&& s2 == s1
            &&& o1 is Ok ==> o2 == Ok::<Activation, ActivationError>(Activation::AlreadyActive)
            &&& o1 is Err ==> o2 == o1
            &&& builds(o1) + builds(o2) == (if listed && downloaded && !(s.active_model == id && s.slot
                != SessionSlot::Absent) {
                1int
            } else {
                0int
            })
        }),
{
}

/// A refused activation changes nothing: with an unlisted model, or one not
/// on disk, the selection and the session stay as they were.
pub proof fn lemma_refused_activation_keeps_state(
    s: ControllerView,
    listed: bool,
    id: Seq<char>,
    downloaded: bool,
)
    requires
        !listed || !downloaded,
    ensures
        activate_spec(s, listed, id, downloaded).0 == s,
        activate_spec(s, listed, id, downloaded).1 is Err,
{
}

} // verus!
