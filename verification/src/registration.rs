//! The two-step registration protocol, driven as a state machine.
//!
//! Initialization registers the application identity with the backend,
//! then a logging context, then installs the bridge logger as the
//! process-wide sink — each step only after the one before returned
//! success. The native calls and the sink install cannot be made here,
//! so the protocol is a machine: `Registrar::start` and
//! `Registrar::advance` decide, from the texts and from each outcome
//! the driver reports back, which request comes next or how the run
//! ends. The driver performs each requested action and feeds the
//! outcome back in; it decides nothing itself.

use vstd::prelude::*;
use vstd::string::StringExecFns;
use crate::errors::{DltReturnValue, InitializeError};
use crate::text::{contains_nul, first_nul_position, marshal, NativeText};

verus! {

/// Where a registration run stands.
#[derive(Clone, Copy, Debug, PartialEq, Eq, Structural)]
pub enum RegistrationPhase {
    /// The application-registration request is out.
    AwaitingApp,
    /// The context-registration request is out.
    AwaitingContext,
    /// The sink-install request is out.
    AwaitingSink,
    /// The run succeeded; the sink is installed.
    Complete,
    /// The run ended in an error.
    Failed,
}

/// An action the machine asks the driver to perform.
pub enum InitAction {
    /// Register the application with the backend, under these
    /// marshaled identity and description texts.
    RegisterApp { id: NativeText, description: NativeText },
    /// Register the logging context with the backend, against a fresh
    /// backend-defined context record, under these marshaled texts.
    RegisterContext { id: NativeText, description: NativeText },
    /// Install the bridge logger as the process-wide sink, and on
    /// success raise the facade's maximum enabled severity to its
    /// compile-time maximum: filtering is delegated to the backend.
    InstallSink,
}

/// What the driver reports back for a performed action.
#[derive(Clone, Copy, Debug, PartialEq, Eq, Structural)]
pub enum InitEvent {
    /// The backend answered a registration call with this code.
    BackendReturned(DltReturnValue),
    /// The sink slot was free and the logger is now installed.
    SinkInstalled,
    /// A sink was already installed; the one in place was kept.
    SinkAlreadySet,
}

/// The machine's answer after each step.
pub enum InitStatus {
    /// Perform this action and report its outcome.
    Request(InitAction),
    /// Initialization succeeded.
    Done,
    /// Initialization failed; the run is over.
    Failed(InitializeError),
}

/// The mathematical form of an `InitAction`: the texts it carries.
pub enum ActionModel {
    RegisterApp { id: Seq<char>, description: Seq<char> },
    RegisterContext { id: Seq<char>, description: Seq<char> },
    InstallSink,
}

/// The mathematical form of an `InitStatus`.
pub enum StatusModel {
    Request(ActionModel),
    Done,
    Failed(InitializeError),
}

impl InitAction {
    /// Every text handed out for a native call is marshaled: free of
    /// embedded NUL.
    pub open spec fn wf(&self) -> bool {
        match self {
            InitAction::RegisterApp { id, description } => id.wf() && description.wf(),
            InitAction::RegisterContext { id, description } => id.wf() && description.wf(),
            InitAction::InstallSink => true,
        }
    }
}

impl View for InitAction {
    type V = ActionModel;

    open spec fn view(&self) -> ActionModel {
        match self {
            InitAction::RegisterApp { id, description } => ActionModel::RegisterApp {
                id: id@,
                description: description@,
            },
            InitAction::RegisterContext { id, description } => ActionModel::RegisterContext {
                id: id@,
                description: description@,
            },
            InitAction::InstallSink => ActionModel::InstallSink,
        }
    }
}

impl View for InitStatus {
    type V = StatusModel;

    open spec fn view(&self) -> StatusModel {
        match self {
            InitStatus::Request(a) => StatusModel::Request(a@),
            InitStatus::Done => StatusModel::Done,
            InitStatus::Failed(e) => StatusModel::Failed(*e),
        }
    }
}

/// The conversion failure for a text whose first embedded NUL sits at
/// `first_nul_position`.
pub open spec fn conversion_error(s: Seq<char>) -> InitializeError {
    InitializeError::ConversionError { nul_position: first_nul_position(s) as usize }
}

/// What starting a run decides, as a function of the application
/// texts alone: a NUL in either fails the run before anything is
/// requested of the backend; otherwise the application-registration
/// request goes out first.
pub open spec fn start_model(app_id: Seq<char>, app_description: Seq<char>) -> (
    RegistrationPhase,
    StatusModel,
) {
    if contains_nul(app_id) {
        (RegistrationPhase::Failed, StatusModel::Failed(conversion_error(app_id)))
    } else if contains_nul(app_description) {
        (RegistrationPhase::Failed, StatusModel::Failed(conversion_error(app_description)))
    } else {
        (
            RegistrationPhase::AwaitingApp,
            StatusModel::Request(
                ActionModel::RegisterApp { id: app_id, description: app_description },
            ),
        )
    }
}

/// Which events a phase can take: a backend code while a registration
/// request is out, the sink outcome while the install request is out,
/// nothing once the run is over.
pub open spec fn expects(phase: RegistrationPhase, event: InitEvent) -> bool {
    match phase {
        RegistrationPhase::AwaitingApp => event is BackendReturned,
        RegistrationPhase::AwaitingContext => event is BackendReturned,
        RegistrationPhase::AwaitingSink => event is SinkInstalled || event is SinkAlreadySet,
        RegistrationPhase::Complete => false,
        RegistrationPhase::Failed => false,
    }
}

/// What one step of the protocol decides: the next phase and the
/// machine's answer, as a function of the phase, the pending context
/// texts, and the reported event. Any backend code other than
/// `DLT_RETURN_OK` ends the run with that code preserved; the context
/// texts are marshaled only after the application registration
/// succeeded, so a NUL there fails the run at that point; a sink
/// already in place ends the run with the sink error.
pub open spec fn advance_model(
    phase: RegistrationPhase,
    context_id: Seq<char>,
    context_description: Seq<char>,
    event: InitEvent,
) -> (RegistrationPhase, StatusModel)
    recommends
        expects(phase, event),
{
    match (phase, event) {
        (RegistrationPhase::AwaitingApp, InitEvent::BackendReturned(code)) => {
            if code != DltReturnValue::DLT_RETURN_OK {
                (
                    RegistrationPhase::Failed,
                    StatusModel::Failed(InitializeError::DltLibraryError(code)),
                )
            } else if contains_nul(context_id) {
                (RegistrationPhase::Failed, StatusModel::Failed(conversion_error(context_id)))
            } else if contains_nul(context_description) {
                (
                    RegistrationPhase::Failed,
                    StatusModel::Failed(conversion_error(context_description)),
                )
            } else {
                (
                    RegistrationPhase::AwaitingContext,
                    StatusModel::Request(
                        ActionModel::RegisterContext {
                            id: context_id,
                            description: context_description,
                        },
                    ),
                )
            }
        },
        (RegistrationPhase::AwaitingContext, InitEvent::BackendReturned(code)) => {
            if code == DltReturnValue::DLT_RETURN_OK {
                (RegistrationPhase::AwaitingSink, StatusModel::Request(ActionModel::InstallSink))
            } else {
                (
                    RegistrationPhase::Failed,
                    StatusModel::Failed(InitializeError::DltLibraryError(code)),
                )
            }
        },
        (RegistrationPhase::AwaitingSink, InitEvent::SinkInstalled) => (
            RegistrationPhase::Complete,
            StatusModel::Done,
        ),
        (RegistrationPhase::AwaitingSink, InitEvent::SinkAlreadySet) => (
            RegistrationPhase::Failed,
            StatusModel::Failed(InitializeError::LoggerError),
        ),
        // unreached under `expects`: a finished run takes no event
        _ => (phase, StatusModel::Failed(InitializeError::LoggerError)),
    }
}

/// The registration protocol's state: the phase, and the context texts
/// kept for the step after the application registration.
pub struct Registrar {
    phase: RegistrationPhase,
    context_id: String,
    context_description: String,
}

impl Registrar {
    pub closed spec fn phase(&self) -> RegistrationPhase {
        self.phase
    }

    pub closed spec fn pending_context_id(&self) -> Seq<char> {
        self.context_id@
    }

    pub closed spec fn pending_context_description(&self) -> Seq<char> {
        self.context_description@
    }

    /// Starts a registration run from the four identity and
    /// description texts. Marshals the application texts and either
    /// fails at once with a conversion error — nothing was requested of
    /// the backend — or requests the application registration.
    pub fn start(
        app_id: &str,
        app_description: &str,
        context_id: &str,
        context_description: &str,
    ) -> (r: (Registrar, InitStatus))
        ensures
            r.0.phase() == start_model(app_id@, app_description@).0,
            r.1@ == start_model(app_id@, app_description@).1,
            r.0.pending_context_id() == context_id@,
            r.0.pending_context_description() == context_description@,
            r.1 matches InitStatus::Request(a) ==> a.wf(),
    {
        let ctx_id = String::from_str(context_id);
        let ctx_desc = String::from_str(context_description);
        match marshal(app_id) {
            Err(pos) => (
                Registrar {
                    phase: RegistrationPhase::Failed,
                    context_id: ctx_id,
                    context_description: ctx_desc,
                },
                InitStatus::Failed(InitializeError::ConversionError { nul_position: pos }),
            ),
            Ok(id) => match marshal(app_description) {
                Err(pos) => (
                    Registrar {
                        phase: RegistrationPhase::Failed,
                        context_id: ctx_id,
                        context_description: ctx_desc,
                    },
                    InitStatus::Failed(InitializeError::ConversionError { nul_position: pos }),
                ),
                Ok(description) => (
                    Registrar {
                        phase: RegistrationPhase::AwaitingApp,
                        context_id: ctx_id,
                        context_description: ctx_desc,
                    },
                    InitStatus::Request(InitAction::RegisterApp { id, description }),
                ),
            },
        }
    }

    /// Takes the outcome the driver reports for the pending request and
    /// decides the next one, following `advance_model` exactly.
    pub fn advance(&mut self, event: InitEvent) -> (r: InitStatus)
        requires
            expects(old(self).phase(), event),
        ensures
            final(self).phase() == advance_model(
                old(self).phase(),
                old(self).pending_context_id(),
                old(self).pending_context_description(),
                event,
            ).0,
            r@ == advance_model(
                old(self).phase(),
                old(self).pending_context_id(),
                old(self).pending_context_description(),
                event,
            ).1,
            final(self).pending_context_id() == old(self).pending_context_id(),
            final(self).pending_context_description() == old(self).pending_context_description(),
            r matches InitStatus::Request(a) ==> a.wf(),
    {
        match (self.phase, event) {
            (RegistrationPhase::AwaitingApp, InitEvent::BackendReturned(code)) => {
                if code != DltReturnValue::DLT_RETURN_OK {
                    self.phase = RegistrationPhase::Failed;
                    InitStatus::Failed(InitializeError::DltLibraryError(code))
                } else {
                    match marshal(self.context_id.as_str()) {
                        Err(pos) => {
                            self.phase = RegistrationPhase::Failed;
                            InitStatus::Failed(
                                InitializeError::ConversionError { nul_position: pos },
                            )
                        },
                        Ok(id) => match marshal(self.context_description.as_str()) {
                            Err(pos) => {
                                self.phase = RegistrationPhase::Failed;
                                InitStatus::Failed(
                                    InitializeError::ConversionError { nul_position: pos },
                                )
                            },
                            Ok(description) => {
                                self.phase = RegistrationPhase::AwaitingContext;
                                InitStatus::Request(
                                    InitAction::RegisterContext { id, description },
                                )
                            },
                        },
                    }
                }
            },
            (RegistrationPhase::AwaitingContext, InitEvent::BackendReturned(code)) => {
                if code == DltReturnValue::DLT_RETURN_OK {
                    self.phase = RegistrationPhase::AwaitingSink;
                    InitStatus::Request(InitAction::InstallSink)
                } else {
                    self.phase = RegistrationPhase::Failed;
                    InitStatus::Failed(InitializeError::DltLibraryError(code))
                }
            },
            (RegistrationPhase::AwaitingSink, InitEvent::SinkInstalled) => {
                self.phase = RegistrationPhase::Complete;
                InitStatus::Done
            },
            (RegistrationPhase::AwaitingSink, InitEvent::SinkAlreadySet) => {
                self.phase = RegistrationPhase::Failed;
                InitStatus::Failed(InitializeError::LoggerError)
            },
            _ => {
                // unreached: `expects` allows no event here
                InitStatus::Failed(InitializeError::LoggerError)
            },
        }
    }
}

/// A text with an embedded NUL ends the run with a conversion error
/// before anything more is requested of the backend: a NUL in the
/// application texts fails the run at `start`, with no request at all;
/// a NUL in the context texts (with clean application texts) fails the
/// run at the step after the application registration succeeded, before
/// the context-registration request goes out.
pub proof fn lemma_nul_input_rejected(
    app_id: Seq<char>,
    app_description: Seq<char>,
    context_id: Seq<char>,
    context_description: Seq<char>,
)
    requires
        contains_nul(app_id) || contains_nul(app_description) || contains_nul(context_id)
            || contains_nul(context_description),
    ensures
        contains_nul(app_id) || contains_nul(app_description) ==> {
            &&& start_model(app_id, app_description).0 is Failed
            &&& start_model(app_id, app_description).1 matches StatusModel::Failed(e)
                && e is ConversionError
        },
        !contains_nul(app_id) && !contains_nul(app_description) ==> {
            &&& advance_model(
                RegistrationPhase::AwaitingApp,
                context_id,
                context_description,
                InitEvent::BackendReturned(DltReturnValue::DLT_RETURN_OK),
            ).0 is Failed
            &&& advance_model(
                RegistrationPhase::AwaitingApp,
                context_id,
                context_description,
                InitEvent::BackendReturned(DltReturnValue::DLT_RETURN_OK),
            ).1 matches StatusModel::Failed(e) && e is ConversionError
        },
{
}

/// A run on NUL-free texts that the backend accepts end to end requests
/// exactly the application registration with the given texts, then the
/// context registration with the given texts, then the sink install,
/// and completes.
pub proof fn lemma_successful_run(
    app_id: Seq<char>,
    app_description: Seq<char>,
    context_id: Seq<char>,
    context_description: Seq<char>,
)
    requires
        !contains_nul(app_id),
        !contains_nul(app_description),
        !contains_nul(context_id),
        !contains_nul(context_description),
    ensures
        start_model(app_id, app_description) == (
            RegistrationPhase::AwaitingApp,
            StatusModel::Request(
                ActionModel::RegisterApp { id: app_id, description: app_description },
            ),
        ),
        advance_model(
            RegistrationPhase::AwaitingApp,
            context_id,
            context_description,
            InitEvent::BackendReturned(DltReturnValue::DLT_RETURN_OK),
        ) == (
            RegistrationPhase::AwaitingContext,
            StatusModel::Request(
                ActionModel::RegisterContext { id: context_id, description: context_description },
            ),
        ),
        advance_model(
            RegistrationPhase::AwaitingContext,
            context_id,
            context_description,
            InitEvent::BackendReturned(DltReturnValue::DLT_RETURN_OK),
        ) == (RegistrationPhase::AwaitingSink, StatusModel::Request(ActionModel::InstallSink)),
        advance_model(
            RegistrationPhase::AwaitingSink,
            context_id,
            context_description,
            InitEvent::SinkInstalled,
        ) == (RegistrationPhase::Complete, StatusModel::Done),
{
}

/// Whatever code other than `DLT_RETURN_OK` the backend returns, for
/// either registration step, ends the run at once with exactly that
/// code preserved in the failure.
pub proof fn lemma_backend_rejection_preserved(
    context_id: Seq<char>,
    context_description: Seq<char>,
    code: DltReturnValue,
)
    requires
        code != DltReturnValue::DLT_RETURN_OK,
    ensures
        advance_model(
            RegistrationPhase::AwaitingApp,
            context_id,
            context_description,
            InitEvent::BackendReturned(code),
        ) == (RegistrationPhase::Failed, StatusModel::Failed(InitializeError::DltLibraryError(code))),
        advance_model(
            RegistrationPhase::AwaitingContext,
            context_id,
            context_description,
            InitEvent::BackendReturned(code),
        ) == (RegistrationPhase::Failed, StatusModel::Failed(InitializeError::DltLibraryError(code))),
{
}

/// A later initialization that finds the sink already installed fails
/// with the sink error and requests nothing further: the logger in
/// place is left as it is.
pub proof fn lemma_second_install_rejected(context_id: Seq<char>, context_description: Seq<char>)
    ensures
        advance_model(
            RegistrationPhase::AwaitingSink,
            context_id,
            context_description,
            InitEvent::SinkAlreadySet,
        ) == (RegistrationPhase::Failed, StatusModel::Failed(InitializeError::LoggerError)),
{
}

} // verus!
