//! The rules for applications: which statuses exist, with which status an
//! application is created, and when its status may still change.
use vstd::prelude::*;
use crate::error::{db_error_to_service, DbErrorKind, ServiceError};
use crate::model::{ApplicationTargetableRole, NewApplication};
use crate::text::same_text;
use crate::audit::AuditAction;
use crate::member::{id_entity, id_text};
use crate::repository::{audit_entry, NewAuditLogEntry};

verus! {

/// The status of an application.
#[derive(Debug, Clone, Copy, PartialEq, Eq, Structural)]
pub enum ApplicationStatus {
    Unpaid,
    Pending,
    Approved,
    Rejected,
}

impl ApplicationStatus {
    /// The status's name, as requests and the database write it.
    pub open spec fn name_spec(self) -> Seq<char> {
        match self {
            ApplicationStatus::Unpaid => "unpaid"@,
            ApplicationStatus::Pending => "pending"@,
            ApplicationStatus::Approved => "approved"@,
            ApplicationStatus::Rejected => "rejected"@,
        }
    }

    /// The status that a name denotes, if any.
    pub open spec fn parse_spec(s: Seq<char>) -> Option<ApplicationStatus> {
        if s == "unpaid"@ {
            Some(ApplicationStatus::Unpaid)
        } else if s == "pending"@ {
            Some(ApplicationStatus::Pending)
        } else if s == "approved"@ {
            Some(ApplicationStatus::Approved)
        } else if s == "rejected"@ {
            Some(ApplicationStatus::Rejected)
        } else {
            None
        }
    }

    pub fn as_str(&self) -> (s: &'static str)
        ensures
            s@ == self.name_spec(),
    {
        match self {
            ApplicationStatus::Unpaid => "unpaid",
            ApplicationStatus::Pending => "pending",
            ApplicationStatus::Approved => "approved",
            ApplicationStatus::Rejected => "rejected",
        }
    }

    /// Reads a status name; `None` for anything that is not one of the four.
    pub fn parse(s: &str) -> (r: Option<ApplicationStatus>)
        ensures
            r == ApplicationStatus::parse_spec(s@),
    {
        if same_text(s, "unpaid") {
            Some(ApplicationStatus::Unpaid)
        } else if same_text(s, "pending") {
            Some(ApplicationStatus::Pending)
        } else if same_text(s, "approved") {
            Some(ApplicationStatus::Approved)
        } else if same_text(s, "rejected") {
            Some(ApplicationStatus::Rejected)
        } else {
            None
        }
    }
}

/// Reading the name of a status gives the status back, and no two statuses
/// share a name.
pub proof fn law_status_names_round_trip(st: ApplicationStatus, other: ApplicationStatus)
    ensures
        ApplicationStatus::parse_spec(st.name_spec()) == Some(st),
        st != other ==> st.name_spec() != other.name_spec(),
{
    reveal_strlit("unpaid");
    reveal_strlit("pending");
    reveal_strlit("approved");
    reveal_strlit("rejected");
    assert("unpaid"@[0] != "pending"@[0]);
    assert("unpaid"@[0] != "approved"@[0]);
    assert("unpaid"@ != "rejected"@);
    assert("pending"@ != "approved"@);
    assert("pending"@ != "rejected"@);
    assert("approved"@ != "rejected"@);
}

/// Whether a stored status still lets the application be decided: an
/// application with no status, or one that is pending or unpaid.
pub open spec fn is_undecided_spec(status: Option<Seq<char>>) -> bool {
    match status {
        None => true,
        Some(s) => s == "pending"@ || s == "unpaid"@,
    }
}

pub fn is_undecided(status: &Option<String>) -> (r: bool)
    ensures
        r == is_undecided_spec(match status {
            Some(s) => Some(s@),
            None => None,
        }),
{
    match status {
        None => true,
        Some(s) => same_text(s.as_str(), "pending") || same_text(s.as_str(), "unpaid"),
    }
}

/// The status that a new application starts in, given the role period it
/// targets (if that could be found) and whether it came with a payment:
/// refused for an inactive role period, unpaid where the period asks for a
/// payment that has not been made, pending otherwise.
pub open spec fn new_application_status_spec(
    targetable: Option<ApplicationTargetableRole>,
    has_payment: bool,
) -> Result<ApplicationStatus, ServiceError> {
    match targetable {
        None => Ok(ApplicationStatus::Pending),
        Some(role) => if !role.active {
            Err(ServiceError::NotActive)
        } else if role.payment_link is Some && !has_payment {
            Ok(ApplicationStatus::Unpaid)
        } else {
            Ok(ApplicationStatus::Pending)
        },
    }
}

pub fn new_application_status(targetable: &Option<ApplicationTargetableRole>, has_payment: bool) -> (r: Result<
    ApplicationStatus,
    ServiceError,
>)
    ensures
        r == new_application_status_spec(*targetable, has_payment),
{
    match targetable {
        None => Ok(ApplicationStatus::Pending),
        Some(role) => if !role.active {
            Err(ServiceError::NotActive)
        } else if role.payment_link.is_some() && !has_payment {
            Ok(ApplicationStatus::Unpaid)
        } else {
            Ok(ApplicationStatus::Pending)
        },
    }
}

// ---------------------------------------------------------------------------
// Creating an application
// ---------------------------------------------------------------------------

/// Where creating an application stands; each step but `Done` names the
/// operation that is to be performed next.
#[derive(Debug)]
pub enum CreateApplicationStep<A> {
    /// Look for an application of the same member for the same role period.
    FetchExisting,
    /// Look up the role period that the application targets.
    FetchTargetable,
    /// Insert the application with `status`.
    Create,
    /// Append the `application.create` audit record for the created `A`.
    Audit(A),
    Done(Result<A, ServiceError>),
}

#[derive(Debug)]
pub enum CreateApplicationEvent<A> {
    /// Whether such an application was found.
    ExistingFound(bool),
    /// The role period, or `None` where it could not be read.
    TargetableFound(Option<ApplicationTargetableRole>),
    Created(Result<A, DbErrorKind>),
    Audited,
}

/// Creating `application`: refused if the member already applied for the
/// same role period or the period is inactive; otherwise stored with the
/// status that `new_application_status_spec` gives, then audited.
#[derive(Debug)]
pub struct CreateApplicationFlow<A> {
    pub application: NewApplication,
    pub status: ApplicationStatus,
    pub step: CreateApplicationStep<A>,
}

impl<A> CreateApplicationFlow<A> {
    pub fn start(application: NewApplication) -> (f: CreateApplicationFlow<A>)
        ensures
            f.application == application,
            f.status == ApplicationStatus::Pending,
            f.step is FetchExisting,
    {
        CreateApplicationFlow { application, status: ApplicationStatus::Pending, step: CreateApplicationStep::FetchExisting }
    }

    pub open spec fn next(self, e: CreateApplicationEvent<A>) -> CreateApplicationFlow<A> {
        match (self.step, e) {
            (CreateApplicationStep::FetchExisting, CreateApplicationEvent::ExistingFound(found)) => if found {
                CreateApplicationFlow { step: CreateApplicationStep::Done(Err(ServiceError::AlreadyExists)), ..self }
            } else {
                CreateApplicationFlow { step: CreateApplicationStep::FetchTargetable, ..self }
            },
            (CreateApplicationStep::FetchTargetable, CreateApplicationEvent::TargetableFound(t)) =>
                match new_application_status_spec(t, self.application.stripe_payment_id is Some) {
                    Ok(status) => CreateApplicationFlow { status, step: CreateApplicationStep::Create, ..self },
                    Err(err) => CreateApplicationFlow { step: CreateApplicationStep::Done(Err(err)), ..self },
                },
            (CreateApplicationStep::Create, CreateApplicationEvent::Created(Ok(a))) =>
                CreateApplicationFlow { step: CreateApplicationStep::Audit(a), ..self },
            (CreateApplicationStep::Create, CreateApplicationEvent::Created(Err(k))) =>
                CreateApplicationFlow { step: CreateApplicationStep::Done(Err(db_error_to_service(k))), ..self },
            (CreateApplicationStep::Audit(a), CreateApplicationEvent::Audited) =>
                CreateApplicationFlow { step: CreateApplicationStep::Done(Ok(a)), ..self },
            (step, _) => CreateApplicationFlow { step, ..self },
        }
    }

    pub fn advance(self, e: CreateApplicationEvent<A>) -> (r: CreateApplicationFlow<A>)
        ensures
            r == self.next(e),
    {
        let CreateApplicationFlow { application, status, step } = self;
        match (step, e) {
            (CreateApplicationStep::FetchExisting, CreateApplicationEvent::ExistingFound(found)) => if found {
                CreateApplicationFlow { application, status, step: CreateApplicationStep::Done(Err(ServiceError::AlreadyExists)) }
            } else {
                CreateApplicationFlow { application, status, step: CreateApplicationStep::FetchTargetable }
            },
            (CreateApplicationStep::FetchTargetable, CreateApplicationEvent::TargetableFound(t)) => {
                let has_payment = application.stripe_payment_id.is_some();
                match new_application_status(&t, has_payment) {
                    Ok(status) => CreateApplicationFlow { application, status, step: CreateApplicationStep::Create },
                    Err(err) => CreateApplicationFlow { application, status, step: CreateApplicationStep::Done(Err(err)) },
                }
            },
            (CreateApplicationStep::Create, CreateApplicationEvent::Created(Ok(a))) =>
                CreateApplicationFlow { application, status, step: CreateApplicationStep::Audit(a) },
            (CreateApplicationStep::Create, CreateApplicationEvent::Created(Err(k))) =>
                CreateApplicationFlow { application, status, step: CreateApplicationStep::Done(Err(ServiceError::from_db(k))) },
            (CreateApplicationStep::Audit(a), CreateApplicationEvent::Audited) =>
                CreateApplicationFlow { application, status, step: CreateApplicationStep::Done(Ok(a)) },
            (step, _) => CreateApplicationFlow { application, status, step },
        }
    }
}

/// The record that the audit step of creating an application appends:
/// `application.create` on the created application `application_id`, by
/// `actor`.
pub fn application_audit_record(actor: Option<u128>, application_id: u128) -> (e: NewAuditLogEntry)
    ensures
        e.actor_user_id == actor,
        e.action@ == "application.create"@,
        e.entity_type@ == "application"@,
        e.entity_id@ == id_text(application_id),
{
    audit_entry(actor, AuditAction::ApplicationCreate, id_entity(application_id))
}

/// A member never gets a second application for the same role period, an
/// inactive role period is never applied for, and an application for a
/// period with a payment link that came without a payment is stored as
/// unpaid.
pub proof fn law_new_application_rules<A>(
    f: CreateApplicationFlow<A>,
    g: CreateApplicationFlow<A>,
    role: ApplicationTargetableRole,
)
    requires
        f.step is FetchExisting,
        g.step is FetchTargetable,
    ensures
        f.next(CreateApplicationEvent::ExistingFound(true)).step
            == CreateApplicationStep::<A>::Done(Err(ServiceError::AlreadyExists)),
        !role.active ==> g.next(CreateApplicationEvent::TargetableFound(Some(role))).step
            == CreateApplicationStep::<A>::Done(Err(ServiceError::NotActive)),
        role.active && role.payment_link is Some && g.application.stripe_payment_id is None ==> ({
            let h = g.next(CreateApplicationEvent::TargetableFound(Some(role)));
            h.step is Create && h.status == ApplicationStatus::Unpaid
        }),
{
}

/// For an active role period the application is stored, as unpaid exactly
/// when the period asks for a payment and the application came without one,
/// and as pending otherwise; where the period could not be read it is stored
/// as pending.
pub proof fn law_new_application_status<A>(g: CreateApplicationFlow<A>, role: ApplicationTargetableRole)
    requires
        g.step is FetchTargetable,
    ensures
        role.active ==> ({
            let h = g.next(CreateApplicationEvent::TargetableFound(Some(role)));
            &&& h.step is Create
            &&& h.application == g.application
            &&& h.status == if role.payment_link is Some && g.application.stripe_payment_id is None {
                ApplicationStatus::Unpaid
            } else {
                ApplicationStatus::Pending
            }
        }),
        ({
            let h = g.next(CreateApplicationEvent::TargetableFound(None));
            h.step is Create && h.status == ApplicationStatus::Pending
        }),
{
}

/// A member without an application for the role period goes on to the role
/// period; the application that the database stored is audited and handed
/// out, and a refused insert is reported as the database's error.
pub proof fn law_application_created_then_audited<A>(f: CreateApplicationFlow<A>, a: A, k: DbErrorKind)
    ensures
        f.step is FetchExisting ==> f.next(CreateApplicationEvent::ExistingFound(false)).step is FetchTargetable,
        f.step is Create ==> {
            &&& f.next(CreateApplicationEvent::Created(Ok(a))).step == CreateApplicationStep::Audit(a)
            &&& f.next(CreateApplicationEvent::Created(Err(k))).step == CreateApplicationStep::<A>::Done(
                Err(db_error_to_service(k)),
            )
        },
        f.step == CreateApplicationStep::Audit(a) ==> f.next(CreateApplicationEvent::Audited).step
            == CreateApplicationStep::<A>::Done(Ok(a)),
{
}

// ---------------------------------------------------------------------------
// Deciding an application
// ---------------------------------------------------------------------------

/// What the decision needs to know of the stored application.
#[derive(Debug)]
pub struct ApplicationFacts {
    pub user_id: u128,
    pub role_name: String,
    pub valid_until: chrono::NaiveDate,
    pub status: Option<String>,
}

/// Where setting an application's status stands.
#[derive(Debug)]
pub enum UpdateApplicationStatusStep {
    /// Read the stored application.
    FetchApplication,
    /// Store the new status.
    UpdateStatus,
    /// Grant the member the role the application is for, from today until
    /// the application's `valid_until`.
    AddRoleMember,
    /// Append the `application.update_status` audit record.
    Audit,
    Done(Result<(), ServiceError>),
}

#[derive(Debug)]
pub enum UpdateApplicationStatusEvent {
    Fetched(Result<ApplicationFacts, DbErrorKind>),
    StatusUpdated(Result<(), DbErrorKind>),
    RoleMemberAdded(Result<(), ServiceError>),
    Audited,
}

/// Setting the status of application `application_id` to `new_status`.
#[derive(Debug)]
pub struct UpdateApplicationStatusFlow {
    pub application_id: u128,
    pub new_status: Option<ApplicationStatus>,
    /// The stored application, once read.
    pub application: Option<ApplicationFacts>,
    pub step: UpdateApplicationStatusStep,
}

impl UpdateApplicationStatusFlow {
    /// Begins the update; a status name that is not one of the four ends it
    /// at once with `InvalidStatus`.
    pub fn start(application_id: u128, status: &str) -> (f: UpdateApplicationStatusFlow)
        ensures
            f.application_id == application_id,
            f.new_status == ApplicationStatus::parse_spec(status@),
            f.application is None,
            f.new_status is None ==> f.step == UpdateApplicationStatusStep::Done(Err(ServiceError::InvalidStatus)),
            f.new_status is Some ==> f.step is FetchApplication,
    {
        let new_status = ApplicationStatus::parse(status);
        let step = if new_status.is_none() {
            UpdateApplicationStatusStep::Done(Err(ServiceError::InvalidStatus))
        } else {
            UpdateApplicationStatusStep::FetchApplication
        };
        UpdateApplicationStatusFlow { application_id, new_status, application: None, step }
    }

    pub open spec fn next(self, e: UpdateApplicationStatusEvent) -> UpdateApplicationStatusFlow {
        match (self.step, e) {
            (UpdateApplicationStatusStep::FetchApplication, UpdateApplicationStatusEvent::Fetched(Err(k))) =>
                UpdateApplicationStatusFlow { step: UpdateApplicationStatusStep::Done(Err(db_error_to_service(k))), ..self },
            (UpdateApplicationStatusStep::FetchApplication, UpdateApplicationStatusEvent::Fetched(Ok(app))) =>
                if is_undecided_spec(match app.status { Some(s) => Some(s@), None => None }) {
                    UpdateApplicationStatusFlow { application: Some(app), step: UpdateApplicationStatusStep::UpdateStatus, ..self }
                } else {
                    UpdateApplicationStatusFlow {
                        application: Some(app),
                        step: UpdateApplicationStatusStep::Done(Err(ServiceError::ApplicationAlreadyProcessed)),
                        ..self
                    }
                },
            (UpdateApplicationStatusStep::UpdateStatus, UpdateApplicationStatusEvent::StatusUpdated(Err(k))) =>
                UpdateApplicationStatusFlow { step: UpdateApplicationStatusStep::Done(Err(db_error_to_service(k))), ..self },
            (UpdateApplicationStatusStep::UpdateStatus, UpdateApplicationStatusEvent::StatusUpdated(Ok(()))) =>
                UpdateApplicationStatusFlow { step: UpdateApplicationStatusStep::AddRoleMember, ..self },
            (UpdateApplicationStatusStep::AddRoleMember, UpdateApplicationStatusEvent::RoleMemberAdded(Err(err))) =>
                UpdateApplicationStatusFlow { step: UpdateApplicationStatusStep::Done(Err(err)), ..self },
            (UpdateApplicationStatusStep::AddRoleMember, UpdateApplicationStatusEvent::RoleMemberAdded(Ok(()))) =>
                UpdateApplicationStatusFlow { step: UpdateApplicationStatusStep::Audit, ..self },
            (UpdateApplicationStatusStep::Audit, UpdateApplicationStatusEvent::Audited) =>
                UpdateApplicationStatusFlow { step: UpdateApplicationStatusStep::Done(Ok(())), ..self },
            (step, _) => UpdateApplicationStatusFlow { step, ..self },
        }
    }

    pub fn advance(self, e: UpdateApplicationStatusEvent) -> (r: UpdateApplicationStatusFlow)
        ensures
            r == self.next(e),
    {
        let UpdateApplicationStatusFlow { application_id, new_status, application, step } = self;
        match (step, e) {
            (UpdateApplicationStatusStep::FetchApplication, UpdateApplicationStatusEvent::Fetched(Err(k))) =>
                UpdateApplicationStatusFlow {
                    application_id,
                    new_status,
                    application,
                    step: UpdateApplicationStatusStep::Done(Err(ServiceError::from_db(k))),
                },
            (UpdateApplicationStatusStep::FetchApplication, UpdateApplicationStatusEvent::Fetched(Ok(app))) =>
                if is_undecided(&app.status) {
                    UpdateApplicationStatusFlow {
                        application_id,
                        new_status,
                        application: Some(app),
                        step: UpdateApplicationStatusStep::UpdateStatus,
                    }
                } else {
                    UpdateApplicationStatusFlow {
                        application_id,
                        new_status,
                        application: Some(app),
                        step: UpdateApplicationStatusStep::Done(Err(ServiceError::ApplicationAlreadyProcessed)),
                    }
                },
            (UpdateApplicationStatusStep::UpdateStatus, UpdateApplicationStatusEvent::StatusUpdated(Err(k))) =>
                UpdateApplicationStatusFlow {
                    application_id,
                    new_status,
                    application,
                    step: UpdateApplicationStatusStep::Done(Err(ServiceError::from_db(k))),
                },
            (UpdateApplicationStatusStep::UpdateStatus, UpdateApplicationStatusEvent::StatusUpdated(Ok(()))) =>
                UpdateApplicationStatusFlow { application_id, new_status, application, step: UpdateApplicationStatusStep::AddRoleMember },
            (UpdateApplicationStatusStep::AddRoleMember, UpdateApplicationStatusEvent::RoleMemberAdded(Err(err))) =>
                UpdateApplicationStatusFlow { application_id, new_status, application, step: UpdateApplicationStatusStep::Done(Err(err)) },
            (UpdateApplicationStatusStep::AddRoleMember, UpdateApplicationStatusEvent::RoleMemberAdded(Ok(()))) =>
                UpdateApplicationStatusFlow { application_id, new_status, application, step: UpdateApplicationStatusStep::Audit },
            (UpdateApplicationStatusStep::Audit, UpdateApplicationStatusEvent::Audited) =>
                UpdateApplicationStatusFlow { application_id, new_status, application, step: UpdateApplicationStatusStep::Done(Ok(())) },
            (step, _) => UpdateApplicationStatusFlow { application_id, new_status, application, step },
        }
    }
}

impl UpdateApplicationStatusFlow {
    /// The record that the audit step appends: `application.update_status`
    /// on the application, by `actor`.
    pub fn audit_record(&self, actor: Option<u128>) -> (e: NewAuditLogEntry)
        ensures
            e.actor_user_id == actor,
            e.action@ == "application.update_status"@,
            e.entity_type@ == "application"@,
            e.entity_id@ == id_text(self.application_id),
    {
        audit_entry(actor, AuditAction::ApplicationUpdateStatus, id_entity(self.application_id))
    }
}

/// An application that has already been approved or rejected (any stored
/// status other than pending or unpaid) is never changed again: its status
/// is not written and no role is granted.
pub proof fn law_decided_application_is_final(f: UpdateApplicationStatusFlow, app: ApplicationFacts)
    requires
        f.step is FetchApplication,
        app.status is Some,
        app.status->0@ != "pending"@,
        app.status->0@ != "unpaid"@,
    ensures
        f.next(UpdateApplicationStatusEvent::Fetched(Ok(app))).step
            == UpdateApplicationStatusStep::Done(Err(ServiceError::ApplicationAlreadyProcessed)),
{
}

/// An application without a status, or one that is pending or unpaid, can be
/// decided: once read, its new status is stored next.
pub proof fn law_undecided_application_is_updated(f: UpdateApplicationStatusFlow, app: ApplicationFacts)
    requires
        f.step is FetchApplication,
        app.status is None || app.status->0@ == "pending"@ || app.status->0@ == "unpaid"@,
    ensures
        ({
            let g = f.next(UpdateApplicationStatusEvent::Fetched(Ok(app)));
            g.step is UpdateStatus && g.application == Some(app)
        }),
{
}

/// Deciding an application stores the new status first, then grants the
/// role, then audits; the role is granted only after the status was stored,
/// a failed grant ends the decision with the grant's error, and a failed read
/// or write is reported as the database's error.
pub proof fn law_decision_steps(f: UpdateApplicationStatusFlow, e: UpdateApplicationStatusEvent, err: ServiceError, k: DbErrorKind)
    ensures
        f.step is FetchApplication ==> f.next(UpdateApplicationStatusEvent::Fetched(Err(k))).step
            == UpdateApplicationStatusStep::Done(Err(db_error_to_service(k))),
        f.step is UpdateStatus ==> {
            &&& f.next(UpdateApplicationStatusEvent::StatusUpdated(Ok(()))).step is AddRoleMember
            &&& f.next(UpdateApplicationStatusEvent::StatusUpdated(Err(k))).step
                == UpdateApplicationStatusStep::Done(Err(db_error_to_service(k)))
        },
        f.step is AddRoleMember ==> {
            &&& f.next(UpdateApplicationStatusEvent::RoleMemberAdded(Ok(()))).step is Audit
            &&& f.next(UpdateApplicationStatusEvent::RoleMemberAdded(Err(err))).step
                == UpdateApplicationStatusStep::Done(Err(err))
        },
        f.step is Audit ==> f.next(UpdateApplicationStatusEvent::Audited).step == UpdateApplicationStatusStep::Done(Ok(())),
        f.next(e).step is AddRoleMember ==> f.step is AddRoleMember || (f.step is UpdateStatus && (e matches UpdateApplicationStatusEvent::StatusUpdated(
            Ok(_),
        ))),
{
}

} // verus!
