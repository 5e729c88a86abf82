//! The self-describing reference documentation of the remote API,
//! modeled with plain values.  Fetching and JSON decoding happen
//! outside the verified core.

use vstd::prelude::*;
use crate::emit::SignatureRequirement;
use crate::scopes::Scope;

verus! {

/// The full description of one remote method.
pub struct MethodReference {
    /// Name of the method.
    pub name: String,
    /// Name without a path.
    pub short_name: String,
    /// HTML-formatted description of what the method does.
    pub description: String,
    /// Brief, single-line, plain-text description.
    pub brief_description: String,
    /// URL of the reference page describing the method.
    pub ref_url: String,
    /// Authentication requirements of the method.
    pub auth_options: AuthRequirements,
    /// The method's parameters.
    pub arguments: Vec<Argument>,
    /// HTML-formatted description of the return value.
    pub returns: String,
    /// HTML-formatted description of possible errors.
    pub errors: String,
    /// The method's result fields.
    pub result_fields: Vec<RefField>,
    /// Whether the method may change incompatibly.
    pub beta: bool,
    /// Deprecation notice, absent for a live method.
    pub deprecated: Option<Deprecated>,
    /// Whether the caller has administrative access to the method.
    pub admin_access: Option<bool>,
    /// Whether the method is internal to the remote service.
    pub is_internal: bool,
}

/// Authentication requirements of one remote method.
pub struct AuthRequirements {
    pub consumer: SignatureRequirement,
    pub token: SignatureRequirement,
    pub administrative_only: bool,
    pub ssl_required: bool,
    pub scopes: Vec<Scope>,
}

/// One parameter of a remote method.
pub struct Argument {
    pub name: String,
    pub is_required: bool,
    pub is_deprecated: bool,
    /// Absent when the parameter has no default.
    pub default_value: Option<String>,
    pub description: String,
}

/// One result field of a remote method.
pub struct RefField {
    pub name: String,
    pub description: String,
    pub is_primary: bool,
    pub is_secondary: bool,
}

/// Deprecation details of a remote method.
pub struct Deprecated {
    pub deprecated_by: Option<String>,
    pub present_until: Option<String>,
}

/// One entry of the method index.
pub struct MethodBrief {
    /// Method name without the `services/` prefix.
    pub name: String,
    pub brief_description: String,
}

/// One scope as the reference documentation lists it.
pub struct ApiScope {
    pub scope: Scope,
    pub description: String,
}

/// Module descriptor returned for one module of the reference tree.
pub struct ModuleInfo {
    pub name: String,
    pub title: String,
    pub brief_description: String,
    pub description: String,
    pub submodules: Vec<String>,
    pub methods: Vec<String>,
    pub beta: bool,
}

/// The top-level modules of the remote API.
#[derive(Clone, Copy)]
pub enum Module {
    ApiReference,
    ApiServerData,
    ApiStats,
    Attendance,
    Blobbox,
    Calendar,
    Cards,
    Courses,
    Credits,
    CourseTests,
    CustomGroups,
    StudentRecordsTransfer,
    EventSubscription,
    EventsEdition,
    ExamReports,
    ExamReportsExtra,
    Exams,
    Faculties,
    FacultyPermissions,
    FeedbackReports,
    FileShare,
    GeographicalData,
    Grades,
    Groups,
    Guide,
    Housing,
    InstitutionalAddresses,
    MailClient,
    Mailing,
    Meetings,
    Mobility,
    News,
    OAuth,
    OAuth2,
    Payments,
    Phones,
    Photos,
    Pit,
    PlacementTests,
    PrimaryGroups,
    StudyPrograms,
    Registrations,
    ClearanceSlips,
    Statements,
    Surveys,
    Terms,
    Theses,
    TimeTables,
    UserPreferences,
    Users,
}

impl Module {
    /// The module's path segment in the remote API.
    pub open spec fn spec_code(self) -> Seq<char> {
        match self {
            Module::ApiReference => "apiref"@,
            Module::ApiServerData => "apisrv"@,
            Module::ApiStats => "apistlog"@,
            Module::Attendance => "attendance"@,
            Module::Blobbox => "blobbox"@,
            Module::Calendar => "calendar"@,
            Module::Cards => "cards"@,
            Module::Courses => "courses"@,
            Module::Credits => "credits"@,
            Module::CourseTests => "crstests"@,
            Module::CustomGroups => "csgroups"@,
            Module::StudentRecordsTransfer => "emrex"@,
            Module::EventSubscription => "events"@,
            Module::EventsEdition => "events2"@,
            Module::ExamReports => "examrep"@,
            Module::ExamReportsExtra => "examrep2"@,
            Module::Exams => "exams"@,
            Module::Faculties => "fac"@,
            Module::FacultyPermissions => "facperms"@,
            Module::FeedbackReports => "feedback"@,
            Module::FileShare => "fileshare"@,
            Module::GeographicalData => "geo"@,
            Module::Grades => "grades"@,
            Module::Groups => "groups"@,
            Module::Guide => "guide"@,
            Module::Housing => "housing"@,
            Module::InstitutionalAddresses => "instaddr"@,
            Module::MailClient => "mailclient"@,
            Module::Mailing => "mailing"@,
            Module::Meetings => "meetings"@,
            Module::Mobility => "mobility"@,
            Module::News => "news"@,
            Module::OAuth => "oauth"@,
            Module::OAuth2 => "oauth2"@,
            Module::Payments => "payments"@,
            Module::Phones => "phones"@,
            Module::Photos => "photos"@,
            Module::Pit => "pit"@,
            Module::PlacementTests => "plctests"@,
            Module::PrimaryGroups => "prgroups"@,
            Module::StudyPrograms => "progs"@,
            Module::Registrations => "registrations"@,
            Module::ClearanceSlips => "slips"@,
            Module::Statements => "statements"@,
            Module::Surveys => "surveys"@,
            Module::Terms => "terms"@,
            Module::Theses => "theses"@,
            Module::TimeTables => "tt"@,
            Module::UserPreferences => "uprefs"@,
            Module::Users => "users"@,
        }
    }

    /// Renders the module's path segment.
    pub fn as_code(&self) -> (r: &'static str)
        ensures
            r@ == self.spec_code(),
    {
        match self {
            Module::ApiReference => "apiref",
            Module::ApiServerData => "apisrv",
            Module::ApiStats => "apistlog",
            Module::Attendance => "attendance",
            Module::Blobbox => "blobbox",
            Module::Calendar => "calendar",
            Module::Cards => "cards",
            Module::Courses => "courses",
            Module::Credits => "credits",
            Module::CourseTests => "crstests",
            Module::CustomGroups => "csgroups",
            Module::StudentRecordsTransfer => "emrex",
            Module::EventSubscription => "events",
            Module::EventsEdition => "events2",
            Module::ExamReports => "examrep",
            Module::ExamReportsExtra => "examrep2",
            Module::Exams => "exams",
            Module::Faculties => "fac",
            Module::FacultyPermissions => "facperms",
            Module::FeedbackReports => "feedback",
            Module::FileShare => "fileshare",
            Module::GeographicalData => "geo",
            Module::Grades => "grades",
            Module::Groups => "groups",
            Module::Guide => "guide",
            Module::Housing => "housing",
            Module::InstitutionalAddresses => "instaddr",
            Module::MailClient => "mailclient",
            Module::Mailing => "mailing",
            Module::Meetings => "meetings",
            Module::Mobility => "mobility",
            Module::News => "news",
            Module::OAuth => "oauth",
            Module::OAuth2 => "oauth2",
            Module::Payments => "payments",
            Module::Phones => "phones",
            Module::Photos => "photos",
            Module::Pit => "pit",
            Module::PlacementTests => "plctests",
            Module::PrimaryGroups => "prgroups",
            Module::StudyPrograms => "progs",
            Module::Registrations => "registrations",
            Module::ClearanceSlips => "slips",
            Module::Statements => "statements",
            Module::Surveys => "surveys",
            Module::Terms => "terms",
            Module::Theses => "theses",
            Module::TimeTables => "tt",
            Module::UserPreferences => "uprefs",
            Module::Users => "users",
        }
    }
}

} // verus!
