//! Authorization scopes of the remote API.

use vstd::prelude::*;
use crate::ascii::str_eq;

verus! {

use vstd::string::StringExecFns;

/// A named permission grant that can be requested alongside
/// authorization.
#[derive(Debug, Clone, Copy)]
pub enum Scope {
    AdministrativeDocuments,
    Cards,
    ChangeAllPreferences,
    CourseTests,
    Dorms,
    ChangeUserAttributes,
    Email,
    Events,
    Grades,
    GradesWrite,
    MailClient,
    MobileNumbers,
    OfflineAccess,
    OtherEmails,
    Payments,
    Personal,
    Photo,
    PlacementTests,
    SessionDebugging,
    ClearanceSlips,
    ClearanceSlipsAdmin,
    StaffPerspective,
    StudentExams,
    StudentExamsEdit,
    Studies,
    SurveysFilling,
    SurveysReports,
    ThesesProtocolsEdit,
}

impl Scope {
    /// The wire identifier of the scope.
    pub open spec fn spec_code(self) -> Seq<char> {
        match self {
            Scope::AdministrativeDocuments => "adm_documents"@,
            Scope::Cards => "cards"@,
            Scope::ChangeAllPreferences => "change_all_preferences"@,
            Scope::CourseTests => "crstests"@,
            Scope::Dorms => "dorm_admin"@,
            Scope::ChangeUserAttributes => "edit_user_attrs"@,
            Scope::Email => "email"@,
            Scope::Events => "events"@,
            Scope::Grades => "grades"@,
            Scope::GradesWrite => "grades_write"@,
            Scope::MailClient => "mailclient"@,
            Scope::MobileNumbers => "mobile_numbers"@,
            Scope::OfflineAccess => "offline_access"@,
            Scope::OtherEmails => "other_emails"@,
            Scope::Payments => "payments"@,
            Scope::Personal => "personal"@,
            Scope::Photo => "photo"@,
            Scope::PlacementTests => "placement_tests"@,
            Scope::SessionDebugging => "session_debugging_perms"@,
            Scope::ClearanceSlips => "slips"@,
            Scope::ClearanceSlipsAdmin => "slips_admin"@,
            Scope::StaffPerspective => "staff_perspective"@,
            Scope::StudentExams => "student_exams"@,
            Scope::StudentExamsEdit => "student_exams_write"@,
            Scope::Studies => "studies"@,
            Scope::SurveysFilling => "surveys_filling"@,
            Scope::SurveysReports => "surveys_reports"@,
            Scope::ThesesProtocolsEdit => "theses_protocols_write"@,
        }
    }

    /// The scope a wire identifier denotes, if any.
    pub open spec fn spec_of_code(s: Seq<char>) -> Option<Scope> {
        if s == "adm_documents"@ {
            Some(Scope::AdministrativeDocuments)
        } else if s == "cards"@ {
            Some(Scope::Cards)
        } else if s == "change_all_preferences"@ {
            Some(Scope::ChangeAllPreferences)
        } else if s == "crstests"@ {
            Some(Scope::CourseTests)
        } else if s == "dorm_admin"@ {
            Some(Scope::Dorms)
        } else if s == "edit_user_attrs"@ {
            Some(Scope::ChangeUserAttributes)
        } else if s == "email"@ {
            Some(Scope::Email)
        } else if s == "events"@ {
            Some(Scope::Events)
        } else if s == "grades"@ {
            Some(Scope::Grades)
        } else if s == "grades_write"@ {
            Some(Scope::GradesWrite)
        } else if s == "mailclient"@ {
            Some(Scope::MailClient)
        } else if s == "mobile_numbers"@ {
            Some(Scope::MobileNumbers)
        } else if s == "offline_access"@ {
            Some(Scope::OfflineAccess)
        } else if s == "other_emails"@ {
            Some(Scope::OtherEmails)
        } else if s == "payments"@ {
            Some(Scope::Payments)
        } else if s == "personal"@ {
            Some(Scope::Personal)
        } else if s == "photo"@ {
            Some(Scope::Photo)
        } else if s == "placement_tests"@ {
            Some(Scope::PlacementTests)
        } else if s == "session_debugging_perms"@ {
            Some(Scope::SessionDebugging)
        } else if s == "slips"@ {
            Some(Scope::ClearanceSlips)
        } else if s == "slips_admin"@ {
            Some(Scope::ClearanceSlipsAdmin)
        } else if s == "staff_perspective"@ {
            Some(Scope::StaffPerspective)
        } else if s == "student_exams"@ {
            Some(Scope::StudentExams)
        } else if s == "student_exams_write"@ {
            Some(Scope::StudentExamsEdit)
        } else if s == "studies"@ {
            Some(Scope::Studies)
        } else if s == "surveys_filling"@ {
            Some(Scope::SurveysFilling)
        } else if s == "surveys_reports"@ {
            Some(Scope::SurveysReports)
        } else if s == "theses_protocols_write"@ {
            Some(Scope::ThesesProtocolsEdit)
        } else {
            None
        }
    }

    /// Returns the wire identifier of the scope.
    pub fn as_code(&self) -> (r: &'static str)
        ensures
            r@ == self.spec_code(),
    {
        match self {
            Scope::AdministrativeDocuments => "adm_documents",
            Scope::Cards => "cards",
            Scope::ChangeAllPreferences => "change_all_preferences",
            Scope::CourseTests => "crstests",
            Scope::Dorms => "dorm_admin",
            Scope::ChangeUserAttributes => "edit_user_attrs",
            Scope::Email => "email",
            Scope::Events => "events",
            Scope::Grades => "grades",
            Scope::GradesWrite => "grades_write",
            Scope::MailClient => "mailclient",
            Scope::MobileNumbers => "mobile_numbers",
            Scope::OfflineAccess => "offline_access",
            Scope::OtherEmails => "other_emails",
            Scope::Payments => "payments",
            Scope::Personal => "personal",
            Scope::Photo => "photo",
            Scope::PlacementTests => "placement_tests",
            Scope::SessionDebugging => "session_debugging_perms",
            Scope::ClearanceSlips => "slips",
            Scope::ClearanceSlipsAdmin => "slips_admin",
            Scope::StaffPerspective => "staff_perspective",
            Scope::StudentExams => "student_exams",
            Scope::StudentExamsEdit => "student_exams_write",
            Scope::Studies => "studies",
            Scope::SurveysFilling => "surveys_filling",
            Scope::SurveysReports => "surveys_reports",
            Scope::ThesesProtocolsEdit => "theses_protocols_write",
        }
    }

    /// Parses a wire identifier.  Returns the scope exactly for the
    /// known identifiers and rejects every other string.
    pub fn from_code(s: &str) -> (r: Option<Scope>)
        ensures
            r == Scope::spec_of_code(s@),
    {
        if str_eq(s, "adm_documents") {
            Some(Scope::AdministrativeDocuments)
        } else if str_eq(s, "cards") {
            Some(Scope::Cards)
        } else if str_eq(s, "change_all_preferences") {
            Some(Scope::ChangeAllPreferences)
        } else if str_eq(s, "crstests") {
            Some(Scope::CourseTests)
        } else if str_eq(s, "dorm_admin") {
            Some(Scope::Dorms)
        } else if str_eq(s, "edit_user_attrs") {
            Some(Scope::ChangeUserAttributes)
        } else if str_eq(s, "email") {
            Some(Scope::Email)
        } else if str_eq(s, "events") {
            Some(Scope::Events)
        } else if str_eq(s, "grades") {
            Some(Scope::Grades)
        } else if str_eq(s, "grades_write") {
            Some(Scope::GradesWrite)
        } else if str_eq(s, "mailclient") {
            Some(Scope::MailClient)
        } else if str_eq(s, "mobile_numbers") {
            Some(Scope::MobileNumbers)
        } else if str_eq(s, "offline_access") {
            Some(Scope::OfflineAccess)
        } else if str_eq(s, "other_emails") {
            Some(Scope::OtherEmails)
        } else if str_eq(s, "payments") {
            Some(Scope::Payments)
        } else if str_eq(s, "personal") {
            Some(Scope::Personal)
        } else if str_eq(s, "photo") {
            Some(Scope::Photo)
        } else if str_eq(s, "placement_tests") {
            Some(Scope::PlacementTests)
        } else if str_eq(s, "session_debugging_perms") {
            Some(Scope::SessionDebugging)
        } else if str_eq(s, "slips") {
            Some(Scope::ClearanceSlips)
        } else if str_eq(s, "slips_admin") {
            Some(Scope::ClearanceSlipsAdmin)
        } else if str_eq(s, "staff_perspective") {
            Some(Scope::StaffPerspective)
        } else if str_eq(s, "student_exams") {
            Some(Scope::StudentExams)
        } else if str_eq(s, "student_exams_write") {
            Some(Scope::StudentExamsEdit)
        } else if str_eq(s, "studies") {
            Some(Scope::Studies)
        } else if str_eq(s, "surveys_filling") {
            Some(Scope::SurveysFilling)
        } else if str_eq(s, "surveys_reports") {
            Some(Scope::SurveysReports)
        } else if str_eq(s, "theses_protocols_write") {
            Some(Scope::ThesesProtocolsEdit)
        } else {
            None
        }
    }
}

/// A set of requested scopes, joined with `|` when sent as a request
/// parameter.
pub struct Scopes {
    scopes: Vec<Scope>,
}

/// The scope identifiers joined with `|`; empty for no scopes.
pub open spec fn spec_scopes_value(s: Seq<Scope>) -> Seq<char>
    decreases s.len(),
{
    if s.len() == 0 {
        Seq::empty()
    } else if s.len() == 1 {
        s.first().spec_code()
    } else {
        s.first().spec_code() + "|"@ + spec_scopes_value(s.drop_first())
    }
}

impl Scopes {
    /// The stored scopes, in order.
    pub closed spec fn spec_scopes(&self) -> Seq<Scope> {
        self.scopes@
    }

    /// Wraps a list of scopes.
    pub fn new(scopes: Vec<Scope>) -> (r: Scopes)
        ensures
            r.spec_scopes() == scopes@,
    {
        Scopes { scopes }
    }

    /// Serializes the scopes as a `|`-joined request parameter value.
    pub fn to_param_value(&self) -> (r: String)
        ensures
            r@ == spec_scopes_value(self.spec_scopes()),
    {
        let mut out = String::new();
        let n = self.scopes.len();
        let mut i: usize = 0;
        while i < n
            invariant
                0 <= i <= n,
                n == self.scopes@.len(),
                i == 0 ==> out@ =~= Seq::<char>::empty(),
                0 < i <= n ==> out@ =~= spec_scopes_value(self.scopes@.take(i as int)),
            decreases n - i,
        {
            if i > 0 {
                out.append("|");
            }
            out.append(self.scopes[i].as_code());
            proof {
                lemma_scopes_value_push(self.scopes@.take(i as int), self.scopes@[i as int]);
                assert(self.scopes@.take(i + 1) =~= self.scopes@.take(i as int).push(
                    self.scopes@[i as int],
                ));
            }
            i = i + 1;
        }
        assert(self.scopes@.take(n as int) =~= self.scopes@);
        if n == 0 {
            assert(out@ =~= spec_scopes_value(self.scopes@));
        }
        out
    }
}

/// Appending one scope to the end of the joined rendering.
proof fn lemma_scopes_value_push(s: Seq<Scope>, x: Scope)
    ensures
        spec_scopes_value(s.push(x)) =~= if s.len() == 0 {
            x.spec_code()
        } else {
            spec_scopes_value(s) + "|"@ + x.spec_code()
        },
    decreases s.len(),
{
    let n = s.push(x);
    if s.len() == 0 {
        assert(n.len() == 1);
        assert(n.first() == x);
    } else {
        assert(n.drop_first() =~= s.drop_first().push(x));
        lemma_scopes_value_push(s.drop_first(), x);
        if s.len() == 1 {
            assert(spec_scopes_value(n) =~= n.first().spec_code() + "|"@ + spec_scopes_value(
                n.drop_first(),
            ));
            assert(spec_scopes_value(n.drop_first()) =~= x.spec_code());
            assert(spec_scopes_value(s) == s.first().spec_code());
        }
    }
}

} // verus!
