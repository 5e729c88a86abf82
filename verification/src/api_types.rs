//! Typed models of the remote API's response objects, held as plain
//! values.  Fetching and JSON decoding happen outside the verified
//! core.

use vstd::prelude::*;
use crate::scopes::Scope;
use crate::times::UsosDateTime;
use crate::user_messages::LanguageDictionary;

verus! {

/// A phone number of a faculty.
pub struct PhoneNumber {
    pub comment: Option<String>,
    pub number: String,
    pub phone_type: String,
}

/// Usage statistics of a faculty.
pub struct FacultyStats {
    pub course_count: Option<u32>,
    pub programme_count: Option<u32>,
    pub staff_count: Option<u32>,
    pub subfaculty_count: Option<u32>,
    pub public_subfaculty_count: Option<u32>,
}

/// Rendering quality of a static map image.
pub enum Quality {
    Low,
    Medium,
    High,
}

/// One faculty of the institution.
pub struct Faculty {
    pub id: String,
    pub name: LanguageDictionary,
    pub profile_url: String,
    pub homepage_url: Option<String>,
    pub phone_numbers: Vec<String>,
    pub phone_numbers2: Vec<PhoneNumber>,
    pub postal_address: String,
    pub email: Option<String>,
    pub is_public: bool,
    /// Static map images by resolution identifier.
    pub static_map_urls: Vec<(String, String)>,
}

/// One match of a faculty search.
pub struct FacultySearchItem {
    pub id: String,
    pub match_string: String,
}

/// A page of faculty search results.
pub struct FacultySearch {
    pub items: Vec<FacultySearchItem>,
    pub next_page: bool,
}

/// How many results one search page may hold; the remote service
/// caps the page size at twenty.
pub struct SearchResults {
    count: u8,
}

impl SearchResults {
    /// The wrapped count.
    pub closed spec fn spec_count(&self) -> u8 {
        self.count
    }

    /// Accepts a page size, rejecting anything over the cap.
    pub fn try_from(value: u8) -> (r: Result<SearchResults, String>)
        ensures
            match r {
                Ok(s) => value <= 20 && s.spec_count() == value,
                Err(_) => value > 20,
            },
    {
        if value > 20 {
            Err("Number should be in range <1, 20>".to_owned())
        } else {
            Ok(SearchResults { count: value })
        }
    }

    /// Reads the page size back.
    pub fn get(&self) -> (r: u8)
        ensures
            r == self.spec_count(),
    {
        self.count
    }
}

/// Where a search page starts; the remote service caps the start
/// index at ninety-nine.
pub struct StartIndex {
    index: u16,
}

impl StartIndex {
    /// The wrapped index.
    pub closed spec fn spec_index(&self) -> u16 {
        self.index
    }

    /// Accepts a start index, rejecting anything over the cap.
    pub fn try_from(value: u16) -> (r: Result<StartIndex, String>)
        ensures
            match r {
                Ok(s) => value <= 99 && s.spec_index() == value,
                Err(_) => value > 99,
            },
    {
        if value > 99 {
            Err("Number should be in range <0, 99>".to_owned())
        } else {
            Ok(StartIndex { index: value })
        }
    }

    /// Reads the start index back.
    pub fn get(&self) -> (r: u16)
        ensures
            r == self.spec_index(),
    {
        self.index
    }
}

/// Which faculties a search covers.
pub enum Visibility {
    Public,
    All,
}

impl Visibility {
    /// The search parameter value of the visibility.
    pub fn as_code(&self) -> (r: &'static str)
        ensures
            r@ == match self {
                Visibility::Public => "public"@,
                Visibility::All => "all"@,
            },
    {
        match self {
            Visibility::Public => "public",
            Visibility::All => "all",
        }
    }
}

/// What the remote service knows about the calling consumer.
pub struct ConsumerInfo {
    pub name: String,
    pub url: Option<String>,
    pub email: String,
    pub date_registered: UsosDateTime,
    pub administrative_methods: Vec<String>,
    pub token_scopes: Option<Vec<Scope>>,
}

/// One deployment of the remote system.
pub struct Installation {
    pub base_url: String,
    pub version: String,
    pub machine_readable_version: String,
    pub usos_schema_version: String,
    pub institution_name: LanguageDictionary,
    pub primary_faculty: Faculty,
    pub contact_emails: Vec<String>,
    pub schac_id: String,
    pub mcards_support: bool,
}

/// One entry of the deployment directory.
pub struct InstallationListItem {
    pub base_url: String,
    pub contact_emails: Vec<String>,
    pub institution_name: LanguageDictionary,
    pub version: Option<String>,
}

} // verus!
