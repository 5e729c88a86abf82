//! User-facing messages attached to remote API errors, localized in
//! at least two languages.

use vstd::prelude::*;

verus! {

/// All languages supported in user-friendly responses.
#[derive(Debug, Clone, Copy)]
pub enum Language {
    Polish,
    English,
}

impl Language {
    /// The wire code of the language.
    pub open spec fn spec_code(self) -> Seq<char> {
        match self {
            Language::Polish => "pl"@,
            Language::English => "en"@,
        }
    }

    /// Returns the wire code of the language.
    pub fn code(&self) -> (r: &'static str)
        ensures
            r@ == self.spec_code(),
    {
        match self {
            Language::Polish => "pl",
            Language::English => "en",
        }
    }
}

/// A human-readable message rendered per language.
#[derive(Debug, Clone)]
pub struct LanguageDictionary {
    pub polish: Option<String>,
    pub english: Option<String>,
}

impl LanguageDictionary {
    /// The stored rendering for a language, if any.
    pub open spec fn spec_entry(&self, language: Language) -> Option<Seq<char>> {
        let slot = match language {
            Language::Polish => self.polish,
            Language::English => self.english,
        };
        match slot {
            Some(s) => Some(s@),
            None => None,
        }
    }

    /// Builds a dictionary from its per-language renderings.
    pub fn new(polish: Option<String>, english: Option<String>) -> (r: LanguageDictionary)
        ensures
            r.spec_entry(Language::Polish) == match polish {
                Some(s) => Some::<Seq<char>>(s@),
                None => None::<Seq<char>>,
            },
            r.spec_entry(Language::English) == match english {
                Some(s) => Some::<Seq<char>>(s@),
                None => None::<Seq<char>>,
            },
    {
        LanguageDictionary { polish, english }
    }

    /// The message in the given language, which must be present.
    pub fn get(&self, language: Language) -> (r: &str)
        requires
            self.spec_entry(language) is Some,
        ensures
            Some(r@) == self.spec_entry(language),
    {
        match language {
            Language::Polish => self.polish.as_ref().unwrap().as_str(),
            Language::English => self.english.as_ref().unwrap().as_str(),
        }
    }

    /// The Polish rendering, which must be present.
    pub fn polish(&self) -> (r: &str)
        requires
            self.spec_entry(Language::Polish) is Some,
        ensures
            Some(r@) == self.spec_entry(Language::Polish),
    {
        self.get(Language::Polish)
    }

    /// The English rendering, which must be present.
    pub fn english(&self) -> (r: &str)
        requires
            self.spec_entry(Language::English) is Some,
        ensures
            Some(r@) == self.spec_entry(Language::English),
    {
        self.get(Language::English)
    }
}

impl LanguageDictionary {
    /// The diagnostic rendering of the dictionary: the English
    /// message when present, else the Polish one, else nothing.
    pub open spec fn spec_description(self) -> Seq<char> {
        match self.english {
            Some(e) => e@,
            None => match self.polish {
                Some(p) => p@,
                None => Seq::<char>::empty(),
            },
        }
    }

    /// Renders the dictionary for a diagnostic.
    pub fn describe(&self) -> (r: String)
        ensures
            r@ == self.spec_description(),
    {
        match &self.english {
            Some(e) => e.as_str().to_owned(),
            None => match &self.polish {
                Some(p) => p.as_str().to_owned(),
                None => String::new(),
            },
        }
    }
}

/// Message intended for the user, possibly containing information
/// about validation errors.
#[derive(Debug)]
pub struct UserMessages {
    /// The generic, context-free message to display.
    pub generic_message: Option<LanguageDictionary>,
    /// Per-field messages for parameters that failed validation.
    pub fields: Vec<(String, LanguageDictionary)>,
}

impl UserMessages {
    /// Builds the message set.
    pub fn new(generic_message: Option<LanguageDictionary>, fields: Vec<(String, LanguageDictionary)>)
        -> (r: UserMessages)
        ensures
            r.generic_message == generic_message,
            r.fields@ == fields@,
    {
        UserMessages { generic_message, fields }
    }

    /// The generic message, if one was sent.
    pub fn generic_message(&self) -> (r: &Option<LanguageDictionary>)
        ensures
            r == self.generic_message,
    {
        &self.generic_message
    }

    /// The per-field messages.
    pub fn fields(&self) -> (r: &Vec<(String, LanguageDictionary)>)
        ensures
            r@ == self.fields@,
    {
        &self.fields
    }

    /// The diagnostic rendering of the message set: the generic
    /// message, then one indented line per failed field.
    pub open spec fn spec_description(self) -> Seq<char> {
        (match self.generic_message {
            Some(g) => g.spec_description(),
            None => Seq::<char>::empty(),
        }) + (
        if self.fields@.len() == 0 {
            Seq::<char>::empty()
        } else {
            "Field errors:"@ + spec_field_lines(self.fields@)
        })
    }

    /// Renders the message set for a diagnostic.
    pub fn describe(&self) -> (r: String)
        ensures
            r@ == self.spec_description(),
    {
        let mut out = String::new();
        match &self.generic_message {
            Some(g) => {
                let d = g.describe();
                out.append(d.as_str());
            },
            None => {},
        }
        if self.fields.len() > 0 {
            out.append("Field errors:");
            let n = self.fields.len();
            let mut i: usize = 0;
            while i < n
                invariant
                    0 < n == self.fields@.len(),
                    0 <= i <= n,
                    out@ =~= (match self.generic_message {
                        Some(g) => g.spec_description(),
                        None => Seq::<char>::empty(),
                    }) + "Field errors:"@ + spec_field_lines(self.fields@.take(i as int)),
                decreases n - i,
            {
                out.append("\n\t'");
                out.append(self.fields[i].0.as_str());
                out.append("': ");
                let d = self.fields[i].1.describe();
                out.append(d.as_str());
                proof {
                    lemma_field_lines_push(self.fields@.take(i as int), self.fields@[i as int]);
                    assert(self.fields@.take(i + 1) =~= self.fields@.take(i as int).push(
                        self.fields@[i as int],
                    ));
                }
                i = i + 1;
            }
            assert(self.fields@.take(n as int) =~= self.fields@);
        }
        out
    }
}

/// One diagnostic line per failed field, each starting on its own
/// indented line.
pub open spec fn spec_field_lines(fields: Seq<(String, LanguageDictionary)>) -> Seq<char>
    decreases fields.len(),
{
    if fields.len() == 0 {
        Seq::empty()
    } else {
        spec_field_lines(fields.drop_last()) + "\n\t'"@ + fields.last().0@ + "': "@
            + fields.last().1.spec_description()
    }
}

/// Appending one field line.
proof fn lemma_field_lines_push(fields: Seq<(String, LanguageDictionary)>, f: (
    String,
    LanguageDictionary,
))
    ensures
        spec_field_lines(fields.push(f)) =~= spec_field_lines(fields) + "\n\t'"@ + f.0@ + "': "@
            + f.1.spec_description(),
{
    assert(fields.push(f).drop_last() =~= fields);
    assert(fields.push(f).last() == f);
}

} // verus!
