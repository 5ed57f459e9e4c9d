use vstd::prelude::*;

use crate::model::{BuiltService, NameError};
use crate::outside::{is_valid_project_name, project_name_valid, toml_string_entry, toml_string_field};

verus! {

/// The name that an override document proposes, if it is there and holds one.
pub open spec fn override_candidate(text: Option<Seq<char>>) -> Option<Seq<char>> {
    match text {
        Some(t) => toml_string_entry(t, "name"@),
        None => None,
    }
}

/// The service name: the override's name where it is a valid project name,
/// else the package's name where that is valid, else none.
pub open spec fn chosen_name(
    candidate: Option<Seq<char>>,
    candidate_valid: bool,
    package: Seq<char>,
    package_valid: bool,
) -> Option<Seq<char>> {
    if candidate is Some && candidate_valid {
        candidate
    } else if package_valid {
        Some(package)
    } else {
        None
    }
}

pub open spec fn opt_view(s: Option<&str>) -> Option<Seq<char>> {
    match s {
        Some(t) => Some(t@),
        None => None,
    }
}

/// Picks the service name from an override's proposed name and the package
/// name, given whether each is a valid project name.
pub fn pick_service_name(
    candidate: Option<String>,
    candidate_valid: bool,
    package_name: &String,
    package_valid: bool,
) -> (r: Result<String, NameError>)
    ensures
        ({
            let cand = match candidate {
                Some(c) => Some(c@),
                None => None,
            };
            match chosen_name(cand, candidate_valid, package_name@, package_valid) {
                Some(n) => r is Ok && r->Ok_0@ == n,
                None => r == Err::<String, NameError>(NameError::InvalidName(*package_name)),
            }
        }),
{
    match candidate {
        Some(c) => if candidate_valid {
            return Ok(c);
        },
        None => {},
    }
    if package_valid {
        Ok(package_name.clone())
    } else {
        Err(NameError::InvalidName(package_name.clone()))
    }
}

impl BuiltService {
    /// The name under which this service is known. `override_text` is the
    /// content of the service's override document, when there is one; a
    /// document that does not parse, has no string `name`, or names an
    /// invalid project is passed over for the package's name.
    pub fn service_name(&self, override_text: Option<&str>) -> (r: Result<String, NameError>)
        ensures
            ({
                let cand = override_candidate(opt_view(override_text));
                let cand_valid = cand is Some && project_name_valid(cand->Some_0);
                match chosen_name(
                    cand,
                    cand_valid,
                    self.package_name@,
                    project_name_valid(self.package_name@),
                ) {
                    Some(n) => r is Ok && r->Ok_0@ == n,
                    None => r == Err::<String, NameError>(NameError::InvalidName(self.package_name)),
                }
            }),
    {
        let candidate = match override_text {
            Some(text) => toml_string_field(text, "name"),
            None => None,
        };
        let candidate_valid = match &candidate {
            Some(c) => is_valid_project_name(c.as_str()),
            None => false,
        };
        let package_valid = is_valid_project_name(self.package_name.as_str());
        pick_service_name(candidate, candidate_valid, &self.package_name, package_valid)
    }
}

} // verus!
