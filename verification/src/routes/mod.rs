use vstd::prelude::*;

pub mod admin;
pub mod files;
pub mod notes;

verus! {

/// The text of the error for a route parameter `name` that the path lacks.
pub open spec fn spec_missing_param(name: Seq<char>) -> Seq<char> {
    "Missing "@ + name
}

/// The value of the route parameter `name`, or the error `Missing <name>` when it is absent.
pub fn required_param(value: Option<String>, name: &str) -> (r: Result<String, String>)
    ensures
        match value {
            Some(v) => (r matches Ok(rv) && rv@ == v@),
            None => (r matches Err(e) && e@ == spec_missing_param(name@)),
        },
{
    match value {
        Some(v) => Ok(v),
        None => {
            let mut e = String::from_str("Missing ");
            e.append(name);
            Err(e)
        },
    }
}


/// Law: the error for an absent route parameter is `Missing ` followed by the parameter's name.
pub proof fn law_missing_param_names_it(name: Seq<char>)
    ensures
        spec_missing_param(name) == "Missing "@ + name,
{
}

} // verus!
