//! The closed enumeration of spend categories.

use vstd::prelude::*;
use vstd::string::StringExecFns;

verus! {

/// A spend category. The wire form and the display form of each variant are
/// its tag name; a request that omits the category is treated as `Other`.
#[derive(Clone, Copy, PartialEq, Eq, Structural, Debug)]
pub enum Category {
    Dining,
    Grocery,
    Travel,
    Merchandise,
    Entertainment,
    Other,
}

/// The display name of a category: exactly its tag.
pub open spec fn category_name(c: Category) -> Seq<char> {
    match c {
        Category::Dining => "Dining"@,
        Category::Grocery => "Grocery"@,
        Category::Travel => "Travel"@,
        Category::Merchandise => "Merchandise"@,
        Category::Entertainment => "Entertainment"@,
        Category::Other => "Other"@,
    }
}

impl Category {
    /// The stable display name, identical to the tag.
    pub fn name(&self) -> (s: &'static str)
        ensures
            s@ == category_name(*self),
    {
        match self {
            Category::Dining => "Dining",
            Category::Grocery => "Grocery",
            Category::Travel => "Travel",
            Category::Merchandise => "Merchandise",
            Category::Entertainment => "Entertainment",
            Category::Other => "Other",
        }
    }

    /// Decode a category from its tag name. Matching is case sensitive and
    /// exact: `Some(c)` when `s` is the name of `c`, `None` for every other
    /// string.
    pub fn from_name(s: &str) -> (r: Option<Category>)
        ensures
            match r {
                Some(c) => s@ == category_name(c),
                None => forall|c: Category| s@ != category_name(c),
            },
    {
        let t = s.to_owned();
        if t == String::from_str("Dining") {
            Some(Category::Dining)
        } else if t == String::from_str("Grocery") {
            Some(Category::Grocery)
        } else if t == String::from_str("Travel") {
            Some(Category::Travel)
        } else if t == String::from_str("Merchandise") {
            Some(Category::Merchandise)
        } else if t == String::from_str("Entertainment") {
            Some(Category::Entertainment)
        } else if t == String::from_str("Other") {
            Some(Category::Other)
        } else {
            proof {
                assert forall|c: Category| s@ != category_name(c) by {
                    match c {
                        Category::Dining => assert(s@ != category_name(c)),
                        Category::Grocery => assert(s@ != category_name(c)),
                        Category::Travel => assert(s@ != category_name(c)),
                        Category::Merchandise => assert(s@ != category_name(c)),
                        Category::Entertainment => assert(s@ != category_name(c)),
                        Category::Other => assert(s@ != category_name(c)),
                    }
                }
            }
            None
        }
    }
}

} // verus!
