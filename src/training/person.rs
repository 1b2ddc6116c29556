use vstd::prelude::*;

verus! {

/// A person with a private name and a public age and occupation.
pub struct Person {
    name: String,
    pub age: u8,
    pub occupation: String,
}

impl Person {
    /// The name, which callers outside this module cannot read directly.
    pub closed spec fn name_view(&self) -> Seq<char> {
        self.name@
    }

    /// The age.
    pub closed spec fn age_view(&self) -> u8 {
        self.age
    }

    /// The occupation.
    pub closed spec fn occupation_view(&self) -> Seq<char> {
        self.occupation@
    }

    /// A person with the given name, age and occupation.
    pub fn new(insert_name: &str, insert_age: u8, insert_occupation: &str) -> (r: Person)
        ensures
            r.name_view() == insert_name@,
            r.age_view() == insert_age,
            r.occupation_view() == insert_occupation@,
    {
        Person {
            name: insert_name.to_owned(),
            age: insert_age,
            occupation: insert_occupation.to_owned(),
        }
    }
}

} // verus!
