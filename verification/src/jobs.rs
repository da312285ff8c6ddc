use vstd::prelude::*;

verus! {

/// A paid occupation.
pub trait Job {
    /// The salary, as the contracts see it.
    spec fn salary_spec(&self) -> u8;

    /// What this occupation pays.
    fn salary(&self) -> (r: u8)
        ensures
            r == self.salary_spec(),
    ;
}

/// A student: paid nothing.
pub struct Student {
    pub job_title: String,
}

impl Job for Student {
    open spec fn salary_spec(&self) -> u8 {
        0
    }

    fn salary(&self) -> (r: u8) {
        0
    }
}

/// A teacher: paid a hundred.
pub struct Teacher {
    pub job_title: String,
}

impl Job for Teacher {
    open spec fn salary_spec(&self) -> u8 {
        100
    }

    fn salary(&self) -> (r: u8) {
        100
    }
}

/// A person with a name and an occupation.
pub struct Person<J: Job> {
    pub name: String,
    pub job: J,
}

} // verus!
