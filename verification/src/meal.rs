use vstd::prelude::*;

verus! {

/// A meal: a main course for sure, a starter and a dessert if asked for.
#[derive(Debug)]
pub struct Meal {
    pub starter: Option<String>,
    pub main: String,
    pub dessert: Option<String>,
}

impl Meal {
    /// A builder to put a meal together course by course.
    pub fn builder() -> (r: MealBuilder)
        ensures
            r.starter is None,
            r.main@ == Seq::<char>::empty(),
            r.dessert is None,
    {
        MealBuilder::default()
    }
}

impl Default for Meal {
    /// A default meal is just Beef Short Rib.
    fn default() -> (r: Meal)
        ensures
            r.starter is None,
            r.main@ == "Beef Short Rib"@,
            r.dessert is None,
    {
        Meal { starter: None, main: "Beef Short Rib".to_owned(), dessert: None }
    }
}

/// Collects the courses of a meal before it is served.
#[derive(Debug)]
pub struct MealBuilder {
    pub starter: Option<String>,
    pub main: String,
    pub dessert: Option<String>,
}

impl Default for MealBuilder {
    /// A builder with no courses chosen yet.
    fn default() -> (r: MealBuilder)
        ensures
            r.starter is None,
            r.main@ == Seq::<char>::empty(),
            r.dessert is None,
    {
        proof {
            reveal_strlit("");
            assert(""@ =~= Seq::<char>::empty());
        }
        MealBuilder { starter: None, main: "".to_owned(), dessert: None }
    }
}

impl MealBuilder {
    /// A meal must have a main course, so nothing less starts a builder.
    pub fn new(main: &str) -> (r: MealBuilder)
        ensures
            r.starter is None,
            r.main@ == main@,
            r.dessert is None,
    {
        MealBuilder { starter: None, main: main.to_owned(), dessert: None }
    }

    /// Adds a starter.
    pub fn starter(self, starter: &str) -> (r: MealBuilder)
        ensures
            r.starter matches Some(s) && s@ == starter@,
            r.main@ == self.main@,
            r.dessert == self.dessert,
    {
        MealBuilder { starter: Some(starter.to_owned()), main: self.main, dessert: self.dessert }
    }

    /// Adds a dessert.
    pub fn dessert(self, dessert: &str) -> (r: MealBuilder)
        ensures
            r.dessert matches Some(d) && d@ == dessert@,
            r.main@ == self.main@,
            r.starter == self.starter,
    {
        MealBuilder { starter: self.starter, main: self.main, dessert: Some(dessert.to_owned()) }
    }

    /// Serves the meal as ordered so far.
    pub fn build(self) -> (r: Meal)
        ensures
            r.starter == self.starter,
            r.main == self.main,
            r.dessert == self.dessert,
    {
        Meal { starter: self.starter, main: self.main, dessert: self.dessert }
    }
}

} // verus!
