use vstd::prelude::*;

verus! {

/// One record of a measurement series, ready to be serialised at the edge
/// of the program.
#[derive(Debug)]
pub struct DataPoint {
    pub epoch: i64,
    pub name: String,
    pub details: String,
    pub value: u8,
    pub flag: bool,
}

/// Collects the fields of a data point one call at a time.
#[derive(Debug)]
pub struct DataPointBuilder {
    pub epoch: i64,
    pub name: String,
    pub details: String,
    pub value: u8,
    pub flag: bool,
}

impl DataPointBuilder {
    /// A builder with every field at its plainest: zeroes, empty strings,
    /// an unset flag.
    pub fn new() -> (r: DataPointBuilder)
        ensures
            r.epoch == 0,
            r.name@ == Seq::<char>::empty(),
            r.details@ == Seq::<char>::empty(),
            r.value == 0,
            r.flag == false,
    {
        proof {
            reveal_strlit("");
            assert(""@ =~= Seq::<char>::empty());
        }
        DataPointBuilder {
            epoch: 0,
            name: "".to_owned(),
            details: "".to_owned(),
            value: 0,
            flag: false,
        }
    }

    /// Sets the epoch.
    pub fn epoch(self, epoch: i64) -> (r: DataPointBuilder)
        ensures
            r == (DataPointBuilder { epoch, ..self }),
    {
        DataPointBuilder { epoch, ..self }
    }

    /// Sets the name.
    pub fn name(self, name: &str) -> (r: DataPointBuilder)
        ensures
            r.name@ == name@,
            r.epoch == self.epoch,
            r.details == self.details,
            r.value == self.value,
            r.flag == self.flag,
    {
        DataPointBuilder { name: name.to_owned(), ..self }
    }

    /// Sets the details.
    pub fn details(self, details: &str) -> (r: DataPointBuilder)
        ensures
            r.details@ == details@,
            r.epoch == self.epoch,
            r.name == self.name,
            r.value == self.value,
            r.flag == self.flag,
    {
        DataPointBuilder { details: details.to_owned(), ..self }
    }

    /// Sets the value.
    pub fn value(self, value: u8) -> (r: DataPointBuilder)
        ensures
            r == (DataPointBuilder { value, ..self }),
    {
        DataPointBuilder { value, ..self }
    }

    /// Sets the flag.
    pub fn flag(self, flag: bool) -> (r: DataPointBuilder)
        ensures
            r == (DataPointBuilder { flag, ..self }),
    {
        DataPointBuilder { flag, ..self }
    }

    /// The finished data point, field for field as collected.
    pub fn build(self) -> (r: DataPoint)
        ensures
            r.epoch == self.epoch,
            r.name == self.name,
            r.details == self.details,
            r.value == self.value,
            r.flag == self.flag,
    {
        DataPoint {
            epoch: self.epoch,
            name: self.name,
            details: self.details,
            value: self.value,
            flag: self.flag,
        }
    }
}

} // verus!
