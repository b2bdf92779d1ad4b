use vstd::prelude::*;

verus! {

/// An immutable structured postal address: five text fields, no validation
/// beyond presence.
pub struct Address {
    pub house_number: String,
    pub street: String,
    pub city: String,
    pub state: String,
    pub zip_code: String,
}

impl Address {
    /// An address with every field empty.
    pub fn new() -> (r: Self)
        ensures
            r.house_number@ == Seq::<char>::empty(),
            r.street@ == Seq::<char>::empty(),
            r.city@ == Seq::<char>::empty(),
            r.state@ == Seq::<char>::empty(),
            r.zip_code@ == Seq::<char>::empty(),
    {
        Address {
            house_number: String::new(),
            street: String::new(),
            city: String::new(),
            state: String::new(),
            zip_code: String::new(),
        }
    }
}

} // verus!
