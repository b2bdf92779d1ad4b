use vstd::prelude::*;

verus! {

/// The mathematical content of a finished DTO: its three display texts.
pub struct DtoView {
    pub name: Seq<char>,
    pub address: Seq<char>,
    pub age: Seq<char>,
}

/// The finished, immutable data-transfer object: a display name, a formatted
/// address, and a pre-formatted age, each exposed through a read accessor.
#[derive(Debug)]
pub struct UserWebDTO {
    name: String,
    address: String,
    age: String,
}

impl View for UserWebDTO {
    type V = DtoView;

    closed spec fn view(&self) -> DtoView {
        DtoView { name: self.name@, address: self.address@, age: self.age@ }
    }
}

impl UserWebDTO {
    pub fn new(name: String, address: String, age: String) -> (r: Self)
        ensures
            r@.name == name@,
            r@.address == address@,
            r@.age == age@,
    {
        UserWebDTO { name, address, age }
    }

    pub fn get_name(&self) -> (r: String)
        ensures
            r@ == self@.name,
    {
        self.name.clone()
    }

    pub fn get_address(&self) -> (r: String)
        ensures
            r@ == self@.address,
    {
        self.address.clone()
    }

    pub fn get_age(&self) -> (r: String)
        ensures
            r@ == self@.age,
    {
        self.age.clone()
    }
}

} // verus!
