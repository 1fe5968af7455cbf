//! The records of the registry: a named link, and the request to store one.

use vstd::prelude::*;

verus! {

/// One stored record: a link under a name, with the identifier that storage
/// gave it when it was created.
#[derive(Debug, PartialEq, Eq)]
pub struct Service {
    pub id: i32,
    pub name: String,
    pub link: String,
}

/// What a `Service` is, as mathematics.
pub struct ServiceView {
    pub id: int,
    pub name: Seq<char>,
    pub link: Seq<char>,
}

impl View for Service {
    type V = ServiceView;

    open spec fn view(&self) -> ServiceView {
        ServiceView { id: self.id as int, name: self.name@, link: self.link@ }
    }
}

impl Clone for Service {
    fn clone(&self) -> (copy: Service)
        ensures
            copy == *self,
    {
        Service { id: self.id, name: self.name.clone(), link: self.link.clone() }
    }
}

/// The body of a request to create a record. Storage chooses the identifier.
#[derive(Debug, PartialEq, Eq)]
pub struct CreateService {
    pub name: String,
    pub link: String,
}

impl Clone for CreateService {
    fn clone(&self) -> (copy: CreateService)
        ensures
            copy == *self,
    {
        CreateService { name: self.name.clone(), link: self.link.clone() }
    }
}

/// The records that a list of services stands for, in the same order.
pub open spec fn views(rows: Seq<Service>) -> Seq<ServiceView> {
    rows.map_values(|row: Service| row@)
}

/// A result as mathematics: the view of whichever side it holds.
pub open spec fn result_view<T: View, E: View>(result: Result<T, E>) -> Result<T::V, E::V> {
    match result {
        Ok(value) => Ok(value@),
        Err(error) => Err(error@),
    }
}

} // verus!
