//! Which page and which dialog the application shows.

use vstd::prelude::*;

verus! {

/// The page the application shows.
#[derive(Clone, Debug, PartialEq, Eq, Structural)]
pub enum View {
    Dashboard,
    Contacts,
    Deals,
    Activities,
}

impl Default for View {
    fn default() -> (r: Self)
        ensures
            r == View::Dashboard,
    {
        View::Dashboard
    }
}

/// The dialog open over the page, with the identifier of the record it
/// concerns.
#[derive(Clone, Debug, PartialEq, Eq)]
pub enum Modal {
    /// No dialog is open.
    Closed,
    NewContact,
    EditContact(String),
    NewDeal,
    EditDeal(String),
    NewActivity,
    ContactDetail(String),
    DealDetail(String),
    Search,
}

impl Default for Modal {
    fn default() -> (r: Self)
        ensures
            r == Modal::Closed,
    {
        Modal::Closed
    }
}

} // verus!
