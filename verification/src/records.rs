//! The plain record types stored in the bootstrapped tables. The CRUD
//! accessors around them are conventional single-table queries owned by the
//! embedding application; the types themselves are part of the data model
//! the migrations establish.

use vstd::prelude::*;

verus! {

/// A student row: identified by matricule, assigned to a class.
#[derive(Debug, Clone)]
pub struct Student {
    pub matricule: String,
    pub name: String,
    pub surname: String,
    pub class: String,
}

/// A subject row: identified by code, taught to a class, weighted by a
/// coefficient.
#[derive(Debug, Clone)]
pub struct Subject {
    pub code: String,
    pub name: String,
    pub class: String,
    pub coefficient: u8,
}

/// An administrative account row.
#[derive(Debug, Clone, PartialEq)]
pub struct Admin {
    pub id: i64,
    pub login: String,
    pub password: String,
}

} // verus!
