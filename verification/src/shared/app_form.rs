//! Descriptions of form fields shared by the forms.
use vstd::prelude::*;

verus! {

/// A form field: what it is and its label.
#[derive(Debug, Clone, Copy, PartialEq, Eq, Hash)]
pub struct FormFieldItem<T> {
    pub id: T,
    pub label: &'static str,
}

/// A choice field: what it is, its label and the texts it offers.
#[derive(Debug, Clone, Copy, PartialEq, Eq, Hash)]
pub struct FormFieldSelectItem<T> {
    pub id: T,
    pub label: &'static str,
    pub options: &'static [&'static str],
}

} // verus!
