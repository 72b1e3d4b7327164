//! Identifiers of the pages and buttons of the demonstration application.

use vstd::laws_eq::obeys_concrete_eq;
use vstd::prelude::*;

verus! {

/// Defines the identifiers of the pages.
#[derive(Debug, Clone, Copy, Eq)]
pub enum PageId {
    Persistent,
    Page1,
    Page2,
    Page2SubPage,
    NoPage,
}

/// Defines the identifiers of the buttons.
#[derive(Debug, Clone, Copy, Eq)]
pub enum ButtonId {
    ButtonPage1,
    ButtonPage2,
    ButtonPurpleInputStartPage1,
    ButtonRedInputStartPage1,
    ButtonPurpleInputStartPage2,
    ButtonSubPage,
    ButtonBack,
}

impl PartialEq for PageId {
    fn eq(&self, other: &Self) -> (equal: bool) {
        match (self, other) {
            (PageId::Persistent, PageId::Persistent) => true,
            (PageId::Page1, PageId::Page1) => true,
            (PageId::Page2, PageId::Page2) => true,
            (PageId::Page2SubPage, PageId::Page2SubPage) => true,
            (PageId::NoPage, PageId::NoPage) => true,
            _ => false,
        }
    }
}

impl vstd::std_specs::cmp::PartialEqSpecImpl for PageId {
    open spec fn obeys_eq_spec() -> bool {
        true
    }

    open spec fn eq_spec(&self, other: &Self) -> bool {
        *self == *other
    }
}

impl PartialEq for ButtonId {
    fn eq(&self, other: &Self) -> (equal: bool) {
        match (self, other) {
            (ButtonId::ButtonPage1, ButtonId::ButtonPage1) => true,
            (ButtonId::ButtonPage2, ButtonId::ButtonPage2) => true,
            (
                ButtonId::ButtonPurpleInputStartPage1,
                ButtonId::ButtonPurpleInputStartPage1,
            ) => true,
            (ButtonId::ButtonRedInputStartPage1, ButtonId::ButtonRedInputStartPage1) => true,
            (
                ButtonId::ButtonPurpleInputStartPage2,
                ButtonId::ButtonPurpleInputStartPage2,
            ) => true,
            (ButtonId::ButtonSubPage, ButtonId::ButtonSubPage) => true,
            (ButtonId::ButtonBack, ButtonId::ButtonBack) => true,
            _ => false,
        }
    }
}

impl vstd::std_specs::cmp::PartialEqSpecImpl for ButtonId {
    open spec fn obeys_eq_spec() -> bool {
        true
    }

    open spec fn eq_spec(&self, other: &Self) -> bool {
        *self == *other
    }
}

/// `==` on the demonstration's identifiers is equality.
pub proof fn lemma_ids_comparable()
    ensures
        obeys_concrete_eq::<PageId>(),
        obeys_concrete_eq::<ButtonId>(),
{
    reveal(obeys_concrete_eq);
}

} // verus!
