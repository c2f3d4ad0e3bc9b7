use vstd::prelude::*;

verus! {

/// The three entries of the left navigation panel; exactly one is selected.
#[derive(Clone, Copy, Debug, PartialEq, Eq, Structural)]
pub enum LeftMenuEnum {
    First,
    Second,
    Third,
}

/// The text of the placeholder label shown for a panel other than the form.
pub open spec fn placeholder_text(p: LeftMenuEnum) -> Seq<char> {
    match p {
        LeftMenuEnum::First => Seq::empty(),
        LeftMenuEnum::Second => "Second panel"@,
        LeftMenuEnum::Third => "Third panel"@,
    }
}

impl LeftMenuEnum {
    /// The label that stands in the central area when this entry is selected,
    /// or `None` for the entry that shows the form.
    pub fn placeholder_label(&self) -> (r: Option<String>)
        ensures
            (r is None) <==> (*self == LeftMenuEnum::First),
            r matches Some(s) ==> s@ == placeholder_text(*self),
    {
        match self {
            LeftMenuEnum::First => None,
            LeftMenuEnum::Second => Some(String::from_str("Second panel")),
            LeftMenuEnum::Third => Some(String::from_str("Third panel")),
        }
    }
}

} // verus!
