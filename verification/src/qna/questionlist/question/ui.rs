//! Rendering hints that a question may carry.

use vstd::prelude::*;
use vstd::string::StringExecFns;

verus! {

/// The widget that shows a yes/no question.
#[derive(Debug, Clone, Copy, PartialEq, Eq, Structural)]
pub enum TrueOrFalseWidget {
    Radio,
    Select,
}

/// The hints of a yes/no question.
#[derive(Debug, Clone, Copy, PartialEq, Eq, Structural)]
pub struct TrueOrFalse {
    pub widget: Option<TrueOrFalseWidget>,
}

/// The widget that shows a number question.
#[derive(Debug, Clone, Copy, PartialEq, Eq, Structural)]
pub enum IntegerWidget {
    UpDown,
    Range,
    Radio,
}

/// The hints of a number question.
#[derive(Debug, Clone, Copy, PartialEq, Eq, Structural)]
pub struct Integer {
    pub widget: Option<IntegerWidget>,
}

impl TrueOrFalseWidget {
    /// The name under which a form renderer knows the widget.
    pub open spec fn name(self) -> Seq<char> {
        match self {
            TrueOrFalseWidget::Radio => "radio"@,
            TrueOrFalseWidget::Select => "select"@,
        }
    }

    /// The widget's name as text.
    pub fn to_string(&self) -> (s: String)
        ensures
            s@ == self.name(),
    {
        match self {
            TrueOrFalseWidget::Radio => String::from_str("radio"),
            TrueOrFalseWidget::Select => String::from_str("select"),
        }
    }
}

} // verus!
