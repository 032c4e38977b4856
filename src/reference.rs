//! A column's resolved relationship to a lookup table.

use vstd::prelude::*;

use crate::widget::Widget;

verus! {

/// A lookup relationship, as the reference resolver hands it over: the
/// resolver decides which widget shows the referenced table in full view.
#[derive(Debug, Clone, PartialEq)]
pub struct Reference {
    widget_fullview: Widget,
}

impl Reference {
    /// A reference that the resolver shows with `widget_fullview`.
    pub fn new(widget_fullview: Widget) -> (r: Reference)
        ensures
            r.spec_widget_fullview() == widget_fullview,
    {
        Reference { widget_fullview }
    }

    /// A lookup into another table through a table lookup dialog.
    pub fn table_lookup() -> (r: Reference)
        ensures
            r.spec_widget_fullview() == Widget::TableLookupDropdown,
    {
        Reference { widget_fullview: Widget::TableLookupDropdown }
    }

    pub closed spec fn spec_widget_fullview(self) -> Widget {
        self.widget_fullview
    }

    /// The widget that shows the referenced table in full view.
    pub fn get_widget_fullview(self) -> (r: Widget)
        ensures
            r == self.spec_widget_fullview(),
    {
        self.widget_fullview
    }
}

} // verus!
