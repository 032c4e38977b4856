//! The control descriptor of a column, and the rules that derive it.

use vstd::prelude::*;

use crate::column::{Column, SqlType};
use crate::dropdown::DropdownData;
use crate::reference::Reference;
use crate::widget::{is_lookup, Alignment, Widget};

verus! {

/// Width given to a control when nothing informs an estimate.
pub const DEFAULT_WIDTH: i32 = 20;

/// Width of a UUID written out as text.
pub const UUID_WIDTH: i32 = 36;

/// Alignment of a column's values, by storage type: booleans centered,
/// numbers, identifiers and temporal values to the right, the rest left.
pub open spec fn alignment_of(t: SqlType) -> Alignment {
    if t == SqlType::Bool {
        Alignment::Center
    } else if t.is_numeric() || t.is_temporal_or_identifier() {
        Alignment::Right
    } else {
        Alignment::Left
    }
}

/// Estimated width: the observed average width when the column was
/// profiled, else the width of a UUID for UUID columns, else nothing.
pub open spec fn estimated_width(column: Column) -> Option<i32> {
    match column.stat {
        Some(stat) => Some(stat.avg_width),
        None => if column.sql_type == SqlType::Uuid {
            Some(UUID_WIDTH)
        } else {
            None
        },
    }
}

/// The estimate, or zero when there is none.
pub open spec fn width_or_zero(column: Column) -> i32 {
    match estimated_width(column) {
        Some(w) => w,
        None => 0,
    }
}

/// Width of a single column's control: the estimate, or the default
/// width when there is none.
pub open spec fn assembled_width(column: Column) -> i32 {
    match estimated_width(column) {
        Some(w) => w,
        None => DEFAULT_WIDTH,
    }
}

/// The widget a column gets from its storage type alone.
pub open spec fn type_widget(t: SqlType) -> Widget {
    if t == SqlType::Bool {
        Widget::Checkbox
    } else if t == SqlType::TimestampTz || t == SqlType::Timestamp {
        Widget::DateTimePicker
    } else if t == SqlType::Date {
        Widget::DatePicker
    } else if t == SqlType::Uuid {
        Widget::UuidTextbox
    } else {
        Widget::Textbox
    }
}

/// The widget of a column: the reference's full-view widget when there is
/// a reference, whatever the storage type; else the type's own widget.
pub open spec fn classified_widget(t: SqlType, reference: Option<Reference>) -> Widget {
    match reference {
        Some(r) => r.spec_widget_fullview(),
        None => type_widget(t),
    }
}

/// Estimates of a column group, missing ones read as zero: the widest of
/// them, or zero for no columns.
pub open spec fn widest(cols: Seq<Column>) -> i32
    decreases cols.len(),
{
    if cols.len() == 0 {
        0
    } else if cols.len() == 1 {
        width_or_zero(cols[0])
    } else {
        let rest = widest(cols.drop_last());
        let w = width_or_zero(cols.last());
        if w > rest {
            w
        } else {
            rest
        }
    }
}

/// The columns that a list of borrowed columns points at.
pub open spec fn pointed(cols: Seq<&Column>) -> Seq<Column> {
    Seq::new(cols.len(), |i: int| *cols[i])
}

/// Describes how a column is shown: the widget and, for a lookup widget,
/// the choice list behind it; its size in characters; its alignment.
#[derive(Debug, Clone, PartialEq)]
pub struct ControlWidget {
    widget: Widget,
    /// the choice list, only ever for a lookup widget
    dropdown_data: Option<DropdownData>,
    /// width in characters, from the average width of the column's values
    width: i32,
    /// the column's length limit, to warn of a value that is too long
    max_len: Option<i32>,
    /// height in characters; 1 for single-line controls
    height: i32,
    /// left for text, right for numbers, centered for booleans
    alignment: Alignment,
}

impl ControlWidget {
    /// A choice list is only ever held by a lookup widget.
    pub open spec fn wf(self) -> bool {
        self.spec_dropdown_data() is Some ==> is_lookup(self.spec_widget())
    }

    pub closed spec fn spec_widget(self) -> Widget {
        self.widget
    }

    pub closed spec fn spec_dropdown_data(self) -> Option<DropdownData> {
        self.dropdown_data
    }

    pub closed spec fn spec_width(self) -> i32 {
        self.width
    }

    pub closed spec fn spec_max_len(self) -> Option<i32> {
        self.max_len
    }

    pub closed spec fn spec_height(self) -> i32 {
        self.height
    }

    pub closed spec fn spec_alignment(self) -> Alignment {
        self.alignment
    }

    /// The descriptor of a single column, as a function of its inputs.
    pub closed spec fn built(column: Column, reference: Option<Reference>) -> ControlWidget {
        ControlWidget {
            widget: classified_widget(column.sql_type, reference),
            dropdown_data: None,
            width: assembled_width(column),
            max_len: column.limit,
            height: 1,
            alignment: alignment_of(column.sql_type),
        }
    }

    /// The descriptor of a column group that a has-one relationship spans.
    pub closed spec fn built_composite(cols: Seq<Column>) -> ControlWidget {
        ControlWidget {
            widget: Widget::TableLookupDropdown,
            dropdown_data: None,
            width: widest(cols),
            max_len: None,
            height: 1,
            alignment: Alignment::Left,
        }
    }

    /// Derives the control of a column group that a has-one (composite
    /// foreign key) relationship spans: a table lookup, as wide as the
    /// widest column, aligned left, with no length limit.
    pub fn from_has_one_table(columns: &Vec<&Column>) -> (r: Self)
        ensures
            r == Self::built_composite(pointed(columns@)),
            r.spec_widget() == Widget::TableLookupDropdown,
            r.spec_dropdown_data() is None,
            r.spec_width() == widest(pointed(columns@)),
            r.spec_max_len() is None,
            r.spec_height() == 1,
            r.spec_alignment() == Alignment::Left,
            r.wf(),
    {
        let reference = Reference::table_lookup();
        let widget = reference.get_widget_fullview();
        let ghost cols = pointed(columns@);
        let mut width: i32 = 0;
        let mut i: usize = 0;
        while i < columns.len()
            invariant
                0 <= i <= columns@.len(),
                cols == pointed(columns@),
                width == widest(cols.subrange(0, i as int)),
            decreases columns@.len() - i,
        {
            let w = match Self::get_width(columns[i]) {
                Some(w) => w,
                None => 0,
            };
            proof {
                let next = cols.subrange(0, i + 1);
                assert(next.drop_last() =~= cols.subrange(0, i as int));
                assert(next.last() == cols[i as int]);
            }
            if i == 0 || w > width {
                width = w;
            }
            i = i + 1;
        }
        assert(cols.subrange(0, cols.len() as int) =~= cols);
        ControlWidget {
            widget,
            dropdown_data: None,
            width,
            max_len: None,
            height: 1,
            alignment: Alignment::Left,
        }
    }

    /// Derives the control of a column. A reference, when present, decides
    /// the widget; the choice list is left for the data layer to fill.
    pub fn derive_control_widget(column: &Column, reference: Option<Reference>) -> (r:
        ControlWidget)
        ensures
            r == Self::built(*column, reference),
            r.spec_widget() == classified_widget(column.sql_type, reference),
            r.spec_dropdown_data() is None,
            r.spec_width() == assembled_width(*column),
            r.spec_max_len() == column.limit,
            r.spec_height() == 1,
            r.spec_alignment() == alignment_of(column.sql_type),
            r.wf(),
    {
        let limit = column.limit;
        let alignment = Self::derive_alignment(column);
        let sql_type = column.sql_type;
        let width = match Self::get_width(column) {
            Some(w) => w,
            None => DEFAULT_WIDTH,
        };
        if let Some(reference) = reference {
            let widget = reference.get_widget_fullview();
            ControlWidget { widget, dropdown_data: None, width, max_len: limit, height: 1, alignment }
        } else {
            let widget = if sql_type == SqlType::Bool {
                Widget::Checkbox
            } else if sql_type == SqlType::TimestampTz || sql_type == SqlType::Timestamp {
                Widget::DateTimePicker
            } else if sql_type == SqlType::Date {
                Widget::DatePicker
            } else if sql_type == SqlType::Uuid {
                Widget::UuidTextbox
            } else {
                Widget::Textbox
            };
            ControlWidget { widget, dropdown_data: None, width, max_len: limit, height: 1, alignment }
        }
    }

    /// Estimates the width of a column; `None` when nothing informs one.
    /// The fallback width is the builders' concern, not this one's.
    pub fn get_width(column: &Column) -> (r: Option<i32>)
        ensures
            r == estimated_width(*column),
    {
        if let Some(stat) = column.stat {
            Some(stat.avg_width)
        } else if column.sql_type == SqlType::Uuid {
            Some(UUID_WIDTH)
        } else {
            None
        }
    }

    /// The text alignment of a column, by its storage type.
    pub fn derive_alignment(column: &Column) -> (r: Alignment)
        ensures
            r == alignment_of(column.sql_type),
    {
        match column.sql_type {
            SqlType::Bool => Alignment::Center,
            SqlType::Tinyint
            | SqlType::Smallint
            | SqlType::Int
            | SqlType::Bigint
            | SqlType::Real
            | SqlType::Float
            | SqlType::Double
            | SqlType::Numeric => Alignment::Right,
            SqlType::Uuid
            | SqlType::Date
            | SqlType::Timestamp
            | SqlType::TimestampTz
            | SqlType::Time
            | SqlType::TimeTz => Alignment::Right,
            _ => Alignment::Left,
        }
    }
}

impl ControlWidget {
    /// Hands a lookup control the choice list the data layer fetched. Only a
    /// lookup widget takes one: for any other widget nothing changes and the
    /// result is `false`.
    pub fn set_dropdown_data(&mut self, data: DropdownData) -> (r: bool)
        ensures
            r == is_lookup(old(self).spec_widget()),
            r ==> final(self).spec_dropdown_data() == Some(data),
            !r ==> final(self).spec_dropdown_data() == old(self).spec_dropdown_data(),
            final(self).spec_widget() == old(self).spec_widget(),
            final(self).spec_width() == old(self).spec_width(),
            final(self).spec_max_len() == old(self).spec_max_len(),
            final(self).spec_height() == old(self).spec_height(),
            final(self).spec_alignment() == old(self).spec_alignment(),
            old(self).wf() ==> final(self).wf(),
    {
        if self.widget.is_lookup() {
            self.dropdown_data = Some(data);
            true
        } else {
            false
        }
    }

    pub fn widget(&self) -> (r: &Widget)
        ensures
            *r == self.spec_widget(),
    {
        &self.widget
    }

    pub fn dropdown_data(&self) -> (r: &Option<DropdownData>)
        ensures
            *r == self.spec_dropdown_data(),
    {
        &self.dropdown_data
    }

    pub fn width(&self) -> (r: i32)
        ensures
            r == self.spec_width(),
    {
        self.width
    }

    pub fn max_len(&self) -> (r: Option<i32>)
        ensures
            r == self.spec_max_len(),
    {
        self.max_len
    }

    pub fn height(&self) -> (r: i32)
        ensures
            r == self.spec_height(),
    {
        self.height
    }

    pub fn alignment(&self) -> (r: Alignment)
        ensures
            r == self.spec_alignment(),
    {
        self.alignment
    }
}

/// A boolean column without a reference is a centered checkbox.
pub proof fn law_boolean_column(column: Column)
    requires
        column.sql_type == SqlType::Bool,
    ensures
        ControlWidget::built(column, None).spec_widget() == Widget::Checkbox,
        ControlWidget::built(column, None).spec_alignment() == Alignment::Center,
{
}

/// A UUID column without a reference or a profile is a right-aligned UUID
/// textbox, as wide as a UUID written out.
pub proof fn law_uuid_column(column: Column)
    requires
        column.sql_type == SqlType::Uuid,
        column.stat is None,
    ensures
        ControlWidget::built(column, None).spec_width() == 36,
        ControlWidget::built(column, None).spec_widget() == Widget::UuidTextbox,
        ControlWidget::built(column, None).spec_alignment() == Alignment::Right,
{
}

/// A numeric column without a reference is a right-aligned textbox.
pub proof fn law_numeric_column(column: Column)
    requires
        column.sql_type.is_numeric(),
    ensures
        ControlWidget::built(column, None).spec_alignment() == Alignment::Right,
        ControlWidget::built(column, None).spec_widget() == Widget::Textbox,
{
}

/// With a reference, the widget is the reference's full-view widget,
/// whatever the column's storage type.
pub proof fn law_reference_decides_widget(column: Column, reference: Reference)
    ensures
        ControlWidget::built(column, Some(reference)).spec_widget()
            == reference.spec_widget_fullview(),
{
}

/// Every descriptor the builders make holds a choice list only for a
/// lookup widget.
pub proof fn law_dropdown_data_only_for_lookup(
    column: Column,
    reference: Option<Reference>,
    cols: Seq<Column>,
)
    ensures
        ControlWidget::built(column, reference).wf(),
        ControlWidget::built_composite(cols).wf(),
{
}

/// A single-column descriptor holds a choice list exactly when its widget
/// is a lookup widget, for every column whose widget is not left to a
/// reference that picks a lookup widget: such a list is filled later.
pub proof fn law_dropdown_data_iff_lookup(column: Column, reference: Option<Reference>)
    requires
        reference is Some ==> !is_lookup(reference->0.spec_widget_fullview()),
    ensures
        ControlWidget::built(column, reference).spec_dropdown_data() is Some
            <==> is_lookup(ControlWidget::built(column, reference).spec_widget()),
{
}

/// Building twice from the same inputs gives the same descriptor.
pub proof fn law_build_deterministic(
    column1: Column,
    reference1: Option<Reference>,
    column2: Column,
    reference2: Option<Reference>,
    cols1: Seq<Column>,
    cols2: Seq<Column>,
)
    requires
        column1 == column2,
        reference1 == reference2,
        cols1 == cols2,
    ensures
        ControlWidget::built(column1, reference1) == ControlWidget::built(column2, reference2),
        ControlWidget::built_composite(cols1) == ControlWidget::built_composite(cols2),
{
}

/// The composite width is the largest estimate among the columns, missing
/// estimates read as zero, and zero for no columns.
pub proof fn law_composite_width_is_max(cols: Seq<Column>)
    ensures
        ControlWidget::built_composite(cols).spec_width() == widest(cols),
        cols.len() == 0 ==> widest(cols) == 0,
        forall|i: int| 0 <= i < cols.len() ==> widest(cols) >= width_or_zero(#[trigger] cols[i]),
        cols.len() > 0 ==> exists|i: int|
            0 <= i < cols.len() && widest(cols) == width_or_zero(#[trigger] cols[i]),
    decreases cols.len(),
{
    if cols.len() > 1 {
        let rest = cols.drop_last();
        law_composite_width_is_max(rest);
        assert forall|i: int| 0 <= i < cols.len() implies widest(cols) >= width_or_zero(
            #[trigger] cols[i],
        ) by {
            if i < cols.len() - 1 {
                assert(cols[i] == rest[i]);
            }
        }
        if widest(cols) == widest(rest) {
            let j = choose|j: int| 0 <= j < rest.len() && widest(rest) == width_or_zero(
                #[trigger] rest[j],
            );
            assert(cols[j] == rest[j]);
        } else {
            assert(widest(cols) == width_or_zero(cols[cols.len() - 1]));
        }
    } else if cols.len() == 1 {
        assert(widest(cols) == width_or_zero(cols[0]));
    }
}

/// A column without a profile that is not a UUID gets no estimate, and its
/// descriptor the default width.
pub proof fn law_width_fallback(column: Column, reference: Option<Reference>)
    requires
        column.stat is None,
        column.sql_type != SqlType::Uuid,
    ensures
        estimated_width(column) is None,
        ControlWidget::built(column, reference).spec_width() == 20,
{
}

/// A single-column descriptor carries the column's declared length limit,
/// and none when the column declares none.
pub proof fn law_max_len_is_limit(column: Column, reference: Option<Reference>)
    ensures
        ControlWidget::built(column, reference).spec_max_len() == column.limit,
{
}

} // verus!
