use intel::{
    Alignment, Column, ColumnStat, ControlWidget, DropdownData, DropdownList,
    DropdownListWithAutocomplete, DropdownListWithImage, DropdownRecord, DropdownRecordWithImage,
    Image, Reference, SqlType, Widget,
};

fn plain(sql_type: SqlType) -> Column {
    Column::new(sql_type, None, None)
}

fn profiled(sql_type: SqlType, avg_width: i32) -> Column {
    Column::new(sql_type, None, Some(ColumnStat { avg_width }))
}

#[test]
fn boolean_column_is_centered_checkbox() {
    let c = plain(SqlType::Bool);
    let w = ControlWidget::derive_control_widget(&c, None);
    assert_eq!(w.widget(), &Widget::Checkbox);
    assert_eq!(w.alignment(), Alignment::Center);
    assert_eq!(w.width(), 20);
    assert_eq!(w.height(), 1);
    assert!(w.dropdown_data().is_none());
}

#[test]
fn uuid_column_without_profile() {
    let c = plain(SqlType::Uuid);
    let w = ControlWidget::derive_control_widget(&c, None);
    assert_eq!(w.width(), 36);
    assert_eq!(w.widget(), &Widget::UuidTextbox);
    assert_eq!(w.alignment(), Alignment::Right);
}

#[test]
fn uuid_column_with_profile_takes_observed_width() {
    let c = profiled(SqlType::Uuid, 17);
    assert_eq!(ControlWidget::get_width(&c), Some(17));
    let w = ControlWidget::derive_control_widget(&c, None);
    assert_eq!(w.width(), 17);
}

#[test]
fn numeric_columns_are_right_aligned_textboxes() {
    let numeric = [
        SqlType::Tinyint,
        SqlType::Smallint,
        SqlType::Int,
        SqlType::Bigint,
        SqlType::Real,
        SqlType::Float,
        SqlType::Double,
        SqlType::Numeric,
    ];
    for t in numeric {
        let w = ControlWidget::derive_control_widget(&plain(t), None);
        assert_eq!(w.alignment(), Alignment::Right);
        assert_eq!(w.widget(), &Widget::Textbox);
    }
}

#[test]
fn temporal_columns_get_pickers() {
    let w = ControlWidget::derive_control_widget(&plain(SqlType::Timestamp), None);
    assert_eq!(w.widget(), &Widget::DateTimePicker);
    let w = ControlWidget::derive_control_widget(&plain(SqlType::TimestampTz), None);
    assert_eq!(w.widget(), &Widget::DateTimePicker);
    let w = ControlWidget::derive_control_widget(&plain(SqlType::Date), None);
    assert_eq!(w.widget(), &Widget::DatePicker);
    assert_eq!(w.alignment(), Alignment::Right);
    let w = ControlWidget::derive_control_widget(&plain(SqlType::Time), None);
    assert_eq!(w.widget(), &Widget::Textbox);
    assert_eq!(w.alignment(), Alignment::Right);
}

#[test]
fn alignment_rule_table() {
    assert_eq!(ControlWidget::derive_alignment(&plain(SqlType::Bool)), Alignment::Center);
    assert_eq!(ControlWidget::derive_alignment(&plain(SqlType::Numeric)), Alignment::Right);
    assert_eq!(ControlWidget::derive_alignment(&plain(SqlType::TimeTz)), Alignment::Right);
    assert_eq!(ControlWidget::derive_alignment(&plain(SqlType::Uuid)), Alignment::Right);
    assert_eq!(ControlWidget::derive_alignment(&plain(SqlType::Text)), Alignment::Left);
    assert_eq!(ControlWidget::derive_alignment(&plain(SqlType::Blob)), Alignment::Left);
    assert_eq!(ControlWidget::derive_alignment(&plain(SqlType::Enum)), Alignment::Left);
}

#[test]
fn reference_overrides_storage_type() {
    let c = plain(SqlType::Bool);
    let w = ControlWidget::derive_control_widget(&c, Some(Reference::new(Widget::Dropdown)));
    assert_eq!(w.widget(), &Widget::Dropdown);
    assert_eq!(w.alignment(), Alignment::Center);
    let c = plain(SqlType::Int);
    let w = ControlWidget::derive_control_widget(&c, Some(Reference::table_lookup()));
    assert_eq!(w.widget(), &Widget::TableLookupDropdown);
    let choices = vec!["a".to_string(), "b".to_string()];
    let w = ControlWidget::derive_control_widget(
        &c,
        Some(Reference::new(Widget::Radiogroup(choices.clone()))),
    );
    assert_eq!(w.widget(), &Widget::Radiogroup(choices));
}

#[test]
fn reference_full_view_widget() {
    assert_eq!(Reference::table_lookup().get_widget_fullview(), Widget::TableLookupDropdown);
    assert_eq!(Reference::new(Widget::CountryList).get_widget_fullview(), Widget::CountryList);
}

#[test]
fn lookup_family() {
    assert!(Widget::Dropdown.is_lookup());
    assert!(Widget::DropdownWithImage.is_lookup());
    assert!(Widget::AutocompleteDropdown.is_lookup());
    assert!(Widget::DialogDropdown.is_lookup());
    assert!(Widget::TableLookupDropdown.is_lookup());
    assert!(!Widget::Textbox.is_lookup());
    assert!(!Widget::Checkbox.is_lookup());
    assert!(!Widget::FixDropdown(vec!["x".to_string()]).is_lookup());
}

#[test]
fn dropdown_data_absent_for_non_lookup_widget() {
    let mut w = ControlWidget::derive_control_widget(&plain(SqlType::Text), None);
    assert!(!w.widget().is_lookup());
    assert!(w.dropdown_data().is_none());
    let data = DropdownData::DropdownList(DropdownList::new("/api/x".to_string()));
    assert!(!w.set_dropdown_data(data));
    assert!(w.dropdown_data().is_none());
}

#[test]
fn dropdown_data_attached_to_lookup_widget() {
    let c = plain(SqlType::Int);
    let mut w = ControlWidget::derive_control_widget(&c, Some(Reference::new(Widget::Dropdown)));
    assert!(w.dropdown_data().is_none());
    let data = DropdownData::DropdownListWithAutocomplete(DropdownListWithAutocomplete::new(
        "/api/users".to_string(),
    ));
    assert!(w.set_dropdown_data(data.clone()));
    assert_eq!(w.dropdown_data(), &Some(data));
    assert_eq!(w.widget(), &Widget::Dropdown);
    assert_eq!(w.width(), 20);
}

#[test]
fn building_twice_gives_identical_descriptors() {
    let c = Column::new(SqlType::Varchar, Some(80), Some(ColumnStat { avg_width: 11 }));
    let a = ControlWidget::derive_control_widget(&c, None);
    let b = ControlWidget::derive_control_widget(&c, None);
    assert_eq!(a, b);
    let r = Some(Reference::new(Widget::DialogDropdown));
    let a = ControlWidget::derive_control_widget(&c, r.clone());
    let b = ControlWidget::derive_control_widget(&c, r);
    assert_eq!(a, b);
    let cols = vec![&c];
    assert_eq!(ControlWidget::from_has_one_table(&cols), ControlWidget::from_has_one_table(&cols));
}

#[test]
fn composite_width_is_widest_column() {
    let a = plain(SqlType::Text);
    let b = profiled(SqlType::Varchar, 12);
    let c = plain(SqlType::Uuid);
    let cols = vec![&a, &b, &c];
    let w = ControlWidget::from_has_one_table(&cols);
    assert_eq!(w.width(), 36);
    assert_eq!(w.widget(), &Widget::TableLookupDropdown);
    assert_eq!(w.alignment(), Alignment::Left);
    assert_eq!(w.max_len(), None);
    assert_eq!(w.height(), 1);
    assert!(w.dropdown_data().is_none());
}

#[test]
fn composite_width_order_does_not_matter() {
    let a = profiled(SqlType::Int, 40);
    let b = profiled(SqlType::Int, 3);
    let c = plain(SqlType::Bool);
    let w = ControlWidget::from_has_one_table(&vec![&c, &a, &b]);
    assert_eq!(w.width(), 40);
    let w = ControlWidget::from_has_one_table(&vec![&b, &c, &a]);
    assert_eq!(w.width(), 40);
}

#[test]
fn composite_of_no_columns_has_zero_width() {
    let cols: Vec<&Column> = Vec::new();
    let w = ControlWidget::from_has_one_table(&cols);
    assert_eq!(w.width(), 0);
    assert_eq!(w.widget(), &Widget::TableLookupDropdown);
}

#[test]
fn composite_ignores_length_limits() {
    let a = Column::new(SqlType::Varchar, Some(255), None);
    let w = ControlWidget::from_has_one_table(&vec![&a]);
    assert_eq!(w.max_len(), None);
    assert_eq!(w.width(), 0);
}

#[test]
fn width_falls_back_to_default() {
    let c = plain(SqlType::Text);
    assert_eq!(ControlWidget::get_width(&c), None);
    let w = ControlWidget::derive_control_widget(&c, None);
    assert_eq!(w.width(), 20);
}

#[test]
fn profile_width_is_authoritative() {
    let c = profiled(SqlType::Text, 57);
    assert_eq!(ControlWidget::get_width(&c), Some(57));
    assert_eq!(ControlWidget::derive_control_widget(&c, None).width(), 57);
}

#[test]
fn declared_limit_becomes_max_len() {
    let c = Column::new(SqlType::Varchar, Some(255), None);
    let w = ControlWidget::derive_control_widget(&c, None);
    assert_eq!(w.max_len(), Some(255));
    let c = plain(SqlType::Varchar);
    let w = ControlWidget::derive_control_widget(&c, None);
    assert_eq!(w.max_len(), None);
}

#[test]
fn dropdown_lists_start_empty() {
    let l = DropdownList::new("/api/a".to_string());
    assert_eq!(l.api_url, "/api/a");
    assert!(l.selected.is_none());
    assert!(l.selection.is_empty());
    assert!(!l.reached_last_page);
    let l = DropdownListWithImage::new("/api/b".to_string());
    assert_eq!(l.api_url, "/api/b");
    assert!(l.selected.is_none());
    assert!(l.choices.is_empty());
    assert!(!l.reached_last_page);
    let l = DropdownListWithAutocomplete::new("/api/c".to_string());
    assert_eq!(l.api_url, "/api/c");
    assert!(l.choices.is_empty());
    assert!(!l.reached_last_page);
}

#[test]
fn dropdown_records() {
    let r = DropdownRecord::new("7".to_string(), "Seven".to_string());
    assert_eq!(r.identifier, "7");
    assert_eq!(r.display, "Seven");
    let img = Image::Blob("image/png".to_string(), vec![1, 2, 3]);
    let r = DropdownRecordWithImage::new("ph".to_string(), "Philippines".to_string(), img.clone());
    assert_eq!(r.identifier, "ph");
    assert_eq!(r.display, "Philippines");
    assert_eq!(r.image, img);
    let data = DropdownData::DropdownListWithRoundedImage(DropdownListWithImage::new(
        "/api/flags".to_string(),
    ));
    assert!(matches!(data, DropdownData::DropdownListWithRoundedImage(_)));
}
