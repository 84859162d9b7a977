use schemagen::builder_gen::{FieldMode, FieldPlan};
use schemagen::semantics::{
    append_element, finalize_optional, finalize_repeated, finalize_required, finalize_status,
    render_record, replace_elements, set_value,
};

fn required(name: &str) -> FieldPlan {
    FieldPlan {
        name: name.to_string(),
        mode: FieldMode::Required { ty_text: "u32".to_string() },
    }
}

fn optional(name: &str) -> FieldPlan {
    FieldPlan {
        name: name.to_string(),
        mode: FieldMode::Optional { inner_text: "u32".to_string() },
    }
}

fn repeated(name: &str) -> FieldPlan {
    FieldPlan {
        name: name.to_string(),
        mode: FieldMode::Repeated {
            elem_text: "u32".to_string(),
            each_name: name.to_string(),
            whole_text: "Vec<u32>".to_string(),
        },
    }
}

#[test]
fn finalize_names_the_first_unset_required_field() {
    let plans = vec![required("x"), required("y")];
    let err = finalize_status(&plans, &vec![false, false]).unwrap_err();
    assert_eq!(err.field, "x");
    assert_eq!(err.message(), "x is not set");
    let err = finalize_status(&plans, &vec![true, false]).unwrap_err();
    assert_eq!(err.field, "y");
    assert_eq!(err.message(), "y is not set");
    assert!(finalize_status(&plans, &vec![true, true]).is_ok());
}

#[test]
fn each_unset_required_field_alone_reproduces_the_error() {
    let plans = vec![required("x"), required("y"), required("z")];
    let names = ["x", "y", "z"];
    for missing in 0..plans.len() {
        let filled: Vec<bool> = (0..plans.len()).map(|i| i != missing).collect();
        let err = finalize_status(&plans, &filled).unwrap_err();
        assert_eq!(err.field, names[missing]);
    }
}

#[test]
fn optional_fields_never_error() {
    let plans = vec![optional("nickname"), required("x")];
    assert!(finalize_status(&plans, &vec![false, true]).is_ok());
    assert!(finalize_status(&plans, &vec![true, true]).is_ok());
    assert_eq!(finalize_optional::<u32>(None), None);
    assert_eq!(finalize_optional(Some(7u32)), Some(7));
}

#[test]
fn untouched_repeated_field_finalizes_to_the_empty_sequence() {
    let plans = vec![repeated("args")];
    assert!(finalize_status(&plans, &vec![false]).is_ok());
    let items: Vec<u32> = finalize_repeated(None);
    assert_eq!(items, Vec::<u32>::new());
}

#[test]
fn required_field_passes_its_value_through() {
    let name = "x".to_string();
    assert_eq!(finalize_required(Some(5u32), &name).unwrap(), 5);
    let err = finalize_required::<u32>(None, &name).unwrap_err();
    assert_eq!(err.field, "x");
}

#[test]
fn appending_accumulates_in_call_order_and_bulk_set_replaces() {
    let mut slot: Option<Vec<u32>> = None;
    append_element(&mut slot, 1);
    append_element(&mut slot, 2);
    append_element(&mut slot, 3);
    assert_eq!(slot, Some(vec![1, 2, 3]));
    assert_eq!(finalize_repeated(slot.clone()), vec![1, 2, 3]);
    replace_elements(&mut slot, vec![4, 5]);
    assert_eq!(slot, Some(vec![4, 5]));
    assert_eq!(finalize_repeated(slot), vec![4, 5]);
}

#[test]
fn setter_stores_the_supplied_value() {
    let mut slot: Option<u32> = None;
    set_value(&mut slot, 9);
    assert_eq!(slot, Some(9));
    set_value(&mut slot, 11);
    assert_eq!(slot, Some(11));
}

#[test]
fn empty_record_finalizes_immediately() {
    assert!(finalize_status(&vec![], &vec![]).is_ok());
}

#[test]
fn record_renders_as_a_named_aggregate() {
    let name = "Point".to_string();
    let fields = vec![
        ("x".to_string(), "1".to_string()),
        ("y".to_string(), "2".to_string()),
    ];
    assert_eq!(render_record(&name, &fields), "Point { x: 1, y: 2 }");
    assert_eq!(render_record(&name, &vec![]), "Point");
}

#[test]
fn overridden_field_slot_renders_through_its_format_string() {
    // The emitted rendering call applies the override's format string to
    // the field's value; with `{:b}` the value 10 renders as its binary
    // digits in the field's slot.
    let rendered = format!("{:b}", 10u32);
    assert_eq!(rendered, "1010");
    let name = "Flags".to_string();
    let fields = vec![("bits".to_string(), rendered)];
    assert_eq!(render_record(&name, &fields), "Flags { bits: 1010 }");
}
