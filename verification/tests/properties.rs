use std::any::TypeId;

use tuple_types::Type;
use tuple_types::TupleExt;

#[derive(Debug, Clone, PartialEq)]
struct Sample {
    label: String,
    count: u64,
}

#[test]
fn names_match_the_host_naming_facility() {
    assert_eq!(Type::of::<i32>().name, "i32");
    assert_eq!(Type::of::<bool>().name, "bool");
    assert_eq!(Type::of::<&str>().name, "&str");
    assert_eq!(Type::of::<String>().name, "alloc::string::String");
    assert_eq!(Type::of::<Vec<u8>>().name, "alloc::vec::Vec<u8>");
}

#[test]
fn of_val_agrees_with_of() {
    assert_eq!(Type::of_val(&5i32), Type::of::<i32>());
    assert_eq!(Type::of_val(&5i32).id, Type::of::<i32>().id);
    assert_eq!(Type::of_val(&5i32).name, Type::of::<i32>().name);
    let owned = String::from("contents do not matter");
    assert_eq!(Type::of_val(&owned), Type::of::<String>());
    assert_eq!(Type::of_val(&String::new()), Type::of::<String>());
}

#[test]
fn distinct_types_get_distinct_identities() {
    assert_ne!(Type::of::<i32>(), Type::of::<u32>());
    assert_ne!(Type::of::<i32>().id, Type::of::<u32>().id);
    assert_ne!(Type::of::<String>().id, Type::of::<&str>().id);
    assert_ne!(Type::of::<()>().id, Type::of::<bool>().id);
}

#[test]
fn empty_tuple_yields_empty_sequences() {
    assert!(<() as TupleExt>::types().is_empty());
    assert!(<() as TupleExt>::type_ids().is_empty());
    assert!(<() as TupleExt>::type_names().is_empty());
    assert!(().self_types().is_empty());
    assert!(().self_type_ids().is_empty());
    assert!(().self_type_names().is_empty());
}

#[test]
fn every_arity_yields_one_entry_per_position() {
    assert_eq!(<(u8,) as TupleExt>::types().len(), 1);
    assert_eq!(<(u8, u16) as TupleExt>::types().len(), 2);
    assert_eq!(<(u8, u16, u32) as TupleExt>::types().len(), 3);
    assert_eq!(<(u8, u16, u32, u64) as TupleExt>::types().len(), 4);
    assert_eq!(<(u8, u16, u32, u64, i8) as TupleExt>::types().len(), 5);
    assert_eq!(<(u8, u16, u32, u64, i8, i16) as TupleExt>::types().len(), 6);
    assert_eq!(<(u8, u16, u32, u64, i8, i16, i32) as TupleExt>::types().len(), 7);

    let types = <(u8, u16, u32, u64, i8, i16, i32) as TupleExt>::types();
    assert_eq!(types[0], Type::of::<u8>());
    assert_eq!(types[1], Type::of::<u16>());
    assert_eq!(types[2], Type::of::<u32>());
    assert_eq!(types[3], Type::of::<u64>());
    assert_eq!(types[4], Type::of::<i8>());
    assert_eq!(types[5], Type::of::<i16>());
    assert_eq!(types[6], Type::of::<i32>());
}

#[test]
fn projections_agree_with_types() {
    let types = <(bool, String, u8) as TupleExt>::types();
    let ids = <(bool, String, u8) as TupleExt>::type_ids();
    let names = <(bool, String, u8) as TupleExt>::type_names();
    assert_eq!(ids.len(), 3);
    assert_eq!(names.len(), 3);
    for i in 0..3 {
        assert_eq!(types[i].id, ids[i]);
        assert_eq!(types[i].name, names[i]);
    }
}

#[test]
fn instance_methods_agree_with_static_methods() {
    let tuple = (42u8, String::from("x"), false);
    assert_eq!(tuple.self_types(), <(u8, String, bool) as TupleExt>::types());
    assert_eq!(tuple.self_type_ids(), <(u8, String, bool) as TupleExt>::type_ids());
    assert_eq!(tuple.self_type_names(), <(u8, String, bool) as TupleExt>::type_names());
}

#[test]
fn mixed_triple_scenario() {
    let tuple = (1i32, 2.0f64, "x");
    assert_eq!(tuple.self_type_names(), vec!["i32", "f64", "&str"]);
    assert_eq!(tuple.self_type_names().len(), 3);
    assert_eq!(tuple.self_types()[1].id, Type::of::<f64>().id);
}

#[test]
fn single_bool_scenario() {
    let tuple = (true,);
    assert_eq!(tuple.self_types().len(), 1);
    assert_eq!(<(bool,) as TupleExt>::types().len(), 1);
    assert_eq!(<(bool,) as TupleExt>::types()[0], Type::of::<bool>());
}

#[test]
fn user_defined_struct_values_share_one_identity() {
    let first = Sample { label: String::from("a"), count: 1 };
    let second = Sample { label: String::from("quite another value"), count: 99 };
    assert_eq!(Type::of_val(&first), Type::of_val(&second));
    assert_eq!(Type::of_val(&first), Type::of::<Sample>());
    assert!(Type::of::<Sample>().name.ends_with("Sample"));
}
