use vecgen::context::ContextBuilder;
use vecgen::output::build_output_pairs;

#[test]
fn output_pairs_single_entry() {
    let pairs = build_output_pairs();
    assert_eq!(pairs.len(), 1);
    let (name, ctx) = &pairs[0];
    assert_eq!(name, "BVector2d.cs");
    assert_eq!(ctx.template_path.as_deref(), Some("vec.cs.tera"));
    assert_eq!(ctx.element_t.as_deref(), Some("bool"));
    assert_eq!(ctx.dim, Some(2));
}

#[test]
fn output_pairs_keys_distinct_and_non_empty() {
    let pairs = build_output_pairs();
    for (i, (name, _)) in pairs.iter().enumerate() {
        assert!(!name.is_empty());
        for (j, (other, _)) in pairs.iter().enumerate() {
            if i != j {
                assert_ne!(name, other);
            }
        }
    }
}

#[test]
fn new_builder_sets_nothing() {
    let ctx = ContextBuilder::new().build();
    assert_eq!(ctx.template_path, None);
    assert_eq!(ctx.element_t, None);
    assert_eq!(ctx.dim, None);
}

#[test]
fn overwrite_keeps_last_value() {
    let ctx = ContextBuilder::new().with_dimension(2).with_dimension(3).build();
    assert_eq!(ctx.dim, Some(3));
    assert_eq!(ctx.template_path, None);
    assert_eq!(ctx.element_t, None);
}

#[test]
fn setters_leave_other_bindings_alone() {
    let ctx = ContextBuilder::new()
        .with_template("vec.cs.tera")
        .with_element_type("bool")
        .with_dimension(4)
        .with_element_type("int")
        .build();
    assert_eq!(ctx.template_path.as_deref(), Some("vec.cs.tera"));
    assert_eq!(ctx.element_t.as_deref(), Some("int"));
    assert_eq!(ctx.dim, Some(4));
}

#[test]
fn repeated_setter_is_idempotent() {
    let ctx = ContextBuilder::new().with_dimension(5).with_dimension(5).build();
    assert_eq!(ctx.dim, Some(5));
}

#[test]
fn bvec_preset_bindings() {
    let ctx = ContextBuilder::new_bvec(7).build();
    assert_eq!(ctx.template_path.as_deref(), Some("vec.cs.tera"));
    assert_eq!(ctx.element_t.as_deref(), Some("bool"));
    assert_eq!(ctx.dim, Some(7));
}

#[test]
fn dimension_zero_stored_verbatim() {
    let ctx = ContextBuilder::new().with_dimension(0).build();
    assert_eq!(ctx.dim, Some(0));

    let preset = ContextBuilder::new_bvec(0).build();
    assert_eq!(preset.dim, Some(0));
    assert_eq!(preset.element_t.as_deref(), Some("bool"));
}

#[test]
fn second_entry_leaves_first_unchanged() {
    let first = ContextBuilder::new_bvec(2).build();
    let second = ContextBuilder::new_bvec(3).build();
    let table = vec![
        (String::from("BVector2d.cs"), first),
        (String::from("BVector3d.cs"), second),
    ];
    assert_eq!(table.len(), 2);
    assert_ne!(table[0].0, table[1].0);
    assert_eq!(table[0].1.dim, Some(2));
    assert_eq!(table[0].1.element_t.as_deref(), Some("bool"));
    assert_eq!(table[0].1.template_path.as_deref(), Some("vec.cs.tera"));
    assert_eq!(table[1].1.dim, Some(3));
    assert_eq!(table[1].1.element_t.as_deref(), Some("bool"));
    assert_eq!(table[1].1.template_path.as_deref(), Some("vec.cs.tera"));
}
