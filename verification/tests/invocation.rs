use line_processor::{Invocation, UsageError};

#[test]
fn arguments_without_input_are_refused() {
    assert_eq!(Invocation::new(Vec::new(), false, None).err(), Some(UsageError::MissingInput));
    assert_eq!(
        Invocation::new(Vec::new(), true, Some("x".to_string())).err(),
        Some(UsageError::MissingInput)
    );
}

#[test]
fn arguments_keep_inputs_in_order() {
    let made = Invocation::new(vec!["b.txt".to_string(), "a.txt".to_string()], false, None);
    let invocation = made.ok().expect("two inputs are accepted");
    assert_eq!(invocation.inputs(), &vec!["b.txt".to_string(), "a.txt".to_string()]);
    assert!(!invocation.verbose());
    assert_eq!(invocation.filter(), &None);
}

#[test]
fn arguments_keep_flag_and_filter() {
    let made = Invocation::new(vec!["a.txt".to_string()], true, Some("bar".to_string()));
    let invocation = made.ok().expect("one input is accepted");
    assert_eq!(invocation.inputs().len(), 1);
    assert!(invocation.verbose());
    assert_eq!(invocation.filter(), &Some("bar".to_string()));
}

#[test]
fn empty_filter_is_kept_as_a_filter() {
    let made = Invocation::new(vec!["a.txt".to_string()], false, Some(String::new()));
    let invocation = made.ok().expect("one input is accepted");
    assert_eq!(invocation.filter(), &Some(String::new()));
}

#[test]
fn same_input_may_be_named_twice() {
    let made = Invocation::new(vec!["a.txt".to_string(), "a.txt".to_string()], false, None);
    let invocation = made.ok().expect("two inputs are accepted");
    assert_eq!(invocation.inputs().len(), 2);
}
