use channels::builder::Command;
use channels::rc::Rc;

#[test]
fn a_fully_given_command_builds() {
    let mut builder = Command::builder();
    builder.executable("cargo".to_owned());
    builder.args(vec!["build".to_owned(), "--release".to_owned()]);
    builder.env(vec![]);

    let command = builder.build().unwrap();
    assert_eq!("cargo", command.executable);
    assert_eq!(vec!["build".to_owned(), "--release".to_owned()], command.args);
    assert!(command.env.is_empty());
    assert!(command.current_dir.is_none());
}

#[test]
fn the_first_missing_field_is_named_in_order() {
    let builder = Command::builder();
    assert_eq!(Err("executable is not set".to_owned()), builder.build().map(|_| ()));

    let mut builder = Command::builder();
    builder.executable("ls".to_owned());
    assert_eq!(Err("args is not set".to_owned()), builder.build().map(|_| ()));

    builder.args(vec![]);
    assert_eq!(Err("env is not set".to_owned()), builder.build().map(|_| ()));

    builder.env(vec![]);
    assert!(builder.build().is_ok());
}

#[test]
fn the_directory_is_carried_over_when_given() {
    let mut builder = Command::builder();
    builder.executable("ls".to_owned());
    builder.args(vec![]);
    builder.env(vec![]);
    builder.current_dir("/tmp".to_owned());

    let command = builder.build().unwrap();
    assert_eq!(Some("/tmp".to_owned()), command.current_dir);
}

#[test]
fn every_handle_reads_the_shared_value() {
    let first = Rc::new(41);
    let second = first.clone();
    let third = second.clone();

    assert_eq!(41, *first.get());
    assert_eq!(41, *second.get());
    drop(first);
    assert_eq!(41, *third.get());
}
