use gcmgen::vim::Vim;

#[test]
fn vim_runs_vim() {
    assert_eq!(Vim::new().program(), "vim");
}

#[test]
fn vim_starts_from_the_message() {
    assert_eq!(Vim::new().initial_contents("Add hello greeting"), "Add hello greeting");
}

#[test]
fn vim_trims_what_the_file_holds() {
    assert_eq!(Vim::new().edited_message("Fix the greeting\n"), "Fix the greeting");
    assert_eq!(Vim::new().edited_message("\n  two\nlines \n\n"), "two\nlines");
    assert_eq!(Vim::new().edited_message("\n"), "");
}

#[test]
fn edit_outcome_of_a_run_that_went_well() {
    assert_eq!(
        Vim::new().edit_outcome(Ok(true), "Fix the greeting\n"),
        Ok("Fix the greeting".to_string())
    );
    assert_eq!(Vim::new().edit_outcome(Ok(true), "\n"), Ok("".to_string()));
}

#[test]
fn edit_outcome_of_a_run_that_failed() {
    assert_eq!(
        Vim::new().edit_outcome(Ok(false), "Fix the greeting\n"),
        Err("Failed to edit the message".to_string())
    );
    assert_eq!(
        Vim::new().edit_outcome(Ok(false), ""),
        Err("Failed to edit the message".to_string())
    );
}

#[test]
fn edit_outcome_when_the_editor_could_not_be_started() {
    assert_eq!(
        Vim::new().edit_outcome(Err("vim not found".to_string()), "Fix the greeting\n"),
        Err("vim not found".to_string())
    );
}
