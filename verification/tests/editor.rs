use vim_fmi::editor::choose_executable;
use vim_fmi::editor::vim_args;

#[test]
fn custom_executable_wins() {
    let choice = choose_executable(Some(String::from("nvim")), true, true, true);
    assert_eq!(choice, Some(String::from("nvim")));
}

#[test]
fn installed_editors_are_tried_in_order() {
    assert_eq!(choose_executable(None, true, true, true), Some(String::from("mvim")));
    assert_eq!(choose_executable(None, false, true, true), Some(String::from("gvim")));
    assert_eq!(choose_executable(None, false, false, true), Some(String::from("vim")));
    assert_eq!(choose_executable(None, false, false, false), None);
}

#[test]
fn vim_gets_the_full_argument_list() {
    let args = vim_args(
        &String::from("vim"),
        &String::from("/tmp/x/vimrc"),
        &String::from("/tmp/x/log"),
        &String::from("/tmp/x/input.txt"),
    );
    assert_eq!(
        args,
        vec![
            "--nofork",
            "-Z",
            "-n",
            "--noplugin",
            "-i",
            "NONE",
            "+0",
            "-U",
            "NONE",
            "-u",
            "/tmp/x/vimrc",
            "-W",
            "/tmp/x/log",
            "/tmp/x/input.txt",
        ]
    );
}

#[test]
fn nvim_is_not_told_to_stay_in_the_foreground() {
    let args = vim_args(
        &String::from("nvim"),
        &String::from("rc"),
        &String::from("log"),
        &String::from("in"),
    );
    assert_eq!(
        args,
        vec!["-n", "--noplugin", "-i", "NONE", "+0", "-U", "NONE", "-u", "rc", "-W", "log", "in"]
    );
}
