use vim_fmi::protocol::Task;
use vim_fmi::protocol::User;
use vim_fmi::protocol::input_file_name;
use vim_fmi::protocol::setup_body;
use vim_fmi::protocol::task_path;
use vim_fmi::protocol::upload_body;
use vim_fmi::protocol::vimrc_path;

#[test]
fn task_path_wraps_the_id() {
    assert_eq!(task_path("123"), "/api/task/123.json");
    assert_eq!(task_path(""), "/api/task/.json");
}

#[test]
fn vimrc_path_wraps_the_token() {
    assert_eq!(vimrc_path("abc-def"), "/api/vimrc/abc-def.json");
}

#[test]
fn setup_body_encodes_both_pairs_in_order() {
    assert_eq!(setup_body("tok", "m"), "token=tok&meta=m");
    assert_eq!(setup_body("tok", "{}"), "token=tok&meta=%7B%7D");
}

#[test]
fn upload_body_carries_the_log_base64_encoded() {
    let body = upload_body("t1", &b"hello".to_vec(), "abc", "m");
    assert_eq!(body, "entry=aGVsbG8%3D&challenge_id=t1&user_token=abc&meta=m");
}

#[test]
fn upload_body_of_an_empty_log_has_an_empty_entry() {
    let body = upload_body("t1", &Vec::new(), "abc", "m");
    assert_eq!(body, "entry=&challenge_id=t1&user_token=abc&meta=m");
}

#[test]
fn upload_body_percent_encodes_reserved_characters() {
    let body = upload_body("a&b", &b"\xfb\xff".to_vec(), "t=k", "{\"u\":1}");
    assert_eq!(
        body,
        "entry=%2B%2F8%3D&challenge_id=a%26b&user_token=t%3Dk&meta=%7B%22u%22%3A1%7D"
    );
}

#[test]
fn input_file_name_uses_the_extension_when_given() {
    let task = Task {
        input: String::from("one"),
        output: String::from("two"),
        version: String::from("3"),
        file_extension: Some(String::from("rb")),
    };
    assert_eq!(input_file_name(&task.file_extension), "input.rb");
    assert_eq!(input_file_name(&None), "input.txt");
}

#[test]
fn user_record_keeps_its_fields() {
    let user = User {
        id: 7,
        faculty_number: String::from("0MI1234"),
        token: String::from("tkn"),
    };
    assert_eq!(user.id, 7);
    assert_eq!(user.faculty_number, "0MI1234");
    assert_eq!(user.token, "tkn");
}
