use libtmsu::args::{Args, Commands};
use libtmsu::init::{determine_root, determine_root_path};
use libtmsu::rendering::Separator;
use libtmsu::setting::Setting;

#[test]
fn determines_root() {
    let tests = [("/some/path", "/"), ("/some/path/.tmsu/db", "..")];

    for test in tests {
        let actual_root = determine_root(test.0);
        let expected_root = test.1;
        assert_eq!(expected_root, actual_root);
    }
}

#[test]
fn root_of_database_in_nested_application_directory() {
    assert_eq!("..", determine_root("/.tmsu/db"));
    assert_eq!("/", determine_root("/.tmsu"));
    assert_eq!("/", determine_root("/some/tmsu/db"));
}

#[test]
fn display() {
    assert_eq!("\n", Separator::Newline.as_str());
    assert_eq!("\0", Separator::Nul.as_str());
}

#[test]
fn setting_display() {
    assert_eq!("database-root", Setting::Root.name());
}

#[test]
fn separator_follows_print0() {
    let mut args = Args {
        database: None,
        verbosity: 0,
        print0: false,
        command: Commands::Info,
    };
    assert_eq!(Separator::Newline, args.separator());
    args.print0 = true;
    assert_eq!(Separator::Nul, args.separator());
}

#[test]
fn root_path_of_database() {
    assert_eq!(Some("/home/user".to_string()), determine_root_path("/home/user/.tmsu/db"));
    assert_eq!(Some("/".to_string()), determine_root_path("/.tmsu/db"));
    assert_eq!(Some("/srv/data".to_string()), determine_root_path("/srv/data/tags.db"));
    assert_eq!(None, determine_root_path("/tags.db"));
}
