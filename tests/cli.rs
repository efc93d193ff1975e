use systeroid::cli::{split_argument, App, Request};
use systeroid::sysctl::{Parameter, Section, Sysctl};

fn store() -> Sysctl {
    Sysctl {
        parameters: vec![
            Parameter {
                name: String::from("kernel.hostname"),
                value: String::from("box"),
                description: Some(String::from("The host name")),
                section: Section::Kernel,
                docs_path: String::from("/docs/kernel.rst"),
                docs_title: String::from("hostname"),
            },
            Parameter {
                name: String::from("vm.swappiness"),
                value: String::from("60"),
                description: None,
                section: Section::Vm,
                docs_path: String::new(),
                docs_title: String::new(),
            },
        ],
    }
}

#[test]
fn argument_splits_at_equals() {
    assert_eq!(split_argument("vm.swappiness=10"), (String::from("vm.swappiness"), Some(String::from("10"))));
    assert_eq!(split_argument("vm.swappiness"), (String::from("vm.swappiness"), None));
    assert_eq!(split_argument("a=b=c"), (String::from("a"), Some(String::from("b"))));
    assert_eq!(split_argument("a="), (String::from("a"), Some(String::new())));
}

#[test]
fn process_parameter_decides() {
    let app = App::new(store());
    match app.process_parameter("vm.swappiness=10") {
        Request::Update { index, value } => {
            assert_eq!(index, 1);
            assert_eq!(value, "10");
        }
        other => panic!("expected an update, got {:?}", other),
    }
    assert!(matches!(app.process_parameter("kernel.hostname"), Request::Display(0)));
    assert!(matches!(app.process_parameter("no.such=1"), Request::Unknown));
}

#[test]
fn parameters_are_listed() {
    let app = App::new(store());
    assert_eq!(app.display_parameters(), vec![String::from("kernel.hostname = box"), String::from("vm.swappiness = 60")]);
}

#[test]
fn documentation_is_found_by_name() {
    let app = App::new(store());
    assert_eq!(
        app.display_documentation(&String::from("kernel.hostname")),
        Some((String::from("hostname"), Some(String::from("The host name"))))
    );
    assert_eq!(app.display_documentation(&String::from("vm.swappiness")), Some((String::new(), None)));
    assert_eq!(app.display_documentation(&String::from("x")), None);
}
