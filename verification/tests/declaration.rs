use marshal_stubs::declaration::{
    transform, Declaration, Form, MalformedDeclaration, Parameter, Passing, Record,
};

fn by_value(name: &str, ty: &str) -> Parameter {
    Parameter {
        text: format!("{}: {}", name, ty),
        name: Some(name.to_string()),
        passing: Passing::Scalar,
    }
}

fn sum() -> Declaration {
    Declaration {
        form: Form::Plain,
        qualifiers: String::new(),
        name: "add".to_string(),
        params: vec![by_value("a", "i32"), by_value("b", "i32")],
        ret: Some("i32".to_string()),
    }
}

#[test]
fn transform_takes_a_plain_function() {
    let record = transform(&sum()).unwrap();
    assert_eq!(
        record,
        Record {
            qualifiers: String::new(),
            name: "add".to_string(),
            params: vec!["a: i32".to_string(), "b: i32".to_string()],
            arg_names: vec!["a".to_string(), "b".to_string()],
            ret: "i32".to_string(),
        }
    );
}

#[test]
fn transform_keeps_the_qualifiers() {
    let mut decl = sum();
    decl.qualifiers = "pub unsafe".to_string();
    assert_eq!(transform(&decl).unwrap().qualifiers, "pub unsafe");
}

#[test]
fn transform_takes_a_function_without_parameters() {
    let decl = Declaration {
        form: Form::Plain,
        qualifiers: "pub".to_string(),
        name: "now".to_string(),
        params: vec![],
        ret: Some("u64".to_string()),
    };
    let record = transform(&decl).unwrap();
    assert!(record.params.is_empty());
    assert!(record.arg_names.is_empty());
    assert_eq!(record.ret, "u64");
}

#[test]
fn transform_keeps_a_parameter_as_written() {
    let mut decl = sum();
    decl.params[0].text = "a  :  i32".to_string();
    let record = transform(&decl).unwrap();
    assert_eq!(record.params[0], "a  :  i32");
    assert_eq!(record.arg_names[0], "a");
}

#[test]
fn transform_turns_down_what_is_no_plain_function() {
    let mut decl = sum();
    decl.form = Form::Other;
    assert_eq!(transform(&decl), Err(MalformedDeclaration::NotPlainFunction));
}

#[test]
fn transform_turns_down_a_parameter_without_a_name() {
    let mut decl = sum();
    decl.params[1] = Parameter {
        text: "(x, y): (i32, i32)".to_string(),
        name: None,
        passing: Passing::Composite,
    };
    assert_eq!(
        transform(&decl),
        Err(MalformedDeclaration::UnnamedParameter { index: 1 })
    );
}

#[test]
fn transform_turns_down_a_receiver() {
    let mut decl = sum();
    decl.params.insert(
        0,
        Parameter { text: "&self".to_string(), name: None, passing: Passing::Indirect },
    );
    assert_eq!(
        transform(&decl),
        Err(MalformedDeclaration::UnnamedParameter { index: 0 })
    );
}

#[test]
fn transform_turns_down_a_reference() {
    let mut decl = sum();
    decl.params[0] = Parameter {
        text: "a: &str".to_string(),
        name: Some("a".to_string()),
        passing: Passing::Indirect,
    };
    assert_eq!(
        transform(&decl),
        Err(MalformedDeclaration::UnforwardableParameter { index: 0 })
    );
}

#[test]
fn transform_turns_down_a_composite() {
    let mut decl = sum();
    decl.params[1] = Parameter {
        text: "b: (i32, i32)".to_string(),
        name: Some("b".to_string()),
        passing: Passing::Composite,
    };
    assert_eq!(
        transform(&decl),
        Err(MalformedDeclaration::UnforwardableParameter { index: 1 })
    );
}

#[test]
fn transform_turns_down_a_missing_return_type() {
    let mut decl = sum();
    decl.ret = None;
    assert_eq!(transform(&decl), Err(MalformedDeclaration::NoReturnType));
}

#[test]
fn transform_names_the_first_check_that_fails() {
    let mut decl = sum();
    decl.ret = None;
    decl.params[1].passing = Passing::Indirect;
    assert_eq!(
        transform(&decl),
        Err(MalformedDeclaration::UnforwardableParameter { index: 1 })
    );
    decl.params[0].name = None;
    assert_eq!(
        transform(&decl),
        Err(MalformedDeclaration::UnnamedParameter { index: 0 })
    );
    decl.form = Form::Other;
    assert_eq!(transform(&decl), Err(MalformedDeclaration::NotPlainFunction));
}

#[test]
fn transform_checks_the_name_before_the_passing() {
    let mut decl = sum();
    decl.params[0] = Parameter {
        text: "_: &str".to_string(),
        name: None,
        passing: Passing::Indirect,
    };
    assert_eq!(
        transform(&decl),
        Err(MalformedDeclaration::UnnamedParameter { index: 0 })
    );
}

#[test]
fn transform_twice_gives_the_same_record() {
    assert_eq!(transform(&sum()), transform(&sum()));
}
