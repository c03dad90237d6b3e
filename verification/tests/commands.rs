use mujs::command;
use mujs::{Command, ErrorKind, PropertyAttributes};

#[test]
fn gc_report_is_a_c_boolean() {
    assert_eq!(command::gc(true), Command::Gc { report: 1 });
    assert_eq!(command::gc(false), Command::Gc { report: 0 });
}

#[test]
fn loadstring_sends_c_strings() {
    assert_eq!(
        command::loadstring("myscript", "Math.sin(3.2);"),
        Command::LoadString { filename: b"myscript\0".to_vec(), source: b"Math.sin(3.2);\0".to_vec() }
    );
}

#[test]
fn dostring_sends_c_string() {
    assert_eq!(
        command::dostring("func broken() {"),
        Command::DoString { source: b"func broken() {\0".to_vec() }
    );
}

#[test]
fn newerror_sends_kind_and_message() {
    assert_eq!(
        command::newerror(ErrorKind::RangeError, "This is an error"),
        Command::NewError { kind: ErrorKind::RangeError, message: b"This is an error\0".to_vec() }
    );
    assert_eq!(
        command::newerror(ErrorKind::Error, "cut\0here"),
        Command::NewError { kind: ErrorKind::Error, message: b"cut\0".to_vec() }
    );
}

#[test]
fn error_creates_then_throws() {
    let steps = command::error(ErrorKind::TypeError, "This is an error");
    assert_eq!(
        steps,
        vec![
            Command::NewError { kind: ErrorKind::TypeError, message: b"This is an error\0".to_vec() },
            Command::Throw,
        ]
    );
}

#[test]
fn pushboolean_is_a_c_boolean() {
    assert_eq!(command::pushboolean(true), Command::PushBoolean { value: 1 });
    assert_eq!(command::pushboolean(false), Command::PushBoolean { value: 0 });
}

#[test]
fn pushstring_sends_utf8() {
    assert_eq!(
        command::pushstring("Hello Båsse!"),
        Command::PushString { value: b"Hello B\xc3\xa5sse!\0".to_vec() }
    );
}

#[test]
fn property_commands() {
    assert_eq!(command::hasproperty(0, "age"), Command::HasProperty { index: 0, name: b"age\0".to_vec() });
    assert_eq!(command::setproperty(-2, "age"), Command::SetProperty { index: -2, name: b"age\0".to_vec() });
    assert_eq!(command::getproperty(1, "name"), Command::GetProperty { index: 1, name: b"name\0".to_vec() });
    assert_eq!(command::delproperty(0, "func"), Command::DelProperty { index: 0, name: b"func\0".to_vec() });
    assert_eq!(
        command::defproperty(0, "age", PropertyAttributes::readonly()),
        Command::DefProperty { index: 0, name: b"age\0".to_vec(), attrs: 1 }
    );
    assert_eq!(
        command::defaccessor(0, "value", PropertyAttributes::dontconf()),
        Command::DefAccessor { index: 0, name: b"value\0".to_vec(), attrs: 4 }
    );
}

#[test]
fn global_commands() {
    assert_eq!(command::getglobal("Car"), Command::GetGlobal { name: b"Car\0".to_vec() });
    assert_eq!(command::setglobal("me"), Command::SetGlobal { name: b"me\0".to_vec() });
    assert_eq!(
        command::defglobal("me", PropertyAttributes::empty()),
        Command::DefGlobal { name: b"me\0".to_vec(), attrs: 0 }
    );
}
