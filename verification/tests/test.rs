#[allow(unused_imports)]
use qpipe::config::Config;

#[test]
fn name() {
    assert_eq!(1, 1);
}

#[test]
pub fn hello() {
    println!("Hello, world!");
    assert_eq!(1, 1);
}

#[test]
fn it_works() {
    assert_eq!(2 + 2, 4);
}

#[test]
fn test_config() {
    assert_eq!(1, 1);
}

#[test]
#[allow(unused_variables)]
fn write_stdout() {
    let stdout = "file:///dev/stdout";
}
