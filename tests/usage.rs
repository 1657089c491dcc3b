use flex_error::components::{bar, foo};
use flex_error::render::Render;

#[test]
fn test() {
    color_eyre::install().unwrap();
    {
        let err = foo::foo_error("No Foo".into(), foo::PrimitiveError);
        println!("Error: {:?}", err.1);
        assert_eq!(err.1 .0, "foo error: No Foo");
    }
    {
        let err = foo::system_error(foo::SystemError::Error1);
        println!("Error: {:?}", err.1);
        assert_eq!(err.1 .0, "system error: error1");
    }
    {
        let err = foo::unknown_error();
        println!("Error: {:?}", err.1);
        assert_eq!(err.1 .0, "unknown error");
    }
    {
        let err1 = foo::foo_error("Hello Foo".into(), foo::PrimitiveError);
        let err2 = bar::foo_error("Foo has failed".into(), err1);
        println!("Error: {:?}", err2.1);
        assert_eq!(err2.1.render(), "error caused by foo: Foo has failed: foo error: Hello Foo");
    }
}
